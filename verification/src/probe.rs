//! The readiness prober.
//!
//! After the backend is spawned, the supervisor repeatedly checks whether its
//! socket has appeared, once per fixed interval, up to a fixed number of
//! attempts. The unverified shell runs the loop (the sleep between checks is
//! I/O); each iteration hands the observed readiness to `probe_step`, which
//! decides whether the probe has succeeded, must retry, or has exhausted its
//! budget. `spec_probe_run` is the mathematical model of the whole loop, and
//! the lemmas below pin its behaviour when the backend never comes up.

use vstd::prelude::*;
use crate::paths::is_socket_ready;

verus! {

/// The prober's decision after one check.
pub enum ProbeStep {
    /// The endpoint is reachable: the probe succeeds now.
    Ready,
    /// Not reachable and attempts remain: sleep one interval, then check
    /// again.
    Retry,
    /// Not reachable and the attempt budget is spent: the start fails.
    GiveUp,
}

/// Terminal startup error: the backend never became reachable. Carries the
/// attempt count and the time spent waiting, for diagnosis.
pub struct TimeoutError {
    /// How many readiness checks were made.
    pub attempts: u32,
    /// Total time slept between checks, in milliseconds.
    pub elapsed_ms: u64,
}

/// The decision after check number `attempt` (1-based) out of
/// `max_attempts`, when the check observed `ready`.
pub open spec fn spec_probe_step(attempt: u32, max_attempts: u32, ready: bool) -> ProbeStep {
    if ready {
        ProbeStep::Ready
    } else if attempt >= max_attempts {
        ProbeStep::GiveUp
    } else {
        ProbeStep::Retry
    }
}

/// The outcome of the whole probe loop.
pub enum ProbeOutcome {
    /// The endpoint became reachable; `checks` readiness checks were made.
    BecameReady { checks: nat },
    /// The budget was spent; `checks` readiness checks were made.
    Exhausted { checks: nat },
}

/// The model of the probe loop: starting at check number `attempt`, with
/// `results[i]` the readiness that check number `i + 1` would observe, run
/// `spec_probe_step` until it says `Ready` or `GiveUp`.
pub open spec fn spec_probe_run(results: Seq<bool>, max_attempts: u32, attempt: u32) -> ProbeOutcome
    decreases max_attempts - attempt,
    when 1 <= attempt <= max_attempts <= results.len()
{
    match spec_probe_step(attempt, max_attempts, results[attempt - 1]) {
        ProbeStep::Ready => ProbeOutcome::BecameReady { checks: attempt as nat },
        ProbeStep::GiveUp => ProbeOutcome::Exhausted { checks: attempt as nat },
        ProbeStep::Retry => spec_probe_run(results, max_attempts, (attempt + 1) as u32),
    }
}

/// Decide what the prober must do after one readiness check.
///
/// `attempt` is 1-based: the first check is attempt 1. The shell sleeps one
/// interval exactly when the result is `Retry`, so a failed run spends
/// `max_attempts - 1` intervals before the terminal check.
pub fn probe_step(attempt: u32, max_attempts: u32, ready: bool) -> (r: ProbeStep)
    ensures
        r == spec_probe_step(attempt, max_attempts, ready),
{
    if ready {
        ProbeStep::Ready
    } else if attempt >= max_attempts {
        ProbeStep::GiveUp
    } else {
        ProbeStep::Retry
    }
}

/// One cycle of the readiness loop, without the sleep: observe whether the
/// socket at `socket_path` is reachable, and decide. Whatever the
/// observation was, the decision is exactly the one `spec_probe_step` makes
/// on it; the returned flag is the observation itself.
pub fn probe_once(socket_path: &str, attempt: u32, max_attempts: u32) -> (r: (bool, ProbeStep))
    ensures
        r.1 == spec_probe_step(attempt, max_attempts, r.0),
{
    let ready = is_socket_ready(socket_path);
    (ready, probe_step(attempt, max_attempts, ready))
}

/// The terminal error for an exhausted probe: `max_attempts` checks were
/// made, spaced `interval_ms` apart, so `max_attempts - 1` whole intervals
/// passed between the first and the last check.
pub fn probe_timeout_error(max_attempts: u32, interval_ms: u64) -> (e: TimeoutError)
    requires
        max_attempts >= 1,
        (max_attempts - 1) * interval_ms <= u64::MAX,
    ensures
        e.attempts == max_attempts,
        e.elapsed_ms == (max_attempts - 1) * interval_ms,
{
    let waits: u64 = (max_attempts - 1) as u64;
    TimeoutError { attempts: max_attempts, elapsed_ms: waits * interval_ms }
}

/// If the endpoint never becomes reachable, the probe makes exactly
/// `max_attempts` checks and then fails: every check below the budget asks
/// for a retry, the check at the budget gives up, and the loop as a whole
/// ends in `Exhausted` after exactly `max_attempts` checks.
pub proof fn lemma_probe_exhaustion(results: Seq<bool>, max_attempts: u32, attempt: u32)
    requires
        1 <= attempt <= max_attempts,
        max_attempts <= results.len(),
        forall|i: int| 0 <= i < results.len() ==> !results[i],
    ensures
        attempt < max_attempts ==> spec_probe_step(attempt, max_attempts, results[attempt - 1])
            is Retry,
        attempt == max_attempts ==> spec_probe_step(attempt, max_attempts, results[attempt - 1])
            is GiveUp,
        spec_probe_run(results, max_attempts, attempt) == (ProbeOutcome::Exhausted {
            checks: max_attempts as nat,
        }),
    decreases max_attempts - attempt,
{
    if attempt < max_attempts {
        lemma_probe_exhaustion(results, max_attempts, (attempt + 1) as u32);
    }
}

/// If some check would observe a reachable endpoint within the budget, the
/// probe succeeds: it never reaches `Exhausted`.
pub proof fn lemma_probe_success(results: Seq<bool>, max_attempts: u32, attempt: u32)
    requires
        1 <= attempt <= max_attempts,
        max_attempts <= results.len(),
        exists|i: int| attempt - 1 <= i < max_attempts && results[i],
    ensures
        spec_probe_run(results, max_attempts, attempt) is BecameReady,
    decreases max_attempts - attempt,
{
    if !results[attempt - 1] && attempt < max_attempts {
        lemma_probe_success(results, max_attempts, (attempt + 1) as u32);
    }
}

} // verus!
