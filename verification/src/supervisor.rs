//! The supervisor state machine.
//!
//! A single `SupervisorState` value is the source of truth for the whole
//! supervisor: whether the backend is running, when the user last interacted,
//! and the identity of the spawned process. The unverified shell keeps one
//! such value behind a lock; every transition below is performed while the
//! lock is held, so the transitions' contracts describe exactly what any
//! other task can observe at a lock boundary.
//!
//! Time enters as a plain millisecond count (`now_ms`): the shell reads the
//! clock and hands the value in, and every decision is verified for all
//! values of it.

use vstd::prelude::*;

verus! {

/// Shared supervisor state: the running flag, the activity timestamp and the
/// process identity. `running` may only be true while a process handle is
/// held; `well_formed` states that invariant and every transition preserves
/// it.
pub struct SupervisorState {
    /// True once the spawned backend has passed the readiness probe, false
    /// again after shutdown.
    pub running: bool,
    /// Timestamp (milliseconds) of the last user interaction.
    pub last_activity_ms: u64,
    /// Identity of the spawned backend process (its pid), while one is held.
    /// The shell owns the real child handle and terminates it when a
    /// shutdown ticket carrying this identity tells it to.
    pub handle: Option<u64>,
}

/// What `start` must do next: nothing (already running), or spawn the
/// backend.
pub enum StartAction {
    AlreadyRunning,
    DoSpawn,
}

/// What a shutdown request must do next: perform the stop sequence on the
/// held process, or nothing (already stopped).
pub enum ShutdownTicket {
    /// The caller holds the one right to notify and terminate the process;
    /// `handle` is the process identity that was held.
    Proceed { handle: Option<u64> },
    /// Another trigger already performed the stop sequence for this running
    /// period; no side effect may be repeated.
    AlreadyStopped,
}

/// What the watchdog must do in this cycle.
pub enum WatchdogAction {
    /// The backend is no longer running (an external stop won the race):
    /// leave the loop without side effects.
    Exit,
    /// Idle too long: perform the stop sequence and leave the loop.
    ShutDown,
    /// Still active: sleep one poll interval, then poll the status endpoint.
    Poll,
}

impl SupervisorState {
    /// The state invariant: the running flag may only be set while a process
    /// handle is held.
    pub open spec fn well_formed(self) -> bool {
        self.running ==> self.handle is Some
    }

    /// Milliseconds of inactivity at time `now_ms`. A clock that jumped
    /// backwards counts as no idle time at all.
    pub open spec fn spec_elapsed_ms(self, now_ms: u64) -> u64 {
        if now_ms >= self.last_activity_ms {
            (now_ms - self.last_activity_ms) as u64
        } else {
            0
        }
    }

    /// Whether the idle timeout has been exceeded at time `now_ms`.
    pub open spec fn spec_idle_exceeded(self, now_ms: u64, idle_timeout_ms: u64) -> bool {
        self.spec_elapsed_ms(now_ms) > idle_timeout_ms
    }

    /// The state after a user interaction at time `now_ms`.
    pub open spec fn spec_touched(self, now_ms: u64) -> SupervisorState {
        SupervisorState { last_activity_ms: now_ms, ..self }
    }

    /// What `start` does to a given state: while running it is a no-op that
    /// succeeds, otherwise a spawn is due and the state is untouched until
    /// the spawn is recorded.
    pub open spec fn spec_start_step(self) -> (StartAction, SupervisorState) {
        if self.running {
            (StartAction::AlreadyRunning, self)
        } else {
            (StartAction::DoSpawn, self)
        }
    }

    /// What a shutdown trigger does to a given state: the first trigger of a
    /// running period takes the handle and clears the state; every later one
    /// finds `running` already false and changes nothing.
    pub open spec fn spec_shutdown_step(self) -> (ShutdownTicket, SupervisorState) {
        if self.running {
            (
                ShutdownTicket::Proceed { handle: self.handle },
                SupervisorState { running: false, handle: None, ..self },
            )
        } else {
            (ShutdownTicket::AlreadyStopped, self)
        }
    }

    /// The watchdog's decision at time `now_ms`: exit if the backend was
    /// stopped externally, shut down if idle too long, otherwise poll.
    pub open spec fn spec_watchdog_action(
        self,
        now_ms: u64,
        idle_timeout_ms: u64,
    ) -> WatchdogAction {
        if !self.running {
            WatchdogAction::Exit
        } else if self.spec_idle_exceeded(now_ms, idle_timeout_ms) {
            WatchdogAction::ShutDown
        } else {
            WatchdogAction::Poll
        }
    }

    /// The initial state: stopped, no process held.
    pub fn new(now_ms: u64) -> (s: SupervisorState)
        ensures
            s == (SupervisorState { running: false, last_activity_ms: now_ms, handle: None }),
            s.well_formed(),
    {
        SupervisorState { running: false, last_activity_ms: now_ms, handle: None }
    }

    /// Decide what `start` must do. While running, starting again is a
    /// success that spawns nothing; otherwise the caller must spawn the
    /// backend and record it.
    pub fn start_decision(&self) -> (r: StartAction)
        ensures
            r == self.spec_start_step().0,
    {
        if self.running {
            StartAction::AlreadyRunning
        } else {
            StartAction::DoSpawn
        }
    }

    /// Record a freshly spawned backend process and stamp activity. The
    /// readiness probe has not run yet, so the state is not yet running.
    pub fn record_spawn(&mut self, pid: u64, now_ms: u64)
        requires
            !old(self).running,
        ensures
            *final(self) == (SupervisorState {
                running: false,
                last_activity_ms: now_ms,
                handle: Some(pid),
            }),
            final(self).well_formed(),
    {
        self.handle = Some(pid);
        self.last_activity_ms = now_ms;
    }

    /// Flip to running once the readiness probe has succeeded. Requires that
    /// a spawned process is held, so the invariant cannot break, and that the
    /// state is not already running, so exactly one watchdog loop is started
    /// per running period.
    pub fn mark_running(&mut self)
        requires
            old(self).well_formed(),
            !old(self).running,
            old(self).handle is Some,
        ensures
            *final(self) == (SupervisorState { running: true, ..*old(self) }),
            final(self).well_formed(),
    {
        self.running = true;
    }

    /// Abandon a failed start: hand the spawned process (if any) back for
    /// termination and return to the stopped state.
    pub fn abort_start(&mut self) -> (h: Option<u64>)
        requires
            !old(self).running,
        ensures
            h == old(self).handle,
            *final(self) == (SupervisorState { running: false, handle: None, ..*old(self) }),
            final(self).well_formed(),
    {
        let h = self.handle;
        self.handle = None;
        h
    }

    /// Record a user interaction: overwrite the activity timestamp, touch
    /// nothing else.
    pub fn touch(&mut self, now_ms: u64)
        ensures
            *final(self) == old(self).spec_touched(now_ms),
            old(self).well_formed() ==> final(self).well_formed(),
    {
        self.last_activity_ms = now_ms;
    }

    /// Milliseconds of inactivity at time `now_ms`.
    pub fn elapsed_ms(&self, now_ms: u64) -> (r: u64)
        ensures
            r == self.spec_elapsed_ms(now_ms),
    {
        if now_ms >= self.last_activity_ms {
            now_ms - self.last_activity_ms
        } else {
            0
        }
    }

    /// The watchdog's decision for one cycle at time `now_ms`.
    pub fn watchdog_decision(&self, now_ms: u64, idle_timeout_ms: u64) -> (r: WatchdogAction)
        ensures
            r == self.spec_watchdog_action(now_ms, idle_timeout_ms),
    {
        if !self.running {
            WatchdogAction::Exit
        } else if self.elapsed_ms(now_ms) > idle_timeout_ms {
            WatchdogAction::ShutDown
        } else {
            WatchdogAction::Poll
        }
    }

    /// Claim the right to perform the stop sequence. The first claim of a
    /// running period receives `Proceed` with the held process identity and
    /// leaves the state stopped; any later claim receives `AlreadyStopped`
    /// and must not repeat any side effect.
    pub fn begin_shutdown(&mut self) -> (r: ShutdownTicket)
        ensures
            r == old(self).spec_shutdown_step().0,
            *final(self) == old(self).spec_shutdown_step().1,
            !final(self).running,
            final(self).well_formed(),
    {
        if self.running {
            let h = self.handle;
            self.running = false;
            self.handle = None;
            ShutdownTicket::Proceed { handle: h }
        } else {
            ShutdownTicket::AlreadyStopped
        }
    }
}

/// Starting while already running is idempotent: the first and any second
/// `start` both decide to spawn nothing, both succeed, and the state is
/// unchanged, so at most one backend process exists per running period.
pub proof fn lemma_start_idempotent(s: SupervisorState)
    requires
        s.running,
    ensures
        s.spec_start_step() == (StartAction::AlreadyRunning, s),
        s.spec_start_step().1.spec_start_step() == (StartAction::AlreadyRunning, s),
{
}

/// At most one shutdown trigger of a running period performs the stop
/// sequence: the first trigger of a running state receives the one `Proceed`
/// ticket carrying the held process, every later trigger receives
/// `AlreadyStopped` and changes nothing. The stop notification and the
/// process termination ride on the ticket, so each happens exactly once.
pub proof fn lemma_shutdown_at_most_once(s: SupervisorState)
    ensures
        s.running ==> s.spec_shutdown_step().0 == (ShutdownTicket::Proceed { handle: s.handle }),
        !s.running ==> s.spec_shutdown_step().0 is AlreadyStopped,
        !s.spec_shutdown_step().1.running,
        s.spec_shutdown_step().1.spec_shutdown_step().0 is AlreadyStopped,
        s.spec_shutdown_step().1.spec_shutdown_step().1 == s.spec_shutdown_step().1,
{
}

/// Once the idle timeout is exceeded and no interaction intervenes, it stays
/// exceeded at every later instant. The watchdog checks once per poll
/// interval, so its first check after the threshold is crossed — at most one
/// poll interval later — decides to shut down, and the shutdown step leaves
/// the state stopped.
pub proof fn lemma_idle_timeout_fires(
    s: SupervisorState,
    now_ms: u64,
    later_ms: u64,
    idle_timeout_ms: u64,
)
    requires
        s.running,
        s.spec_idle_exceeded(now_ms, idle_timeout_ms),
        now_ms <= later_ms,
    ensures
        s.spec_idle_exceeded(later_ms, idle_timeout_ms),
        s.spec_watchdog_action(later_ms, idle_timeout_ms) is ShutDown,
        !s.spec_shutdown_step().1.running,
{
}

/// An interaction resets the idle clock: a watchdog check at the moment of
/// the interaction observes zero elapsed time and never decides to shut
/// down, whatever the idle timeout.
pub proof fn lemma_touch_prevents_shutdown(s: SupervisorState, now_ms: u64, idle_timeout_ms: u64)
    ensures
        s.spec_touched(now_ms).spec_elapsed_ms(now_ms) == 0,
        !(s.spec_touched(now_ms).spec_watchdog_action(now_ms, idle_timeout_ms) is ShutDown),
{
}

} // verus!
