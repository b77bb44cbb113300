//! Supervisor for a long-running sidecar backend process.
//!
//! The library is the verified core of a process supervisor: it decides when
//! to spawn, when to give up waiting for readiness, when an idle backend must
//! be shut down, and it frames the byte-level requests and responses that
//! travel over the local socket to the backend. All I/O (spawning, socket
//! traffic, sleeping) is performed by a thin unverified shell around this
//! crate; the shell feeds plain values in and carries plain values out.

use vstd::prelude::*;

pub mod bytestr;
pub mod channel;
pub mod http;
pub mod json;
pub mod paths;
pub mod probe;
pub mod supervisor;

pub use channel::decode_response;
pub use channel::ChannelError;
pub use paths::get_ai_engine_binary;
pub use paths::get_socket_path;
pub use paths::is_socket_ready;
pub use probe::probe_step;
pub use supervisor::SupervisorState;

verus! {

/// Idle timeout: if no activity for this many milliseconds, the backend is
/// stopped automatically.
pub const IDLE_TIMEOUT_MS: u64 = 300_000;

/// Readiness probe: maximum number of checks while waiting for the backend
/// to come up.
pub const HEALTH_CHECK_RETRIES: u32 = 20;

/// Readiness probe: delay between consecutive checks.
pub const HEALTH_CHECK_INTERVAL_MS: u64 = 500;

/// Watchdog: how often the idle check and status poll run.
pub const STATUS_POLL_INTERVAL_MS: u64 = 1_000;

/// Shutdown: grace period between the stop notification and termination of
/// the process.
pub const SHUTDOWN_GRACE_MS: u64 = 500;

} // verus!
