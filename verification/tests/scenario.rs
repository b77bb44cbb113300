//! One full lifetime of the supervisor, driven through the verified core:
//! start with a probe that succeeds on the third check, forward one input,
//! go idle past the threshold, watch the watchdog stop the backend, then
//! confirm that a later stop request is a no-op.

use sidecar_supervisor::channel::build_input_request;
use sidecar_supervisor::decode_response;
use sidecar_supervisor::probe_step;
use sidecar_supervisor::probe::ProbeStep;
use sidecar_supervisor::supervisor::ShutdownTicket;
use sidecar_supervisor::supervisor::StartAction;
use sidecar_supervisor::supervisor::WatchdogAction;
use sidecar_supervisor::SupervisorState;

#[test]
fn full_lifecycle() {
    let idle_timeout_ms = 300_000;
    let mut s = SupervisorState::new(0);

    // start: not running, so a spawn is due
    assert!(matches!(s.start_decision(), StartAction::DoSpawn));
    s.record_spawn(4242, 10);

    // readiness probe: the socket appears on the third check
    let observations = [false, false, true];
    let mut attempt: u32 = 1;
    let mut checks = 0;
    let became_ready = loop {
        let ready = observations[(attempt - 1) as usize];
        checks += 1;
        match probe_step(attempt, 20, ready) {
            ProbeStep::Ready => break true,
            ProbeStep::GiveUp => break false,
            ProbeStep::Retry => attempt += 1,
        }
    };
    assert!(became_ready);
    assert_eq!(checks, 3);
    s.mark_running();
    assert!(s.running);

    // forward one input: activity is stamped, the request framed, and the
    // backend's echoed reply decoded
    s.touch(2_000);
    let request = build_input_request(b"hello");
    assert!(request.ends_with(b"{\"input\":\"hello\"}"));
    let backend_reply = b"HTTP/1.1 200 OK\r\nContent-Type: application/json\r\n\r\n{\"echo\": \"hello\"}";
    let value = decode_response(backend_reply).unwrap();
    let expected: serde_json::Value = serde_json::from_str("{\"echo\": \"hello\"}").unwrap();
    assert_eq!(value, expected);

    // the backend stays busy for a while: polls see no idle timeout
    assert!(matches!(
        s.watchdog_decision(2_500, idle_timeout_ms),
        WatchdogAction::Poll
    ));

    // then nothing touches the state past the threshold: the watchdog stops
    // the backend
    let deep_in_idle = 2_000 + idle_timeout_ms + 1;
    assert!(matches!(
        s.watchdog_decision(deep_in_idle, idle_timeout_ms),
        WatchdogAction::ShutDown
    ));
    match s.begin_shutdown() {
        ShutdownTicket::Proceed { handle } => assert_eq!(handle, Some(4242)),
        ShutdownTicket::AlreadyStopped => panic!("the watchdog held the first ticket"),
    }
    assert!(!s.running);

    // a later stop request is a success without any side effect
    assert!(matches!(s.begin_shutdown(), ShutdownTicket::AlreadyStopped));
}
