//! State-machine tests of the hot-patch session monitor, driven with a
//! synthetic event feed instead of a real process.

use hotpatch_bench::artifacts::build_payload_main;
use hotpatch_bench::errors::{BenchError, ExitStatusInfo, StreamKind};
use hotpatch_bench::session::{
    expected_payload_line, forward_stream_line, session_step, SessionAction, SessionConfig,
    SessionInput, SessionPhase, SessionStatus,
};
use hotpatch_bench::values::next_payload_value;

fn test_config() -> SessionConfig {
    SessionConfig {
        ready_marker: String::from("PAYLOAD_SYSTEM_IS_READY__sl__00000000000000ab"),
        payload_value: 777,
        deadline_ms: 180_000,
    }
}

fn line(stream: StreamKind, text: &str) -> SessionInput {
    SessionInput::Line { stream, text: String::from(text) }
}

/// The full ready → mutate → confirm protocol: a synthetic process emits the
/// ready marker, then (after the mutation) the exact expected confirmation
/// string; the session must report the simulated gap as its latency and
/// issue exactly one shutdown-kill.
#[test]
fn hotpatch_protocol_measures_the_gap() {
    let cfg = test_config();
    let mut kills = 0;

    // Noise before the marker is echoed and ignored.
    let r = session_step(&cfg, SessionPhase::WaitReady, line(StreamKind::Stdout, "compiling"), 50);
    assert!(matches!(
        r.status,
        SessionStatus::Running { phase: SessionPhase::WaitReady }
    ));
    if matches!(r.action, SessionAction::Kill) {
        kills += 1;
    }
    let phase = match r.status {
        SessionStatus::Running { phase } => phase,
        _ => unreachable!(),
    };

    // The ready marker arrives embedded in a longer line at t = 100 ms.
    let marker_line = format!("[app] {} booted", cfg.ready_marker);
    let r = session_step(&cfg, phase, line(StreamKind::Stdout, &marker_line), 100);
    if matches!(r.action, SessionAction::Kill) {
        kills += 1;
    }
    let new_value = next_payload_value(cfg.payload_value);
    match &r.action {
        SessionAction::WriteSource { content } => {
            assert_eq!(*content, build_payload_main(&cfg.ready_marker, new_value));
        }
        other => panic!("expected a source mutation, got {:?}", other),
    }
    let phase = match r.status {
        SessionStatus::Running { phase } => phase,
        other => panic!("expected a running session, got {:?}", other),
    };
    match &phase {
        SessionPhase::WaitPatch { expected_line, new_value: v, started_ms } => {
            assert_eq!(*expected_line, expected_payload_line(new_value));
            assert_eq!(*expected_line, format!("PAYLOAD_RANDOM_VALUE={new_value}"));
            assert_eq!(*v, new_value);
            assert_eq!(*started_ms, 100);
        }
        other => panic!("expected the patch-wait phase, got {:?}", other),
    }

    // A stale line with the old value does not confirm the patch.
    let stale = format!("PAYLOAD_RANDOM_VALUE={}", cfg.payload_value);
    let r = session_step(&cfg, phase, line(StreamKind::Stderr, &stale), 150);
    assert!(matches!(r.status, SessionStatus::Running { .. }));
    if matches!(r.action, SessionAction::Kill) {
        kills += 1;
    }
    let phase = match r.status {
        SessionStatus::Running { phase } => phase,
        _ => unreachable!(),
    };

    // The confirmation arrives at t = 350 ms: latency is the simulated gap.
    let confirm = format!("[app] PAYLOAD_RANDOM_VALUE={new_value} now live");
    let r = session_step(&cfg, phase, line(StreamKind::Stdout, &confirm), 350);
    match r.status {
        SessionStatus::Done { latency_ms } => assert_eq!(latency_ms, 250),
        other => panic!("expected a finished session, got {:?}", other),
    }
    if matches!(r.action, SessionAction::Kill) {
        kills += 1;
    }

    assert_eq!(kills, 1);
}

/// A process that never emits the ready marker fails with `Timeout` once the
/// deadline elapses, and the child is killed: no hang.
#[test]
fn missing_ready_marker_times_out() {
    let cfg = test_config();

    // Before the deadline the loop keeps draining.
    let r = session_step(&cfg, SessionPhase::WaitReady, SessionInput::PollTimeout, 180_000);
    assert!(matches!(
        r.status,
        SessionStatus::Running { phase: SessionPhase::WaitReady }
    ));
    assert!(matches!(r.action, SessionAction::Continue));

    // Past the deadline the session fails and the child is terminated.
    let r = session_step(&cfg, SessionPhase::WaitReady, SessionInput::PollTimeout, 180_001);
    match r.status {
        SessionStatus::Failed { error: BenchError::Timeout { marker } } => {
            assert_eq!(marker, cfg.ready_marker);
        }
        other => panic!("expected a timeout, got {:?}", other),
    }
    assert!(matches!(r.action, SessionAction::Kill));
}

/// The confirmation wait is bounded by the same session deadline.
#[test]
fn missing_confirmation_times_out() {
    let cfg = test_config();
    let phase = SessionPhase::WaitPatch {
        expected_line: expected_payload_line(next_payload_value(cfg.payload_value)),
        new_value: next_payload_value(cfg.payload_value),
        started_ms: 179_000,
    };
    let r = session_step(&cfg, phase, SessionInput::PollTimeout, 200_000);
    assert!(matches!(
        r.status,
        SessionStatus::Failed { error: BenchError::Timeout { .. } }
    ));
    assert!(matches!(r.action, SessionAction::Kill));
}

/// A process that closes its streams and exits before the marker fails with
/// `UnexpectedExit` carrying the real exit status.
#[test]
fn premature_exit_is_reported_with_its_status() {
    let cfg = test_config();
    let status = ExitStatusInfo { success: false, code: Some(101) };
    let r = session_step(
        &cfg,
        SessionPhase::WaitReady,
        SessionInput::Closed { stream: StreamKind::Stderr, exited: Some(status) },
        500,
    );
    match r.status {
        SessionStatus::Failed { error: BenchError::UnexpectedExit { stream, status: st } } => {
            assert_eq!(stream, StreamKind::Stderr);
            assert_eq!(st, status);
        }
        other => panic!("expected an unexpected-exit failure, got {:?}", other),
    }
    assert!(matches!(r.action, SessionAction::Continue));
}

/// A closed stream whose child is still running is not fatal: the other
/// stream may still deliver the marker.
#[test]
fn closed_stream_with_live_child_continues() {
    let cfg = test_config();
    let r = session_step(
        &cfg,
        SessionPhase::WaitReady,
        SessionInput::Closed { stream: StreamKind::Stdout, exited: None },
        500,
    );
    assert!(matches!(
        r.status,
        SessionStatus::Running { phase: SessionPhase::WaitReady }
    ));
    assert!(matches!(r.action, SessionAction::Continue));
}

/// Both readers gone without a conclusive status: `ChannelLost` carries the
/// status obtained by waiting for the child.
#[test]
fn lost_channel_is_fatal() {
    let cfg = test_config();
    let status = ExitStatusInfo { success: true, code: Some(0) };
    let r = session_step(
        &cfg,
        SessionPhase::WaitReady,
        SessionInput::Disconnected { status },
        500,
    );
    match r.status {
        SessionStatus::Failed { error: BenchError::ChannelLost { status: st } } => {
            assert_eq!(st, status);
        }
        other => panic!("expected a lost-channel failure, got {:?}", other),
    }
}

#[test]
fn echoed_lines_carry_their_stream_tag() {
    assert_eq!(forward_stream_line(StreamKind::Stdout, "hello"), "[dx] hello");
    assert_eq!(
        forward_stream_line(StreamKind::Stderr, "warning: x"),
        "[dx][stderr] warning: x"
    );
}

#[test]
fn expected_line_format() {
    assert_eq!(expected_payload_line(0), "PAYLOAD_RANDOM_VALUE=0");
    assert_eq!(
        expected_payload_line(18446744073709551615),
        "PAYLOAD_RANDOM_VALUE=18446744073709551615"
    );
}
