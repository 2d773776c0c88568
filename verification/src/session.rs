//! The hot-patch session state machine: a pure transition function over the
//! merged event feed of the child's two output streams.
//!
//! The surrounding application spawns the dev-server process, runs one
//! reader per output stream into a shared channel, and calls [`session_step`]
//! for every event, poll timeout or channel loss it observes, performing the
//! returned action (writing the mutated source file, or terminating the
//! child). Every decision the protocol takes — marker matching, mutation,
//! deadline handling, premature-exit handling — is made here and verified.

use vstd::prelude::*;
use vstd::string::StringExecFns;

use crate::artifacts::{build_payload_main, spec_payload_main};
use crate::errors::{BenchError, ExitStatusInfo, StreamKind};
use crate::text::{decimal_string, spec_contains, spec_decimal, str_contains};
use crate::values::{next_payload_value, spec_next_payload_value};

verus! {

/// An event produced by one of the two stream readers: a line of output, or
/// the end of that stream.
#[derive(Debug)]
pub enum StreamEvent {
    Line(StreamKind, String),
    Closed(StreamKind),
}

/// What a session synchronizes on: the scenario's ready marker, its known
/// payload value, and the absolute deadline of the session.
#[derive(Debug)]
pub struct SessionConfig {
    pub ready_marker: String,
    pub payload_value: u64,
    pub deadline_ms: u64,
}

/// Where the session stands between two inputs.
#[derive(Debug)]
pub enum SessionPhase {
    /// Waiting for a line that contains the ready marker.
    WaitReady,
    /// The source was mutated at `started_ms`; waiting for a line that
    /// contains the expected confirmation string.
    WaitPatch { expected_line: String, new_value: u64, started_ms: u64 },
}

/// One input to the control loop: a channel event, a bounded-wait timeout,
/// or the loss of the channel. For a closed stream the caller hands in the
/// child's polled exit status; for a lost channel, the status after waiting
/// for the child.
#[derive(Debug)]
pub enum SessionInput {
    Line { stream: StreamKind, text: String },
    Closed { stream: StreamKind, exited: Option<ExitStatusInfo> },
    PollTimeout,
    Disconnected { status: ExitStatusInfo },
}

/// What the caller must do after a step.
#[derive(Debug)]
pub enum SessionAction {
    /// Nothing: keep draining the channel.
    Continue,
    /// Overwrite the workspace's generated source file with `content`, in
    /// place; the other artifacts stay untouched.
    WriteSource { content: String },
    /// Terminate the child process and wait for it to exit.
    Kill,
}

/// The session's standing after a step: still running, finished with a
/// measured latency, or failed fatally.
#[derive(Debug)]
pub enum SessionStatus {
    Running { phase: SessionPhase },
    Done { latency_ms: u64 },
    Failed { error: BenchError },
}

/// The outcome of one step: the new standing and the action owed.
#[derive(Debug)]
pub struct SessionStepResult {
    pub status: SessionStatus,
    pub action: SessionAction,
}

/// The confirmation string the mutated program is expected to print.
pub open spec fn spec_expected_line(value: u64) -> Seq<char> {
    "PAYLOAD_RANDOM_VALUE="@ + spec_decimal(value)
}

/// Renders the confirmation string for a payload value.
pub fn expected_payload_line(value: u64) -> (s: String)
    ensures
        s@ == spec_expected_line(value),
{
    let mut s = String::from_str("PAYLOAD_RANDOM_VALUE=");
    s.append(decimal_string(value).as_str());
    proof {
        assert(s@ =~= spec_expected_line(value));
    }
    s
}

/// The tag-prefixed echo of one line of child output: primary output under
/// the plain tag, error output under a distinct one.
pub open spec fn spec_forward_stream_line(kind: StreamKind, line: Seq<char>) -> Seq<char> {
    match kind {
        StreamKind::Stdout => "[dx] "@ + line,
        StreamKind::Stderr => "[dx][stderr] "@ + line,
    }
}

/// Renders the operator-facing echo of one line of child output, tagged by
/// its originating stream.
pub fn forward_stream_line(kind: StreamKind, line: &str) -> (s: String)
    ensures
        s@ == spec_forward_stream_line(kind, line@),
{
    let mut s = match kind {
        StreamKind::Stdout => String::from_str("[dx] "),
        StreamKind::Stderr => String::from_str("[dx][stderr] "),
    };
    s.append(line);
    proof {
        assert(s@ =~= spec_forward_stream_line(kind, line@));
    }
    s
}

/// Timestamps recorded in the phase never lie in the future of the clock
/// handed to the next step.
pub open spec fn spec_phase_wf(phase: SessionPhase, now_ms: u64) -> bool {
    phase matches SessionPhase::WaitPatch { started_ms, .. } ==> started_ms <= now_ms
}

/// What a step must produce for a `Line` input.
pub open spec fn spec_line_step(
    cfg: SessionConfig,
    phase: SessionPhase,
    text: Seq<char>,
    now_ms: u64,
    r: SessionStepResult,
) -> bool {
    match phase {
        SessionPhase::WaitReady => {
            if spec_contains(text, cfg.ready_marker@) {
                let next = spec_next_payload_value(cfg.payload_value);
                &&& r.status matches SessionStatus::Running { phase: p }
                &&& p matches SessionPhase::WaitPatch { expected_line, new_value, started_ms }
                &&& expected_line@ == spec_expected_line(next)
                &&& new_value == next
                &&& started_ms == now_ms
                &&& r.action matches SessionAction::WriteSource { content }
                &&& content@ == spec_payload_main(cfg.ready_marker@, next)
            } else {
                &&& r.status matches SessionStatus::Running { phase: p } && p == phase
                &&& r.action is Continue
            }
        },
        SessionPhase::WaitPatch { expected_line, new_value, started_ms } => {
            if spec_contains(text, expected_line@) {
                &&& r.status matches SessionStatus::Done { latency_ms }
                &&& latency_ms == now_ms - started_ms
                &&& r.action is Kill
            } else {
                &&& r.status matches SessionStatus::Running { phase: p } && p == phase
                &&& r.action is Continue
            }
        },
    }
}

/// What a step must produce for a `Closed` input: if the child has already
/// exited, the session fails with the observed status; otherwise the loop
/// keeps draining, since the other stream may still be open.
pub open spec fn spec_closed_step(
    phase: SessionPhase,
    stream: StreamKind,
    exited: Option<ExitStatusInfo>,
    r: SessionStepResult,
) -> bool {
    match exited {
        Some(status) => {
            &&& r.status matches SessionStatus::Failed { error }
            &&& error matches BenchError::UnexpectedExit { stream: s, status: st }
            &&& s == stream
            &&& st == status
            &&& r.action is Continue
        },
        None => {
            &&& r.status matches SessionStatus::Running { phase: p } && p == phase
            &&& r.action is Continue
        },
    }
}

/// What a step must produce for a bounded-wait timeout: past the deadline
/// the session fails with `Timeout` and the child is killed, in either
/// waiting phase; before it, the loop keeps draining.
pub open spec fn spec_poll_step(
    cfg: SessionConfig,
    phase: SessionPhase,
    now_ms: u64,
    r: SessionStepResult,
) -> bool {
    if now_ms > cfg.deadline_ms {
        &&& r.status matches SessionStatus::Failed { error }
        &&& error matches BenchError::Timeout { marker }
        &&& marker@ == cfg.ready_marker@
        &&& r.action is Kill
    } else {
        &&& r.status matches SessionStatus::Running { phase: p } && p == phase
        &&& r.action is Continue
    }
}

/// What a step must produce when both readers have gone away: the session
/// fails with `ChannelLost` carrying the status the caller obtained by
/// waiting for the child.
pub open spec fn spec_disconnected_step(status: ExitStatusInfo, r: SessionStepResult) -> bool {
    &&& r.status matches SessionStatus::Failed { error }
    &&& error matches BenchError::ChannelLost { status: st }
    &&& st == status
    &&& r.action is Continue
}

/// One transition of the session state machine.
///
/// Every `Line` is matched against the phase's marker; the first line
/// containing the ready marker triggers the mutation (the regenerated source
/// keeps the same marker and carries the new payload value) and starts the
/// latency clock; the first line containing the confirmation string finishes
/// the session with the elapsed latency and a shutdown-kill. A closed stream
/// with an exited child, a deadline overrun, and a lost channel each fail
/// the session with the corresponding error.
pub fn session_step(
    cfg: &SessionConfig,
    phase: SessionPhase,
    input: SessionInput,
    now_ms: u64,
) -> (r: SessionStepResult)
    requires
        spec_phase_wf(phase, now_ms),
    ensures
        input matches SessionInput::Line { text, .. } ==> spec_line_step(
            *cfg,
            phase,
            text@,
            now_ms,
            r,
        ),
        input matches SessionInput::Closed { stream, exited } ==> spec_closed_step(
            phase,
            stream,
            exited,
            r,
        ),
        input is PollTimeout ==> spec_poll_step(*cfg, phase, now_ms, r),
        input matches SessionInput::Disconnected { status } ==> spec_disconnected_step(
            status,
            r,
        ),
{
    match input {
        SessionInput::Line { stream: _, text } => match phase {
            SessionPhase::WaitReady => {
                if str_contains(text.as_str(), cfg.ready_marker.as_str()) {
                    let new_value = next_payload_value(cfg.payload_value);
                    let content = build_payload_main(cfg.ready_marker.as_str(), new_value);
                    let expected_line = expected_payload_line(new_value);
                    SessionStepResult {
                        status: SessionStatus::Running {
                            phase: SessionPhase::WaitPatch {
                                expected_line,
                                new_value,
                                started_ms: now_ms,
                            },
                        },
                        action: SessionAction::WriteSource { content },
                    }
                } else {
                    SessionStepResult {
                        status: SessionStatus::Running { phase: SessionPhase::WaitReady },
                        action: SessionAction::Continue,
                    }
                }
            },
            SessionPhase::WaitPatch { expected_line, new_value, started_ms } => {
                if str_contains(text.as_str(), expected_line.as_str()) {
                    SessionStepResult {
                        status: SessionStatus::Done { latency_ms: now_ms - started_ms },
                        action: SessionAction::Kill,
                    }
                } else {
                    SessionStepResult {
                        status: SessionStatus::Running {
                            phase: SessionPhase::WaitPatch {
                                expected_line,
                                new_value,
                                started_ms,
                            },
                        },
                        action: SessionAction::Continue,
                    }
                }
            },
        },
        SessionInput::Closed { stream, exited } => match exited {
            Some(status) => SessionStepResult {
                status: SessionStatus::Failed {
                    error: BenchError::UnexpectedExit { stream, status },
                },
                action: SessionAction::Continue,
            },
            None => SessionStepResult {
                status: SessionStatus::Running { phase },
                action: SessionAction::Continue,
            },
        },
        SessionInput::PollTimeout => {
            if now_ms > cfg.deadline_ms {
                SessionStepResult {
                    status: SessionStatus::Failed {
                        error: BenchError::Timeout { marker: cfg.ready_marker.clone() },
                    },
                    action: SessionAction::Kill,
                }
            } else {
                SessionStepResult {
                    status: SessionStatus::Running { phase },
                    action: SessionAction::Continue,
                }
            }
        },
        SessionInput::Disconnected { status } => SessionStepResult {
            status: SessionStatus::Failed { error: BenchError::ChannelLost { status } },
            action: SessionAction::Continue,
        },
    }
}

} // verus!
