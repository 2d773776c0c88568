//! The fatal-error taxonomy of a benchmarking run, and its operator-facing
//! rendering.

use vstd::prelude::*;
use vstd::string::StringExecFns;

use crate::text::{decimal_string, spec_decimal};

verus! {

/// Which of the child's two output streams an event came from.
#[derive(Debug, Clone, Copy, PartialEq, Eq, Structural)]
pub enum StreamKind {
    Stdout,
    Stderr,
}

/// A child process's exit status, as plain values: whether it was a success,
/// and the exit code if the platform reported one.
#[derive(Debug, Clone, Copy, PartialEq, Eq, Structural)]
pub struct ExitStatusInfo {
    pub success: bool,
    pub code: Option<i32>,
}

/// A fatal error of the benchmarking run. None of these are retried: the
/// first one encountered aborts the remaining matrix.
#[derive(Debug)]
pub enum BenchError {
    /// A workspace or file operation failed.
    IOFailure { detail: String },
    /// The child process could not start, or a required stdio pipe was
    /// unavailable.
    SpawnFailure { detail: String },
    /// The external build command returned a non-zero status.
    BuildFailed { label: String, status: ExitStatusInfo },
    /// The ready marker was not observed within the deadline.
    Timeout { marker: String },
    /// The child process terminated before its expected marker was observed.
    UnexpectedExit { stream: StreamKind, status: ExitStatusInfo },
    /// Both reader tasks ended without a conclusive process-exit status.
    ChannelLost { status: ExitStatusInfo },
}

pub open spec fn spec_stream_label(k: StreamKind) -> Seq<char> {
    match k {
        StreamKind::Stdout => "stdout"@,
        StreamKind::Stderr => "stderr"@,
    }
}

/// The decimal rendering of a signed 32-bit value.
pub open spec fn spec_int32(c: i32) -> Seq<char> {
    if c < 0 {
        "-"@ + spec_decimal((-(c as int)) as u64)
    } else {
        spec_decimal(c as u64)
    }
}

/// The rendering of an exit status: the exit code where the platform
/// reported one.
pub open spec fn spec_status_text(status: ExitStatusInfo) -> Seq<char> {
    match status.code {
        Some(c) => "exit code "@ + spec_int32(c),
        None => "no exit code"@,
    }
}

/// The operator-facing message for each error variant.
pub open spec fn spec_error_message(e: BenchError) -> Seq<char> {
    match e {
        BenchError::IOFailure { detail } => "workspace I/O failed: "@ + detail@,
        BenchError::SpawnFailure { detail } => "failed to start dev server: "@ + detail@,
        BenchError::BuildFailed { label, status } => "cargo build ("@ + label@ + ") failed with "@
            + spec_status_text(status),
        BenchError::Timeout { marker } => "timeout waiting for ready marker "@ + marker@,
        BenchError::UnexpectedExit { stream, status } => "dev server exited early ("@
            + spec_stream_label(stream) + ") with "@ + spec_status_text(status),
        BenchError::ChannelLost { status } => "dev server output closed unexpectedly ("@
            + spec_status_text(status) + ")"@,
    }
}

fn stream_label(k: StreamKind) -> (t: &'static str)
    ensures
        t@ == spec_stream_label(k),
{
    match k {
        StreamKind::Stdout => "stdout",
        StreamKind::Stderr => "stderr",
    }
}

/// Renders a signed 32-bit value in decimal.
pub fn int32_string(c: i32) -> (s: String)
    ensures
        s@ == spec_int32(c),
{
    if c < 0 {
        let mut s = String::from_str("-");
        let magnitude: u64 = (-(c as i64)) as u64;
        s.append(decimal_string(magnitude).as_str());
        proof {
            assert(s@ =~= spec_int32(c));
        }
        s
    } else {
        decimal_string(c as u64)
    }
}

fn status_text(status: ExitStatusInfo) -> (s: String)
    ensures
        s@ == spec_status_text(status),
{
    match status.code {
        Some(c) => {
            let mut s = String::from_str("exit code ");
            s.append(int32_string(c).as_str());
            proof {
                assert(s@ =~= spec_status_text(status));
            }
            s
        },
        None => String::from_str("no exit code"),
    }
}

impl BenchError {
    /// Renders the operator-facing message for this error.
    pub fn message(&self) -> (s: String)
        ensures
            s@ == spec_error_message(*self),
    {
        match self {
            BenchError::IOFailure { detail } => {
                let mut s = String::from_str("workspace I/O failed: ");
                s.append(detail.as_str());
                proof {
                    assert(s@ =~= spec_error_message(*self));
                }
                s
            },
            BenchError::SpawnFailure { detail } => {
                let mut s = String::from_str("failed to start dev server: ");
                s.append(detail.as_str());
                proof {
                    assert(s@ =~= spec_error_message(*self));
                }
                s
            },
            BenchError::BuildFailed { label, status } => {
                let mut s = String::from_str("cargo build (");
                s.append(label.as_str());
                s.append(") failed with ");
                s.append(status_text(*status).as_str());
                proof {
                    assert(s@ =~= spec_error_message(*self));
                }
                s
            },
            BenchError::Timeout { marker } => {
                let mut s = String::from_str("timeout waiting for ready marker ");
                s.append(marker.as_str());
                proof {
                    assert(s@ =~= spec_error_message(*self));
                }
                s
            },
            BenchError::UnexpectedExit { stream, status } => {
                let mut s = String::from_str("dev server exited early (");
                s.append(stream_label(*stream));
                s.append(") with ");
                s.append(status_text(*status).as_str());
                proof {
                    assert(s@ =~= spec_error_message(*self));
                }
                s
            },
            BenchError::ChannelLost { status } => {
                let mut s = String::from_str("dev server output closed unexpectedly (");
                s.append(status_text(*status).as_str());
                s.append(")");
                proof {
                    assert(s@ =~= spec_error_message(*self));
                }
                s
            },
        }
    }
}

} // verus!
