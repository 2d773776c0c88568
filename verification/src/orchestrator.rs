//! Per-scenario orchestration: the phase sequence clean build → incremental
//! build → optional hot-patch session, the judgment of a build command's
//! outcome, and the reporting of the aggregated timings.

use vstd::prelude::*;
use vstd::string::StringExecFns;

use crate::artifacts::PreparedScenario;
use crate::errors::{BenchError, ExitStatusInfo};
use crate::text::{decimal_string, spec_decimal};

verus! {

/// The three measured durations of one scenario, in milliseconds: clean
/// build, incremental build, and hot-patch latency (present only for
/// hot-patch scenarios).
#[derive(Debug, Clone, Copy, PartialEq, Eq, Structural)]
pub struct ScenarioTimings {
    pub first: Option<u64>,
    pub second: Option<u64>,
    pub hotpatch: Option<u64>,
}

/// The reported outcome of one completed scenario.
#[derive(Debug)]
pub struct ScenarioResult {
    pub slug: String,
    pub timings: ScenarioTimings,
}

/// Judges the outcome of one external build command: the elapsed wall-clock
/// time on success, `BuildFailed` carrying the label and the exit status on
/// a non-zero status.
pub fn build_outcome(label: &str, status: ExitStatusInfo, elapsed_ms: u64) -> (r: Result<
    u64,
    BenchError,
>)
    ensures
        status.success ==> (r matches Ok(d) && d == elapsed_ms),
        !status.success ==> (r matches Err(e) && e matches BenchError::BuildFailed {
            label: l,
            status: st,
        } && l@ == label@ && st == status),
{
    if status.success {
        Ok(elapsed_ms)
    } else {
        Err(BenchError::BuildFailed { label: String::from_str(label), status })
    }
}

/// Assembles the reported result of a scenario whose required phases all
/// completed. A hot-patch timing is present exactly when the scenario
/// requested hot-patching: there is no partial-results mode.
pub fn run_scenario(
    prepared: &PreparedScenario,
    first_ms: u64,
    second_ms: u64,
    hotpatch_ms: Option<u64>,
) -> (r: ScenarioResult)
    requires
        hotpatch_ms is Some <==> prepared.scenario.hotpatching is Some,
    ensures
        r.slug@ == prepared.slug@,
        r.timings.first == Some(first_ms),
        r.timings.second == Some(second_ms),
        r.timings.hotpatch == hotpatch_ms,
{
    ScenarioResult {
        slug: prepared.slug.clone(),
        timings: ScenarioTimings {
            first: Some(first_ms),
            second: Some(second_ms),
            hotpatch: hotpatch_ms,
        },
    }
}

/// Where one scenario's handling stands: which phase must run next, or the
/// finished result. A fatal error at any phase aborts instead of advancing.
#[derive(Debug)]
pub enum ScenarioStage {
    NeedCleanBuild,
    NeedSecondBuild { first_ms: u64 },
    NeedHotpatch { first_ms: u64, second_ms: u64 },
    Finished { result: ScenarioResult },
}

/// Advances a scenario by one completed phase measurement. The hot-patch
/// phase is scheduled only for scenarios that request it, and only after
/// both timed builds succeeded; a failed build never reaches this function,
/// so the hot-patch phase can never run after one.
pub fn scenario_advance(prepared: &PreparedScenario, stage: ScenarioStage, measured_ms: u64) -> (next:
    ScenarioStage)
    requires
        !(stage matches ScenarioStage::Finished { .. }),
        stage matches ScenarioStage::NeedHotpatch { .. }
            ==> prepared.scenario.hotpatching is Some,
    ensures
        stage is NeedCleanBuild ==> (next matches ScenarioStage::NeedSecondBuild { first_ms }
            && first_ms == measured_ms),
        stage matches ScenarioStage::NeedSecondBuild { first_ms } ==> {
            if prepared.scenario.hotpatching is Some {
                next matches ScenarioStage::NeedHotpatch { first_ms: f, second_ms: s }
                    && f == first_ms && s == measured_ms
            } else {
                next matches ScenarioStage::Finished { result } && result.slug@ == prepared.slug@
                    && result.timings.first == Some(first_ms) && result.timings.second == Some(
                    measured_ms,
                ) && result.timings.hotpatch is None
            }
        },
        stage matches ScenarioStage::NeedHotpatch { first_ms, second_ms } ==> (next
            matches ScenarioStage::Finished { result } && result.slug@ == prepared.slug@
            && result.timings.first == Some(first_ms) && result.timings.second == Some(second_ms)
            && result.timings.hotpatch == Some(measured_ms)),
{
    match stage {
        ScenarioStage::NeedCleanBuild => ScenarioStage::NeedSecondBuild {
            first_ms: measured_ms,
        },
        ScenarioStage::NeedSecondBuild { first_ms } => {
            let hot = match prepared.scenario.hotpatching {
                Some(_) => true,
                None => false,
            };
            if hot {
                ScenarioStage::NeedHotpatch { first_ms, second_ms: measured_ms }
            } else {
                ScenarioStage::Finished {
                    result: run_scenario(prepared, first_ms, measured_ms, None),
                }
            }
        },
        ScenarioStage::NeedHotpatch { first_ms, second_ms } => ScenarioStage::Finished {
            result: run_scenario(prepared, first_ms, second_ms, Some(measured_ms)),
        },
        ScenarioStage::Finished { result } => ScenarioStage::Finished { result },
    }
}

// ---------------------------------------------------------------------------
// Reporting
// ---------------------------------------------------------------------------

/// The three-digit zero-padded rendering of a millisecond remainder.
pub open spec fn spec_frac3(f: u64) -> Seq<char> {
    if f < 10 {
        "00"@ + spec_decimal(f)
    } else if f < 100 {
        "0"@ + spec_decimal(f)
    } else {
        spec_decimal(f)
    }
}

/// A duration in seconds with millisecond precision (`1.234s`), or `n/a`
/// for a phase that was not measured.
pub open spec fn spec_format_duration(duration: Option<u64>) -> Seq<char> {
    match duration {
        Some(ms) => spec_decimal((ms / 1000) as u64) + "."@ + spec_frac3((ms % 1000) as u64)
            + "s"@,
        None => "n/a"@,
    }
}

/// Renders one measured duration, or `n/a` where a phase was not measured.
pub fn format_duration(duration: Option<u64>) -> (s: String)
    ensures
        s@ == spec_format_duration(duration),
{
    match duration {
        Some(ms) => {
            let secs = ms / 1000;
            let frac = ms % 1000;
            let mut s = decimal_string(secs);
            s.append(".");
            if frac < 10 {
                s.append("00");
            } else if frac < 100 {
                s.append("0");
            }
            s.append(decimal_string(frac).as_str());
            s.append("s");
            proof {
                assert(s@ =~= spec_format_duration(duration));
            }
            s
        },
        None => String::from_str("n/a"),
    }
}

/// The per-scenario summary line.
pub open spec fn spec_report_line(r: ScenarioResult) -> Seq<char> {
    "[bench] Results for "@ + r.slug@ + " -> clean="@ + spec_format_duration(r.timings.first)
        + ", second="@ + spec_format_duration(r.timings.second) + ", hotpatch="@
        + spec_format_duration(r.timings.hotpatch)
}

/// Renders the summary line for one completed scenario, with unmeasured
/// phases shown as `n/a`.
pub fn report_line(result: &ScenarioResult) -> (s: String)
    ensures
        s@ == spec_report_line(*result),
{
    let mut s = String::from_str("[bench] Results for ");
    s.append(result.slug.as_str());
    s.append(" -> clean=");
    s.append(format_duration(result.timings.first).as_str());
    s.append(", second=");
    s.append(format_duration(result.timings.second).as_str());
    s.append(", hotpatch=");
    s.append(format_duration(result.timings.hotpatch).as_str());
    proof {
        assert(s@ =~= spec_report_line(*result));
    }
    s
}

} // verus!
