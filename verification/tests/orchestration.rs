//! Tests of per-scenario orchestration, build-outcome judgment and
//! reporting.

use hotpatch_bench::artifacts::PreparedScenario;
use hotpatch_bench::errors::{BenchError, ExitStatusInfo, StreamKind};
use hotpatch_bench::orchestrator::{
    build_outcome, format_duration, report_line, run_scenario, scenario_advance, ScenarioStage,
};
use hotpatch_bench::scenario::{Hotpatching, Scenario};

fn hot_scenario() -> PreparedScenario {
    PreparedScenario::new(Scenario {
        linker: None,
        cache: None,
        dynamic: None,
        hotpatching: Some(Hotpatching::Dx),
    })
}

fn plain_scenario() -> PreparedScenario {
    PreparedScenario::new(Scenario {
        linker: None,
        cache: None,
        dynamic: None,
        hotpatching: None,
    })
}

#[test]
fn successful_build_yields_its_elapsed_time() {
    let ok = ExitStatusInfo { success: true, code: Some(0) };
    match build_outcome("clean", ok, 4321) {
        Ok(elapsed) => assert_eq!(elapsed, 4321),
        Err(e) => panic!("unexpected failure: {:?}", e),
    }
}

/// A build command returning a non-zero status surfaces
/// `BuildFailed{"clean", status}`, and the driver never reaches the
/// hot-patch phase for that scenario.
#[test]
fn failed_clean_build_aborts_before_hotpatch() {
    let prepared = hot_scenario();
    let failing = ExitStatusInfo { success: false, code: Some(101) };
    let mut stage = ScenarioStage::NeedCleanBuild;
    let mut hotpatch_ran = false;
    let mut fatal: Option<BenchError> = None;

    // The driver loop as the application runs it: each phase's measurement
    // advances the stage; the first fatal error aborts the scenario.
    loop {
        match stage {
            ScenarioStage::NeedCleanBuild => match build_outcome("clean", failing, 900) {
                Ok(ms) => {
                    stage = scenario_advance(&prepared, ScenarioStage::NeedCleanBuild, ms);
                }
                Err(e) => {
                    fatal = Some(e);
                    break;
                }
            },
            ScenarioStage::NeedSecondBuild { first_ms } => {
                match build_outcome("second", failing, 900) {
                    Ok(ms) => {
                        stage = scenario_advance(
                            &prepared,
                            ScenarioStage::NeedSecondBuild { first_ms },
                            ms,
                        );
                    }
                    Err(e) => {
                        fatal = Some(e);
                        break;
                    }
                }
            }
            ScenarioStage::NeedHotpatch { first_ms, second_ms } => {
                hotpatch_ran = true;
                stage = scenario_advance(
                    &prepared,
                    ScenarioStage::NeedHotpatch { first_ms, second_ms },
                    50,
                );
            }
            ScenarioStage::Finished { .. } => break,
        }
    }

    assert!(!hotpatch_ran);
    match fatal {
        Some(BenchError::BuildFailed { label, status }) => {
            assert_eq!(label, "clean");
            assert_eq!(status, ExitStatusInfo { success: false, code: Some(101) });
        }
        other => panic!("expected a clean-build failure, got {:?}", other),
    }
}

#[test]
fn hotpatch_scenario_runs_all_three_phases() {
    let prepared = hot_scenario();
    let stage = ScenarioStage::NeedCleanBuild;
    let stage = scenario_advance(&prepared, stage, 5000);
    assert!(matches!(stage, ScenarioStage::NeedSecondBuild { first_ms: 5000 }));
    let stage = scenario_advance(&prepared, stage, 700);
    assert!(matches!(
        stage,
        ScenarioStage::NeedHotpatch { first_ms: 5000, second_ms: 700 }
    ));
    let stage = scenario_advance(&prepared, stage, 42);
    match stage {
        ScenarioStage::Finished { result } => {
            assert_eq!(result.slug, prepared.slug);
            assert_eq!(result.timings.first, Some(5000));
            assert_eq!(result.timings.second, Some(700));
            assert_eq!(result.timings.hotpatch, Some(42));
        }
        other => panic!("expected a finished scenario, got {:?}", other),
    }
}

#[test]
fn plain_scenario_skips_the_hotpatch_phase() {
    let prepared = plain_scenario();
    let stage = ScenarioStage::NeedCleanBuild;
    let stage = scenario_advance(&prepared, stage, 1200);
    let stage = scenario_advance(&prepared, stage, 300);
    match stage {
        ScenarioStage::Finished { result } => {
            assert_eq!(result.slug, prepared.slug);
            assert_eq!(result.timings.first, Some(1200));
            assert_eq!(result.timings.second, Some(300));
            assert_eq!(result.timings.hotpatch, None);
        }
        other => panic!("expected a finished scenario, got {:?}", other),
    }
}

#[test]
fn run_scenario_collects_the_timings() {
    let prepared = hot_scenario();
    let result = run_scenario(&prepared, 10, 20, Some(30));
    assert_eq!(result.slug, prepared.slug);
    assert_eq!(result.timings.first, Some(10));
    assert_eq!(result.timings.second, Some(20));
    assert_eq!(result.timings.hotpatch, Some(30));
}

#[test]
fn duration_rendering() {
    assert_eq!(format_duration(None), "n/a");
    assert_eq!(format_duration(Some(0)), "0.000s");
    assert_eq!(format_duration(Some(5)), "0.005s");
    assert_eq!(format_duration(Some(12)), "0.012s");
    assert_eq!(format_duration(Some(999)), "0.999s");
    assert_eq!(format_duration(Some(1234)), "1.234s");
    assert_eq!(format_duration(Some(60000)), "60.000s");
    assert_eq!(format_duration(Some(61005)), "61.005s");
}

#[test]
fn summary_line_rendering() {
    let prepared = plain_scenario();
    let result = run_scenario(&prepared, 1234, 56, None);
    assert_eq!(
        report_line(&result),
        format!(
            "[bench] Results for {} -> clean=1.234s, second=0.056s, hotpatch=n/a",
            prepared.slug
        )
    );
}

#[test]
fn error_messages() {
    let status = ExitStatusInfo { success: false, code: Some(101) };
    let e = BenchError::BuildFailed { label: String::from("clean"), status };
    assert_eq!(e.message(), "cargo build (clean) failed with exit code 101");

    let e = BenchError::IOFailure { detail: String::from("disk full") };
    assert_eq!(e.message(), "workspace I/O failed: disk full");

    let e = BenchError::SpawnFailure { detail: String::from("not found") };
    assert_eq!(e.message(), "failed to start dev server: not found");

    let e = BenchError::Timeout { marker: String::from("M") };
    assert_eq!(e.message(), "timeout waiting for ready marker M");

    let e = BenchError::UnexpectedExit {
        stream: StreamKind::Stdout,
        status: ExitStatusInfo { success: false, code: None },
    };
    assert_eq!(e.message(), "dev server exited early (stdout) with no exit code");

    let e = BenchError::ChannelLost { status: ExitStatusInfo { success: false, code: Some(-9) } };
    assert_eq!(
        e.message(),
        "dev server output closed unexpectedly (exit code -9)"
    );
}
