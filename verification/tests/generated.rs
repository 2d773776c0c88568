//! Tests of the generated artifact texts.

use hotpatch_bench::artifacts::{
    build_cargo_config, build_cargo_toml, build_payload_main, default_toolchain, Code,
    PreparedScenario,
};
use hotpatch_bench::scenario::{ready_marker, Cache, Dynamic, Hotpatching, Linker, Scenario};
use hotpatch_bench::values::payload_value;

fn reference_payload_main(ready_marker: &str, payload_value: u64) -> String {
    format!(
        r#"use bevy::prelude::*;

const READY_MARKER: &str = "{ready_marker}";
const PAYLOAD_RANDOM_VALUE: u64 = {payload_value};

fn main() {{
    App::new()
        .add_plugins(DefaultPlugins)
        .add_systems(Startup, announce_ready)
        .add_systems(Update, heartbeat)
        .run();
}}

fn announce_ready() {{
    println!("{{}}", READY_MARKER);
    println!("PAYLOAD_RANDOM_VALUE={{}}", PAYLOAD_RANDOM_VALUE);
}}

fn heartbeat(mut ticks: Local<u32>) {{
    *ticks += 1;
    if *ticks % 600 == 0 {{
        println!("PAYLOAD_HEARTBEAT::{{}}::{{}}", READY_MARKER, *ticks);
    }}
}}
"#
    )
}

#[test]
fn payload_main_text() {
    let marker = "PAYLOAD_SYSTEM_IS_READY__x__0000000000000001";
    assert_eq!(
        build_payload_main(marker, 12345),
        reference_payload_main(marker, 12345)
    );
    assert_eq!(build_payload_main("m", 0), reference_payload_main("m", 0));
    assert_eq!(
        build_payload_main("m", u64::MAX),
        reference_payload_main("m", u64::MAX)
    );
}

#[test]
fn cargo_config_minimal() {
    let s = Scenario { linker: None, cache: None, dynamic: None, hotpatching: None };
    assert_eq!(
        build_cargo_config(&s, "sl"),
        "[build]\ntarget-dir = \"target/sl\"\n"
    );
}

#[test]
fn cargo_config_full() {
    let s = Scenario {
        linker: Some(Linker::RustLld),
        cache: Some(Cache::Sscache),
        dynamic: Some(Dynamic::ShareGenerics),
        hotpatching: None,
    };
    let expected = "[build]\ntarget-dir = \"target/sl\"\n\n[env]\nRUSTC_WRAPPER = \"sccache\"\nRUSTFLAGS = \"-Zshare-generics=y\"\n\n[target.'cfg(all())']\nlinker = \"rust-lld.exe\"\n";
    assert_eq!(build_cargo_config(&s, "sl"), expected);
}

#[test]
fn cargo_config_no_incremental() {
    let s = Scenario {
        linker: None,
        cache: Some(Cache::DisableIncremental),
        dynamic: None,
        hotpatching: None,
    };
    assert_eq!(
        build_cargo_config(&s, "sl"),
        "[build]\ntarget-dir = \"target/sl\"\n\n[env]\nCARGO_INCREMENTAL = \"0\"\n"
    );
}

fn reference_cargo_toml(slug: &str, features_clause: &str) -> String {
    format!(
        r#"[package]
name = "bench-payload-{slug}"
version = "0.1.0"
edition = "2024"

[dependencies]
bevy = {{ version = "0.17.2"{features_clause} }}

[profile.dev]
opt-level = 1

[profile.dev.package."*"]
opt-level = 3
"#
    )
}

#[test]
fn cargo_toml_without_features() {
    let s = Scenario { linker: None, cache: None, dynamic: None, hotpatching: None };
    assert_eq!(build_cargo_toml(&s, "sl"), reference_cargo_toml("sl", ""));
}

#[test]
fn cargo_toml_feature_combinations() {
    let dynamic = Scenario {
        linker: None,
        cache: None,
        dynamic: Some(Dynamic::DynamicLinking),
        hotpatching: None,
    };
    assert_eq!(
        build_cargo_toml(&dynamic, "sl"),
        reference_cargo_toml("sl", ", features = [\"dynamic_linking\"]")
    );
    let hot = Scenario {
        linker: None,
        cache: None,
        dynamic: None,
        hotpatching: Some(Hotpatching::Dx),
    };
    assert_eq!(
        build_cargo_toml(&hot, "sl"),
        reference_cargo_toml("sl", ", features = [\"hotpatching\"]")
    );
    let both = Scenario {
        linker: None,
        cache: None,
        dynamic: Some(Dynamic::DynamicLinking),
        hotpatching: Some(Hotpatching::Dx),
    };
    assert_eq!(
        build_cargo_toml(&both, "sl"),
        reference_cargo_toml("sl", ", features = [\"dynamic_linking\", \"hotpatching\"]")
    );
}

#[test]
fn toolchain_pin_text() {
    assert_eq!(
        default_toolchain(),
        "[toolchain]\nchannel = \"nightly\"\ncomponents = [\"llvm-tools-preview\"]\nprofile = \"default\"\n"
    );
}

#[test]
fn code_bundle_is_reproducible() {
    let s = Scenario {
        linker: Some(Linker::RustLld),
        cache: None,
        dynamic: Some(Dynamic::DynamicLinking),
        hotpatching: Some(Hotpatching::Dx),
    };
    let slug = s.slug();
    let seed = s.payload_seed();
    let marker = ready_marker(&slug, seed);
    let value = payload_value(seed);
    let once = Code::for_scenario(&s, &slug, &marker, value);
    let twice = Code::for_scenario(&s, &slug, &marker, value);
    assert_eq!(once.cargo_config_toml, twice.cargo_config_toml);
    assert_eq!(once.src_main_rs, twice.src_main_rs);
    assert_eq!(once.cargo_toml, twice.cargo_toml);
    assert_eq!(once.rust_toolchain_toml, twice.rust_toolchain_toml);
}

#[test]
fn prepared_scenario_fields_are_consistent() {
    let s = Scenario {
        linker: None,
        cache: Some(Cache::Sscache),
        dynamic: None,
        hotpatching: Some(Hotpatching::Dx),
    };
    let p = PreparedScenario::new(s);
    let seed = s.payload_seed();
    assert_eq!(p.scenario, s);
    assert_eq!(p.slug, s.slug());
    assert_eq!(p.ready_marker, ready_marker(&p.slug, seed));
    assert_eq!(p.payload_value, payload_value(seed));
    assert_eq!(p.code.src_main_rs, build_payload_main(&p.ready_marker, p.payload_value));
    assert_eq!(p.code.cargo_toml, build_cargo_toml(&s, &p.slug));
    assert_eq!(p.code.cargo_config_toml, build_cargo_config(&s, &p.slug));
    assert_eq!(p.code.rust_toolchain_toml, default_toolchain());
}
