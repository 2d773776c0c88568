//! The generated project artifacts for one scenario: build configuration,
//! source file, manifest and toolchain pin, together with the prepared
//! scenario that bundles them.

use vstd::prelude::*;
use vstd::string::StringExecFns;

use crate::scenario::{
    ready_marker, spec_payload_seed, spec_ready_marker, spec_scenario_at, spec_slug, Cache,
    Dynamic, Hotpatching, Linker, Scenario,
};
use crate::text::spec_decimal;
use crate::text::decimal_string;
use crate::values::{payload_value, spec_payload_value};
use crate::scenario::enumerate_scenarios;

verus! {

// ---------------------------------------------------------------------------
// Generated source file
// ---------------------------------------------------------------------------

pub open spec fn spec_payload_main_head() -> Seq<char> {
    "use bevy::prelude::*;\n\nconst READY_MARKER: &str = \""@
}

pub open spec fn spec_payload_main_mid() -> Seq<char> {
    "\";\nconst PAYLOAD_RANDOM_VALUE: u64 = "@
}

pub open spec fn spec_payload_main_tail() -> Seq<char> {
    ";\n\nfn main() {\n    App::new()\n        .add_plugins(DefaultPlugins)\n        .add_systems(Startup, announce_ready)\n        .add_systems(Update, heartbeat)\n        .run();\n}\n\nfn announce_ready() {\n    println!(\"{}\", READY_MARKER);\n    println!(\"PAYLOAD_RANDOM_VALUE={}\", PAYLOAD_RANDOM_VALUE);\n}\n\nfn heartbeat(mut ticks: Local<u32>) {\n    *ticks += 1;\n    if *ticks % 600 == 0 {\n        println!(\"PAYLOAD_HEARTBEAT::{}::{}\", READY_MARKER, *ticks);\n    }\n}\n"@
}

/// The generated source text: it embeds the ready marker as a string
/// constant and the payload value as a numeric constant, prints both on
/// startup, and emits a periodic heartbeat.
pub open spec fn spec_payload_main(marker: Seq<char>, value: u64) -> Seq<char> {
    spec_payload_main_head() + marker + spec_payload_main_mid() + spec_decimal(value)
        + spec_payload_main_tail()
}

/// Renders the generated source file for the given marker and payload value.
pub fn build_payload_main(ready_marker: &str, payload_value: u64) -> (s: String)
    ensures
        s@ == spec_payload_main(ready_marker@, payload_value),
{
    let mut s = String::from_str("use bevy::prelude::*;\n\nconst READY_MARKER: &str = \"");
    s.append(ready_marker);
    s.append("\";\nconst PAYLOAD_RANDOM_VALUE: u64 = ");
    let dec = decimal_string(payload_value);
    s.append(dec.as_str());
    s.append(
        ";\n\nfn main() {\n    App::new()\n        .add_plugins(DefaultPlugins)\n        .add_systems(Startup, announce_ready)\n        .add_systems(Update, heartbeat)\n        .run();\n}\n\nfn announce_ready() {\n    println!(\"{}\", READY_MARKER);\n    println!(\"PAYLOAD_RANDOM_VALUE={}\", PAYLOAD_RANDOM_VALUE);\n}\n\nfn heartbeat(mut ticks: Local<u32>) {\n    *ticks += 1;\n    if *ticks % 600 == 0 {\n        println!(\"PAYLOAD_HEARTBEAT::{}::{}\", READY_MARKER, *ticks);\n    }\n}\n",
    );
    proof {
        assert(s@ =~= spec_payload_main(ready_marker@, payload_value));
    }
    s
}

// ---------------------------------------------------------------------------
// Generated build configuration
// ---------------------------------------------------------------------------

pub open spec fn spec_cache_env_line(c: Option<Cache>) -> Seq<char> {
    match c {
        Some(Cache::DisableIncremental) => "CARGO_INCREMENTAL = \"0\"\n"@,
        Some(Cache::Sscache) => "RUSTC_WRAPPER = \"sccache\"\n"@,
        None => Seq::empty(),
    }
}

pub open spec fn spec_rustflags_env_line(d: Option<Dynamic>) -> Seq<char> {
    if d matches Some(Dynamic::ShareGenerics) {
        "RUSTFLAGS = \"-Zshare-generics=y\"\n"@
    } else {
        Seq::empty()
    }
}

/// Whether the scenario asks for any environment override at all.
pub open spec fn spec_has_env(s: Scenario) -> bool {
    s.cache is Some || s.dynamic matches Some(Dynamic::ShareGenerics)
}

pub open spec fn spec_env_section(s: Scenario) -> Seq<char> {
    if spec_has_env(s) {
        "\n[env]\n"@ + spec_cache_env_line(s.cache) + spec_rustflags_env_line(s.dynamic)
    } else {
        Seq::empty()
    }
}

pub open spec fn spec_linker_section(l: Option<Linker>) -> Seq<char> {
    if l matches Some(Linker::RustLld) {
        "\n[target.'cfg(all())']\nlinker = \"rust-lld.exe\"\n"@
    } else {
        Seq::empty()
    }
}

/// The generated build-config text: an isolated output directory keyed by
/// slug, the environment overrides the scenario selects, and the alternate
/// linker where selected.
pub open spec fn spec_cargo_config(s: Scenario, slug: Seq<char>) -> Seq<char> {
    "[build]\ntarget-dir = \"target/"@ + slug + "\"\n"@ + spec_env_section(s)
        + spec_linker_section(s.linker)
}

fn cache_env_line(c: Option<Cache>) -> (t: &'static str)
    ensures
        t@ == spec_cache_env_line(c),
{
    proof {
        reveal_strlit("");
        assert(""@ =~= Seq::<char>::empty());
    }
    match c {
        Some(Cache::DisableIncremental) => "CARGO_INCREMENTAL = \"0\"\n",
        Some(Cache::Sscache) => "RUSTC_WRAPPER = \"sccache\"\n",
        None => "",
    }
}

fn rustflags_env_line(d: Option<Dynamic>) -> (t: &'static str)
    ensures
        t@ == spec_rustflags_env_line(d),
{
    proof {
        reveal_strlit("");
        assert(""@ =~= Seq::<char>::empty());
    }
    match d {
        Some(Dynamic::ShareGenerics) => "RUSTFLAGS = \"-Zshare-generics=y\"\n",
        _ => "",
    }
}

/// Renders the generated build-config file for the given scenario and slug.
pub fn build_cargo_config(scenario: &Scenario, slug: &str) -> (s: String)
    ensures
        s@ == spec_cargo_config(*scenario, slug@),
{
    let mut s = String::from_str("[build]\ntarget-dir = \"target/");
    s.append(slug);
    s.append("\"\n");
    let ghost base = "[build]\ntarget-dir = \"target/"@ + slug@ + "\"\n"@;
    proof {
        assert(s@ =~= base);
    }
    let share_generics = match scenario.dynamic {
        Some(Dynamic::ShareGenerics) => true,
        _ => false,
    };
    let has_env = scenario.cache.is_some() || share_generics;
    if has_env {
        s.append("\n[env]\n");
        s.append(cache_env_line(scenario.cache));
        s.append(rustflags_env_line(scenario.dynamic));
        proof {
            assert(s@ =~= base + spec_env_section(*scenario));
        }
    } else {
        proof {
            assert(s@ =~= base + spec_env_section(*scenario));
        }
    }
    let rust_lld = match scenario.linker {
        Some(Linker::RustLld) => true,
        None => false,
    };
    if rust_lld {
        s.append("\n[target.'cfg(all())']\nlinker = \"rust-lld.exe\"\n");
    }
    proof {
        assert(s@ =~= base + spec_env_section(*scenario) + spec_linker_section(scenario.linker));
        assert(s@ =~= spec_cargo_config(*scenario, slug@));
    }
    s
}

// ---------------------------------------------------------------------------
// Generated manifest
// ---------------------------------------------------------------------------

/// The feature clause of the pinned framework dependency: present only when
/// the scenario selects dynamic linking or hot-patching.
pub open spec fn spec_features_clause(s: Scenario) -> Seq<char> {
    let dynamic_linking = s.dynamic matches Some(Dynamic::DynamicLinking);
    let hotpatching = s.hotpatching matches Some(Hotpatching::Dx);
    if dynamic_linking && hotpatching {
        ", features = [\"dynamic_linking\", \"hotpatching\"]"@
    } else if dynamic_linking {
        ", features = [\"dynamic_linking\"]"@
    } else if hotpatching {
        ", features = [\"hotpatching\"]"@
    } else {
        Seq::empty()
    }
}

pub open spec fn spec_cargo_toml_head() -> Seq<char> {
    "[package]\nname = \"bench-payload-"@
}

pub open spec fn spec_cargo_toml_mid() -> Seq<char> {
    "\"\nversion = \"0.1.0\"\nedition = \"2024\"\n\n[dependencies]\nbevy = { version = \"0.17.2\""@
}

pub open spec fn spec_cargo_toml_tail() -> Seq<char> {
    " }\n\n[profile.dev]\nopt-level = 1\n\n[profile.dev.package.\"*\"]\nopt-level = 3\n"@
}

/// The generated manifest text: package identity keyed by slug and the
/// pinned framework dependency with the scenario's feature flags.
pub open spec fn spec_cargo_toml(s: Scenario, slug: Seq<char>) -> Seq<char> {
    spec_cargo_toml_head() + slug + spec_cargo_toml_mid() + spec_features_clause(s)
        + spec_cargo_toml_tail()
}

/// Renders the generated manifest file for the given scenario and slug.
pub fn build_cargo_toml(scenario: &Scenario, slug: &str) -> (s: String)
    ensures
        s@ == spec_cargo_toml(*scenario, slug@),
{
    let mut s = String::from_str("[package]\nname = \"bench-payload-");
    s.append(slug);
    s.append(
        "\"\nversion = \"0.1.0\"\nedition = \"2024\"\n\n[dependencies]\nbevy = { version = \"0.17.2\"",
    );
    s.append(features_clause(scenario));
    s.append(" }\n\n[profile.dev]\nopt-level = 1\n\n[profile.dev.package.\"*\"]\nopt-level = 3\n");
    proof {
        assert(s@ =~= spec_cargo_toml(*scenario, slug@));
    }
    s
}

fn features_clause(scenario: &Scenario) -> (t: &'static str)
    ensures
        t@ == spec_features_clause(*scenario),
{
    proof {
        reveal_strlit("");
        assert(""@ =~= Seq::<char>::empty());
    }
    let dynamic_linking = match scenario.dynamic {
        Some(Dynamic::DynamicLinking) => true,
        _ => false,
    };
    let hotpatching = match scenario.hotpatching {
        Some(Hotpatching::Dx) => true,
        None => false,
    };
    if dynamic_linking && hotpatching {
        ", features = [\"dynamic_linking\", \"hotpatching\"]"
    } else if dynamic_linking {
        ", features = [\"dynamic_linking\"]"
    } else if hotpatching {
        ", features = [\"hotpatching\"]"
    } else {
        ""
    }
}

// ---------------------------------------------------------------------------
// Generated toolchain pin
// ---------------------------------------------------------------------------

/// The toolchain-pin text, constant across all scenarios.
pub open spec fn spec_default_toolchain() -> Seq<char> {
    "[toolchain]\nchannel = \"nightly\"\ncomponents = [\"llvm-tools-preview\"]\nprofile = \"default\"\n"@
}

/// Renders the toolchain-pin file.
pub fn default_toolchain() -> (s: String)
    ensures
        s@ == spec_default_toolchain(),
{
    String::from_str(
        "[toolchain]\nchannel = \"nightly\"\ncomponents = [\"llvm-tools-preview\"]\nprofile = \"default\"\n",
    )
}

// ---------------------------------------------------------------------------
// The bundle
// ---------------------------------------------------------------------------

/// The four generated artifact contents for one scenario: pure data.
#[derive(Debug, Clone)]
pub struct Code {
    pub cargo_config_toml: String,
    pub src_main_rs: String,
    pub cargo_toml: String,
    pub rust_toolchain_toml: String,
}

/// What each artifact of a bundle must read, given the scenario, its slug,
/// its ready marker and its payload value.
pub open spec fn code_matches(
    c: Code,
    s: Scenario,
    slug: Seq<char>,
    marker: Seq<char>,
    value: u64,
) -> bool {
    &&& c.cargo_config_toml@ == spec_cargo_config(s, slug)
    &&& c.src_main_rs@ == spec_payload_main(marker, value)
    &&& c.cargo_toml@ == spec_cargo_toml(s, slug)
    &&& c.rust_toolchain_toml@ == spec_default_toolchain()
}

impl Code {
    /// Generates the artifact bundle for one scenario.
    pub fn for_scenario(scenario: &Scenario, slug: &str, ready_marker: &str, payload_value: u64) -> (c:
        Code)
        ensures
            code_matches(c, *scenario, slug@, ready_marker@, payload_value),
    {
        Code {
            cargo_config_toml: build_cargo_config(scenario, slug),
            src_main_rs: build_payload_main(ready_marker, payload_value),
            cargo_toml: build_cargo_toml(scenario, slug),
            rust_toolchain_toml: default_toolchain(),
        }
    }
}

/// Artifact generation is deterministic: two bundles generated from the same
/// scenario, slug, marker and payload value are byte-identical. Only the
/// hot-patch mutation, which regenerates the source artifact with a new
/// payload value, makes a generated text differ.
pub proof fn lemma_code_bundle_deterministic(
    s: Scenario,
    slug: Seq<char>,
    marker: Seq<char>,
    value: u64,
    c1: Code,
    c2: Code,
)
    requires
        code_matches(c1, s, slug, marker, value),
        code_matches(c2, s, slug, marker, value),
    ensures
        c1.cargo_config_toml@ == c2.cargo_config_toml@,
        c1.src_main_rs@ == c2.src_main_rs@,
        c1.cargo_toml@ == c2.cargo_toml@,
        c1.rust_toolchain_toml@ == c2.rust_toolchain_toml@,
{
}

// ---------------------------------------------------------------------------
// Prepared scenarios
// ---------------------------------------------------------------------------

/// A scenario plus everything derived from it before execution.
#[derive(Debug, Clone)]
pub struct PreparedScenario {
    pub scenario: Scenario,
    pub slug: String,
    pub ready_marker: String,
    pub payload_value: u64,
    pub code: Code,
}

/// Every derived field of a prepared scenario agrees with its scenario.
pub open spec fn prepared_wf(p: PreparedScenario) -> bool {
    &&& p.slug@ == spec_slug(p.scenario)
    &&& p.ready_marker@ == spec_ready_marker(spec_slug(p.scenario), spec_payload_seed(p.scenario))
    &&& p.payload_value == spec_payload_value(spec_payload_seed(p.scenario))
    &&& code_matches(
        p.code,
        p.scenario,
        spec_slug(p.scenario),
        p.ready_marker@,
        p.payload_value,
    )
}

impl PreparedScenario {
    /// Derives slug, ready marker, payload value and artifact bundle for one
    /// scenario.
    pub fn new(scenario: Scenario) -> (p: PreparedScenario)
        ensures
            p.scenario == scenario,
            prepared_wf(p),
    {
        let slug = scenario.slug();
        let seed = scenario.payload_seed();
        let marker = ready_marker(slug.as_str(), seed);
        let value = payload_value(seed);
        let code = Code::for_scenario(&scenario, slug.as_str(), marker.as_str(), value);
        PreparedScenario { scenario, slug, ready_marker: marker, payload_value: value, code }
    }
}

/// Enumerates the matrix and derives a prepared scenario for each entry.
pub fn prepare_scenarios() -> (prepared: Vec<PreparedScenario>)
    ensures
        prepared@.len() == 36,
        forall|k: int|
            0 <= k < 36 ==> (#[trigger] prepared@[k]).scenario == spec_scenario_at(k)
                && prepared_wf(prepared@[k]),
{
    let scenarios = enumerate_scenarios();
    let mut prepared: Vec<PreparedScenario> = Vec::new();
    let mut i: usize = 0;
    while i < scenarios.len()
        invariant
            scenarios@.len() == 36,
            forall|k: int| 0 <= k < 36 ==> scenarios@[k] == spec_scenario_at(k),
            i <= 36,
            prepared@.len() == i,
            forall|k: int|
                0 <= k < i ==> (#[trigger] prepared@[k]).scenario == spec_scenario_at(k)
                    && prepared_wf(prepared@[k]),
        decreases 36 - i,
    {
        let p = PreparedScenario::new(scenarios[i]);
        prepared.push(p);
        i = i + 1;
    }
    prepared
}

} // verus!

