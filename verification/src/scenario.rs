//! The configuration tuple, the identifiers derived from it, and the
//! enumeration of the full configuration matrix.

use vstd::prelude::*;
use vstd::arithmetic::div_mod::lemma_fundamental_div_mod_converse;
use vstd::string::StringExecFns;

use crate::text::{hex16_string, spec_hex16};
use crate::text::lemma_hex16_injective;
use crate::values::PAYLOAD_GOLDEN;

verus! {

/// Linker choice for one scenario.
#[derive(Debug, Clone, Copy, PartialEq, Eq, Hash, Structural)]
pub enum Linker {
    RustLld,
}

/// Compilation caching strategy for one scenario.
#[derive(Debug, Clone, Copy, PartialEq, Eq, Hash, Structural)]
pub enum Cache {
    DisableIncremental,
    Sscache,
}

/// Code-generation / dynamic-linking strategy for one scenario.
#[derive(Debug, Clone, Copy, PartialEq, Eq, Hash, Structural)]
pub enum Dynamic {
    DynamicLinking,
    ShareGenerics,
}

/// Hot-patching mode for one scenario.
#[derive(Debug, Clone, Copy, PartialEq, Eq, Hash, Structural)]
pub enum Hotpatching {
    Dx,
}

/// One point in the configuration matrix: four independent optional choices.
#[derive(Debug, Clone, Copy, PartialEq, Eq, Hash, Structural)]
pub struct Scenario {
    pub linker: Option<Linker>,
    pub cache: Option<Cache>,
    pub dynamic: Option<Dynamic>,
    pub hotpatching: Option<Hotpatching>,
}

// ---------------------------------------------------------------------------
// Slug derivation
// ---------------------------------------------------------------------------

pub open spec fn spec_linker_token(l: Option<Linker>) -> Seq<char> {
    match l {
        Some(Linker::RustLld) => "rust-lld"@,
        None => "default-linker"@,
    }
}

pub open spec fn spec_cache_token(c: Option<Cache>) -> Seq<char> {
    match c {
        Some(Cache::DisableIncremental) => "no-incremental"@,
        Some(Cache::Sscache) => "sscache"@,
        None => "incremental"@,
    }
}

pub open spec fn spec_dynamic_token(d: Option<Dynamic>) -> Seq<char> {
    match d {
        Some(Dynamic::DynamicLinking) => "dynamic-linking"@,
        Some(Dynamic::ShareGenerics) => "share-generics"@,
        None => "default-dynamic"@,
    }
}

pub open spec fn spec_hotpatch_token(h: Option<Hotpatching>) -> Seq<char> {
    match h {
        Some(Hotpatching::Dx) => "dx-hotpatch"@,
        None => "no-hotpatch"@,
    }
}

/// The scenario's deterministic human-readable identifier: the four field
/// tokens in configuration order, joined with `-`.
pub open spec fn spec_slug(s: Scenario) -> Seq<char> {
    spec_linker_token(s.linker) + "-"@ + spec_cache_token(s.cache) + "-"@ + spec_dynamic_token(
        s.dynamic,
    ) + "-"@ + spec_hotpatch_token(s.hotpatching)
}

fn linker_token(l: Option<Linker>) -> (t: &'static str)
    ensures
        t@ == spec_linker_token(l),
{
    match l {
        Some(Linker::RustLld) => "rust-lld",
        None => "default-linker",
    }
}

fn cache_token(c: Option<Cache>) -> (t: &'static str)
    ensures
        t@ == spec_cache_token(c),
{
    match c {
        Some(Cache::DisableIncremental) => "no-incremental",
        Some(Cache::Sscache) => "sscache",
        None => "incremental",
    }
}

fn dynamic_token(d: Option<Dynamic>) -> (t: &'static str)
    ensures
        t@ == spec_dynamic_token(d),
{
    match d {
        Some(Dynamic::DynamicLinking) => "dynamic-linking",
        Some(Dynamic::ShareGenerics) => "share-generics",
        None => "default-dynamic",
    }
}

fn hotpatch_token(h: Option<Hotpatching>) -> (t: &'static str)
    ensures
        t@ == spec_hotpatch_token(h),
{
    match h {
        Some(Hotpatching::Dx) => "dx-hotpatch",
        None => "no-hotpatch",
    }
}

// ---------------------------------------------------------------------------
// Seed derivation
// ---------------------------------------------------------------------------

pub open spec fn spec_linker_index(l: Option<Linker>) -> int {
    match l {
        None => 0,
        Some(Linker::RustLld) => 1,
    }
}

pub open spec fn spec_cache_index(c: Option<Cache>) -> int {
    match c {
        None => 0,
        Some(Cache::DisableIncremental) => 1,
        Some(Cache::Sscache) => 2,
    }
}

pub open spec fn spec_dynamic_index(d: Option<Dynamic>) -> int {
    match d {
        None => 0,
        Some(Dynamic::DynamicLinking) => 1,
        Some(Dynamic::ShareGenerics) => 2,
    }
}

pub open spec fn spec_hotpatch_index(h: Option<Hotpatching>) -> int {
    match h {
        None => 0,
        Some(Hotpatching::Dx) => 1,
    }
}

/// The scenario's position in the enumerated matrix: a mixed-radix encoding
/// of the four fields, linker most significant.
pub open spec fn spec_encode(s: Scenario) -> int {
    spec_linker_index(s.linker) * 18 + spec_cache_index(s.cache) * 6 + spec_dynamic_index(
        s.dynamic,
    ) * 2 + spec_hotpatch_index(s.hotpatching)
}

/// A stable 64-bit seed over all four fields: golden-ratio mixing in the high
/// bits, with the matrix position kept verbatim in the low six bits so that
/// distinct scenarios always receive distinct seeds.
pub open spec fn spec_payload_seed(s: Scenario) -> u64 {
    let e = spec_encode(s) as u64;
    let h = ((spec_encode(s) + 1) as u64).wrapping_mul(PAYLOAD_GOLDEN);
    (h & 0xffff_ffff_ffff_ffc0) | e
}

pub proof fn lemma_encode_bounds(s: Scenario)
    ensures
        0 <= spec_encode(s) < 36,
{
}

// ---------------------------------------------------------------------------
// Matrix decoding
// ---------------------------------------------------------------------------

pub open spec fn spec_linker_of(i: int) -> Option<Linker> {
    if i == 0 {
        None
    } else {
        Some(Linker::RustLld)
    }
}

pub open spec fn spec_cache_of(i: int) -> Option<Cache> {
    if i == 0 {
        None
    } else if i == 1 {
        Some(Cache::DisableIncremental)
    } else {
        Some(Cache::Sscache)
    }
}

pub open spec fn spec_dynamic_of(i: int) -> Option<Dynamic> {
    if i == 0 {
        None
    } else if i == 1 {
        Some(Dynamic::DynamicLinking)
    } else {
        Some(Dynamic::ShareGenerics)
    }
}

pub open spec fn spec_hotpatch_of(i: int) -> Option<Hotpatching> {
    if i == 0 {
        None
    } else {
        Some(Hotpatching::Dx)
    }
}

/// The scenario standing at position `k` of the enumerated matrix.
pub open spec fn spec_scenario_at(k: int) -> Scenario {
    Scenario {
        linker: spec_linker_of(k / 18),
        cache: spec_cache_of((k / 6) % 3),
        dynamic: spec_dynamic_of((k / 2) % 3),
        hotpatching: spec_hotpatch_of(k % 2),
    }
}

/// Decoding a scenario's matrix position yields the scenario back: the
/// position determines the whole configuration tuple.
pub proof fn lemma_encode_decode(s: Scenario)
    ensures
        spec_scenario_at(spec_encode(s)) == s,
{
    let li = spec_linker_index(s.linker);
    let ci = spec_cache_index(s.cache);
    let di = spec_dynamic_index(s.dynamic);
    let hi = spec_hotpatch_index(s.hotpatching);
    let k = spec_encode(s);
    lemma_fundamental_div_mod_converse(k, 18, li, ci * 6 + di * 2 + hi);
    lemma_fundamental_div_mod_converse(k, 6, li * 3 + ci, di * 2 + hi);
    lemma_fundamental_div_mod_converse(li * 3 + ci, 3, li, ci);
    lemma_fundamental_div_mod_converse(k, 2, li * 9 + ci * 3 + di, hi);
    lemma_fundamental_div_mod_converse(li * 9 + ci * 3 + di, 3, li * 3 + ci, di);
    assert(spec_linker_of(k / 18) == s.linker);
    assert(spec_cache_of((k / 6) % 3) == s.cache);
    assert(spec_dynamic_of((k / 2) % 3) == s.dynamic);
    assert(spec_hotpatch_of(k % 2) == s.hotpatching);
}

/// Distinct scenarios receive distinct seeds: the matrix position survives in
/// the low six bits of the seed.
pub proof fn lemma_payload_seed_injective(s1: Scenario, s2: Scenario)
    requires
        spec_payload_seed(s1) == spec_payload_seed(s2),
    ensures
        s1 == s2,
{
    let e1 = spec_encode(s1) as u64;
    let e2 = spec_encode(s2) as u64;
    let h1 = ((spec_encode(s1) + 1) as u64).wrapping_mul(PAYLOAD_GOLDEN);
    let h2 = ((spec_encode(s2) + 1) as u64).wrapping_mul(PAYLOAD_GOLDEN);
    assert(((h1 & 0xffff_ffff_ffff_ffc0) | e1) & 0x3f == e1) by (bit_vector)
        requires
            e1 < 64,
    ;
    assert(((h2 & 0xffff_ffff_ffff_ffc0) | e2) & 0x3f == e2) by (bit_vector)
        requires
            e2 < 64,
    ;
    assert(spec_encode(s1) == spec_encode(s2));
    lemma_encode_decode(s1);
    lemma_encode_decode(s2);
}

// ---------------------------------------------------------------------------
// Scenario methods
// ---------------------------------------------------------------------------

pub open spec fn spec_linker_label(l: Option<Linker>) -> Seq<char> {
    match l {
        Some(Linker::RustLld) => "rust-lld"@,
        None => "default"@,
    }
}

pub open spec fn spec_cache_label(c: Option<Cache>) -> Seq<char> {
    match c {
        Some(Cache::DisableIncremental) => "no-incremental"@,
        Some(Cache::Sscache) => "sscache"@,
        None => "incremental"@,
    }
}

pub open spec fn spec_dynamic_label(d: Option<Dynamic>) -> Seq<char> {
    match d {
        Some(Dynamic::DynamicLinking) => "dynamic-linking"@,
        Some(Dynamic::ShareGenerics) => "share-generics"@,
        None => "default"@,
    }
}

pub open spec fn spec_hotpatch_label(h: Option<Hotpatching>) -> Seq<char> {
    match h {
        Some(Hotpatching::Dx) => "dx"@,
        None => "none"@,
    }
}

/// The one-line rendering of the four fields shown before a scenario runs.
pub open spec fn spec_describe(s: Scenario) -> Seq<char> {
    "linker="@ + spec_linker_label(s.linker) + ", cache="@ + spec_cache_label(s.cache)
        + ", dynamic="@ + spec_dynamic_label(s.dynamic) + ", hotpatch="@ + spec_hotpatch_label(
        s.hotpatching,
    )
}

impl Scenario {
    /// Renders the deterministic identifier for this configuration tuple.
    pub fn slug(&self) -> (s: String)
        ensures
            s@ == spec_slug(*self),
    {
        let mut s = String::from_str(linker_token(self.linker));
        s.append("-");
        s.append(cache_token(self.cache));
        s.append("-");
        s.append(dynamic_token(self.dynamic));
        s.append("-");
        s.append(hotpatch_token(self.hotpatching));
        proof {
            assert(s@ =~= spec_slug(*self));
        }
        s
    }

    /// A stable 64-bit seed derived from all four fields.
    pub fn payload_seed(&self) -> (seed: u64)
        ensures
            seed == spec_payload_seed(*self),
    {
        let e = self.encode_index();
        let h = (e + 1).wrapping_mul(PAYLOAD_GOLDEN);
        (h & 0xffff_ffff_ffff_ffc0) | e
    }

    fn encode_index(&self) -> (e: u64)
        ensures
            e == spec_encode(*self),
            e < 36,
    {
        let li: u64 = match self.linker {
            None => 0,
            Some(Linker::RustLld) => 1,
        };
        let ci: u64 = match self.cache {
            None => 0,
            Some(Cache::DisableIncremental) => 1,
            Some(Cache::Sscache) => 2,
        };
        let di: u64 = match self.dynamic {
            None => 0,
            Some(Dynamic::DynamicLinking) => 1,
            Some(Dynamic::ShareGenerics) => 2,
        };
        let hi: u64 = match self.hotpatching {
            None => 0,
            Some(Hotpatching::Dx) => 1,
        };
        li * 18 + ci * 6 + di * 2 + hi
    }

    /// Renders the operator-facing summary of the four fields.
    pub fn describe(&self) -> (d: String)
        ensures
            d@ == spec_describe(*self),
    {
        let mut d = String::from_str("linker=");
        d.append(self.linker_label());
        d.append(", cache=");
        d.append(self.cache_label());
        d.append(", dynamic=");
        d.append(self.dynamic_label());
        d.append(", hotpatch=");
        d.append(self.hotpatch_label());
        proof {
            assert(d@ =~= spec_describe(*self));
        }
        d
    }

    pub fn linker_label(&self) -> (l: &'static str)
        ensures
            l@ == spec_linker_label(self.linker),
    {
        match self.linker {
            Some(Linker::RustLld) => "rust-lld",
            None => "default",
        }
    }

    pub fn cache_label(&self) -> (l: &'static str)
        ensures
            l@ == spec_cache_label(self.cache),
    {
        match self.cache {
            Some(Cache::DisableIncremental) => "no-incremental",
            Some(Cache::Sscache) => "sscache",
            None => "incremental",
        }
    }

    pub fn dynamic_label(&self) -> (l: &'static str)
        ensures
            l@ == spec_dynamic_label(self.dynamic),
    {
        match self.dynamic {
            Some(Dynamic::DynamicLinking) => "dynamic-linking",
            Some(Dynamic::ShareGenerics) => "share-generics",
            None => "default",
        }
    }

    pub fn hotpatch_label(&self) -> (l: &'static str)
        ensures
            l@ == spec_hotpatch_label(self.hotpatching),
    {
        match self.hotpatching {
            Some(Hotpatching::Dx) => "dx",
            None => "none",
        }
    }
}

// ---------------------------------------------------------------------------
// Ready marker
// ---------------------------------------------------------------------------

/// The string a spawned process must emit once initialized: a fixed prefix,
/// the slug, and the seed as 16 hexadecimal characters.
pub open spec fn spec_ready_marker(slug: Seq<char>, seed: u64) -> Seq<char> {
    "PAYLOAD_SYSTEM_IS_READY__"@ + slug + "__"@ + spec_hex16(seed)
}

/// Formats the ready marker for one scenario.
pub fn ready_marker(slug: &str, seed: u64) -> (m: String)
    ensures
        m@ == spec_ready_marker(slug@, seed),
{
    let mut m = String::from_str("PAYLOAD_SYSTEM_IS_READY__");
    m.append(slug);
    m.append("__");
    let hex = hex16_string(seed);
    m.append(hex.as_str());
    proof {
        assert(m@ =~= spec_ready_marker(slug@, seed));
    }
    m
}

/// No two distinct configuration tuples produce the same ready marker: the
/// marker ends in the 16 hexadecimal characters of the seed, and distinct
/// scenarios receive distinct seeds.
pub proof fn lemma_ready_marker_unique(s1: Scenario, s2: Scenario)
    requires
        s1 != s2,
    ensures
        spec_ready_marker(spec_slug(s1), spec_payload_seed(s1)) != spec_ready_marker(
            spec_slug(s2),
            spec_payload_seed(s2),
        ),
{
    let seed1 = spec_payload_seed(s1);
    let seed2 = spec_payload_seed(s2);
    let m1 = spec_ready_marker(spec_slug(s1), seed1);
    let m2 = spec_ready_marker(spec_slug(s2), seed2);
    if m1 == m2 {
        let a1 = "PAYLOAD_SYSTEM_IS_READY__"@ + spec_slug(s1) + "__"@;
        let a2 = "PAYLOAD_SYSTEM_IS_READY__"@ + spec_slug(s2) + "__"@;
        assert(m1.len() == a1.len() + 16);
        assert(m2.len() == a2.len() + 16);
        let n = m1.len() as int;
        assert(m1.subrange(n - 16, n) =~= spec_hex16(seed1));
        assert(m2.subrange(n - 16, n) =~= spec_hex16(seed2));
        lemma_hex16_injective(seed1, seed2);
        lemma_payload_seed_injective(s1, s2);
    }
}

/// Across the generated matrix, ready markers are unique: no two positions
/// of the matrix derive the same marker.
pub proof fn lemma_matrix_markers_distinct(j: int, k: int)
    requires
        0 <= j < 36,
        0 <= k < 36,
        j != k,
    ensures
        spec_ready_marker(
            spec_slug(spec_scenario_at(j)),
            spec_payload_seed(spec_scenario_at(j)),
        ) != spec_ready_marker(
            spec_slug(spec_scenario_at(k)),
            spec_payload_seed(spec_scenario_at(k)),
        ),
{
    lemma_matrix_distinct(j, k);
    lemma_ready_marker_unique(spec_scenario_at(j), spec_scenario_at(k));
}

/// The slug is a pure function of the configuration tuple: deriving it twice
/// from equal tuples yields identical strings.
pub proof fn lemma_slug_deterministic(s1: Scenario, s2: Scenario)
    requires
        s1 == s2,
    ensures
        spec_slug(s1) == spec_slug(s2),
{
}

// ---------------------------------------------------------------------------
// Matrix enumeration
// ---------------------------------------------------------------------------

fn linker_of(i: usize) -> (l: Option<Linker>)
    ensures
        l == spec_linker_of(i as int),
{
    if i == 0 {
        None
    } else {
        Some(Linker::RustLld)
    }
}

fn cache_of(i: usize) -> (c: Option<Cache>)
    ensures
        c == spec_cache_of(i as int),
{
    if i == 0 {
        None
    } else if i == 1 {
        Some(Cache::DisableIncremental)
    } else {
        Some(Cache::Sscache)
    }
}

fn dynamic_of(i: usize) -> (d: Option<Dynamic>)
    ensures
        d == spec_dynamic_of(i as int),
{
    if i == 0 {
        None
    } else if i == 1 {
        Some(Dynamic::DynamicLinking)
    } else {
        Some(Dynamic::ShareGenerics)
    }
}

/// Enumerates the full configuration matrix: the cartesian product of the
/// four dimensions, each combination emitted once without hot-patching and
/// immediately after with hot-patching requested.
pub fn enumerate_scenarios() -> (scenarios: Vec<Scenario>)
    ensures
        scenarios@.len() == 36,
        forall|k: int| 0 <= k < 36 ==> scenarios@[k] == spec_scenario_at(k),
{
    let mut scenarios: Vec<Scenario> = Vec::new();
    let mut li: usize = 0;
    while li < 2
        invariant
            li <= 2,
            scenarios@.len() == li * 18,
            forall|k: int| 0 <= k < scenarios@.len() ==> scenarios@[k] == spec_scenario_at(k),
        decreases 2 - li,
    {
        let mut ci: usize = 0;
        while ci < 3
            invariant
                li < 2,
                ci <= 3,
                scenarios@.len() == li * 18 + ci * 6,
                forall|k: int| 0 <= k < scenarios@.len() ==> scenarios@[k] == spec_scenario_at(k),
            decreases 3 - ci,
        {
            let mut di: usize = 0;
            while di < 3
                invariant
                    li < 2,
                    ci < 3,
                    di <= 3,
                    scenarios@.len() == li * 18 + ci * 6 + di * 2,
                    forall|k: int|
                        0 <= k < scenarios@.len() ==> scenarios@[k] == spec_scenario_at(k),
                decreases 3 - di,
            {
                let base = Scenario {
                    linker: linker_of(li),
                    cache: cache_of(ci),
                    dynamic: dynamic_of(di),
                    hotpatching: None,
                };
                let hot = Scenario {
                    linker: base.linker,
                    cache: base.cache,
                    dynamic: base.dynamic,
                    hotpatching: Some(Hotpatching::Dx),
                };
                proof {
                    let k = scenarios@.len() as int;
                    let li_ = li as int;
                    let ci_ = ci as int;
                    let di_ = di as int;
                    lemma_fundamental_div_mod_converse(k, 18, li_, ci_ * 6 + di_ * 2);
                    lemma_fundamental_div_mod_converse(k, 6, li_ * 3 + ci_, di_ * 2);
                    lemma_fundamental_div_mod_converse(li_ * 3 + ci_, 3, li_, ci_);
                    lemma_fundamental_div_mod_converse(k, 2, li_ * 9 + ci_ * 3 + di_, 0);
                    lemma_fundamental_div_mod_converse(
                        li_ * 9 + ci_ * 3 + di_,
                        3,
                        li_ * 3 + ci_,
                        di_,
                    );
                    assert(spec_scenario_at(k) == base);
                    lemma_fundamental_div_mod_converse(k + 1, 18, li_, ci_ * 6 + di_ * 2 + 1);
                    lemma_fundamental_div_mod_converse(k + 1, 6, li_ * 3 + ci_, di_ * 2 + 1);
                    lemma_fundamental_div_mod_converse(k + 1, 2, li_ * 9 + ci_ * 3 + di_, 1);
                    assert(spec_scenario_at(k + 1) == hot);
                }
                scenarios.push(base);
                scenarios.push(hot);
                di = di + 1;
            }
            ci = ci + 1;
        }
        li = li + 1;
    }
    scenarios
}

/// The enumerated matrix is exhaustive and repetition-free: every
/// configuration tuple stands at exactly its own matrix position, so the
/// total count is the cartesian product of the three build dimensions,
/// doubled for the hot-patch dimension.
pub proof fn lemma_matrix_exhaustive(s: Scenario)
    ensures
        0 <= spec_encode(s) < 36,
        spec_scenario_at(spec_encode(s)) == s,
{
    lemma_encode_bounds(s);
    lemma_encode_decode(s);
}

/// Two distinct positions of the matrix hold distinct scenarios.
pub proof fn lemma_matrix_distinct(j: int, k: int)
    requires
        0 <= j < 36,
        0 <= k < 36,
        j != k,
    ensures
        spec_scenario_at(j) != spec_scenario_at(k),
{
    if spec_scenario_at(j) == spec_scenario_at(k) {
        lemma_decode_encode(j);
        lemma_decode_encode(k);
    }
}

/// Encoding the scenario standing at a matrix position yields the position
/// back.
pub proof fn lemma_decode_encode(k: int)
    requires
        0 <= k < 36,
    ensures
        spec_encode(spec_scenario_at(k)) == k,
{
    let a = k / 18;
    let b = k % 18;
    vstd::arithmetic::div_mod::lemma_fundamental_div_mod(k, 18);
    vstd::arithmetic::div_mod::lemma_mod_bound(k, 18);
    let c = b / 6;
    let r6 = b % 6;
    vstd::arithmetic::div_mod::lemma_fundamental_div_mod(b, 6);
    vstd::arithmetic::div_mod::lemma_mod_bound(b, 6);
    let d = r6 / 2;
    let h = r6 % 2;
    vstd::arithmetic::div_mod::lemma_fundamental_div_mod(r6, 2);
    vstd::arithmetic::div_mod::lemma_mod_bound(r6, 2);
    assert(k == a * 18 + c * 6 + d * 2 + h);
    assert(0 <= a < 2);
    assert(0 <= c < 3);
    assert(0 <= d < 3);
    assert(0 <= h < 2);
    lemma_fundamental_div_mod_converse(k, 6, a * 3 + c, d * 2 + h);
    lemma_fundamental_div_mod_converse(a * 3 + c, 3, a, c);
    lemma_fundamental_div_mod_converse(k, 2, a * 9 + c * 3 + d, h);
    lemma_fundamental_div_mod_converse(a * 9 + c * 3 + d, 3, a * 3 + c, d);
    assert(spec_scenario_at(k) == Scenario {
        linker: spec_linker_of(a),
        cache: spec_cache_of(c),
        dynamic: spec_dynamic_of(d),
        hotpatching: spec_hotpatch_of(h),
    });
}

} // verus!
