//! Derived numeric values: the payload constant embedded in generated source
//! and its mutation used to confirm a hot patch.

use vstd::prelude::*;

verus! {

/// Constant mixed into the seed to derive the initial payload value.
pub const PAYLOAD_GOLDEN: u64 = 0x9e37_79b9_7f4a_7c15;

/// Constant xor-ed into a payload value to derive the mutated one.
pub const PAYLOAD_MIX: u64 = 0xa076_1d64_78bd_642f;

/// Fallback increment, used only if the xor mutation were to collide.
pub const PAYLOAD_NUDGE: u64 = 0x9e37;

/// The initial payload value for a scenario: the seed rotated left by 17 bits,
/// xor-ed with a golden-ratio constant.
pub open spec fn spec_payload_value(seed: u64) -> u64 {
    ((seed << 17) | (seed >> 47)) ^ PAYLOAD_GOLDEN
}

/// The mutated payload value: xor with a fixed constant, falling back to a
/// wrapping add of a small odd constant on a (never occurring) collision.
pub open spec fn spec_next_payload_value(previous: u64) -> u64 {
    let candidate = previous ^ PAYLOAD_MIX;
    if candidate != previous {
        candidate
    } else {
        previous.wrapping_add(PAYLOAD_NUDGE)
    }
}

/// Derives the payload constant embedded in a scenario's generated source.
pub fn payload_value(seed: u64) -> (value: u64)
    ensures
        value == spec_payload_value(seed),
{
    ((seed << 17u64) | (seed >> 47u64)) ^ PAYLOAD_GOLDEN
}

/// Derives the value the generated source is rewritten to during the
/// hot-patch phase. The result always differs from the previous value.
pub fn next_payload_value(previous: u64) -> (next: u64)
    ensures
        next == spec_next_payload_value(previous),
        next != previous,
{
    let candidate = previous ^ PAYLOAD_MIX;
    if candidate != previous {
        candidate
    } else {
        previous.wrapping_add(PAYLOAD_NUDGE)
    }
}

/// The mutated payload value never equals the value it was derived from,
/// whichever branch produced it.
pub proof fn lemma_next_payload_value_changes(v: u64)
    ensures
        spec_next_payload_value(v) != v,
{
    let candidate = v ^ PAYLOAD_MIX;
    if candidate == v {
        assert(v.wrapping_add(PAYLOAD_NUDGE) != v);
    }
}

} // verus!
