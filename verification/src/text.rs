//! Text primitives the derivation and session logic build on: decimal and
//! fixed-width hexadecimal rendering of 64-bit values, and substring search.

use vstd::prelude::*;
use vstd::string::StrSliceExecFns;
use vstd::string::StringExecFns;

verus! {

/// The character for one decimal digit.
pub open spec fn spec_digit_char(d: u64) -> char {
    if d == 0 {
        '0'
    } else if d == 1 {
        '1'
    } else if d == 2 {
        '2'
    } else if d == 3 {
        '3'
    } else if d == 4 {
        '4'
    } else if d == 5 {
        '5'
    } else if d == 6 {
        '6'
    } else if d == 7 {
        '7'
    } else if d == 8 {
        '8'
    } else {
        '9'
    }
}

/// The character for one hexadecimal digit, lower case.
pub open spec fn spec_hex_char(d: u64) -> char {
    if d < 10 {
        spec_digit_char(d)
    } else if d == 10 {
        'a'
    } else if d == 11 {
        'b'
    } else if d == 12 {
        'c'
    } else if d == 13 {
        'd'
    } else if d == 14 {
        'e'
    } else {
        'f'
    }
}

/// The usual decimal rendering of `n`, most significant digit first, with no
/// leading zeros (a lone zero for `n == 0`).
pub open spec fn spec_decimal(n: u64) -> Seq<char>
    decreases n,
{
    if n < 10 {
        seq![spec_digit_char(n)]
    } else {
        spec_decimal((n / 10) as u64) + seq![spec_digit_char((n % 10) as u64)]
    }
}

/// Nibble `i` of `v`, counted from the most significant end.
pub open spec fn spec_nibble(v: u64, i: int) -> u64 {
    (v >> (((15 - i) * 4) as u64)) & 0xf
}

/// The fixed-width, 16-character, zero-padded lower-case hexadecimal
/// rendering of `v`.
pub open spec fn spec_hex16(v: u64) -> Seq<char> {
    Seq::new(16, |i: int| spec_hex_char(spec_nibble(v, i)))
}

/// Whether `needle` occurs as a contiguous subsequence of `hay`.
pub open spec fn spec_contains(hay: Seq<char>, needle: Seq<char>) -> bool {
    exists|i: int|
        0 <= i && i + needle.len() <= hay.len() && #[trigger] hay.subrange(i, i + needle.len())
            == needle
}

fn digit_str(d: u64) -> (s: &'static str)
    requires
        d < 10,
    ensures
        s@ == seq![spec_digit_char(d)],
{
    proof {
        reveal_strlit("0");
        reveal_strlit("1");
        reveal_strlit("2");
        reveal_strlit("3");
        reveal_strlit("4");
        reveal_strlit("5");
        reveal_strlit("6");
        reveal_strlit("7");
        reveal_strlit("8");
        reveal_strlit("9");
    }
    let s = if d == 0 {
        "0"
    } else if d == 1 {
        "1"
    } else if d == 2 {
        "2"
    } else if d == 3 {
        "3"
    } else if d == 4 {
        "4"
    } else if d == 5 {
        "5"
    } else if d == 6 {
        "6"
    } else if d == 7 {
        "7"
    } else if d == 8 {
        "8"
    } else {
        "9"
    };
    proof {
        assert(s@ =~= seq![spec_digit_char(d)]);
    }
    s
}

fn hex_digit_str(d: u64) -> (s: &'static str)
    requires
        d < 16,
    ensures
        s@ == seq![spec_hex_char(d)],
{
    if d < 10 {
        digit_str(d)
    } else {
        proof {
            reveal_strlit("a");
            reveal_strlit("b");
            reveal_strlit("c");
            reveal_strlit("d");
            reveal_strlit("e");
            reveal_strlit("f");
        }
        let s = if d == 10 {
            "a"
        } else if d == 11 {
            "b"
        } else if d == 12 {
            "c"
        } else if d == 13 {
            "d"
        } else if d == 14 {
            "e"
        } else {
            "f"
        };
        proof {
            assert(s@ =~= seq![spec_hex_char(d)]);
        }
        s
    }
}

/// Renders `n` in decimal.
pub fn decimal_string(n: u64) -> (s: String)
    ensures
        s@ == spec_decimal(n),
    decreases n,
{
    if n < 10 {
        String::from_str(digit_str(n))
    } else {
        let mut s = decimal_string(n / 10);
        s.append(digit_str(n % 10));
        proof {
            assert(s@ =~= spec_decimal(n));
        }
        s
    }
}

/// Renders `v` as exactly 16 lower-case hexadecimal characters.
pub fn hex16_string(v: u64) -> (s: String)
    ensures
        s@ == spec_hex16(v),
{
    let mut s = String::new();
    let mut i: usize = 0;
    while i < 16
        invariant
            i <= 16,
            s@ == spec_hex16(v).subrange(0, i as int),
        decreases 16 - i,
    {
        let shift: u64 = (15 - i as u64) * 4;
        let nib: u64 = (v >> shift) & 0xf;
        proof {
            assert(nib < 16) by (bit_vector)
                requires
                    nib == (v >> shift) & 0xf,
            ;
            assert(nib == spec_nibble(v, i as int));
        }
        s.append(hex_digit_str(nib));
        proof {
            assert(s@ =~= spec_hex16(v).subrange(0, i + 1 as int));
        }
        i = i + 1;
    }
    proof {
        assert(s@ =~= spec_hex16(v));
    }
    s
}

/// The value a hexadecimal digit character denotes (16 for any other
/// character).
spec fn spec_hex_val(c: char) -> u64 {
    if c == '0' {
        0
    } else if c == '1' {
        1
    } else if c == '2' {
        2
    } else if c == '3' {
        3
    } else if c == '4' {
        4
    } else if c == '5' {
        5
    } else if c == '6' {
        6
    } else if c == '7' {
        7
    } else if c == '8' {
        8
    } else if c == '9' {
        9
    } else if c == 'a' {
        10
    } else if c == 'b' {
        11
    } else if c == 'c' {
        12
    } else if c == 'd' {
        13
    } else if c == 'e' {
        14
    } else if c == 'f' {
        15
    } else {
        16
    }
}

proof fn lemma_hex_char_val(d: u64)
    requires
        d < 16,
    ensures
        spec_hex_val(spec_hex_char(d)) == d,
{
}

proof fn lemma_nibble_below_16(v: u64, i: int)
    requires
        0 <= i < 16,
    ensures
        spec_nibble(v, i) < 16,
{
    let sh = ((15 - i) * 4) as u64;
    assert((v >> sh) & 0xf < 16) by (bit_vector);
}

/// Two values with the same 16-character hexadecimal rendering are equal:
/// the rendering is zero-padded to full width, so every bit of the value is
/// recoverable from it.
pub proof fn lemma_hex16_injective(a: u64, b: u64)
    requires
        spec_hex16(a) == spec_hex16(b),
    ensures
        a == b,
{
    assert forall|i: int| 0 <= i < 16 implies spec_nibble(a, i) == spec_nibble(b, i) by {
        assert(spec_hex16(a)[i] == spec_hex16(b)[i]);
        assert(spec_hex16(a)[i] == spec_hex_char(spec_nibble(a, i)));
        assert(spec_hex16(b)[i] == spec_hex_char(spec_nibble(b, i)));
        lemma_nibble_below_16(a, i);
        lemma_nibble_below_16(b, i);
        lemma_hex_char_val(spec_nibble(a, i));
        lemma_hex_char_val(spec_nibble(b, i));
    }
    assert((a >> 60u64) & 0xf == (b >> 60u64) & 0xf) by {
        assert(spec_nibble(a, 0) == spec_nibble(b, 0));
    }
    assert((a >> 56u64) & 0xf == (b >> 56u64) & 0xf) by {
        assert(spec_nibble(a, 1) == spec_nibble(b, 1));
    }
    assert((a >> 52u64) & 0xf == (b >> 52u64) & 0xf) by {
        assert(spec_nibble(a, 2) == spec_nibble(b, 2));
    }
    assert((a >> 48u64) & 0xf == (b >> 48u64) & 0xf) by {
        assert(spec_nibble(a, 3) == spec_nibble(b, 3));
    }
    assert((a >> 44u64) & 0xf == (b >> 44u64) & 0xf) by {
        assert(spec_nibble(a, 4) == spec_nibble(b, 4));
    }
    assert((a >> 40u64) & 0xf == (b >> 40u64) & 0xf) by {
        assert(spec_nibble(a, 5) == spec_nibble(b, 5));
    }
    assert((a >> 36u64) & 0xf == (b >> 36u64) & 0xf) by {
        assert(spec_nibble(a, 6) == spec_nibble(b, 6));
    }
    assert((a >> 32u64) & 0xf == (b >> 32u64) & 0xf) by {
        assert(spec_nibble(a, 7) == spec_nibble(b, 7));
    }
    assert((a >> 28u64) & 0xf == (b >> 28u64) & 0xf) by {
        assert(spec_nibble(a, 8) == spec_nibble(b, 8));
    }
    assert((a >> 24u64) & 0xf == (b >> 24u64) & 0xf) by {
        assert(spec_nibble(a, 9) == spec_nibble(b, 9));
    }
    assert((a >> 20u64) & 0xf == (b >> 20u64) & 0xf) by {
        assert(spec_nibble(a, 10) == spec_nibble(b, 10));
    }
    assert((a >> 16u64) & 0xf == (b >> 16u64) & 0xf) by {
        assert(spec_nibble(a, 11) == spec_nibble(b, 11));
    }
    assert((a >> 12u64) & 0xf == (b >> 12u64) & 0xf) by {
        assert(spec_nibble(a, 12) == spec_nibble(b, 12));
    }
    assert((a >> 8u64) & 0xf == (b >> 8u64) & 0xf) by {
        assert(spec_nibble(a, 13) == spec_nibble(b, 13));
    }
    assert((a >> 4u64) & 0xf == (b >> 4u64) & 0xf) by {
        assert(spec_nibble(a, 14) == spec_nibble(b, 14));
    }
    assert((a >> 0u64) & 0xf == (b >> 0u64) & 0xf) by {
        assert(spec_nibble(a, 15) == spec_nibble(b, 15));
    }
    assert(a == b) by (bit_vector)
        requires
            (a >> 60u64) & 0xf == (b >> 60u64) & 0xf,
            (a >> 56u64) & 0xf == (b >> 56u64) & 0xf,
            (a >> 52u64) & 0xf == (b >> 52u64) & 0xf,
            (a >> 48u64) & 0xf == (b >> 48u64) & 0xf,
            (a >> 44u64) & 0xf == (b >> 44u64) & 0xf,
            (a >> 40u64) & 0xf == (b >> 40u64) & 0xf,
            (a >> 36u64) & 0xf == (b >> 36u64) & 0xf,
            (a >> 32u64) & 0xf == (b >> 32u64) & 0xf,
            (a >> 28u64) & 0xf == (b >> 28u64) & 0xf,
            (a >> 24u64) & 0xf == (b >> 24u64) & 0xf,
            (a >> 20u64) & 0xf == (b >> 20u64) & 0xf,
            (a >> 16u64) & 0xf == (b >> 16u64) & 0xf,
            (a >> 12u64) & 0xf == (b >> 12u64) & 0xf,
            (a >> 8u64) & 0xf == (b >> 8u64) & 0xf,
            (a >> 4u64) & 0xf == (b >> 4u64) & 0xf,
            (a >> 0u64) & 0xf == (b >> 0u64) & 0xf,
    ;
}

/// Substring search: whether `needle` occurs anywhere inside `hay`.
/// Mirrors the matching the session loop performs on every output line.
pub fn str_contains(hay: &str, needle: &str) -> (found: bool)
    ensures
        found == spec_contains(hay@, needle@),
{
    let hay_len = hay.unicode_len();
    let needle_len = needle.unicode_len();
    if needle_len > hay_len {
        return false;
    }
    let mut start: usize = 0;
    loop
        invariant
            hay_len == hay@.len(),
            needle_len == needle@.len(),
            needle_len <= hay_len,
            start <= hay_len - needle_len + 1,
            forall|k: int|
                0 <= k < start ==> #[trigger] hay@.subrange(k, k + needle@.len()) != needle@,
        decreases hay_len - needle_len - start + 1,
    {
        if start > hay_len - needle_len {
            return false;
        }
        let mut j: usize = 0;
        let mut matches_here = true;
        while j < needle_len && matches_here
            invariant
                hay_len == hay@.len(),
                needle_len == needle@.len(),
                needle_len <= hay_len,
                start <= hay_len - needle_len,
                j <= needle_len,
                matches_here ==> forall|t: int| 0 <= t < j ==> hay@[start + t] == needle@[t],
                !matches_here ==> exists|t: int|
                    0 <= t < needle@.len() && hay@[start + t] != needle@[t],
            decreases needle_len - j + (if matches_here { 1int } else { 0int }),
        {
            if hay.get_char(start + j) != needle.get_char(j) {
                matches_here = false;
            } else {
                j = j + 1;
            }
        }
        if matches_here {
            proof {
                let sub = hay@.subrange(start as int, start + needle@.len());
                assert forall|t: int| 0 <= t < needle@.len() implies sub[t] == needle@[t] by {
                    assert(sub[t] == hay@[start + t]);
                }
                assert(sub =~= needle@);
            }
            return true;
        }
        proof {
            let t = choose|t: int| 0 <= t < needle@.len() && hay@[start + t] != needle@[t];
            let sub = hay@.subrange(start as int, start + needle@.len());
            assert(sub[t] == hay@[start + t]);
            assert(sub != needle@);
        }
        start = start + 1;
    }
}

} // verus!
