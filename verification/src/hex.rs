//! Parsing of hex-encoded 64-bit digests, as supplied by operators in
//! trust-anchor configuration.

use vstd::prelude::*;

verus! {

/// Numeric value of one hex digit, `None` for any other character.
pub open spec fn hex_char_value(c: char) -> Option<u64> {
    let v = c as u32;
    if ('0' as u32) <= v && v <= ('9' as u32) {
        Some((v - ('0' as u32)) as u64)
    } else if ('a' as u32) <= v && v <= ('f' as u32) {
        Some((v - ('a' as u32) + 10) as u64)
    } else if ('A' as u32) <= v && v <= ('F' as u32) {
        Some((v - ('A' as u32) + 10) as u64)
    } else {
        None
    }
}

/// Whether every character of `s` is a hex digit.
pub open spec fn hex_seq_valid(s: Seq<char>) -> bool {
    forall|i: int| 0 <= i < s.len() ==> hex_char_value(#[trigger] s[i]) is Some
}

/// The value of a big-endian hex digit sequence.
pub open spec fn hex_seq_value(s: Seq<char>) -> nat
    decreases s.len(),
{
    if s.len() == 0 {
        0
    } else {
        hex_seq_value(s.drop_last()) * 16 + (match hex_char_value(s.last()) {
            Some(d) => d as nat,
            None => 0,
        })
    }
}

/// 16 to the power `n`.
pub open spec fn pow16(n: nat) -> nat
    decreases n,
{
    if n == 0 {
        1
    } else {
        16 * pow16((n - 1) as nat)
    }
}

/// A 64-bit digest is written as exactly 16 hex digits; this is its value,
/// or `None` where the text is not such an encoding.
pub open spec fn spec_parse_hex64(s: Seq<char>) -> Option<u64> {
    if s.len() == 16 && hex_seq_valid(s) {
        Some(hex_seq_value(s) as u64)
    } else {
        None
    }
}

/// Numeric value of one hex digit character, `None` for any other.
pub fn hex_char_value_exec(c: char) -> (r: Option<u64>)
    ensures
        r == hex_char_value(c),
{
    let v = c as u32;
    if 48 <= v && v <= 57 {
        Some((v - 48) as u64)
    } else if 97 <= v && v <= 102 {
        Some((v - 97 + 10) as u64)
    } else if 65 <= v && v <= 70 {
        Some((v - 65 + 10) as u64)
    } else {
        None
    }
}

/// Parse a 64-bit digest from its 16-digit hex encoding.
pub fn parse_hex64(s: &str) -> (r: Option<u64>)
    ensures
        r == spec_parse_hex64(s@),
{
    let n = s.unicode_len();
    if n != 16 {
        return None;
    }
    let mut acc: u64 = 0;
    let mut i: usize = 0;
    while i < 16
        invariant
            0 <= i <= 16,
            s@.len() == 16,
            hex_seq_valid(s@.subrange(0, i as int)),
            acc == hex_seq_value(s@.subrange(0, i as int)),
            acc < pow16(i as nat),
        decreases 16 - i,
    {
        let c = s.get_char(i);
        let v = match hex_char_value_exec(c) {
            Some(v) => v,
            None => {
                proof {
                    assert(hex_char_value(s@[i as int]) is None);
                }
                return None;
            },
        };
        proof {
            let pre = s@.subrange(0, i as int);
            let post = s@.subrange(0, i as int + 1);
            assert(post.drop_last() =~= pre);
            assert(post.last() == s@[i as int]);
            assert(hex_seq_value(post) == hex_seq_value(pre) * 16 + v);
            lemma_pow16_mono(i as nat + 1, 16);
            assert(hex_seq_value(pre) * 16 + v < pow16(i as nat + 1)) by (nonlinear_arith)
                requires
                    hex_seq_value(pre) < pow16(i as nat),
                    v <= 15,
                    pow16(i as nat + 1) == 16 * pow16(i as nat),
            ;
            assert(pow16(16) == 0x10000000000000000) by {
                reveal_with_fuel(pow16, 17);
            }
            assert(forall|j: int| 0 <= j < post.len() ==> hex_char_value(#[trigger] post[j])
                is Some);
        }
        acc = acc * 16 + v;
        i = i + 1;
    }
    proof {
        assert(s@.subrange(0, 16) =~= s@);
    }
    Some(acc)
}

/// `16^a` divides `16^b` upward: the power is monotonic.
pub proof fn lemma_pow16_mono(a: nat, b: nat)
    requires
        a <= b,
    ensures
        pow16(a) <= pow16(b),
    decreases b - a,
{
    if a < b {
        lemma_pow16_mono(a, (b - 1) as nat);
        assert(pow16(b) == 16 * pow16((b - 1) as nat));
        lemma_pow16_pos((b - 1) as nat);
    }
}

/// `16^n` is positive.
pub proof fn lemma_pow16_pos(n: nat)
    ensures
        pow16(n) >= 1,
    decreases n,
{
    if n > 0 {
        lemma_pow16_pos((n - 1) as nat);
    }
}

} // verus!
