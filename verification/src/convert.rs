//! The fixed per-pixel byte permutation between the buffer-native
//! (A, R, G, B) channel order and the surface-native (B, G, R, A) order:
//! each 4-byte pixel group is reversed. The permutation is its own inverse.

use vstd::prelude::*;

verus! {

/// Each 4-byte group of `s` reversed in place: the permutation that turns
/// (A, R, G, B) pixels into (B, G, R, A) pixels and back.
pub open spec fn channel_reversed(s: Seq<u8>) -> Seq<u8> {
    Seq::new(
        s.len(),
        |i: int|
            if i % 4 == 0 {
                s[i + 3]
            } else if i % 4 == 1 {
                s[i + 1]
            } else if i % 4 == 2 {
                s[i - 1]
            } else {
                s[i - 3]
            },
    )
}

/// Converting a buffer between (A, R, G, B) and (B, G, R, A) order and back
/// yields the original byte sequence, for any length divisible by 4.
pub proof fn lemma_channel_reversed_round_trip(s: Seq<u8>)
    requires
        s.len() % 4 == 0,
    ensures
        channel_reversed(channel_reversed(s)) == s,
{
    let t = channel_reversed(s);
    assert forall|i: int| 0 <= i < s.len() implies channel_reversed(t)[i] == s[i] by {
        lemma_pixel_in_bounds(s.len() as int, i);
        if i % 4 == 0 {
            assert((i + 3) % 4 == 3);
        } else if i % 4 == 1 {
            assert((i + 1) % 4 == 2);
        } else if i % 4 == 2 {
            assert((i - 1) % 4 == 1);
        } else {
            assert((i - 3) % 4 == 0);
        }
    }
    assert(channel_reversed(channel_reversed(s)) =~= s);
}

/// Within a sequence of whole 4-byte pixels, the pixel holding position `i`
/// lies entirely inside the sequence.
proof fn lemma_pixel_in_bounds(len: int, i: int)
    requires
        len % 4 == 0,
        0 <= i < len,
    ensures
        4 * (i / 4) + 4 <= len,
        4 * (i / 4) == i - (i % 4),
{
    assert(i == 4 * (i / 4) + (i % 4) && 0 <= i % 4 < 4) by (nonlinear_arith)
        requires
            0 <= i,
    ;
    assert(len == 4 * (len / 4)) by (nonlinear_arith)
        requires
            len % 4 == 0,
            0 <= len,
    ;
    assert(i / 4 < len / 4 ==> 4 * (i / 4) + 4 <= 4 * (len / 4)) by (nonlinear_arith);
    assert(i / 4 < len / 4) by (nonlinear_arith)
        requires
            i < len,
            i == 4 * (i / 4) + (i % 4),
            len == 4 * (len / 4),
            0 <= i % 4 < 4,
    ;
}

/// Converts packed (A, R, G, B) bytes to the surface-native (B, G, R, A)
/// order by reversing each 4-byte pixel group.
pub fn argb_to_bgra(bytes: &Vec<u8>) -> (out: Vec<u8>)
    requires
        bytes@.len() % 4 == 0,
    ensures
        out@ == channel_reversed(bytes@),
{
    let n: usize = bytes.len();
    let mut out: Vec<u8> = Vec::new();
    let mut i: usize = 0;
    while i < n
        invariant
            bytes@.len() == n,
            n % 4 == 0,
            i % 4 == 0,
            i <= n,
            out@.len() == i,
            forall|j: int| 0 <= j < i ==> out@[j] == channel_reversed(bytes@)[j],
        decreases n - i,
    {
        proof {
            lemma_pixel_in_bounds(n as int, i as int);
            assert(4 * ((i as int) / 4) == i);
            assert((i + 1) % 4 == 1 && (i + 2) % 4 == 2 && (i + 3) % 4 == 3);
        }
        out.push(bytes[i + 3]);
        out.push(bytes[i + 2]);
        out.push(bytes[i + 1]);
        out.push(bytes[i]);
        i = i + 4;
    }
    proof {
        assert(out@ =~= channel_reversed(bytes@));
    }
    out
}

/// Converts packed (B, G, R, A) bytes back to the buffer-native
/// (A, R, G, B) order; the permutation is the same group reversal.
pub fn bgra_to_argb(bytes: &Vec<u8>) -> (out: Vec<u8>)
    requires
        bytes@.len() % 4 == 0,
    ensures
        out@ == channel_reversed(bytes@),
{
    argb_to_bgra(bytes)
}

} // verus!
