//! Fixed-point 8-bit channel arithmetic for 2D rendering.
//!
//! A channel value is a `u8` standing for the fraction `value / 255`.
//! `multiply_u8` multiplies two such fractions with round-to-nearest,
//! and `prelerp_u8` builds the premultiplied-alpha interpolation
//! `p + q - p*a/255` on top of it, with deliberate wrap-around
//! (modulo-256) addition and subtraction.

use vstd::prelude::*;

verus! {

/// The exact value of the fixed-point product: `a*b/255` rounded to the
/// nearest integer. `255` is odd, so `a*b/255` is never exactly halfway
/// between two integers and every rounding rule agrees; adding `127`
/// before the floor division realises round-to-nearest.
pub open spec fn mul_div_255_rounded(a: int, b: int) -> int {
    (a * b + 127) / 255
}

/// Multiply two `u8` channel values, each standing for `value/255`,
/// with round-to-nearest. Uses the classic multiply-add-shift-twice
/// trick: division by 255 is approximated by two divisions by 256 with
/// a bias of 128, which is bit-exact for all 65536 input pairs.
pub fn multiply_u8(a: u8, b: u8) -> (r: u8)
    ensures
        r == mul_div_255_rounded(a as int, b as int),
        r <= a,
        r <= b,
{
    let a32: u32 = a as u32;
    let b32: u32 = b as u32;
    proof {
        assert(a32 * b32 + 128 <= 65153) by (bit_vector)
            requires
                a32 <= 255,
                b32 <= 255,
        ;
    }
    let t: u32 = a32 * b32 + 128;
    proof {
        assert((t >> 8) + t <= 130306) by (bit_vector)
            requires
                t <= 65153,
        ;
    }
    let tt: u32 = ((t >> 8) + t) >> 8;
    proof {
        assert(tt == ((a32 * b32 + 127) / 255) && tt <= 255 && tt <= a32 && tt <= b32)
            by (bit_vector)
            requires
                a32 <= 255,
                b32 <= 255,
                t == a32 * b32 + 128,
                tt == ((((t >> 8) + t) as u32) >> 8),
        ;
    }
    tt as u8
}

/// The exact value of the pre-lerp: `p + q - p*a/255` taken modulo 256,
/// since both the addition and the subtraction wrap. For valid
/// premultiplied inputs the mathematical value already lies in
/// `[0, 255]` and the modulus changes nothing.
pub open spec fn prelerp_spec(p: int, q: int, a: int) -> int {
    (p + q - mul_div_255_rounded(p, a)) % 256
}

/// Interpolate between a premultiplied background `p` and a
/// premultiplied foreground `q` weighted by `a`, as `p + q - p*a/255`
/// with wrapping (modulo-256) addition and subtraction throughout:
/// deliberately no saturation, mirroring fixed-point pixel formats.
pub fn prelerp_u8(p: u8, q: u8, a: u8) -> (r: u8)
    ensures
        r == prelerp_spec(p as int, q as int, a as int),
        p + q - mul_div_255_rounded(p as int, a as int) <= 255 ==> r == p + q
            - mul_div_255_rounded(p as int, a as int),
{
    let m: u8 = multiply_u8(p, a);
    p.wrapping_add(q).wrapping_sub(m)
}

/// Identities of the fixed-point multiplier: multiplying by 0 gives 0,
/// multiplying by 255 (the fixed-point 1) gives the other operand back,
/// and in particular 255 times 255 stays 255.
pub proof fn lemma_multiply_identities(a: u8)
    ensures
        mul_div_255_rounded(a as int, 0) == 0,
        mul_div_255_rounded(0, a as int) == 0,
        mul_div_255_rounded(a as int, 255) == a as int,
        mul_div_255_rounded(255, 255) == 255,
{
    assert(a * 255 == 255 * (a as int));
    assert((255 * (a as int) + 127) / 255 == a as int) by (nonlinear_arith);
}

/// Boundary behaviour of the pre-lerp: with weight 0 it is the wrapping
/// sum of `p` and `q`, and with weight 255 (the fixed-point 1) the whole
/// of `p` is subtracted back out, leaving `q`.
pub proof fn lemma_prelerp_boundaries(p: u8, q: u8)
    ensures
        prelerp_spec(p as int, q as int, 0) == (p + q) % 256,
        prelerp_spec(p as int, q as int, 255) == (p + q - p) % 256,
        prelerp_spec(p as int, q as int, 255) == q as int,
{
    lemma_multiply_identities(p);
}

} // verus!
