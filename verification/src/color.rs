//! From a colour to the three levels of a pixel and its line of text.

use vstd::prelude::*;
use vstd::arithmetic::power2::{
    pow2, lemma_pow2_pos, lemma_pow2_strictly_increases, lemma2_to64, lemma2_to64_rest,
};
use crate::interval::Interval;
use crate::ppm::{digits, pixel_line, push_digits, NEWLINE, SPACE, ZERO_DIGIT};
use crate::scalar::Scalar;
use crate::vec3::Vec3;

verus! {

/// The encoding of `0.999`, the brightest intensity that is written.
pub const BRIGHTEST_BITS: u64 = 0x3FEF_F7CE_D916_872B;

/// The range of intensities that are written: from 0 to 0.999. It ends
/// below 1 so that no level reaches 256.
pub open spec fn intensity() -> Interval {
    Interval { min: Scalar { bits: 0 }, max: Scalar { bits: BRIGHTEST_BITS } }
}

/// The level, from 0 to 255, of a gamma-encoded intensity: the intensity is
/// clamped to `intensity()`, multiplied by 256 and cut to its integer part.
/// What is not a number has level 0.
pub open spec fn level(encoded: Scalar) -> int {
    let c = intensity().clamp(encoded);
    if c.is_nan() {
        0
    } else {
        c.scaled_whole(8)
    }
}

/// No level reaches 256.
pub proof fn lemma_level_range(encoded: Scalar)
    ensures
        0 <= level(encoded) <= 255,
{
    let c = intensity().clamp(encoded);
    if !c.is_nan() {
        assert(intensity().contains(c));
        assert(c.magnitude() <= BRIGHTEST_BITS);
        lemma2_to64();
        lemma2_to64_rest();
        let down = (1075 - (c.scale() + 8)) as nat;
        if down > 45 {
            lemma_pow2_strictly_increases(45, down);
        }
        let d = pow2(down) as int;
        let n = c.significand();
        assert(0 <= n / d < 0x100) by (nonlinear_arith)
            requires
                0 <= n < 0x100 * d,
                d > 0,
        ;
    }
}

/// The lines of pixels with the given gamma-encoded colours, in this order.
pub open spec fn lines(encoded: Seq<Vec3>) -> Seq<u8>
    decreases encoded.len(),
{
    if encoded.len() == 0 {
        Seq::empty()
    } else {
        let last = encoded.last();
        lines(encoded.drop_last()) + pixel_line(level(last.e0), level(last.e1), level(last.e2))
    }
}

/// The line of a black pixel: three zeros.
pub open spec fn black_line() -> Seq<u8> {
    seq![ZERO_DIGIT, SPACE, ZERO_DIGIT, SPACE, ZERO_DIGIT, NEWLINE]
}

/// So many lines of black pixels.
pub open spec fn black_lines(n: nat) -> Seq<u8>
    decreases n,
{
    if n == 0 {
        Seq::empty()
    } else {
        black_lines((n - 1) as nat) + black_line()
    }
}

/// Whether a colour is black: every component is a zero, of either sign.
pub open spec fn is_black(encoded: Vec3) -> bool {
    encoded.e0.magnitude() == 0 && encoded.e1.magnitude() == 0 && encoded.e2.magnitude() == 0
}

/// Black pixels are written as lines of three zeros: an image whose colours
/// are all black is its header and then nothing but such lines.
pub proof fn lemma_black_is_written_as_zeros(encoded: Seq<Vec3>)
    requires
        forall|i: int| 0 <= i < encoded.len() ==> is_black(#[trigger] encoded[i]),
    ensures
        lines(encoded) == black_lines(encoded.len()),
    decreases encoded.len(),
{
    if encoded.len() > 0 {
        let before = encoded.drop_last();
        let last = encoded.last();
        assert forall|i: int| 0 <= i < before.len() implies is_black(#[trigger] before[i]) by {
            assert(before[i] == encoded[i]);
        }
        lemma_black_is_written_as_zeros(before);
        assert(is_black(encoded[encoded.len() - 1]));
        lemma_zero_level(last.e0);
        lemma_zero_level(last.e1);
        lemma_zero_level(last.e2);
        assert(digits(0) =~= seq![ZERO_DIGIT]);
        assert(pixel_line(0, 0, 0) =~= black_line());
    }
}

/// A zero has level 0.
proof fn lemma_zero_level(encoded: Scalar)
    requires
        encoded.magnitude() == 0,
    ensures
        level(encoded) == 0,
{
    let c = intensity().clamp(encoded);
    assert(c == encoded);
    lemma_pow2_pos(1066);
    let d = pow2(1066) as int;
    assert(0int / d == 0) by (nonlinear_arith)
        requires
            d > 0,
    ;
}

/// The level of a gamma-encoded intensity.
pub fn channel(encoded: Scalar) -> (l: u8)
    ensures
        l == level(encoded),
{
    let range = Interval::interval(Scalar::zero(), Scalar::from_bits(BRIGHTEST_BITS));
    let c = range.clamp(encoded);
    if c.is_nan() {
        return 0;
    }
    proof {
        lemma_level_range(encoded);
    }
    let whole: u64 = c.whole(8);
    whole as u8
}

/// Appends the line of a pixel whose gamma-encoded colour is `encoded`: the
/// levels of its red, green and blue.
pub fn write_color(out: &mut Vec<u8>, encoded: Vec3)
    ensures
        final(out)@ == old(out)@ + pixel_line(
            level(encoded.e0),
            level(encoded.e1),
            level(encoded.e2),
        ),
{
    let r: u8 = channel(encoded.x());
    let g: u8 = channel(encoded.y());
    let b: u8 = channel(encoded.z());
    push_digits(out, r as u32);
    out.push(SPACE);
    push_digits(out, g as u32);
    out.push(SPACE);
    push_digits(out, b as u32);
    out.push(NEWLINE);
    assert(out@ =~= old(out)@ + pixel_line(r as int, g as int, b as int));
}

} // verus!
