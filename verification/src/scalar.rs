//! Real numbers in the IEEE 754 binary64 interchange format, held by their
//! 64-bit encodings.
//!
//! Everything the renderer decides about a number (which of two is smaller,
//! whether one lies inside a range, which integer it truncates to) is a
//! function of the encoding alone, and is computed and proved here with
//! integer arithmetic. Sums, products, quotients and roots are the caller's
//! business: they arrive as encodings and leave as encodings.

use vstd::prelude::*;
use vstd::arithmetic::power2::{
    pow2, lemma_pow2_pos, lemma_pow2_strictly_increases, lemma_pow2_unfold, lemma2_to64, lemma2_to64_rest,
};
use vstd::bits::{lemma_u64_mul_pow2_le_max_iff_max_shr, lemma_u64_shl_is_mul, lemma_u64_shr_is_div};

verus! {

/// The sign bit of an encoding.
pub const SIGN_BIT: u64 = 0x8000_0000_0000_0000;

/// The encoding of positive infinity; every larger magnitude is a NaN.
pub const INFINITY_BITS: u64 = 0x7FF0_0000_0000_0000;

/// The encoding of negative infinity.
pub const NEG_INFINITY_BITS: u64 = 0xFFF0_0000_0000_0000;

/// The encoding of 1.
pub const ONE_BITS: u64 = 0x3FF0_0000_0000_0000;

/// The encoding of -1.
pub const NEG_ONE_BITS: u64 = 0xBFF0_0000_0000_0000;

/// Two to the power 52: the weight of the implicit leading bit of a significand.
pub const HIDDEN_BIT: u64 = 0x10_0000_0000_0000;

/// A binary64 number, identified with its encoding: a sign bit, eleven bits
/// of exponent and fifty-two bits of fraction. Two scalars are the same when
/// their encodings are; to compare them as numbers, use `lt` and its kin.
#[derive(Clone, Copy, Debug)]
pub struct Scalar {
    pub bits: u64,
}

impl Scalar {
    /// Whether the sign bit is set.
    pub open spec fn negative(self) -> bool {
        self.bits >= SIGN_BIT
    }

    /// The encoding with the sign bit cleared, as an integer.
    pub open spec fn magnitude(self) -> int {
        if self.bits >= SIGN_BIT {
            self.bits - SIGN_BIT
        } else {
            self.bits as int
        }
    }

    /// Whether the encoding is a NaN: a magnitude beyond that of infinity.
    pub open spec fn spec_is_nan(self) -> bool {
        self.magnitude() > INFINITY_BITS
    }

    /// The position of a number on the extended real line: for encodings that
    /// are not NaN, `a` is below `b` as a number exactly when `a.rank() < b.rank()`.
    /// Both zeros have rank 0. (Among numbers of one sign the order of the
    /// ranks is that of the magnitudes, which `lemma_magnitudes_order_as_weights`
    /// shows to be that of the absolute values.)
    pub open spec fn rank(self) -> int {
        if self.negative() {
            -self.magnitude()
        } else {
            self.magnitude()
        }
    }

    /// `self < other` as numbers; false when either is a NaN.
    pub open spec fn spec_lt(self, other: Scalar) -> bool {
        !self.spec_is_nan() && !other.spec_is_nan() && self.rank() < other.rank()
    }

    /// `self <= other` as numbers; false when either is a NaN.
    pub open spec fn spec_le(self, other: Scalar) -> bool {
        !self.spec_is_nan() && !other.spec_is_nan() && self.rank() <= other.rank()
    }

    /// `self > other` as numbers; false when either is a NaN.
    pub open spec fn spec_gt(self, other: Scalar) -> bool {
        other.spec_lt(self)
    }

    /// `self >= other` as numbers; false when either is a NaN.
    pub open spec fn spec_ge(self, other: Scalar) -> bool {
        other.spec_le(self)
    }

    /// The number with the opposite sign.
    pub open spec fn spec_neg(self) -> Scalar {
        Scalar {
            bits: if self.bits >= SIGN_BIT {
                (self.bits - SIGN_BIT) as u64
            } else {
                (self.bits + SIGN_BIT) as u64
            },
        }
    }

    /// The number with the sign cleared.
    pub open spec fn spec_abs(self) -> Scalar {
        Scalar { bits: self.magnitude() as u64 }
    }

    /// The smaller of two numbers, or the one that is a number.
    pub open spec fn spec_min(self, other: Scalar) -> Scalar {
        if self.spec_is_nan() {
            other
        } else if other.spec_lt(self) {
            other
        } else {
            self
        }
    }

    /// The larger of two numbers, or the one that is a number.
    pub open spec fn spec_max(self, other: Scalar) -> Scalar {
        if self.spec_is_nan() {
            other
        } else if other.spec_gt(self) {
            other
        } else {
            self
        }
    }

    /// The biased exponent field, between 0 and 2047.
    pub open spec fn exponent(self) -> int {
        self.magnitude() / (HIDDEN_BIT as int)
    }

    /// The integer significand: the fraction field, with the implicit leading
    /// bit for a normal number.
    pub open spec fn significand(self) -> int {
        let fraction = self.magnitude() % (HIDDEN_BIT as int);
        if self.exponent() == 0 {
            fraction
        } else {
            fraction + HIDDEN_BIT
        }
    }

    /// The power of two that weighs the significand, biased by 1075: the
    /// absolute value of a finite number is `significand * 2^(scale - 1075)`.
    pub open spec fn scale(self) -> int {
        if self.exponent() == 0 {
            1
        } else {
            self.exponent()
        }
    }

    /// The absolute value of a finite number, times `2^1075`: an integer.
    pub open spec fn weight(self) -> int {
        self.significand() * pow2(self.scale() as nat)
    }

    /// The integer part of `|self| * 2^k`. For an infinity this is an integer
    /// of at least `2^52`.
    pub open spec fn scaled_whole(self, k: nat) -> int {
        let e = self.scale() + k;
        if e >= 1075 {
            self.significand() * pow2((e - 1075) as nat)
        } else {
            self.significand() / (pow2((1075 - e) as nat) as int)
        }
    }

    /// The nearest 32-bit integer in the direction of zero: 0 for a NaN, the
    /// bound of the range for a number beyond it.
    pub open spec fn spec_to_i32(self) -> int {
        let whole = self.scaled_whole(0);
        if self.spec_is_nan() {
            0
        } else if self.negative() {
            if whole >= 0x8000_0000 {
                -0x8000_0000
            } else {
                -whole
            }
        } else {
            if whole >= 0x8000_0000 {
                0x7FFF_FFFF
            } else {
                whole
            }
        }
    }

    /// The number with the given encoding.
    pub fn from_bits(bits: u64) -> (s: Scalar)
        ensures
            s.bits == bits,
    {
        Scalar { bits }
    }

    /// The encoding.
    pub fn to_bits(self) -> (bits: u64)
        ensures
            bits == self.bits,
    {
        self.bits
    }

    /// Positive zero.
    pub fn zero() -> (s: Scalar)
        ensures
            s.bits == 0,
    {
        Scalar { bits: 0 }
    }

    /// One.
    pub fn one() -> (s: Scalar)
        ensures
            s.bits == ONE_BITS,
    {
        Scalar { bits: ONE_BITS }
    }

    /// Positive infinity.
    pub fn infinity() -> (s: Scalar)
        ensures
            s.bits == INFINITY_BITS,
    {
        Scalar { bits: INFINITY_BITS }
    }

    /// Negative infinity.
    pub fn neg_infinity() -> (s: Scalar)
        ensures
            s.bits == NEG_INFINITY_BITS,
    {
        Scalar { bits: NEG_INFINITY_BITS }
    }

    fn magnitude_bits(self) -> (m: u64)
        ensures
            m == self.magnitude(),
            m < SIGN_BIT,
    {
        if self.bits >= SIGN_BIT {
            self.bits - SIGN_BIT
        } else {
            self.bits
        }
    }

    fn rank_value(self) -> (r: i64)
        ensures
            r == self.rank(),
    {
        let m: u64 = self.magnitude_bits();
        if self.bits >= SIGN_BIT {
            -(m as i64)
        } else {
            m as i64
        }
    }

    /// Whether this is not a number.
    #[verifier::when_used_as_spec(spec_is_nan)]
    pub fn is_nan(self) -> (b: bool)
        ensures
            b == self.spec_is_nan(),
    {
        self.magnitude_bits() > INFINITY_BITS
    }

    /// `self < other`, as the hardware compares: false when either is a NaN,
    /// and the two zeros are equal.
    #[verifier::when_used_as_spec(spec_lt)]
    pub fn lt(self, other: Scalar) -> (b: bool)
        ensures
            b == self.spec_lt(other),
    {
        !self.is_nan() && !other.is_nan() && self.rank_value() < other.rank_value()
    }

    /// `self <= other`, as the hardware compares.
    #[verifier::when_used_as_spec(spec_le)]
    pub fn le(self, other: Scalar) -> (b: bool)
        ensures
            b == self.spec_le(other),
    {
        !self.is_nan() && !other.is_nan() && self.rank_value() <= other.rank_value()
    }

    /// `self > other`, as the hardware compares.
    #[verifier::when_used_as_spec(spec_gt)]
    pub fn gt(self, other: Scalar) -> (b: bool)
        ensures
            b == self.spec_gt(other),
    {
        other.lt(self)
    }

    /// `self >= other`, as the hardware compares.
    #[verifier::when_used_as_spec(spec_ge)]
    pub fn ge(self, other: Scalar) -> (b: bool)
        ensures
            b == self.spec_ge(other),
    {
        other.le(self)
    }

    /// The number with the opposite sign; a NaN stays a NaN.
    #[verifier::when_used_as_spec(spec_neg)]
    pub fn neg(self) -> (s: Scalar)
        ensures
            s == self.spec_neg(),
            s.magnitude() == self.magnitude(),
            s.negative() != self.negative(),
    {
        if self.bits >= SIGN_BIT {
            Scalar { bits: self.bits - SIGN_BIT }
        } else {
            Scalar { bits: self.bits + SIGN_BIT }
        }
    }

    /// The absolute value; a NaN stays a NaN.
    #[verifier::when_used_as_spec(spec_abs)]
    pub fn abs(self) -> (s: Scalar)
        ensures
            s == self.spec_abs(),
            s.magnitude() == self.magnitude(),
            !s.negative(),
    {
        Scalar { bits: self.magnitude_bits() }
    }

    /// The smaller of two numbers. A NaN gives way to the other argument; of
    /// two that compare equal, such as the two zeros, the first comes back.
    #[verifier::when_used_as_spec(spec_min)]
    pub fn min(self, other: Scalar) -> (s: Scalar)
        ensures
            s == self.spec_min(other),
            s == self || s == other,
            !self.is_nan() && !other.is_nan() ==> s.le(self) && s.le(other),
    {
        if self.is_nan() {
            other
        } else if other.lt(self) {
            other
        } else {
            self
        }
    }

    /// The larger of two numbers. A NaN gives way to the other argument; of
    /// two that compare equal, such as the two zeros, the first comes back.
    #[verifier::when_used_as_spec(spec_max)]
    pub fn max(self, other: Scalar) -> (s: Scalar)
        ensures
            s == self.spec_max(other),
            s == self || s == other,
            !self.is_nan() && !other.is_nan() ==> s.ge(self) && s.ge(other),
    {
        if self.is_nan() {
            other
        } else if other.gt(self) {
            other
        } else {
            self
        }
    }

    /// The integer part of `|self| * 2^k`, or `u64::MAX` where that does not
    /// fit in 64 bits.
    pub fn whole(self, k: u64) -> (w: u64)
        ensures
            w == if self.scaled_whole(k as nat) > u64::MAX {
                u64::MAX as int
            } else {
                self.scaled_whole(k as nat)
            },
    {
        let m: u64 = self.magnitude_bits();
        let exponent: u64 = m / HIDDEN_BIT;
        let fraction: u64 = m % HIDDEN_BIT;
        let significand: u64 = if exponent == 0 {
            fraction
        } else {
            fraction + HIDDEN_BIT
        };
        let scale: u64 = if exponent == 0 {
            1
        } else {
            exponent
        };
        proof {
            lemma2_to64();
            lemma2_to64_rest();
        }
        if k >= 2048 || scale + k >= 1075 + 64 {
            proof {
                let up = (scale + k - 1075) as nat;
                if up > 64 {
                    lemma_pow2_strictly_increases(64, up);
                }
                lemma_product_grows(significand as int, pow2(up) as int);
            }
            return if significand == 0 {
                0
            } else {
                u64::MAX
            };
        }
        let e: u64 = scale + k;
        if e >= 1075 {
            let up: u64 = e - 1075;
            proof {
                lemma_u64_mul_pow2_le_max_iff_max_shr(significand, up, u64::MAX);
            }
            if significand <= (u64::MAX >> up) {
                proof {
                    lemma_u64_shl_is_mul(significand, up);
                }
                significand << up
            } else {
                u64::MAX
            }
        } else {
            let down: u64 = 1075 - e;
            if down >= 64 {
                proof {
                    if down > 64 {
                        lemma_pow2_strictly_increases(64, down as nat);
                    }
                    lemma_small_quotient(significand as int, pow2(down as nat) as int);
                }
                0
            } else {
                proof {
                    lemma_u64_shr_is_div(significand, down);
                }
                significand >> down
            }
        }
    }

    /// Truncates toward zero and saturates at the bounds of `i32`; a NaN gives 0.
    pub fn to_i32(self) -> (n: i32)
        ensures
            n == self.spec_to_i32(),
    {
        if self.is_nan() {
            return 0;
        }
        let whole: u64 = self.whole(0);
        if whole >= 0x8000_0000 {
            if self.bits >= SIGN_BIT {
                i32::MIN
            } else {
                i32::MAX
            }
        } else if self.bits >= SIGN_BIT {
            -(whole as i32)
        } else {
            whole as i32
        }
    }
}

/// Encodings without their signs are in the order of the absolute values
/// they stand for: the smaller magnitude has the smaller weight.
pub proof fn lemma_magnitudes_order_as_weights(a: Scalar, b: Scalar)
    ensures
        a.magnitude() < b.magnitude() <==> a.weight() < b.weight(),
        a.magnitude() == b.magnitude() ==> a.weight() == b.weight(),
{
    if a.magnitude() < b.magnitude() {
        lemma_heavier(a, b);
    } else if b.magnitude() < a.magnitude() {
        lemma_heavier(b, a);
    }
}

/// The greater magnitude has the greater weight.
proof fn lemma_heavier(a: Scalar, b: Scalar)
    requires
        a.magnitude() < b.magnitude(),
    ensures
        a.weight() < b.weight(),
{
    let sa = a.significand();
    let sb = b.significand();
    let pa = pow2(a.scale() as nat) as int;
    let pb = pow2(b.scale() as nat) as int;
    lemma_pow2_pos(a.scale() as nat);
    lemma_pow2_pos(b.scale() as nat);
    if a.scale() == b.scale() {
        assert(sa < sb);
        assert(sa * pa < sb * pa) by (nonlinear_arith)
            requires
                sa < sb,
                pa > 0,
        ;
    } else {
        assert(a.scale() < b.scale());
        let next = pow2((a.scale() + 1) as nat) as int;
        lemma_pow2_unfold((a.scale() + 1) as nat);
        if a.scale() + 1 < b.scale() {
            lemma_pow2_strictly_increases((a.scale() + 1) as nat, b.scale() as nat);
        }
        assert(sa * pa < 0x10_0000_0000_0000 * next) by (nonlinear_arith)
            requires
                0 <= sa < 0x20_0000_0000_0000,
                pa > 0,
                next == 2 * pa,
        ;
        assert(0x10_0000_0000_0000 * next <= sb * pb) by (nonlinear_arith)
            requires
                sb >= 0x10_0000_0000_0000,
                0 < next <= pb,
        ;
    }
}

/// A number below a divisor has quotient zero.
proof fn lemma_small_quotient(n: int, d: int)
    requires
        0 <= n < d,
    ensures
        n / d == 0,
{
    assert(n / d == 0) by (nonlinear_arith)
        requires
            0 <= n < d,
    ;
}

/// A product with a factor of at least `2^64` is zero or does not fit in 64
/// bits.
proof fn lemma_product_grows(n: int, f: int)
    requires
        0 <= n,
        f >= 0x1_0000_0000_0000_0000,
    ensures
        n == 0 ==> n * f == 0,
        n > 0 ==> n * f > u64::MAX,
{
    assert(n > 0 ==> n * f >= f) by (nonlinear_arith)
        requires
            0 <= n,
            f >= 0,
    ;
}

} // verus!
