//! Closed ranges of scalars.

use vstd::prelude::*;
use crate::scalar::{Scalar, INFINITY_BITS, NEG_INFINITY_BITS};

verus! {

/// The closed range `[min, max]`. A range whose `min` lies above its `max`
/// holds nothing.
#[derive(Clone, Copy, Debug)]
pub struct Interval {
    pub min: Scalar,
    pub max: Scalar,
}

impl Interval {
    /// `min <= x <= max`.
    pub open spec fn spec_contains(&self, x: Scalar) -> bool {
        self.min.le(x) && x.le(self.max)
    }

    /// `min < x < max`.
    pub open spec fn spec_surrounds(&self, x: Scalar) -> bool {
        self.min.lt(x) && x.lt(self.max)
    }

    /// `x` moved to the nearer bound when it lies outside the range.
    pub open spec fn spec_clamp(&self, x: Scalar) -> Scalar {
        if x.lt(self.min) {
            self.min
        } else if x.gt(self.max) {
            self.max
        } else {
            x
        }
    }

    /// The range from positive to negative infinity, which holds nothing.
    pub open spec fn spec_empty() -> Interval {
        Interval { min: Scalar { bits: INFINITY_BITS }, max: Scalar { bits: NEG_INFINITY_BITS } }
    }

    /// The range from negative to positive infinity.
    pub open spec fn spec_universe() -> Interval {
        Interval { min: Scalar { bits: NEG_INFINITY_BITS }, max: Scalar { bits: INFINITY_BITS } }
    }

    /// The range from `min` to `max`.
    pub fn interval(min: Scalar, max: Scalar) -> (i: Interval)
        ensures
            i.min == min,
            i.max == max,
    {
        Interval { min, max }
    }

    /// The empty range: the starting point for growing a range around points.
    pub fn identity() -> (i: Interval)
        ensures
            i == Interval::spec_empty(),
    {
        Interval { min: Scalar::infinity(), max: Scalar::neg_infinity() }
    }

    /// The lower bound.
    pub fn min(&self) -> (m: Scalar)
        ensures
            m == self.min,
    {
        self.min
    }

    /// The upper bound.
    pub fn max(&self) -> (m: Scalar)
        ensures
            m == self.max,
    {
        self.max
    }

    /// Whether `x` lies in the range, bounds included.
    #[verifier::when_used_as_spec(spec_contains)]
    pub fn contains(&self, x: Scalar) -> (b: bool)
        ensures
            b == self.spec_contains(x),
    {
        self.min.le(x) && x.le(self.max)
    }

    /// Whether `x` lies in the range, bounds excluded.
    #[verifier::when_used_as_spec(spec_surrounds)]
    pub fn surrounds(&self, x: Scalar) -> (b: bool)
        ensures
            b == self.spec_surrounds(x),
    {
        self.min.lt(x) && x.lt(self.max)
    }

    /// Saturates `x` at the bounds. The result lies in the range whenever the
    /// range holds anything and `x` is a number, and is `x` itself whenever `x`
    /// already lies in the range.
    #[verifier::when_used_as_spec(spec_clamp)]
    pub fn clamp(&self, x: Scalar) -> (c: Scalar)
        ensures
            c == self.spec_clamp(x),
            self.min.le(self.max) && !x.is_nan() ==> self.contains(c),
            self.contains(x) ==> c == x,
    {
        if x.lt(self.min) {
            return self.min;
        }
        if x.gt(self.max) {
            return self.max;
        }
        x
    }

    /// The range that holds nothing.
    pub fn empty() -> (i: Interval)
        ensures
            i == Interval::spec_empty(),
            forall|x: Scalar| !i.contains(x),
    {
        Interval { min: Scalar::infinity(), max: Scalar::neg_infinity() }
    }

    /// The range that holds every number.
    pub fn universe() -> (i: Interval)
        ensures
            i == Interval::spec_universe(),
            forall|x: Scalar| !x.is_nan() ==> i.contains(x),
    {
        Interval { min: Scalar::neg_infinity(), max: Scalar::infinity() }
    }
}

} // verus!
