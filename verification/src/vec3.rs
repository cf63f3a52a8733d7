//! Triples of scalars: points, directions and colours.

use vstd::prelude::*;
use crate::scalar::{Scalar, ONE_BITS};

verus! {

/// The encoding of `1e-8`, below which a component counts as zero.
pub const NEAR_ZERO_BITS: u64 = 0x3E45_798E_E230_8C3A;

/// Three components, read as a point, a direction or an RGB colour.
#[derive(Clone, Copy, Debug)]
pub struct Vec3 {
    pub e0: Scalar,
    pub e1: Scalar,
    pub e2: Scalar,
}

impl Vec3 {
    /// Every component is below `1e-8` in absolute value.
    pub open spec fn spec_near_zero(&self) -> bool {
        let s = Scalar { bits: NEAR_ZERO_BITS };
        self.e0.abs().lt(s) && self.e1.abs().lt(s) && self.e2.abs().lt(s)
    }

    /// The vector with each component's sign reversed.
    pub open spec fn spec_neg(self) -> Vec3 {
        Vec3 { e0: self.e0.neg(), e1: self.e1.neg(), e2: self.e2.neg() }
    }

    /// The vector with the given components.
    pub fn vec3(e0: Scalar, e1: Scalar, e2: Scalar) -> (v: Vec3)
        ensures
            v == (Vec3 { e0, e1, e2 }),
    {
        Vec3 { e0, e1, e2 }
    }

    /// The zero vector.
    pub fn identity() -> (v: Vec3)
        ensures
            v.e0.bits == 0,
            v.e1.bits == 0,
            v.e2.bits == 0,
    {
        Vec3 { e0: Scalar::zero(), e1: Scalar::zero(), e2: Scalar::zero() }
    }

    /// Takes every component of `x`.
    pub fn set(&mut self, x: &Vec3)
        ensures
            *final(self) == *x,
    {
        self.e0 = x.e0;
        self.e1 = x.e1;
        self.e2 = x.e2;
    }

    /// The first component.
    pub fn x(&self) -> (c: Scalar)
        ensures
            c == self.e0,
    {
        self.e0
    }

    /// The second component.
    pub fn y(&self) -> (c: Scalar)
        ensures
            c == self.e1,
    {
        self.e1
    }

    /// The third component.
    pub fn z(&self) -> (c: Scalar)
        ensures
            c == self.e2,
    {
        self.e2
    }

    /// Replaces the first component.
    pub fn set_x(&mut self, x: &Scalar)
        ensures
            *final(self) == (Vec3 { e0: *x, ..*old(self) }),
    {
        self.e0 = *x;
    }

    /// Replaces the second component.
    pub fn set_y(&mut self, y: &Scalar)
        ensures
            *final(self) == (Vec3 { e1: *y, ..*old(self) }),
    {
        self.e1 = *y;
    }

    /// Replaces the third component.
    pub fn set_z(&mut self, z: &Scalar)
        ensures
            *final(self) == (Vec3 { e2: *z, ..*old(self) }),
    {
        self.e2 = *z;
    }

    /// Whether the vector is too short to give a direction.
    #[verifier::when_used_as_spec(spec_near_zero)]
    pub fn near_zero(&self) -> (b: bool)
        ensures
            b == self.spec_near_zero(),
    {
        let s = Scalar::from_bits(NEAR_ZERO_BITS);
        self.e0.abs().lt(s) && self.e1.abs().lt(s) && self.e2.abs().lt(s)
    }

    /// The opposite vector.
    #[verifier::when_used_as_spec(spec_neg)]
    pub fn neg(self) -> (v: Vec3)
        ensures
            v == self.spec_neg(),
    {
        Vec3 { e0: self.e0.neg(), e1: self.e1.neg(), e2: self.e2.neg() }
    }
}

/// Whether a candidate with the given squared length is kept when sampling
/// the inside of the unit ball or of the unit disk: exactly when it is below 1.
pub fn inside_unit(length_squared: Scalar) -> (keep: bool)
    ensures
        keep == length_squared.lt(Scalar { bits: ONE_BITS }),
{
    length_squared.lt(Scalar::one())
}

/// Turns a unit vector into the hemisphere around a normal, given the dot
/// product of the two: the vector itself when the product is positive, its
/// opposite otherwise.
pub fn on_hemisphere(on_unit_sphere: Vec3, facing: Scalar) -> (v: Vec3)
    ensures
        v == if facing.gt(Scalar { bits: 0 }) {
            on_unit_sphere
        } else {
            on_unit_sphere.neg()
        },
{
    if facing.gt(Scalar::zero()) {
        on_unit_sphere
    } else {
        on_unit_sphere.neg()
    }
}

} // verus!
