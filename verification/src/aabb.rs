//! Axis-aligned bounding boxes.

use vstd::prelude::*;
use crate::interval::Interval;
use crate::scalar::Scalar;
use crate::vec3::Vec3;

verus! {

/// A box with its sides along the axes: one range for each axis.
#[derive(Clone, Copy, Debug)]
pub struct AABB {
    pub x: Interval,
    pub y: Interval,
    pub z: Interval,
}

/// The parameters at which a ray crosses the two planes that bound a box
/// along one axis: `(bound - origin) / direction`, for the lower bound and
/// for the upper one, taken along that axis.
#[derive(Clone, Copy, Debug)]
pub struct Slab {
    pub lower: Scalar,
    pub upper: Scalar,
}

impl AABB {
    /// The range between two coordinates, whichever is the smaller.
    pub open spec fn span(a: Scalar, b: Scalar) -> Interval {
        Interval { min: a.min(b), max: a.max(b) }
    }

    /// The window that is left of `ray_t` between the two planes of a slab.
    pub open spec fn narrowed(ray_t: Interval, slab: Slab) -> Interval {
        Interval {
            min: slab.lower.min(slab.upper).max(ray_t.min),
            max: slab.lower.max(slab.upper).min(ray_t.max),
        }
    }

    /// Whether a window holds nothing any more: its end is not above its start.
    pub open spec fn closed(ray_t: Interval) -> bool {
        ray_t.max.le(ray_t.min)
    }

    /// Whether a ray passes through the box within the window `ray_t`: the
    /// window, narrowed to the slab of each axis in turn, never closes.
    pub open spec fn spec_hit(ray_t: Interval, x: Slab, y: Slab, z: Slab) -> bool {
        let in_x = AABB::narrowed(ray_t, x);
        let in_xy = AABB::narrowed(in_x, y);
        let in_xyz = AABB::narrowed(in_xy, z);
        !AABB::closed(in_x) && !AABB::closed(in_xy) && !AABB::closed(in_xyz)
    }

    /// The box that holds nothing.
    pub fn identity() -> (b: AABB)
        ensures
            b.x == Interval::spec_empty(),
            b.y == Interval::spec_empty(),
            b.z == Interval::spec_empty(),
    {
        AABB { x: Interval::identity(), y: Interval::identity(), z: Interval::identity() }
    }

    /// The box with `a` and `b` at opposite corners.
    pub fn aabb(a: &Vec3, b: &Vec3) -> (bx: AABB)
        ensures
            bx.x == AABB::span(a.e0, b.e0),
            bx.y == AABB::span(a.e1, b.e1),
            bx.z == AABB::span(a.e2, b.e2),
    {
        AABB {
            x: Interval::interval(a.x().min(b.x()), a.x().max(b.x())),
            y: Interval::interval(a.y().min(b.y()), a.y().max(b.y())),
            z: Interval::interval(a.z().min(b.z()), a.z().max(b.z())),
        }
    }

    /// The range of the box along an axis: 1 is `y`, 2 is `z`, and every other
    /// number is `x`.
    pub fn axis(&self, n: i32) -> (i: Interval)
        ensures
            i == if n == 1 {
                self.y
            } else if n == 2 {
                self.z
            } else {
                self.x
            },
    {
        if n == 1 {
            return self.y;
        }
        if n == 2 {
            return self.z;
        }
        self.x
    }

    /// Narrows a window to a slab; `None` when nothing is left of it.
    pub fn narrow(ray_t: Interval, slab: &Slab) -> (res: Option<Interval>)
        ensures
            res == if AABB::closed(AABB::narrowed(ray_t, *slab)) {
                None
            } else {
                Some(AABB::narrowed(ray_t, *slab))
            },
    {
        let t0 = slab.lower.min(slab.upper);
        let t1 = slab.lower.max(slab.upper);
        let left = Interval::interval(t0.max(ray_t.min()), t1.min(ray_t.max()));
        if left.max().le(left.min()) {
            None
        } else {
            Some(left)
        }
    }

    /// Whether a ray passes through the box within the window `ray_t`, given
    /// the slabs of the three axes.
    #[verifier::when_used_as_spec(spec_hit)]
    pub fn hit(ray_t: Interval, x: Slab, y: Slab, z: Slab) -> (b: bool)
        ensures
            b == AABB::spec_hit(ray_t, x, y, z),
    {
        match AABB::narrow(ray_t, &x) {
            None => false,
            Some(in_x) => match AABB::narrow(in_x, &y) {
                None => false,
                Some(in_xy) => AABB::narrow(in_xy, &z).is_some(),
            },
        }
    }
}

} // verus!
