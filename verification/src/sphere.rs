//! Spheres, still or moving.

use vstd::prelude::*;
use crate::hittable::{Crossing, HitRecord};
use crate::hittable_list::{admissible, nearest, window};
use crate::interval::Interval;
use crate::material::Materials;
use crate::scalar::Scalar;
use crate::vec3::Vec3;

verus! {

/// A sphere whose centre moves in a straight line from `center1` at time 0 to
/// `center2` at time 1. A still sphere has both centres in one place. The
/// radius is meant to be positive; nothing here depends on it.
#[derive(Clone, Copy, Debug)]
pub struct Sphere {
    pub center1: Vec3,
    pub center2: Vec3,
    pub radius: Scalar,
    pub mat: Materials,
    pub is_moving: bool,
}

impl Sphere {
    /// A still sphere.
    pub fn sphere(center: Vec3, radius: Scalar, material: Materials) -> (s: Sphere)
        ensures
            s == (Sphere { center1: center, center2: center, radius, mat: material, is_moving: false }),
    {
        Sphere { center1: center, center2: center, radius, mat: material, is_moving: false }
    }

    /// A sphere on its way from `center1` to `center2`.
    pub fn sphere_moving(center1: Vec3, center2: Vec3, radius: Scalar, material: Materials) -> (s:
        Sphere)
        ensures
            s == (Sphere { center1, center2, radius, mat: material, is_moving: true }),
    {
        Sphere { center1, center2, radius, mat: material, is_moving: true }
    }

    /// The hit among the two places where a ray's line crosses the sphere.
    ///
    /// With `a` the squared length of the ray's direction, `half_b` the dot
    /// product of the direction with the vector from the centre to the origin
    /// and `c` the squared length of that vector less the squared radius, the
    /// discriminant is `half_b^2 - a*c`, and the line crosses at the
    /// parameters `(-half_b -/+ sqrt(discriminant)) / a`: `near` at the
    /// smaller, `far` at the larger.
    ///
    /// A negative discriminant is a miss. Otherwise the hit is at `near` if
    /// its parameter lies strictly inside the window, else at `far` if that
    /// one does, else there is none.
    pub open spec fn spec_hit(
        &self,
        ray_t: Interval,
        discriminant: Scalar,
        near: &Crossing,
        far: &Crossing,
    ) -> Option<HitRecord> {
        if discriminant.lt(Scalar { bits: 0 }) {
            None
        } else if ray_t.surrounds(near.t) {
            Some(HitRecord::of(*near, self.mat))
        } else if ray_t.surrounds(far.t) {
            Some(HitRecord::of(*far, self.mat))
        } else {
            None
        }
    }

    /// Decides the hit of a ray from the discriminant and the two crossings
    /// of its line with the sphere.
    #[verifier::when_used_as_spec(spec_hit)]
    pub fn hit(&self, ray_t: Interval, discriminant: Scalar, near: &Crossing, far: &Crossing) -> (res:
        Option<HitRecord>)
        ensures
            res == self.spec_hit(ray_t, discriminant, near, far),
            res matches Some(rec) ==> ray_t.surrounds(rec.t) && rec.mat == self.mat,
    {
        if discriminant.lt(Scalar::zero()) {
            return None;
        }
        let mut root = near;
        if !ray_t.surrounds(root.t) {
            root = far;
            if !ray_t.surrounds(root.t) {
                return None;
            }
        }
        Some(HitRecord::at_crossing(root, &self.mat))
    }
}

/// A sphere reports the nearest of its two crossings that lie strictly inside
/// the window, and none only when neither does. The discriminant is not
/// negative, and the two crossings are in order, `near` not beyond `far`.
pub proof fn lemma_nearest_crossing(
    s: Sphere,
    ray_t: Interval,
    discriminant: Scalar,
    near: Crossing,
    far: Crossing,
)
    requires
        !discriminant.lt(Scalar { bits: 0 }),
        !far.t.lt(near.t),
    ensures
        match s.hit(ray_t, discriminant, &near, &far) {
            Some(rec) => {
                &&& rec == HitRecord::of(near, s.mat) || rec == HitRecord::of(far, s.mat)
                &&& ray_t.surrounds(rec.t)
                &&& ray_t.surrounds(near.t) ==> rec.t.le(near.t)
                &&& ray_t.surrounds(far.t) ==> rec.t.le(far.t)
            },
            None => !ray_t.surrounds(near.t) && !ray_t.surrounds(far.t),
        },
{
}

/// Asking a sphere about a window that ends earlier changes nothing but to
/// drop a hit at or beyond the new end: the sphere answers with the same hit
/// if that lies before the end, and with none otherwise. The two crossings
/// are in order, `near` not beyond `far`, and the new end is not beyond the
/// old one.
pub proof fn lemma_earlier_end(
    s: Sphere,
    ray_t: Interval,
    end: Scalar,
    discriminant: Scalar,
    near: Crossing,
    far: Crossing,
)
    requires
        !far.t.lt(near.t),
        end.le(ray_t.max),
    ensures
        s.hit(Interval { min: ray_t.min, max: end }, discriminant, &near, &far) == match s.hit(
            ray_t,
            discriminant,
            &near,
            &far,
        ) {
            Some(rec) => if rec.t.lt(end) {
                Some(rec)
            } else {
                None
            },
            None => None,
        },
{
}

/// Of two spheres that a ray both hits within a window, a scene of the two
/// reports the hit with the smaller ray parameter, whichever sphere comes
/// first; where the two parameters are equal, the hit of the first. The
/// crossings of each sphere are in order, `near` not beyond `far`.
pub proof fn lemma_nearer_sphere_wins(
    ray_t: Interval,
    first: Sphere,
    first_discriminant: Scalar,
    first_near: Crossing,
    first_far: Crossing,
    second: Sphere,
    second_discriminant: Scalar,
    second_near: Crossing,
    second_far: Crossing,
)
    requires
        !first_far.t.lt(first_near.t),
        !second_far.t.lt(second_near.t),
        first.hit(ray_t, first_discriminant, &first_near, &first_far) is Some,
        second.hit(ray_t, second_discriminant, &second_near, &second_far) is Some,
    ensures
        ({
            let a = first.hit(ray_t, first_discriminant, &first_near, &first_far);
            let b = second.hit(ray_t, second_discriminant, &second_near, &second_far);
            let reports = seq![
                a,
                second.hit(window(ray_t, a), second_discriminant, &second_near, &second_far),
            ];
            &&& admissible(ray_t, reports)
            &&& nearest(reports) == if b->0.t.lt(a->0.t) {
                b
            } else {
                a
            }
        }),
{
    let a = first.hit(ray_t, first_discriminant, &first_near, &first_far);
    let narrowed = second.hit(window(ray_t, a), second_discriminant, &second_near, &second_far);
    let reports = seq![a, narrowed];
    lemma_earlier_end(second, ray_t, a->0.t, second_discriminant, second_near, second_far);
    assert(reports.take(0) =~= Seq::<Option<HitRecord>>::empty());
    assert(reports.take(1) =~= seq![a]);
    assert(seq![a].drop_last() =~= Seq::<Option<HitRecord>>::empty());
    assert(nearest(seq![a]) == a);
    assert(reports.drop_last() =~= seq![a]);
    assert(reports.last() == narrowed);
}

} // verus!
