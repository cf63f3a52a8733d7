//! Rays: an origin, a direction and the time of the cast.

use vstd::prelude::*;
use crate::scalar::Scalar;
use crate::vec3::Vec3;

verus! {

/// The half-line `origin + t * direction`, cast at a time in `[0, 1)`.
#[derive(Clone, Copy, Debug)]
pub struct Ray {
    pub orig: Vec3,
    pub dir: Vec3,
    pub tm: Scalar,
}

impl Ray {
    /// A ray cast at time zero.
    pub fn ray(origin: &Vec3, direction: &Vec3) -> (r: Ray)
        ensures
            r.orig == *origin,
            r.dir == *direction,
            r.tm.bits == 0,
    {
        Ray { orig: *origin, dir: *direction, tm: Scalar::zero() }
    }

    /// A ray cast at the given time.
    pub fn ray_time(origin: &Vec3, direction: &Vec3, time: &Scalar) -> (r: Ray)
        ensures
            r == (Ray { orig: *origin, dir: *direction, tm: *time }),
    {
        Ray { orig: *origin, dir: *direction, tm: *time }
    }

    /// Takes the origin and the direction of `r`; the time stays.
    pub fn set(&mut self, r: &Ray)
        ensures
            *final(self) == (Ray { orig: r.orig, dir: r.dir, tm: old(self).tm }),
    {
        self.orig = r.origin();
        self.dir = r.direction();
    }

    /// Where the ray starts.
    pub fn origin(&self) -> (o: Vec3)
        ensures
            o == self.orig,
    {
        self.orig
    }

    /// Where the ray points; not of unit length in general.
    pub fn direction(&self) -> (d: Vec3)
        ensures
            d == self.dir,
    {
        self.dir
    }

    /// When the ray was cast.
    pub fn time(&self) -> (t: Scalar)
        ensures
            t == self.tm,
    {
        self.tm
    }

    /// Replaces the origin.
    pub fn set_origin(&mut self, orig: &Vec3)
        ensures
            *final(self) == (Ray { orig: *orig, ..*old(self) }),
    {
        self.orig = *orig;
    }

    /// Replaces the direction.
    pub fn set_direction(&mut self, dir: &Vec3)
        ensures
            *final(self) == (Ray { dir: *dir, ..*old(self) }),
    {
        self.dir = *dir;
    }

    /// Replaces the time.
    pub fn set_time(&mut self, time: &Scalar)
        ensures
            *final(self) == (Ray { tm: *time, ..*old(self) }),
    {
        self.tm = *time;
    }
}

} // verus!
