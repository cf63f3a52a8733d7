//! What a ray learns where it meets a surface, and the capability of being
//! met by rays.

use vstd::prelude::*;
use crate::interval::Interval;
use crate::material::Materials;
use crate::ray::Ray;
use crate::scalar::Scalar;
use crate::vec3::Vec3;

verus! {

/// A place where a ray crosses a surface, before it is known from which side:
/// the ray parameter, the point, the unit normal that points out of the
/// surface, and the dot product of the ray's direction with that normal.
#[derive(Clone, Copy, Debug)]
pub struct Crossing {
    pub t: Scalar,
    pub p: Vec3,
    pub outward_normal: Vec3,
    pub facing: Scalar,
}

/// A hit: the point, the unit normal turned against the ray, the material,
/// the ray parameter, and whether the ray came from outside the surface.
#[derive(Clone, Copy, Debug)]
pub struct HitRecord {
    pub p: Vec3,
    pub normal: Vec3,
    pub mat: Materials,
    pub t: Scalar,
    pub front_face: bool,
}

impl HitRecord {
    /// Whether a ray comes from outside: when the dot product of its direction
    /// with the outward normal is negative.
    pub open spec fn from_outside(facing: Scalar) -> bool {
        facing.lt(Scalar { bits: 0 })
    }

    /// The normal that opposes the ray: the outward normal for a ray from
    /// outside, its opposite for a ray from inside.
    pub open spec fn opposing(facing: Scalar, outward_normal: Vec3) -> Vec3 {
        if HitRecord::from_outside(facing) {
            outward_normal
        } else {
            outward_normal.neg()
        }
    }

    /// The record of a crossing of a surface of the given material.
    pub open spec fn of(c: Crossing, mat: Materials) -> HitRecord {
        HitRecord {
            p: c.p,
            normal: HitRecord::opposing(c.facing, c.outward_normal),
            mat,
            t: c.t,
            front_face: HitRecord::from_outside(c.facing),
        }
    }

    /// A record at the origin, of the default material.
    pub fn default() -> (rec: HitRecord)
        ensures
            rec.p.e0.bits == 0 && rec.p.e1.bits == 0 && rec.p.e2.bits == 0,
            rec.normal.e0.bits == 0 && rec.normal.e1.bits == 0 && rec.normal.e2.bits == 0,
            rec.mat matches Materials::LAMBERTIAN(l) && l.albedo.e0.bits == 0 && l.albedo.e1.bits
                == 0 && l.albedo.e2.bits == 0,
            rec.t.bits == 0,
            !rec.front_face,
    {
        HitRecord {
            p: Vec3::identity(),
            normal: Vec3::identity(),
            mat: Materials::default(),
            t: Scalar::zero(),
            front_face: false,
        }
    }

    /// Sets the side and the normal from the dot product `facing` of the
    /// ray's direction with `outward_normal`, which has unit length.
    pub fn set_face_normal(&mut self, facing: Scalar, outward_normal: &Vec3)
        ensures
            *final(self) == (HitRecord {
                front_face: HitRecord::from_outside(facing),
                normal: HitRecord::opposing(facing, *outward_normal),
                ..*old(self)
            }),
    {
        self.front_face = facing.lt(Scalar::zero());
        if self.front_face {
            self.normal = *outward_normal;
        } else {
            self.normal = outward_normal.neg();
        }
    }

    /// Records a crossing of a surface of the given material.
    pub fn at_crossing(c: &Crossing, mat: &Materials) -> (rec: HitRecord)
        ensures
            rec == HitRecord::of(*c, *mat),
    {
        let mut rec = HitRecord::default();
        rec.set_t(&c.t);
        rec.set_p(&c.p);
        rec.set_face_normal(c.facing, &c.outward_normal);
        rec.set_mat(mat);
        rec
    }

    /// The point of the hit.
    pub fn p(&self) -> (p: Vec3)
        ensures
            p == self.p,
    {
        self.p
    }

    /// The unit normal at the hit, turned against the ray.
    pub fn normal(&self) -> (n: Vec3)
        ensures
            n == self.normal,
    {
        self.normal
    }

    /// The ray parameter of the hit.
    pub fn t(&self) -> (t: Scalar)
        ensures
            t == self.t,
    {
        self.t
    }

    /// The material of the surface.
    pub fn mat(&self) -> (m: Materials)
        ensures
            m == self.mat,
    {
        self.mat
    }

    /// Whether the ray came from outside the surface.
    pub fn front_face(&self) -> (f: bool)
        ensures
            f == self.front_face,
    {
        self.front_face
    }

    /// Replaces the side.
    pub fn set_front_face(&mut self, front: &bool)
        ensures
            *final(self) == (HitRecord { front_face: *front, ..*old(self) }),
    {
        self.front_face = *front;
    }

    /// Replaces the material.
    pub fn set_mat(&mut self, mat: &Materials)
        ensures
            *final(self) == (HitRecord { mat: *mat, ..*old(self) }),
    {
        self.mat = *mat;
    }

    /// Replaces the point.
    pub fn set_p(&mut self, p: &Vec3)
        ensures
            *final(self) == (HitRecord { p: *p, ..*old(self) }),
    {
        self.p = *p;
    }

    /// Replaces the normal.
    pub fn set_normal(&mut self, normal: &Vec3)
        ensures
            *final(self) == (HitRecord { normal: *normal, ..*old(self) }),
    {
        self.normal = *normal;
    }

    /// Replaces the ray parameter.
    pub fn set_t(&mut self, t: &Scalar)
        ensures
            *final(self) == (HitRecord { t: *t, ..*old(self) }),
    {
        self.t = *t;
    }
}

/// Anything a ray can hit.
///
/// Whoever implements this owes the record in full: the point, the unit
/// normal turned against the ray, the material, the ray parameter and the
/// side. What those who ask rely on, and what is therefore promised in the
/// contract, is that the object answers a ray and a window in one way only,
/// and where the ray parameter of a hit lies.
pub trait Hittable: Sync + Send {
    /// The object's answer to a ray and a window: the hit it reports, if any.
    /// It names what `hit` returns, so that contracts can speak of it; an
    /// object written outside the verifier gives it as the call of its `hit`.
    spec fn answer(&self, r: Ray, ray_t: Interval) -> Option<HitRecord>;

    /// The hit of `r` that the object reports for the window `ray_t`, if any:
    /// its answer. A hit is reported only at a ray parameter strictly inside
    /// the window.
    fn hit(&self, r: &Ray, ray_t: Interval) -> (res: Option<HitRecord>)
        ensures
            res == self.answer(*r, ray_t),
            res matches Some(rec) ==> ray_t.surrounds(rec.t),
    ;
}

} // verus!
