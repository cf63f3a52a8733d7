//! The three surface materials and what becomes of a ray that meets them.
//!
//! A material answers with the colour filter it applies and the ray that
//! leaves the surface. The candidate directions come out of vector
//! arithmetic and random draws, which the caller performs. What is decided
//! here is which of them is taken (the normal in place of a diffuse
//! direction that is too short, the reflected or the refracted one at a
//! clear surface) and what the answer holds.

use vstd::prelude::*;
use crate::hittable::HitRecord;
use crate::ray::Ray;
use crate::scalar::{Scalar, ONE_BITS};
use crate::vec3::Vec3;

verus! {

/// What a surface does to a ray that hits it.
pub trait Material {
    /// The colour filter that the surface applies and the ray that leaves it,
    /// given the hit and the direction in which this material sends the ray
    /// on; `None` when the ray is absorbed. A ray that is not absorbed is
    /// answered with the material's `scattering`. A material that does not
    /// say otherwise has none, and absorbs every ray.
    fn scatter(&self, rec: &HitRecord, direction: Vec3) -> (res: Option<(Vec3, Ray)>)
        ensures
            res is None || res == self.scattering(*rec, direction),
    {
        None
    }

    /// The filter and the ray with which the material answers a ray that it
    /// does not absorb; none for a material that absorbs every ray.
    open spec fn scattering(&self, rec: HitRecord, direction: Vec3) -> Option<(Vec3, Ray)> {
        None
    }
}

/// The ray that leaves the point of a hit in the given direction. It is cast
/// at time zero.
pub open spec fn leaving(rec: HitRecord, direction: Vec3) -> Ray {
    Ray { orig: rec.p, dir: direction, tm: Scalar { bits: 0 } }
}

/// White: the filter that lets all light through.
pub open spec fn white() -> Vec3 {
    Vec3 { e0: Scalar { bits: ONE_BITS }, e1: Scalar { bits: ONE_BITS }, e2: Scalar { bits: ONE_BITS } }
}

/// A diffuse surface.
#[derive(Clone, Copy, Debug)]
pub struct Lambertian {
    pub albedo: Vec3,
}

impl Lambertian {
    /// A diffuse surface that reflects the fraction `a` of each colour.
    pub fn new(a: Vec3) -> (l: Lambertian)
        ensures
            l.albedo == a,
    {
        Lambertian { albedo: a }
    }

    /// The fraction of each colour that is reflected.
    pub fn get_albedo(&self) -> (a: Vec3)
        ensures
            a == self.albedo,
    {
        self.albedo
    }

    /// The direction a diffuse surface scatters in: the candidate (the normal
    /// plus a random unit vector), unless that sum is too short to give a
    /// direction, and then the normal itself.
    pub open spec fn direction(rec: HitRecord, candidate: Vec3) -> Vec3 {
        if candidate.near_zero() {
            rec.normal
        } else {
            candidate
        }
    }
}

impl Material for Lambertian {
    /// The albedo, and the ray from the hit point along `Lambertian::direction`.
    open spec fn scattering(&self, rec: HitRecord, direction: Vec3) -> Option<(Vec3, Ray)> {
        Some((self.albedo, leaving(rec, Lambertian::direction(rec, direction))))
    }

    /// Scatters always: the filter is the albedo, and the ray leaves the hit
    /// point along `Lambertian::direction` of the candidate, which is the
    /// normal plus a random unit vector.
    fn scatter(&self, rec: &HitRecord, direction: Vec3) -> (res: Option<(Vec3, Ray)>)
        ensures
            res == Some((self.albedo, leaving(*rec, Lambertian::direction(*rec, direction)))),
    {
        let mut scatter_direction = direction;
        if scatter_direction.near_zero() {
            scatter_direction = rec.normal();
        }
        let scattered = Ray::ray(&rec.p(), &scatter_direction);
        Some((self.get_albedo(), scattered))
    }
}

/// A reflecting surface, rougher as `fuzz` grows from 0 to 1.
#[derive(Clone, Copy, Debug)]
pub struct Metal {
    pub albedo: Vec3,
    pub fuzz: Scalar,
}

impl Metal {
    /// A metal that reflects the fraction `a` of each colour, with roughness `f`.
    pub fn new(a: Vec3, f: Scalar) -> (m: Metal)
        ensures
            m.albedo == a,
            m.fuzz == f,
    {
        Metal { albedo: a, fuzz: f }
    }

    /// The fraction of each colour that is reflected.
    pub fn get_albedo(&self) -> (a: Vec3)
        ensures
            a == self.albedo,
    {
        self.albedo
    }

    /// The roughness.
    pub fn get_fuzz(&self) -> (f: Scalar)
        ensures
            f == self.fuzz,
    {
        self.fuzz
    }
}

impl Material for Metal {
    /// The albedo, and the ray from the hit point in the given direction.
    open spec fn scattering(&self, rec: HitRecord, direction: Vec3) -> Option<(Vec3, Ray)> {
        Some((self.albedo, leaving(rec, direction)))
    }

    /// Scatters always, also when the direction points into the surface: the
    /// filter is the albedo, and the ray leaves the hit point in the given
    /// direction, which is the reflection of the incoming unit direction
    /// about the normal plus `fuzz` times a random unit vector.
    fn scatter(&self, rec: &HitRecord, direction: Vec3) -> (res: Option<(Vec3, Ray)>)
        ensures
            res == Some((self.albedo, leaving(*rec, direction))),
    {
        let scattered = Ray::ray(&rec.p(), &direction);
        Some((self.get_albedo(), scattered))
    }
}

/// A clear surface that reflects or refracts.
#[derive(Clone, Copy, Debug)]
pub struct Dielectric {
    pub ir: Scalar,
}

impl Dielectric {
    /// A clear material with the given index of refraction.
    pub fn new(ir: Scalar) -> (d: Dielectric)
        ensures
            d.ir == ir,
    {
        Dielectric { ir }
    }

    /// The index of refraction.
    pub fn get_ir(&self) -> (ir: Scalar)
        ensures
            ir == self.ir,
    {
        self.ir
    }

    /// Whether Snell's law has no solution, so that the ray must reflect:
    /// when the refraction ratio times the sine of the angle of incidence
    /// exceeds 1.
    pub fn cannot_refract(ratio_times_sine: Scalar) -> (b: bool)
        ensures
            b == ratio_times_sine.gt(Scalar { bits: ONE_BITS }),
    {
        ratio_times_sine.gt(Scalar::one())
    }

    /// Whether a ray that could refract reflects all the same: when the
    /// reflectance exceeds a draw from `[0, 1)`, so with a probability equal to
    /// the reflectance.
    pub fn reflects(reflectance: Scalar, draw: Scalar) -> (b: bool)
        ensures
            b == reflectance.gt(draw),
    {
        reflectance.gt(draw)
    }

    /// The ratio of the index of refraction on the side the ray comes from to
    /// that on the side it goes to: the reciprocal of the material's index
    /// for a ray that enters from outside, the index itself for a ray that
    /// leaves.
    pub open spec fn spec_refraction_ratio(&self, front_face: bool, reciprocal: Scalar) -> Scalar {
        if front_face {
            reciprocal
        } else {
            self.ir
        }
    }

    /// The refraction ratio for a hit on the given side, given the reciprocal
    /// of the index.
    #[verifier::when_used_as_spec(spec_refraction_ratio)]
    pub fn refraction_ratio(&self, front_face: bool, reciprocal: Scalar) -> (k: Scalar)
        ensures
            k == self.spec_refraction_ratio(front_face, reciprocal),
    {
        if front_face {
            reciprocal
        } else {
            self.get_ir()
        }
    }

    /// The direction in which a clear surface sends a ray on: the reflected
    /// one if the ray cannot refract (the refraction ratio times the sine of
    /// the angle of incidence exceeds 1) or if the reflectance exceeds the
    /// draw, and the refracted one otherwise.
    pub open spec fn spec_direction(
        ratio_times_sine: Scalar,
        reflectance: Scalar,
        draw: Scalar,
        reflected: Vec3,
        refracted: Vec3,
    ) -> Vec3 {
        if ratio_times_sine.gt(Scalar { bits: ONE_BITS }) || reflectance.gt(draw) {
            reflected
        } else {
            refracted
        }
    }

    /// Chooses between reflection and refraction.
    #[verifier::when_used_as_spec(spec_direction)]
    pub fn direction(
        ratio_times_sine: Scalar,
        reflectance: Scalar,
        draw: Scalar,
        reflected: Vec3,
        refracted: Vec3,
    ) -> (d: Vec3)
        ensures
            d == Dielectric::spec_direction(ratio_times_sine, reflectance, draw, reflected, refracted),
    {
        if Dielectric::cannot_refract(ratio_times_sine) || Dielectric::reflects(reflectance, draw) {
            reflected
        } else {
            refracted
        }
    }

    /// What a clear surface does to a ray, from the hit, the two tests'
    /// inputs and the two directions the ray may take: it scatters always
    /// and absorbs nothing, and the ray leaves the hit point reflected or
    /// refracted as `Dielectric::direction` chooses.
    pub fn refract_or_reflect(
        &self,
        rec: &HitRecord,
        ratio_times_sine: Scalar,
        reflectance: Scalar,
        draw: Scalar,
        reflected: Vec3,
        refracted: Vec3,
    ) -> (res: Option<(Vec3, Ray)>)
        ensures
            res == Some(
                (
                    white(),
                    leaving(
                        *rec,
                        Dielectric::spec_direction(
                            ratio_times_sine,
                            reflectance,
                            draw,
                            reflected,
                            refracted,
                        ),
                    ),
                ),
            ),
    {
        let direction = Dielectric::direction(
            ratio_times_sine,
            reflectance,
            draw,
            reflected,
            refracted,
        );
        self.scatter(rec, direction)
    }
}

/// A ray that cannot refract is reflected, whatever the reflectance and
/// whatever the draw.
pub proof fn lemma_total_internal_reflection(
    ratio_times_sine: Scalar,
    reflectance: Scalar,
    draw: Scalar,
    reflected: Vec3,
    refracted: Vec3,
)
    requires
        ratio_times_sine.gt(Scalar { bits: ONE_BITS }),
    ensures
        Dielectric::direction(ratio_times_sine, reflectance, draw, reflected, refracted)
            == reflected,
{
}

/// A ray that can refract, at a surface whose reflectance is zero or less,
/// is refracted for every draw from `[0, 1)`.
pub proof fn lemma_no_reflectance_refracts(
    ratio_times_sine: Scalar,
    reflectance: Scalar,
    draw: Scalar,
    reflected: Vec3,
    refracted: Vec3,
)
    requires
        !ratio_times_sine.gt(Scalar { bits: ONE_BITS }),
        reflectance.le(Scalar { bits: 0 }),
        draw.ge(Scalar { bits: 0 }),
    ensures
        Dielectric::direction(ratio_times_sine, reflectance, draw, reflected, refracted)
            == refracted,
{
}

impl Material for Dielectric {
    /// White, and the ray from the hit point in the given direction.
    open spec fn scattering(&self, rec: HitRecord, direction: Vec3) -> Option<(Vec3, Ray)> {
        Some((white(), leaving(rec, direction)))
    }

    /// Scatters always and absorbs nothing: the filter is white, and the ray
    /// leaves the hit point in the given direction, which is the reflected
    /// or the refracted one.
    fn scatter(&self, rec: &HitRecord, direction: Vec3) -> (res: Option<(Vec3, Ray)>)
        ensures
            res == Some((white(), leaving(*rec, direction))),
    {
        let attenuation = Vec3::vec3(Scalar::one(), Scalar::one(), Scalar::one());
        let scattered = Ray::ray(&rec.p(), &direction);
        Some((attenuation, scattered))
    }
}

/// The closed set of materials.
#[derive(Clone, Copy, Debug)]
pub enum Materials {
    LAMBERTIAN(Lambertian),
    METAL(Metal),
    DIELECTRIC(Dielectric),
}

impl Materials {
    /// What the material of this kind does to a ray.
    pub open spec fn spec_scatter(&self, rec: &HitRecord, direction: Vec3) -> Option<(Vec3, Ray)> {
        match *self {
            Materials::LAMBERTIAN(l) => Some(
                (l.albedo, leaving(*rec, Lambertian::direction(*rec, direction))),
            ),
            Materials::METAL(m) => Some((m.albedo, leaving(*rec, direction))),
            Materials::DIELECTRIC(_) => Some((white(), leaving(*rec, direction))),
        }
    }

    /// Hands the hit to the material it names. None of the three absorbs.
    #[verifier::when_used_as_spec(spec_scatter)]
    pub fn scatter(&self, rec: &HitRecord, direction: Vec3) -> (res: Option<(Vec3, Ray)>)
        ensures
            res == self.spec_scatter(rec, direction),
            res is Some,
    {
        match self {
            Materials::LAMBERTIAN(l) => l.scatter(rec, direction),
            Materials::METAL(m) => m.scatter(rec, direction),
            Materials::DIELECTRIC(d) => d.scatter(rec, direction),
        }
    }
}

impl Default for Materials {
    /// A diffuse surface that reflects no light.
    fn default() -> (m: Materials)
        ensures
            m matches Materials::LAMBERTIAN(l) && l.albedo.e0.bits == 0 && l.albedo.e1.bits == 0
                && l.albedo.e2.bits == 0,
    {
        Materials::LAMBERTIAN(Lambertian { albedo: Vec3::identity() })
    }
}

} // verus!
