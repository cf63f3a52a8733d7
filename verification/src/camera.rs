//! The camera: its settings, the order in which it visits the pixels, and
//! how far it follows a ray.

use vstd::prelude::*;
use crate::color::{black_lines, is_black, lemma_black_is_written_as_zeros, lines, write_color};
use crate::interval::Interval;
use crate::ppm::{header, ppm_header};
use crate::scalar::{Scalar, INFINITY_BITS, NEG_ONE_BITS, ONE_BITS};
use crate::vec3::Vec3;

verus! {

/// The encoding of 90, the default vertical field of view in degrees.
pub const RIGHT_ANGLE_BITS: u64 = 0x4056_8000_0000_0000;

/// The encoding of `0.001`, the ray parameter below which a hit is taken for
/// the surface the ray has just left.
pub const NEAREST_HIT_BITS: u64 = 0x3F50_624D_D2F1_A9FC;

/// What the camera is set to, and the frame it derives from that before it
/// renders: the image height, the place of the first pixel and the steps
/// from pixel to pixel, its own axes `u`, `v`, `w`, and the axes of the disk
/// that rays start from when it is out of focus.
#[derive(Clone, Copy, Debug)]
pub struct Camera {
    pub aspect_ratio: Scalar,
    pub image_width: i32,
    pub image_height: i32,
    pub center: Vec3,
    pub pixel00_loc: Vec3,
    pub pixel_delta_u: Vec3,
    pub pixel_delta_v: Vec3,
    pub samples_per_pixel: i32,
    pub max_depth: i32,
    pub v_fov: Scalar,
    pub look_from: Vec3,
    pub look_at: Vec3,
    pub v_up: Vec3,
    pub u: Vec3,
    pub v: Vec3,
    pub w: Vec3,
    pub defocus_angle: Scalar,
    pub focus_dist: Scalar,
    pub defocus_disk_u: Vec3,
    pub defocus_disk_v: Vec3,
}

/// How a ray fared at the surface it was sent to.
#[derive(Clone, Copy, Debug, PartialEq, Eq, Structural)]
pub enum Bounce {
    /// It hit nothing.
    Miss,
    /// It hit a surface that did not scatter it.
    Absorbed,
    /// It hit a surface that scattered it.
    Scattered,
}

/// The light at the end of a path, before the filters along the path apply.
#[derive(Clone, Copy, Debug, PartialEq, Eq, Structural)]
pub enum Shade {
    /// No light.
    Black,
    /// The sky in the direction of the last ray.
    Sky,
}

/// A ray that is about to be sent into the scene, with the number of bounces
/// its path has left: at least one, this ray's own.
#[derive(Clone, Copy, Debug, PartialEq, Eq)]
pub struct Path {
    left: i32,
}

/// What to do with a ray.
#[derive(Clone, Copy, Debug, PartialEq, Eq)]
pub enum Step {
    /// The path ends here with this shade.
    Done(Shade),
    /// Send the ray into the scene.
    Trace(Path),
}

/// The zero vector.
pub open spec fn origin() -> Vec3 {
    Vec3 { e0: Scalar { bits: 0 }, e1: Scalar { bits: 0 }, e2: Scalar { bits: 0 } }
}

/// The number of pixels of an image; none if a side is not positive.
pub open spec fn pixels(width: int, height: int) -> int {
    if width > 0 && height > 0 {
        width * height
    } else {
        0
    }
}

/// Whether a path with `depth` bounces left ends before a ray is sent: with
/// no bounce left it is black, and nothing is asked of the scene.
pub open spec fn spent(depth: int) -> bool {
    depth <= 0
}

/// The shade in which a path ends after a ray, sent with `depth` bounces
/// left, has fared as `bounce`; `None` if the path goes on with the scattered
/// ray. A miss ends in the sky, an absorbed ray in black, and so does a
/// scattered ray when this was the last bounce.
pub open spec fn end_of_path(depth: int, bounce: Bounce) -> Option<Shade> {
    match bounce {
        Bounce::Miss => Some(Shade::Sky),
        Bounce::Absorbed => Some(Shade::Black),
        Bounce::Scattered => if spent(depth - 1) {
            Some(Shade::Black)
        } else {
            None
        },
    }
}

/// The shade at the end of a path that may bounce `depth` times and whose
/// rays fare as `bounces`, in this order. Rays that are never sent are not
/// looked at; a path that runs out of answers counts as black.
pub open spec fn shade(depth: int, bounces: Seq<Bounce>) -> Shade
    decreases bounces.len(),
{
    if spent(depth) || bounces.len() == 0 {
        Shade::Black
    } else {
        match end_of_path(depth, bounces.first()) {
            Some(s) => s,
            None => shade(depth - 1, bounces.drop_first()),
        }
    }
}

/// The number of rays that are sent along such a path.
pub open spec fn rays_sent(depth: int, bounces: Seq<Bounce>) -> nat
    decreases bounces.len(),
{
    if spent(depth) || bounces.len() == 0 {
        0
    } else {
        match end_of_path(depth, bounces.first()) {
            Some(_) => 1,
            None => 1 + rays_sent(depth - 1, bounces.drop_first()),
        }
    }
}

/// With no bounce allowed a path is black and sends no ray, whatever the
/// scene holds.
pub proof fn lemma_no_depth_is_black(depth: int, bounces: Seq<Bounce>)
    requires
        depth <= 0,
    ensures
        spent(depth),
        shade(depth, bounces) == Shade::Black,
        rays_sent(depth, bounces) == 0,
{
}

/// A path sends no more rays than it may bounce.
pub proof fn lemma_depth_bounds_rays(depth: int, bounces: Seq<Bounce>)
    ensures
        rays_sent(depth, bounces) <= if depth > 0 {
            depth
        } else {
            0
        },
    decreases bounces.len(),
{
    if depth > 0 && bounces.len() > 0 {
        lemma_depth_bounds_rays(depth - 1, bounces.drop_first());
    }
}

/// A path reaches the sky only by a ray that misses, and that within its
/// depth.
pub proof fn lemma_sky_needs_a_miss(depth: int, bounces: Seq<Bounce>)
    requires
        shade(depth, bounces) == Shade::Sky,
    ensures
        exists|i: int| 0 <= i < bounces.len() && i < depth && bounces[i] == Bounce::Miss,
    decreases bounces.len(),
{
    if depth > 0 && bounces.len() > 0 {
        match bounces.first() {
            Bounce::Miss => {
                assert(bounces[0] == Bounce::Miss);
            },
            Bounce::Absorbed => {},
            Bounce::Scattered => {
                let rest = bounces.drop_first();
                lemma_sky_needs_a_miss(depth - 1, rest);
                let i = choose|i: int| 0 <= i < rest.len() && i < depth - 1 && rest[i] == Bounce::Miss;
                assert(bounces[i + 1] == Bounce::Miss);
            },
        }
    }
}

impl Path {
    #[verifier::type_invariant]
    spec fn well_formed(self) -> bool {
        self.left >= 1
    }

    /// The number of bounces left, this ray's included.
    pub closed spec fn left(self) -> int {
        self.left as int
    }

    /// The number of bounces left, this ray's included.
    pub fn bounces_left(&self) -> (n: i32)
        ensures
            n == self.left(),
            n >= 1,
    {
        proof {
            use_type_invariant(self);
        }
        self.left
    }

    /// The first step on a path that may bounce `depth` times.
    pub fn begin(depth: i32) -> (step: Step)
        ensures
            spent(depth as int) ==> step == Step::Done(Shade::Black),
            !spent(depth as int) ==> (step matches Step::Trace(p) && p.left() == depth),
    {
        if depth <= 0 {
            Step::Done(Shade::Black)
        } else {
            Step::Trace(Path { left: depth })
        }
    }

    /// The step after this ray has fared as `bounce`.
    pub fn after(self, bounce: Bounce) -> (step: Step)
        ensures
            self.left() >= 1,
            match end_of_path(self.left(), bounce) {
                Some(s) => step == Step::Done(s),
                None => (step matches Step::Trace(p) && p.left() == self.left() - 1),
            },
    {
        proof {
            use_type_invariant(&self);
        }
        match bounce {
            Bounce::Miss => Step::Done(Shade::Sky),
            Bounce::Absorbed => Step::Done(Shade::Black),
            Bounce::Scattered => Path::begin(self.left - 1),
        }
    }
}

impl Camera {
    /// Follows a path that may bounce `depth` times and whose rays fare as
    /// `bounces`, in this order, to its end: the shade there, and the number
    /// of rays that were sent.
    pub fn ray_color(depth: i32, bounces: &Vec<Bounce>) -> (end: (Shade, usize))
        ensures
            end.0 == shade(depth as int, bounces@),
            end.1 == rays_sent(depth as int, bounces@),
    {
        let mut step = Path::begin(depth);
        let mut sent: usize = 0;
        assert(bounces@.skip(0) =~= bounces@);
        loop
            invariant
                sent <= bounces@.len(),
                match step {
                    Step::Done(s) => {
                        &&& s == shade(depth as int, bounces@)
                        &&& sent == rays_sent(depth as int, bounces@)
                    },
                    Step::Trace(p) => {
                        &&& p.left() == depth - sent
                        &&& shade(depth as int, bounces@) == shade(
                            p.left(),
                            bounces@.skip(sent as int),
                        )
                        &&& rays_sent(depth as int, bounces@) == sent + rays_sent(
                            p.left(),
                            bounces@.skip(sent as int),
                        )
                    },
                },
            decreases bounces@.len() - sent,
        {
            match step {
                Step::Done(s) => {
                    return (s, sent);
                },
                Step::Trace(p) => {
                    if sent >= bounces.len() {
                        return (Shade::Black, sent);
                    }
                    proof {
                        let rest = bounces@.skip(sent as int);
                        assert(rest.first() == bounces@[sent as int]);
                        assert(rest.drop_first() =~= bounces@.skip(sent + 1));
                    }
                    step = p.after(bounces[sent]);
                    sent = sent + 1;
                },
            }
        }
    }

    /// A camera at `(0, 0, -1)` that looks at the origin with `y` up, through
    /// a right angle, at a square image 100 pixels wide, in focus everywhere.
    /// Samples, depth and focus distance are zero until they are set.
    pub fn camera() -> (c: Camera)
        ensures
            c.aspect_ratio.bits == ONE_BITS,
            c.image_width == 100,
            c.image_height == 0,
            c.center == origin(),
            c.pixel00_loc == origin(),
            c.pixel_delta_u == origin(),
            c.pixel_delta_v == origin(),
            c.samples_per_pixel == 0,
            c.max_depth == 0,
            c.v_fov.bits == RIGHT_ANGLE_BITS,
            c.look_from == (Vec3 { e2: Scalar { bits: NEG_ONE_BITS }, ..origin() }),
            c.look_at == origin(),
            c.v_up == (Vec3 { e1: Scalar { bits: ONE_BITS }, ..origin() }),
            c.u == origin(),
            c.v == origin(),
            c.w == origin(),
            c.defocus_angle.bits == 0,
            c.focus_dist.bits == 0,
            c.defocus_disk_u == origin(),
            c.defocus_disk_v == origin(),
    {
        Camera {
            aspect_ratio: Scalar::one(),
            image_width: 100,
            image_height: 0,
            center: Vec3::identity(),
            pixel00_loc: Vec3::identity(),
            pixel_delta_u: Vec3::identity(),
            pixel_delta_v: Vec3::identity(),
            samples_per_pixel: 0,
            max_depth: 0,
            v_fov: Scalar::from_bits(RIGHT_ANGLE_BITS),
            look_from: Vec3::vec3(Scalar::zero(), Scalar::zero(), Scalar::from_bits(NEG_ONE_BITS)),
            look_at: Vec3::identity(),
            v_up: Vec3::vec3(Scalar::zero(), Scalar::one(), Scalar::zero()),
            u: Vec3::identity(),
            v: Vec3::identity(),
            w: Vec3::identity(),
            defocus_angle: Scalar::zero(),
            focus_dist: Scalar::zero(),
            defocus_disk_u: Vec3::identity(),
            defocus_disk_v: Vec3::identity(),
        }
    }

    /// Sets the ratio of the image width to the image height.
    pub fn set_aspect_ratio(&mut self, ratio: &Scalar)
        ensures
            *final(self) == (Camera { aspect_ratio: *ratio, ..*old(self) }),
    {
        self.aspect_ratio = *ratio;
    }

    /// Sets the image width in pixels.
    pub fn set_image_width(&mut self, width: &i32)
        ensures
            *final(self) == (Camera { image_width: *width, ..*old(self) }),
    {
        self.image_width = *width;
    }

    /// Sets the number of rays sent through each pixel.
    pub fn set_samples_per_pixel(&mut self, samples: &i32)
        ensures
            *final(self) == (Camera { samples_per_pixel: *samples, ..*old(self) }),
    {
        self.samples_per_pixel = *samples;
    }

    /// Sets the number of times a path may bounce.
    pub fn set_max_depth(&mut self, depth: &i32)
        ensures
            *final(self) == (Camera { max_depth: *depth, ..*old(self) }),
    {
        self.max_depth = *depth;
    }

    /// Sets the vertical field of view, in degrees.
    pub fn set_fov(&mut self, fov: &Scalar)
        ensures
            *final(self) == (Camera { v_fov: *fov, ..*old(self) }),
    {
        self.v_fov = *fov;
    }

    /// Sets the place of the camera.
    pub fn set_look_from(&mut self, from: &Vec3)
        ensures
            *final(self) == (Camera { look_from: *from, ..*old(self) }),
    {
        self.look_from = *from;
    }

    /// Sets the point the camera looks at.
    pub fn set_look_at(&mut self, at: &Vec3)
        ensures
            *final(self) == (Camera { look_at: *at, ..*old(self) }),
    {
        self.look_at = *at;
    }

    /// Sets the direction that is up for the camera.
    pub fn set_v_up(&mut self, up: &Vec3)
        ensures
            *final(self) == (Camera { v_up: *up, ..*old(self) }),
    {
        self.v_up = *up;
    }

    /// Sets the angle of the cone of rays through each pixel, in degrees.
    pub fn set_defocus_angle(&mut self, angle: &Scalar)
        ensures
            *final(self) == (Camera { defocus_angle: *angle, ..*old(self) }),
    {
        self.defocus_angle = *angle;
    }

    /// Sets the distance from the camera to the plane in perfect focus.
    pub fn set_focus_dist(&mut self, dist: &Scalar)
        ensures
            *final(self) == (Camera { focus_dist: *dist, ..*old(self) }),
    {
        self.focus_dist = *dist;
    }

    /// The text of the image whose pixels, in the order in which they are
    /// written, have the given gamma-encoded colours: the header, then a line
    /// for each pixel. There is no image unless there is one colour for each
    /// pixel. An image whose colours are all black is, after the header,
    /// nothing but lines of three zeros.
    pub fn render(&self, encoded: &Vec<Vec3>) -> (text: Option<Vec<u8>>)
        ensures
            text is Some <==> encoded@.len() == pixels(
                self.image_width as int,
                self.image_height as int,
            ),
            text matches Some(t) ==> t@ == header(
                self.image_width as int,
                self.image_height as int,
            ) + lines(encoded@),
            text matches Some(t) ==> ((forall|i: int|
                0 <= i < encoded@.len() ==> is_black(#[trigger] encoded@[i])) ==> t@ == header(
                self.image_width as int,
                self.image_height as int,
            ) + black_lines(encoded@.len())),
    {
        if encoded.len() as u64 != self.pixel_count() {
            return None;
        }
        let mut text = ppm_header(self.image_width, self.image_height);
        let ghost head = text@;
        let mut k: usize = 0;
        while k < encoded.len()
            invariant
                k <= encoded@.len(),
                text@ == head + lines(encoded@.take(k as int)),
            decreases encoded@.len() - k,
        {
            write_color(&mut text, encoded[k]);
            proof {
                let done = encoded@.take(k + 1);
                assert(done.drop_last() =~= encoded@.take(k as int));
                assert(done.last() == encoded@[k as int]);
                assert(text@ =~= head + lines(done));
            }
            k = k + 1;
        }
        proof {
            assert(encoded@.take(k as int) =~= encoded@);
            if forall|i: int| 0 <= i < encoded@.len() ==> is_black(#[trigger] encoded@[i]) {
                lemma_black_is_written_as_zeros(encoded@);
            }
        }
        Some(text)
    }

    /// Fixes the image height from the quotient of the image width by the
    /// aspect ratio: its integer part, and at least 1.
    pub fn set_image_height(&mut self, width_by_ratio: Scalar)
        ensures
            *final(self) == (Camera {
                image_height: if width_by_ratio.spec_to_i32() < 1 {
                    1i32
                } else {
                    width_by_ratio.spec_to_i32() as i32
                },
                ..*old(self)
            }),
            final(self).image_height >= 1,
    {
        self.image_height = width_by_ratio.to_i32();
        if self.image_height < 1 {
            self.image_height = 1;
        }
    }

    /// Whether every ray starts at the centre of the camera, and none on the
    /// defocus disk: when the defocus angle is zero or less.
    pub fn in_focus(&self) -> (b: bool)
        ensures
            b == self.defocus_angle.le(Scalar { bits: 0 }),
    {
        self.defocus_angle.le(Scalar::zero())
    }

    /// The window of ray parameters in which the scene is searched: from
    /// `0.001`, so that a ray does not hit the surface it leaves, without end.
    pub fn ray_window() -> (w: Interval)
        ensures
            w.min.bits == NEAREST_HIT_BITS,
            w.max.bits == INFINITY_BITS,
    {
        Interval::interval(Scalar::from_bits(NEAREST_HIT_BITS), Scalar::infinity())
    }

    /// The number of pixels of the image.
    pub fn pixel_count(&self) -> (n: u64)
        ensures
            n == pixels(self.image_width as int, self.image_height as int),
    {
        if self.image_width > 0 && self.image_height > 0 {
            let width: u64 = self.image_width as u64;
            let height: u64 = self.image_height as u64;
            assert(width * height <= 0x7FFF_FFFF * 0x7FFF_FFFF) by (nonlinear_arith)
                requires
                    0 <= width <= 0x7FFF_FFFF,
                    0 <= height <= 0x7FFF_FFFF,
            ;
            width * height
        } else {
            0
        }
    }

    /// The column and the row of the pixel that is written in place `k`,
    /// counting from 0: the rows come from the top down, each from left to
    /// right. There is none for a `k` beyond the last pixel.
    pub fn pixel(&self, k: u64) -> (at: Option<(i32, i32)>)
        ensures
            at is Some <==> k < pixels(self.image_width as int, self.image_height as int),
            at matches Some((column, row)) ==> {
                &&& 0 <= column < self.image_width
                &&& 0 <= row < self.image_height
                &&& k == row * self.image_width + column
            },
    {
        if k >= self.pixel_count() {
            return None;
        }
        let width: u64 = self.image_width as u64;
        let column: u64 = k % width;
        let row: u64 = k / width;
        proof {
            let w = self.image_width as int;
            let h = self.image_height as int;
            let q = k as int / w;
            assert(q < h && k as int == q * w + k as int % w) by (nonlinear_arith)
                requires
                    w > 0,
                    0 <= k < w * h,
                    q == k as int / w,
            ;
        }
        Some((column as i32, row as i32))
    }
}

} // verus!
