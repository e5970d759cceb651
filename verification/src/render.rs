//! The integrator: the path of a ray through a scene, and the byte a finished
//! colour channel becomes.

use crate::objects::closest_hit;
use crate::objects::Hittables;
use crate::objects::Intersection;
use crate::scalar::Scalar;
use crate::scalar::HIDDEN_BIT;
use crate::scalar::INFINITY_BITS;
use crate::vec::Color;
use crate::vec::Ray;
use crate::vec::Vec3;
use vstd::arithmetic::power2::pow2;
use vstd::prelude::*;

verus! {

/// The pattern of `0.0001`. A scattered ray starts on the surface it leaves;
/// hits below this parameter are that surface again and do not count.
pub const SELF_HIT_GUARD_BITS: u64 = 0x3f1a_36e2_eb1c_432d;

/// One scattering: where the ray was hit, the colour by which the light
/// carried back is multiplied, and the ray on which the path goes on.
#[derive(Clone, Copy, Debug)]
pub struct Bounce {
    pub hit: Intersection,
    pub attenuation: Color,
    pub ray: Ray,
}

/// What one ray does in a scene.
#[derive(Clone, Copy, Debug)]
pub enum Step {
    /// It hits nothing.
    Escaped,
    /// It hits a surface here, which absorbs it.
    Absorbed(Intersection),
    /// It hits a surface, which scatters it.
    Scattered(Bounce),
}

/// How a path ends.
#[derive(Clone, Copy, Debug)]
pub enum PathEnd {
    /// As many scatterings as the depth allows have been made.
    Exhausted,
    /// A surface absorbed the ray here.
    Absorbed(Intersection),
    /// This ray, the last of the path, left the scene.
    Escaped(Ray),
}

/// The way of one ray through a scene.
pub struct Path {
    pub bounces: Vec<Bounce>,
    pub end: PathEnd,
}

/// Where `ray` first hits the scene beyond the guard, if it does.
pub open spec fn struck(scene: &Hittables, ray: Ray) -> Option<Intersection> {
    match closest_hit(scene@, ray, Scalar::of(SELF_HIT_GUARD_BITS), Scalar::of(INFINITY_BITS)) {
        Some(hit) => Some(hit.intersection_spec()),
        None => None,
    }
}

/// The ray that is in flight after `i` scatterings.
pub open spec fn ray_after(start: Ray, bounces: Seq<Bounce>, i: int) -> Ray {
    if i <= 0 {
        start
    } else {
        bounces[i - 1].ray
    }
}

impl Step {
    /// The step of a ray that hit a surface, from what the surface's material
    /// made of it.
    pub fn after_hit(hit: Intersection, scattered: Option<(Color, Ray)>) -> (step: Step)
        ensures
            step == match scattered {
                Some((attenuation, ray)) => Step::Scattered(Bounce { hit, attenuation, ray }),
                None => Step::Absorbed(hit),
            },
    {
        match scattered {
            Some((attenuation, ray)) => Step::Scattered(Bounce { hit, attenuation, ray }),
            None => Step::Absorbed(hit),
        }
    }

    /// Where the ray was hit, if it was.
    pub open spec fn place(self) -> Option<Intersection> {
        match self {
            Step::Escaped => None,
            Step::Absorbed(hit) => Some(hit),
            Step::Scattered(scattering) => Some(scattering.hit),
        }
    }
}

impl PathEnd {
    /// The light that enters a path at its end, before any attenuation: black
    /// where the path was cut off or absorbed. Where the ray escaped, the
    /// background it escaped to decides, and this is `None`.
    pub fn light(&self) -> (light: Option<Color>)
        ensures
            light == match *self {
                PathEnd::Escaped(_) => None,
                _ => Some(Vec3(Scalar::of(0), Scalar::of(0), Scalar::of(0))),
            },
    {
        match self {
            PathEnd::Escaped(_) => None,
            _ => Some(Vec3::zero()),
        }
    }
}

impl Path {
    /// What holds of the path of `start` through `scene` with at most `depth`
    /// scatterings, whatever the materials drew. The path has at most `depth`
    /// scatterings, and is exhausted exactly when it has that many. Each
    /// scattering took place where the ray in flight first hit the scene. An
    /// absorbed path ends where its last ray first hit the scene. An escaped
    /// path names its last ray, and that ray hit nothing.
    pub open spec fn follows(&self, start: Ray, scene: &Hittables, depth: int) -> bool {
        let n = self.bounces@.len() as int;
        let limit = if depth > 0 {
            depth
        } else {
            0
        };
        &&& n <= limit
        &&& (self.end is Exhausted) == (n == limit)
        &&& forall|i: int|
            0 <= i < n ==> struck(scene, #[trigger] ray_after(start, self.bounces@, i)) == Some(
                self.bounces@[i].hit,
            )
        &&& self.end matches PathEnd::Absorbed(hit) ==> struck(
            scene,
            ray_after(start, self.bounces@, n),
        ) == Some(hit)
        &&& self.end matches PathEnd::Escaped(last) ==> last == ray_after(start, self.bounces@, n)
            && struck(scene, last) is None
    }
}

/// Where every scattering took place where the ray in flight hit the scene,
/// and there was a scattering, the first ray hit the scene, and the scene is
/// not empty.
proof fn lemma_first_ray_met(start: Ray, bounces: Seq<Bounce>, scene: &Hittables)
    requires
        forall|i: int|
            0 <= i < bounces.len() ==> struck(scene, #[trigger] ray_after(start, bounces, i)) == Some(
                bounces[i].hit,
            ),
    ensures
        bounces.len() > 0 ==> struck(scene, start) is Some && scene@.len() > 0,
        scene@.len() == 0 ==> struck(scene, start) is None,
{
    if bounces.len() > 0 {
        assert(struck(scene, ray_after(start, bounces, 0)) is Some);
    }
}

/// Finds the closest hit of `ray` beyond the guard and lets the material there
/// scatter it. Whether and where the ray is hit is the scene's answer; whether
/// a ray that is hit is absorbed or scattered, and where to, is the material's
/// draw.
pub fn bounce(ray: &Ray, hittables: &Hittables) -> (step: Step)
    ensures
        step.place() == struck(hittables, *ray),
        hittables@.len() == 0 ==> step is Escaped,
{
    let guard = Scalar::from_bits(SELF_HIT_GUARD_BITS);
    match hittables.hit(ray, guard, Scalar::infinity()) {
        None => Step::Escaped,
        Some(hit) => {
            let at = hit.intersection();
            Step::after_hit(at, hit.material.get().scatter(ray, &at))
        },
    }
}

/// Follows `ray` through the scene, one `bounce` after the other while the
/// depth allows. The path ends when the ray leaves the scene, when a material
/// absorbs it, or when `depth` scatterings are made. With no depth the path is
/// cut off at once; in an empty scene the ray escapes at once.
pub fn trace(ray: &Ray, hittables: &Hittables, depth: i32) -> (path: Path)
    ensures
        path.follows(*ray, hittables, depth as int),
        depth <= 0 ==> path.bounces@.len() == 0 && path.end is Exhausted,
        depth > 0 && struck(hittables, *ray) is None ==> path.bounces@.len() == 0 && path.end
            == PathEnd::Escaped(*ray),
        depth > 0 && hittables@.len() == 0 ==> path.bounces@.len() == 0 && path.end
            == PathEnd::Escaped(*ray),
{
    let mut bounces: Vec<Bounce> = Vec::new();
    let mut current = *ray;
    let mut remaining = depth;
    while remaining > 0
        invariant
            depth > 0 ==> 0 <= remaining <= depth && bounces@.len() == depth - remaining,
            depth <= 0 ==> remaining == depth && bounces@.len() == 0,
            current == ray_after(*ray, bounces@, bounces@.len() as int),
            forall|i: int|
                0 <= i < bounces@.len() ==> struck(hittables, #[trigger] ray_after(*ray, bounces@, i))
                    == Some(bounces@[i].hit),
        decreases remaining,
    {
        match bounce(&current, hittables) {
            Step::Escaped => {
                proof {
                    lemma_first_ray_met(*ray, bounces@, hittables);
                }
                return Path { bounces, end: PathEnd::Escaped(current) };
            },
            Step::Absorbed(hit) => {
                proof {
                    lemma_first_ray_met(*ray, bounces@, hittables);
                }
                return Path { bounces, end: PathEnd::Absorbed(hit) };
            },
            Step::Scattered(scattering) => {
                let ghost before = bounces@;
                bounces.push(scattering);
                proof {
                    assert forall|i: int| 0 <= i < bounces@.len() implies struck(
                        hittables,
                        #[trigger] ray_after(*ray, bounces@, i),
                    ) == Some(bounces@[i].hit) by {
                        if i < before.len() {
                            assert(ray_after(*ray, bounces@, i) == ray_after(*ray, before, i));
                            assert(bounces@[i] == before[i]);
                        }
                    }
                }
                current = scattering.ray;
                remaining = remaining - 1;
            },
        }
    }
    proof {
        lemma_first_ray_met(*ray, bounces@, hittables);
    }
    Path { bounces, end: PathEnd::Exhausted }
}

/// The pattern of `0.999`, the brightest level a channel can have.
pub const BRIGHTEST_BITS: u64 = 0x3fef_f7ce_d916_872b;

/// `image::math::utils::clamp`, on scalars. It returns `min` if `a < min`, else
/// `max` if `a > max`, else `a`; the comparisons are those of `Scalar`.
#[verifier::external_body]
#[allow(deprecated)]
fn clamp(a: Scalar, min: Scalar, max: Scalar) -> (clamped: Scalar)
    ensures
        clamped == a.clamp_spec(min, max),
{
    image::math::utils::clamp(a, min, max)
}

/// 256 times the magnitude of a finite `x`, rounded down.
pub open spec fn steps_below(x: Scalar) -> nat {
    (256 * x.units()) / pow2(1074)
}

/// The byte of a channel's level: 256 times the level, rounded down, after
/// the level is brought into `[0, 0.999]`; 0 for a level that is no number.
pub open spec fn quantized(level: Scalar) -> nat {
    if level.is_nan_spec() {
        0
    } else {
        steps_below(level.clamp_spec(Scalar::of(0), Scalar::of(BRIGHTEST_BITS)))
    }
}

/// For a number whose scale is at most 1067, as that of every number below 1
/// is, 256 times the magnitude, rounded down, is the significand without its
/// lowest bits: as many of them as the scale is short of 1067.
proof fn lemma_steps_below_is_a_shift(x: Scalar)
    requires
        1 <= x.scale() <= 1067,
    ensures
        steps_below(x) == x.significand() / pow2((1067 - x.scale()) as nat),
{
    let low = (x.scale() - 1) as nat;
    let high = (1067 - x.scale()) as nat;
    let significand = x.significand() as int;
    let kept = pow2(low) as int;
    let dropped = pow2(high) as int;
    vstd::arithmetic::power2::lemma2_to64();
    vstd::arithmetic::power2::lemma_pow2_pos(low);
    vstd::arithmetic::power2::lemma_pow2_pos(high);
    vstd::arithmetic::power2::lemma_pow2_adds(8, low);
    vstd::arithmetic::power2::lemma_pow2_adds(8 + low, high);
    assert(8 + low + high == 1074);
    let scaling = 256 * kept;
    assert(pow2(1074) == scaling * dropped);
    assert(256 * (significand * kept) == scaling * significand) by (nonlinear_arith)
        requires
            scaling == 256 * kept,
    ;
    vstd::arithmetic::div_mod::lemma_div_multiples_vanish_quotient(scaling, significand, dropped);
}

/// Turns a channel's level, the root of its mean over all samples, into a byte.
pub fn quantize(level: Scalar) -> (byte: u8)
    ensures
        byte == quantized(level),
{
    if level.is_nan() {
        return 0;
    }
    let clamped = clamp(level, Scalar::zero(), Scalar::from_bits(BRIGHTEST_BITS));
    let magnitude = clamped.abs().to_bits();
    assert(magnitude <= BRIGHTEST_BITS);
    let exponent = magnitude / HIDDEN_BIT;
    let fraction = magnitude % HIDDEN_BIT;
    let significand = if exponent == 0 {
        fraction
    } else {
        fraction + HIDDEN_BIT
    };
    let scale = if exponent == 0 {
        1
    } else {
        exponent
    };
    assert(scale <= 1022);
    let shift: u64 = 1067 - scale;
    proof {
        lemma_steps_below_is_a_shift(clamped);
    }
    if shift >= 64 {
        proof {
            vstd::arithmetic::power2::lemma2_to64_rest();
            vstd::arithmetic::power2::lemma_pow2_strictly_increases(63, shift as nat);
            vstd::arithmetic::div_mod::lemma_basic_div(significand as int, pow2(shift as nat) as int);
        }
        0
    } else {
        proof {
            vstd::bits::lemma_u64_shr_is_div(significand, shift);
            assert(significand >> shift < 256) by (bit_vector)
                requires
                    significand < 0x20_0000_0000_0000,
                    45 <= shift < 64,
            ;
        }
        (significand >> shift) as u8
    }
}

/// Turns the three levels of a finished pixel into its red, green and blue
/// bytes.
pub fn to_color(levels: &Color) -> (bytes: [u8; 3])
    ensures
        bytes[0] == quantized(levels.0),
        bytes[1] == quantized(levels.1),
        bytes[2] == quantized(levels.2),
{
    [quantize(levels.0), quantize(levels.1), quantize(levels.2)]
}

} // verus!
