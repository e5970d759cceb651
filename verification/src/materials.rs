//! Surface materials: what becomes of a ray that hits a surface.

use crate::objects::Intersection;
use crate::scalar::Scalar;
use crate::scalar::ONE_BITS;
use crate::vec::Color;
use crate::vec::Ray;
use crate::vec::Vec3;
use vstd::prelude::*;

verus! {

/// A surface's answer to an incoming ray: the colour by which the light
/// carried back along the outgoing ray is multiplied, and that ray; or nothing,
/// when the surface absorbs the ray. Implementations draw random numbers, so
/// two calls on one input may differ.
pub trait Material: Send + Sync {
    fn scatter(&self, ray: &Ray, hit: &Intersection) -> (scattered: Option<(Color, Ray)>);
}

/// The ray that leaves the hit point in `direction`.
pub open spec fn ray_from(hit: Intersection, direction: Vec3) -> Ray {
    Ray { origin: hit.point, direction }
}

/// A diffuse surface of one colour. It scatters every ray.
pub struct Lambertian {
    pub color: Color,
}

impl Lambertian {
    pub fn new(color: Color) -> (material: Self)
        ensures
            material.color == color,
    {
        Self { color }
    }

    /// The outcome of scattering into `direction`, which the caller has drawn
    /// around the normal: always a ray from the hit point, tinted by the
    /// surface's colour.
    pub fn scatter_along(&self, hit: &Intersection, direction: Vec3) -> (scattered: Option<
        (Color, Ray),
    >)
        ensures
            scattered == Some((self.color, ray_from(*hit, direction))),
    {
        Some((self.color, Ray::new(&hit.point, &direction)))
    }
}

/// A metallic surface: a colour, and how far a reflection may stray from the
/// mirror direction, between 0 and 1.
pub struct Metal {
    color: Color,
    fuzz: Scalar,
}

impl Metal {
    /// `fuzz` brought into `[0, 1]`: below 0 it becomes 0; at 1 or above, or
    /// when it is no number, it becomes 1.
    pub open spec fn clamped(fuzz: Scalar) -> Scalar {
        if fuzz.lt_spec(Scalar::of(ONE_BITS)) {
            if fuzz.lt_spec(Scalar::of(0)) {
                Scalar::of(0)
            } else {
                fuzz
            }
        } else {
            Scalar::of(ONE_BITS)
        }
    }

    #[verifier::type_invariant]
    spec fn well_formed(self) -> bool {
        Scalar::of(0).le_spec(self.fuzz) && self.fuzz.le_spec(Scalar::of(ONE_BITS))
    }

    pub closed spec fn color_spec(&self) -> Color {
        self.color
    }

    pub closed spec fn fuzz_spec(&self) -> Scalar {
        self.fuzz
    }

    pub fn new(color: Color, fuzz: Scalar) -> (material: Self)
        ensures
            material.color_spec() == color,
            material.fuzz_spec() == Self::clamped(fuzz),
    {
        let fuzz = if fuzz < Scalar::one() {
            if fuzz < Scalar::zero() {
                Scalar::zero()
            } else {
                fuzz
            }
        } else {
            Scalar::one()
        };
        Self { color, fuzz }
    }

    pub fn color(&self) -> (color: Color)
        ensures
            color == self.color_spec(),
    {
        self.color
    }

    /// The fuzz, which lies in `[0, 1]`.
    pub fn fuzz(&self) -> (fuzz: Scalar)
        ensures
            fuzz == self.fuzz_spec(),
            Scalar::of(0).le_spec(fuzz),
            fuzz.le_spec(Scalar::of(ONE_BITS)),
    {
        proof {
            use_type_invariant(self);
        }
        self.fuzz
    }

    /// The outcome of reflecting into `direction`, the mirror direction as the
    /// caller has perturbed it, given `cosine`, that direction times the
    /// normal: the ray leaves tinted by the surface's colour if it points away
    /// from the surface, and is absorbed if it does not.
    pub fn scatter_along(&self, hit: &Intersection, direction: Vec3, cosine: Scalar) -> (scattered:
        Option<(Color, Ray)>)
        ensures
            scattered == if cosine.gt_spec(Scalar::of(0)) {
                Some((self.color_spec(), ray_from(*hit, direction)))
            } else {
                None
            },
    {
        if cosine > Scalar::zero() {
            Some((self.color, Ray::new(&hit.point, &direction)))
        } else {
            None
        }
    }
}

/// A clear surface that reflects or refracts. It tints nothing.
pub struct Dielectric {
    pub refraction_idx: Scalar,
}

impl Dielectric {
    pub fn new(refraction_idx: Scalar) -> (material: Self)
        ensures
            material.refraction_idx == refraction_idx,
    {
        Self { refraction_idx }
    }

    /// The ratio of the refraction indices on the two sides of the hit: the
    /// inverse of the surface's index where the ray enters from outside, the
    /// index itself where it leaves.
    pub fn ratio(&self, hit: &Intersection, inverse_idx: Scalar) -> (ratio: Scalar)
        ensures
            ratio == if hit.is_outside {
                inverse_idx
            } else {
                self.refraction_idx
            },
    {
        if hit.is_outside {
            inverse_idx
        } else {
            self.refraction_idx
        }
    }

    /// Whether no refracted ray exists: the ratio times the sine of the angle
    /// of incidence exceeds 1.
    pub open spec fn cannot_refract_spec(ratio_sine: Scalar) -> bool {
        ratio_sine.gt_spec(Scalar::of(ONE_BITS))
    }

    /// Whether the ray is reflected. It is when no refracted ray exists, and
    /// else when the draw falls below the reflectance.
    pub open spec fn reflects_spec(ratio_sine: Scalar, draw: Scalar, reflectance: Scalar) -> bool {
        Self::cannot_refract_spec(ratio_sine) || draw.lt_spec(reflectance)
    }

    /// Whether the ray is reflected whatever is drawn.
    pub fn cannot_refract(ratio_sine: Scalar) -> (r: bool)
        ensures
            r == Self::cannot_refract_spec(ratio_sine),
    {
        ratio_sine > Scalar::one()
    }

    pub fn reflects(ratio_sine: Scalar, draw: Scalar, reflectance: Scalar) -> (reflects: bool)
        ensures
            reflects == Self::reflects_spec(ratio_sine, draw, reflectance),
    {
        Self::cannot_refract(ratio_sine) || draw < reflectance
    }

    /// The outcome of a hit: always a ray from the hit point, untinted, along
    /// `reflected` or `refracted` as `reflects_spec` decides.
    pub fn scatter_along(
        &self,
        hit: &Intersection,
        ratio_sine: Scalar,
        draw: Scalar,
        reflectance: Scalar,
        reflected: Vec3,
        refracted: Vec3,
    ) -> (scattered: Option<(Color, Ray)>)
        ensures
            scattered == Some(
                (
                    Vec3(Scalar::of(ONE_BITS), Scalar::of(ONE_BITS), Scalar::of(ONE_BITS)),
                    ray_from(
                        *hit,
                        if Self::reflects_spec(ratio_sine, draw, reflectance) {
                            reflected
                        } else {
                            refracted
                        },
                    ),
                ),
            ),
    {
        let white = Vec3(Scalar::one(), Scalar::one(), Scalar::one());
        if Self::reflects(ratio_sine, draw, reflectance) {
            Some((white, Ray::new(&hit.point, &reflected)))
        } else {
            Some((white, Ray::new(&hit.point, &refracted)))
        }
    }
}

} // verus!
