use vstd::prelude::*;

verus! {

/// A diffuse surface that scatters light around its normal and tints it with
/// `albedo`.
pub struct Lambertian<C> {
    pub albedo: C,
}

/// A reflective surface tinted with `albedo`; `fuzz` (between 0 and 1)
/// perturbs the mirror direction.
pub struct Metal<C, F> {
    pub albedo: C,
    pub fuzz: F,
}

/// A clear refractive surface (glass) with refraction index
/// `refraction_index`; it never absorbs and does not tint.
pub struct Dialectric<F> {
    pub refraction_index: F,
}

impl<C: Copy> Lambertian<C> {
    /// Scatters a ray off the surface. `diffuse` is the ray from the hit point
    /// along the normal plus a random unit vector, `along_normal` the ray from
    /// the hit point along the normal, and `degenerate` tells whether the
    /// direction of `diffuse` is near zero, in which case the normal is used.
    /// Always scatters, tinted with the albedo.
    pub fn scatter<R>(&self, diffuse: R, along_normal: R, degenerate: bool) -> (r: Option<(R, C)>)
        ensures
            r == Some(
                (
                    if degenerate {
                        along_normal
                    } else {
                        diffuse
                    },
                    self.albedo,
                ),
            ),
    {
        if degenerate {
            Some((along_normal, self.albedo))
        } else {
            Some((diffuse, self.albedo))
        }
    }
}

impl<C: Copy, F> Metal<C, F> {
    /// Scatters a ray off the surface. `fuzzed` is the ray from the hit point
    /// along the mirror direction perturbed by the fuzz, and `above_surface`
    /// tells whether its direction points out of the surface (a positive dot
    /// product with the normal). A fuzzed reflection into the surface is
    /// absorbed.
    pub fn scatter<R>(&self, fuzzed: R, above_surface: bool) -> (r: Option<(R, C)>)
        ensures
            r == if above_surface {
                Some((fuzzed, self.albedo))
            } else {
                None
            },
    {
        if above_surface {
            Some((fuzzed, self.albedo))
        } else {
            None
        }
    }
}

impl<F> Dialectric<F> {
    /// Scatters a ray through the surface. `reflected` and `refracted` are the
    /// rays from the hit point along the mirror and the refracted direction;
    /// `cannot_refract` tells whether total internal reflection occurs, and
    /// `reflectance_wins` whether the random draw fell below the Schlick
    /// reflectance. The ray reflects in either case and refracts otherwise;
    /// it is never absorbed.
    pub fn scatter<R>(&self, reflected: R, refracted: R, cannot_refract: bool, reflectance_wins: bool) -> (r:
        Option<R>)
        ensures
            r == Some(
                if cannot_refract || reflectance_wins {
                    reflected
                } else {
                    refracted
                },
            ),
    {
        if cannot_refract || reflectance_wins {
            Some(reflected)
        } else {
            Some(refracted)
        }
    }
}

} // verus!
