use vstd::prelude::*;
use crate::path::PathState;

verus! {

/// The integer part of a camera's configuration: image size, samples per
/// pixel and bounce limit.
pub struct RenderSettings {
    image_width: u64,
    image_height: u64,
    samples_per_pixel: u64,
    max_bounces: u64,
}

/// The seed of the random source of pixel `(x, y)` of an image `width`
/// pixels wide: the render's seed advanced by the pixel's row-major index,
/// modulo 2^64.
pub open spec fn pixel_seed_of(seed: nat, width: nat, x: nat, y: nat) -> nat {
    ((seed + y * width + x) % 0x1_0000_0000_0000_0000) as nat
}

impl RenderSettings {
    /// The image is at least one row high.
    #[verifier::type_invariant]
    spec fn inv(&self) -> bool {
        self.image_height >= 1
    }

    /// The image width in pixels.
    pub closed spec fn width_view(&self) -> nat {
        self.image_width as nat
    }

    /// The image height in pixels.
    pub closed spec fn height_view(&self) -> nat {
        self.image_height as nat
    }

    /// Samples averaged into each pixel.
    pub closed spec fn samples_view(&self) -> nat {
        self.samples_per_pixel as nat
    }

    /// Scatter events allowed after a path's first scene query.
    pub closed spec fn max_bounces_view(&self) -> nat {
        self.max_bounces as nat
    }

    /// Settings for an image `image_width` pixels wide. `scaled_height` is the
    /// width divided by the aspect ratio and truncated; the image is at least
    /// one row high.
    pub fn new(image_width: u64, scaled_height: u64, samples_per_pixel: u64, max_bounces: u64) -> (r:
        Self)
        ensures
            r.width_view() == image_width,
            r.height_view() == if scaled_height >= 1 {
                scaled_height
            } else {
                1u64
            },
            r.samples_view() == samples_per_pixel,
            r.max_bounces_view() == max_bounces,
    {
        let image_height = if scaled_height >= 1 {
            scaled_height
        } else {
            1
        };
        RenderSettings { image_width, image_height, samples_per_pixel, max_bounces }
    }

    /// The image width in pixels.
    pub fn image_width(&self) -> (r: u64)
        ensures
            r == self.width_view(),
    {
        self.image_width
    }

    /// The image height in pixels, at least 1.
    pub fn image_height(&self) -> (r: u64)
        ensures
            r == self.height_view(),
            r >= 1,
    {
        proof {
            use_type_invariant(self);
        }
        self.image_height
    }

    /// Samples averaged into each pixel.
    pub fn samples_per_pixel(&self) -> (r: u64)
        ensures
            r == self.samples_view(),
    {
        self.samples_per_pixel
    }

    /// Scatter events allowed after a path's first scene query.
    pub fn max_bounces(&self) -> (r: u64)
        ensures
            r == self.max_bounces_view(),
    {
        self.max_bounces
    }

    /// The bounce-budget state a new path starts from.
    pub fn start_path(&self) -> (r: PathState)
        ensures
            r.remaining_view() == if self.max_bounces_view() < u64::MAX {
                self.max_bounces_view() + 1
            } else {
                self.max_bounces_view()
            },
    {
        PathState::for_max_bounces(self.max_bounces)
    }

    /// The seed of the random source of pixel `(x, y)`. It depends on the
    /// render's seed and the pixel alone, so a pixel draws the same samples
    /// whichever thread renders it and in whatever order.
    pub fn pixel_seed(&self, seed: u64, x: u64, y: u64) -> (r: u64)
        ensures
            r as nat == pixel_seed_of(seed as nat, self.width_view(), x as nat, y as nat),
    {
        let index = y.wrapping_mul(self.image_width).wrapping_add(x);
        let r = seed.wrapping_add(index);
        proof {
            lemma_wrapping_seed(seed as int, self.image_width as int, x as int, y as int, index as int, r as int);
        }
        r
    }
}

proof fn lemma_wrapping_seed(seed: int, width: int, x: int, y: int, index: int, r: int)
    requires
        0 <= seed,
        0 <= width,
        0 <= x,
        0 <= y,
        index == ((y * width) % 0x1_0000_0000_0000_0000 + x) % 0x1_0000_0000_0000_0000,
        r == (seed + index) % 0x1_0000_0000_0000_0000,
    ensures
        r == pixel_seed_of(seed as nat, width as nat, x as nat, y as nat),
{
    let m: int = 0x1_0000_0000_0000_0000;
    vstd::arithmetic::div_mod::lemma_add_mod_noop_right(x, y * width, m);
    vstd::arithmetic::div_mod::lemma_add_mod_noop_right(seed, y * width + x, m);
    assert(((y * width) % m + x) % m == (y * width + x) % m);
}

} // verus!
