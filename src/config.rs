use vstd::prelude::*;

verus! {

/// Why a render configuration was refused.
#[derive(Clone, Copy, Debug, PartialEq, Eq, Structural)]
pub enum ConfigError {
    NonPositiveWidth,
    NonPositiveSamples,
}

/// The integer part of a camera's setup: image size, samples per pixel and bounce limit.
#[derive(Clone, Copy, Debug, PartialEq, Eq, Structural)]
pub struct ImageConfig {
    pub width: u32,
    pub height: u32,
    pub samples_per_pixel: u32,
    pub max_depth: i32,
}

/// An image is never less than one row high.
pub open spec fn clamped_height(h: int) -> int {
    if h < 1 {
        1
    } else {
        h
    }
}

impl ImageConfig {
    pub open spec fn wf(self) -> bool {
        &&& self.width >= 1
        &&& self.height >= 1
        &&& self.samples_per_pixel >= 1
    }

    /// Checks the user's settings; `computed_height` is the width divided by the aspect
    /// ratio, truncated, and is raised to one when smaller.
    pub fn new(image_width: i32, computed_height: i32, samples_per_pixel: i32, max_depth: i32) -> (r:
        Result<ImageConfig, ConfigError>)
        ensures
            image_width <= 0 ==> r == Err::<ImageConfig, ConfigError>(
                ConfigError::NonPositiveWidth,
            ),
            image_width > 0 && samples_per_pixel <= 0 ==> r == Err::<ImageConfig, ConfigError>(
                ConfigError::NonPositiveSamples,
            ),
            image_width > 0 && samples_per_pixel > 0 ==> (r matches Ok(c) && c.wf()
                && c.width == image_width && c.height == clamped_height(computed_height as int)
                && c.samples_per_pixel == samples_per_pixel && c.max_depth == max_depth),
    {
        if image_width <= 0 {
            return Err(ConfigError::NonPositiveWidth);
        }
        if samples_per_pixel <= 0 {
            return Err(ConfigError::NonPositiveSamples);
        }
        let height: i32 = if computed_height < 1 {
            1
        } else {
            computed_height
        };
        Ok(
            ImageConfig {
                width: image_width as u32,
                height: height as u32,
                samples_per_pixel: samples_per_pixel as u32,
                max_depth,
            },
        )
    }

    /// Number of pixels in the image.
    pub fn pixel_count(&self) -> (r: u64)
        ensures
            r == self.width as int * self.height as int,
    {
        proof {
            assert(self.width as int * self.height as int <= u32::MAX as int * u32::MAX as int)
                by (nonlinear_arith);
        }
        self.width as u64 * self.height as u64
    }

    /// Column and row of the `k`-th pixel in output order: rows top to bottom, each
    /// left to right.
    pub fn pixel_at(&self, k: u64) -> (r: (u32, u32))
        requires
            self.wf(),
            k < self.width as int * self.height as int,
        ensures
            r.0 < self.width,
            r.1 < self.height,
            k == r.1 as int * self.width as int + r.0 as int,
    {
        let w = self.width as u64;
        let i = k % w;
        let j = k / w;
        proof {
            let (ki, wi, hi) = (k as int, w as int, self.height as int);
            vstd::arithmetic::div_mod::lemma_fundamental_div_mod(ki, wi);
            assert(ki == (ki / wi) * wi + ki % wi) by (nonlinear_arith)
                requires
                    ki == wi * (ki / wi) + ki % wi,
            ;
            assert(ki / wi < hi) by (nonlinear_arith)
                requires
                    ki == (ki / wi) * wi + ki % wi,
                    0 <= ki % wi,
                    ki < wi * hi,
                    wi > 0,
            ;
        }
        (i as u32, j as u32)
    }
}

} // verus!
