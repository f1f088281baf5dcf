use vstd::prelude::*;

verus! {

/// Why a render configuration was refused.
#[derive(Clone, Copy, Debug, PartialEq, Eq, Structural)]
pub enum ConfigError {
    /// The image width or height is not positive.
    NonPositiveSize,
    /// Fewer than one sample per pixel was asked for.
    NoSamples,
    /// The scatter depth is negative.
    NegativeDepth,
}

/// The integer part of a camera configuration: the image size, the
/// samples averaged per pixel and the largest number of bounces per path.
#[derive(Clone, Copy, Debug, PartialEq, Eq, Structural)]
pub struct RenderSettings {
    pub image_width: u32,
    pub image_height: u32,
    pub pixel_samples: u32,
    pub scatter_depth: u32,
}

impl RenderSettings {
    /// The settings are usable: a non-empty image and at least one sample.
    pub open spec fn wf(&self) -> bool {
        &&& self.image_width > 0
        &&& self.image_height > 0
        &&& self.pixel_samples > 0
    }

    /// Checks a configuration before any rendering starts. The size is
    /// checked first, then the sample count, then the depth.
    pub fn construct(width: i32, height: i32, pixel_samples: i32, scatter_depth: i32) -> (r: Result<
        RenderSettings,
        ConfigError,
    >)
        ensures
            r == (if width <= 0 || height <= 0 {
                Err(ConfigError::NonPositiveSize)
            } else if pixel_samples < 1 {
                Err(ConfigError::NoSamples)
            } else if scatter_depth < 0 {
                Err(ConfigError::NegativeDepth)
            } else {
                Ok(
                    RenderSettings {
                        image_width: width as u32,
                        image_height: height as u32,
                        pixel_samples: pixel_samples as u32,
                        scatter_depth: scatter_depth as u32,
                    },
                )
            }),
            r matches Ok(s) ==> s.wf(),
    {
        if width <= 0 || height <= 0 {
            Err(ConfigError::NonPositiveSize)
        } else if pixel_samples < 1 {
            Err(ConfigError::NoSamples)
        } else if scatter_depth < 0 {
            Err(ConfigError::NegativeDepth)
        } else {
            Ok(
                RenderSettings {
                    image_width: width as u32,
                    image_height: height as u32,
                    pixel_samples: pixel_samples as u32,
                    scatter_depth: scatter_depth as u32,
                },
            )
        }
    }
}

} // verus!
