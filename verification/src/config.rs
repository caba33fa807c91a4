//! Render configuration and the target-grid geometry it induces.
//!
//! The aspect-ratio correction factor and the contrast factor are held as
//! exact rational numbers (numerator over positive denominator), so that the
//! whole pipeline is integer arithmetic with the truncations the operations
//! call for.

use vstd::prelude::*;

verus! {

/// Immutable configuration of one rendering run.
#[derive(Clone, Copy, Debug, PartialEq, Eq, Structural)]
pub struct RenderConfig {
    /// Target width of the character grid, in characters.
    pub width: u32,
    /// Numerator of the aspect-ratio correction factor.
    pub aspect_num: u32,
    /// Denominator of the aspect-ratio correction factor.
    pub aspect_den: u32,
    /// Numerator of the contrast factor; may be negative.
    pub contrast_num: i64,
    /// Denominator of the contrast factor.
    pub contrast_den: i64,
    /// Invert the brightness-to-glyph mapping.
    pub invert: bool,
    /// Use the fine-grained character ramp.
    pub dense: bool,
}

/// Rejected configuration input.
#[derive(Clone, Copy, Debug, PartialEq, Eq, Structural)]
pub enum ConfigError {
    /// The target width was zero.
    ZeroWidth,
    /// The aspect-ratio factor was not a positive rational.
    InvalidAspect,
    /// The contrast denominator was not positive.
    InvalidContrast,
}

impl RenderConfig {
    /// A valid configuration: positive grid width, positive aspect-ratio
    /// factor, positive contrast denominator.
    pub open spec fn wf(self) -> bool {
        &&& self.width >= 1
        &&& self.aspect_num >= 1
        &&& self.aspect_den >= 1
        &&& self.contrast_den >= 1
    }

    /// Builds a configuration, rejecting a zero width, a zero aspect-ratio
    /// numerator or denominator, and a non-positive contrast denominator.
    pub fn new(
        width: u32,
        aspect_num: u32,
        aspect_den: u32,
        contrast_num: i64,
        contrast_den: i64,
        invert: bool,
        dense: bool,
    ) -> (r: Result<RenderConfig, ConfigError>)
        ensures
            r == (if width == 0 {
                Err::<RenderConfig, ConfigError>(ConfigError::ZeroWidth)
            } else if aspect_num == 0 || aspect_den == 0 {
                Err::<RenderConfig, ConfigError>(ConfigError::InvalidAspect)
            } else if contrast_den <= 0 {
                Err::<RenderConfig, ConfigError>(ConfigError::InvalidContrast)
            } else {
                Ok::<RenderConfig, ConfigError>(
                    RenderConfig {
                        width,
                        aspect_num,
                        aspect_den,
                        contrast_num,
                        contrast_den,
                        invert,
                        dense,
                    },
                )
            }),
            r is Ok ==> r.unwrap().wf(),
    {
        if width == 0 {
            Err(ConfigError::ZeroWidth)
        } else if aspect_num == 0 || aspect_den == 0 {
            Err(ConfigError::InvalidAspect)
        } else if contrast_den <= 0 {
            Err(ConfigError::InvalidContrast)
        } else {
            Ok(
                RenderConfig {
                    width,
                    aspect_num,
                    aspect_den,
                    contrast_num,
                    contrast_den,
                    invert,
                    dense,
                },
            )
        }
    }
}

/// The height of the target character grid for a source image of
/// `orig_w x orig_h` pixels: `floor(width * (an/ad) * orig_h / orig_w)`,
/// capped at `u32::MAX` (the cap is a machine limit, not part of the
/// geometry; any real use stays far below it). A height of zero is a
/// legitimate degenerate grid, not an error.
pub open spec fn target_height_spec(orig_w: int, orig_h: int, width: int, an: int, ad: int) -> int {
    let t = (width * an * orig_h) / (ad * orig_w);
    if t > u32::MAX {
        u32::MAX as int
    } else {
        t
    }
}

/// Computes the target grid height from the source dimensions and the
/// configured width and aspect-ratio factor.
pub fn target_height(orig_w: u32, orig_h: u32, width: u32, an: u32, ad: u32) -> (r: u32)
    requires
        orig_w >= 1,
        ad >= 1,
    ensures
        r as int == target_height_spec(orig_w as int, orig_h as int, width as int, an as int, ad as int),
{
    assert((width as int) * (an as int) <= 0xFFFF_FFFFu64 * 0xFFFF_FFFFu64) by (nonlinear_arith)
        requires
            width <= 0xFFFF_FFFFu64,
            an <= 0xFFFF_FFFFu64,
    ;
    let wa = (width as u128) * (an as u128);
    assert((wa as int) * (orig_h as int) <= 0xFFFF_FFFFu64 * 0xFFFF_FFFFu64 * 0xFFFF_FFFFu64)
        by (nonlinear_arith)
        requires
            0 <= wa <= 0xFFFF_FFFFu64 * 0xFFFF_FFFFu64,
            orig_h <= 0xFFFF_FFFFu64,
    ;
    let p = wa * (orig_h as u128);
    assert((ad as int) * (orig_w as int) <= 0xFFFF_FFFFu64 * 0xFFFF_FFFFu64
        && (ad as int) * (orig_w as int) >= 1) by (nonlinear_arith)
        requires
            1 <= ad <= 0xFFFF_FFFFu64,
            1 <= orig_w <= 0xFFFF_FFFFu64,
    ;
    let q = (ad as u128) * (orig_w as u128);
    let t = p / q;
    assert(t == (width as int) * (an as int) * (orig_h as int) / ((ad as int) * (orig_w as int)));
    if t > 0xFFFF_FFFF {
        0xFFFF_FFFFu32
    } else {
        t as u32
    }
}

} // verus!
