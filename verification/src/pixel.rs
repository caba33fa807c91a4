//! Per-pixel luminance: alpha compositing over a white background followed by
//! the Rec. 709 weighted sum of the effective channels.

use vstd::prelude::*;

verus! {

/// One RGBA pixel, each channel in 0..=255.
#[derive(Clone, Copy, Debug, PartialEq, Eq, Structural)]
pub struct Pixel {
    pub r: u8,
    pub g: u8,
    pub b: u8,
    pub a: u8,
}

/// The effective value of channel `c` after blending a pixel of opacity `a`
/// over an opaque white background, truncated: `floor(c*(a/255) + 255*(1 - a/255))`.
pub open spec fn composite_over_white(c: int, a: int) -> int {
    (c * a + 255 * (255 - a)) / 255
}

/// Rec. 709 perceptual luminance of an opaque pixel, truncated:
/// `floor(0.2126*r + 0.7152*g + 0.0722*b)`.
pub open spec fn luminance(r: int, g: int, b: int) -> int {
    (2126 * r + 7152 * g + 722 * b) / 10000
}

/// Luminance of a pixel after compositing it over a white background.
pub open spec fn gray_of(p: Pixel) -> int {
    luminance(
        composite_over_white(p.r as int, p.a as int),
        composite_over_white(p.g as int, p.a as int),
        composite_over_white(p.b as int, p.a as int),
    )
}

/// Computes the grayscale luminance of `p`, blended over a white background.
pub fn rgb_to_grayscale(p: Pixel) -> (l: u8)
    ensures
        l as int == gray_of(p),
        0 <= gray_of(p) <= 255,
{
    let r = composite_channel(p.r, p.a);
    let g = composite_channel(p.g, p.a);
    let b = composite_channel(p.b, p.a);
    let lum = (2126 * (r as u32) + 7152 * (g as u32) + 722 * (b as u32)) / 10000;
    lum as u8
}

/// Contrast adjustment of a luminance value `l` in 0..=255 by the rational
/// factor `cn / cd` (with `cd >= 1`): normalize to `n = l/255`, stretch
/// linearly around the mid-gray pivot, clamp to the unit interval, and
/// truncate back to 0..=255:
///
///   floor(255 * clamp((n - 1/2) * (cn/cd) + 1/2, 0, 1))
///
/// Written over integers with the common denominator `510 * cd`, the stretched
/// value is `((2*l - 255) * cn + 255 * cd) / (510 * cd)`.
pub open spec fn adjust_contrast_spec(l: int, cn: int, cd: int) -> int {
    let num = (2 * l - 255) * cn + 255 * cd;
    let den = 510 * cd;
    if num <= 0 {
        0
    } else if num >= den {
        255
    } else {
        (255 * num) / den
    }
}

/// Adjusts the contrast of `value` by the factor `contrast_num / contrast_den`,
/// pivoting on mid-gray and clamping to 0..=255.
pub fn adjust_contrast(value: u8, contrast_num: i64, contrast_den: i64) -> (r: u8)
    requires
        contrast_den >= 1,
    ensures
        r as int == adjust_contrast_spec(value as int, contrast_num as int, contrast_den as int),
{
    let v = value as i128;
    let cn = contrast_num as i128;
    let cd = contrast_den as i128;
    assert((2 * v - 255) * cn <= 255 * 0x8000_0000_0000_0000i128
        && (2 * v - 255) * cn >= -255 * 0x8000_0000_0000_0000i128) by (nonlinear_arith)
        requires
            -255 <= 2 * v - 255 <= 255,
            -0x8000_0000_0000_0000i128 <= cn <= 0x8000_0000_0000_0000i128,
    ;
    let num = (2 * v - 255) * cn + 255 * cd;
    let den = 510 * cd;
    if num <= 0 {
        0
    } else if num >= den {
        255
    } else {
        let q = (255 * (num as u128)) / (den as u128);
        assert(255 * (num as int) < 255 * (den as int)) by (nonlinear_arith)
            requires
                num < den,
        ;
        assert(255 * (num as int) / (den as int) < 255) by (nonlinear_arith)
            requires
                0 < num,
                0 < den,
                255 * (num as int) < 255 * (den as int),
        ;
        assert(q == 255 * (num as int) / (den as int));
        q as u8
    }
}

/// The mid-gray pivot is (nearly) a fixed point of the contrast adjustment:
/// for every factor `cn / cd` in `[-1, 3)` the adjusted value of 128 is 128
/// or 127, the latter only by truncation. (Outside that interval the stretch
/// moves even the near-pivot input: the pivot of the transform is 127.5,
/// which no integer luminance hits exactly.)
pub proof fn lemma_contrast_pivot(cn: int, cd: int)
    requires
        cd >= 1,
        -cd <= cn,
        cn < 3 * cd,
    ensures
        127 <= adjust_contrast_spec(128, cn, cd) <= 128,
{
    let num = (2 * 128 - 255) * cn + 255 * cd;
    let den = 510 * cd;
    assert(num == cn + 255 * cd) by (nonlinear_arith)
        requires
            num == (2 * 128 - 255) * cn + 255 * cd,
    ;
    assert(num > 0) by (nonlinear_arith)
        requires
            num == cn + 255 * cd,
            -cd <= cn,
            cd >= 1,
    ;
    assert(num < den) by (nonlinear_arith)
        requires
            num == cn + 255 * cd,
            den == 510 * cd,
            cn < 3 * cd,
            cd >= 1,
    ;
    assert(127 * den <= 255 * num < 129 * den) by (nonlinear_arith)
        requires
            num == cn + 255 * cd,
            den == 510 * cd,
            -cd <= cn < 3 * cd,
            cd >= 1,
    ;
    assert(127 <= 255 * num / den <= 128) by (nonlinear_arith)
        requires
            127 * den <= 255 * num < 129 * den,
            den >= 1,
    ;
}

/// A pixel with zero alpha blends to pure white, whatever its color channels;
/// a fully opaque pixel keeps its channels, so its gray value is the plain
/// Rec. 709 luminance of them.
pub proof fn lemma_alpha_boundaries(p: Pixel)
    ensures
        p.a == 0 ==> gray_of(p) == 255,
        p.a == 255 ==> gray_of(p) == luminance(p.r as int, p.g as int, p.b as int),
{
    if p.a == 0 {
        assert(composite_over_white(p.r as int, 0) == 255);
        assert(composite_over_white(p.g as int, 0) == 255);
        assert(composite_over_white(p.b as int, 0) == 255);
        assert(luminance(255, 255, 255) == 255);
    }
    if p.a == 255 {
        lemma_composite_opaque(p.r as int);
        lemma_composite_opaque(p.g as int);
        lemma_composite_opaque(p.b as int);
    }
}

/// Compositing a channel of a fully opaque pixel leaves it unchanged.
proof fn lemma_composite_opaque(c: int)
    requires
        0 <= c <= 255,
    ensures
        composite_over_white(c, 255) == c,
{
    assert((c * 255 + 255 * (255 - 255)) / 255 == c) by (nonlinear_arith)
        requires
            0 <= c <= 255,
    ;
}

/// Blends one channel over a white background.
fn composite_channel(c: u8, a: u8) -> (r: u8)
    ensures
        r as int == composite_over_white(c as int, a as int),
{
    assert((c as u32) * (a as u32) <= 255 * 255) by (nonlinear_arith)
        requires
            c <= 255,
            a <= 255,
    ;
    let num = (c as u32) * (a as u32) + 255 * (255 - (a as u32));
    assert(num <= 255 * (a as u32) + 255 * (255 - (a as u32))) by (nonlinear_arith)
        requires
            c <= 255,
            num == (c as u32) * (a as u32) + 255 * (255 - (a as u32)),
    ;
    (num / 255) as u8
}

} // verus!
