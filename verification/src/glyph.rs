//! Quantization of an adjusted luminance value into a character ramp.

use vstd::prelude::*;

verus! {

/// The luminance actually mapped: inversion flips the brightness scale.
pub open spec fn effective_luminance(l: int, invert: bool) -> int {
    if invert {
        255 - l
    } else {
        l
    }
}

/// The ramp position for luminance `g` in 0..=255 and a ramp of length `n`:
/// `round(g/255 * (n - 1))`, rounding half away from zero, written over
/// integers as `floor((2*g*(n-1) + 255) / 510)`. Luminance 0 lands on the
/// heaviest glyph at position 0, luminance 255 on the space at position
/// `n - 1`.
pub open spec fn glyph_index_spec(g: int, n: int) -> int {
    (2 * g * (n - 1) + 255) / 510
}

/// The glyph that luminance `l` selects from `ramp` under the invert flag.
pub open spec fn glyph_spec(l: int, invert: bool, ramp: Seq<char>) -> char {
    ramp[glyph_index_spec(effective_luminance(l, invert), ramp.len() as int)]
}

/// Maps an adjusted luminance to a glyph of `ramp` (ordered darkest first):
/// darker pixels pick heavier glyphs, and the invert flag flips the mapping.
pub fn to_glyph(lum: u8, invert: bool, ramp: &Vec<char>) -> (c: char)
    requires
        ramp@.len() >= 1,
    ensures
        c == glyph_spec(lum as int, invert, ramp@),
{
    let g: u128 = if invert {
        255 - (lum as u128)
    } else {
        lum as u128
    };
    let n = ramp.len();
    assert((g as int) * ((n - 1) as int) <= 255 * 0xFFFF_FFFF_FFFF_FFFFu64) by (nonlinear_arith)
        requires
            0 <= g <= 255,
            1 <= n <= 0xFFFF_FFFF_FFFF_FFFFu64 + 1,
    ;
    let scaled = g * ((n - 1) as u128);
    let idx128 = (2 * scaled + 255) / 510;
    assert(2 * (scaled as int) + 255 < 510 * (n as int)) by (nonlinear_arith)
        requires
            scaled == (g as int) * ((n - 1) as int),
            0 <= g <= 255,
            n >= 1,
    ;
    assert(idx128 < n as u128) by (nonlinear_arith)
        requires
            idx128 == (2 * (scaled as int) + 255) / 510,
            2 * (scaled as int) + 255 < 510 * (n as int),
            0 <= scaled,
            n >= 1,
    ;
    assert(idx128 == glyph_index_spec(effective_luminance(lum as int, invert), n as int))
        by (nonlinear_arith)
        requires
            idx128 == (2 * (scaled as int) + 255) / 510,
            scaled == (g as int) * ((n - 1) as int),
            g == effective_luminance(lum as int, invert),
            n >= 1,
    ;
    let idx = idx128 as usize;
    ramp[idx]
}

/// With no inversion the glyph position is monotone in luminance: a brighter
/// pixel never selects a glyph of lower (darker) ramp position. Stated for
/// the identity contrast factor `c / c`, under which the adjustment returns
/// the luminance unchanged.
pub proof fn lemma_luminance_glyph_monotone(l1: int, l2: int, c: int, n: int)
    requires
        0 <= l1 <= l2 <= 255,
        c >= 1,
        n >= 1,
    ensures
        glyph_index_spec(
            effective_luminance(crate::pixel::adjust_contrast_spec(l1, c, c), false),
            n,
        ) <= glyph_index_spec(
            effective_luminance(crate::pixel::adjust_contrast_spec(l2, c, c), false),
            n,
        ),
{
    lemma_contrast_identity(l1, c);
    lemma_contrast_identity(l2, c);
    lemma_glyph_index_monotone(l1, l2, n);
}

/// The contrast adjustment with a factor of one is the identity on 0..=255.
pub proof fn lemma_contrast_identity(l: int, c: int)
    requires
        0 <= l <= 255,
        c >= 1,
    ensures
        crate::pixel::adjust_contrast_spec(l, c, c) == l,
{
    let num = (2 * l - 255) * c + 255 * c;
    let den = 510 * c;
    assert(num == 2 * l * c) by (nonlinear_arith)
        requires
            num == (2 * l - 255) * c + 255 * c,
    ;
    if l == 0 {
        assert(num == 0) by (nonlinear_arith)
            requires
                num == 2 * l * c,
                l == 0,
        ;
    } else {
        assert(0 < num) by (nonlinear_arith)
            requires
                num == 2 * l * c,
                l >= 1,
                c >= 1,
        ;
        if l < 255 {
            assert(num < den) by (nonlinear_arith)
                requires
                    num == 2 * l * c,
                    den == 510 * c,
                    l < 255,
                    c >= 1,
            ;
            assert(255 * num / den == l) by (nonlinear_arith)
                requires
                    num == 2 * l * c,
                    den == 510 * c,
                    0 <= l,
                    c >= 1,
            ;
        } else {
            assert(num >= den) by (nonlinear_arith)
                requires
                    num == 2 * l * c,
                    den == 510 * c,
                    l == 255,
                    c >= 1,
            ;
        }
    }
}

/// The ramp position is non-decreasing in luminance.
pub proof fn lemma_glyph_index_monotone(g1: int, g2: int, n: int)
    requires
        0 <= g1 <= g2,
        n >= 1,
    ensures
        glyph_index_spec(g1, n) <= glyph_index_spec(g2, n),
{
    assert(2 * g1 * (n - 1) + 255 <= 2 * g2 * (n - 1) + 255) by (nonlinear_arith)
        requires
            0 <= g1 <= g2,
            n >= 1,
    ;
    assert((2 * g1 * (n - 1) + 255) / 510 <= (2 * g2 * (n - 1) + 255) / 510) by (nonlinear_arith)
        requires
            2 * g1 * (n - 1) + 255 <= 2 * g2 * (n - 1) + 255,
    ;
}

/// Inversion is a reflection of the brightness scale: inverted rendering of
/// luminance `l` picks the same glyph as plain rendering of `255 - l`.
pub proof fn lemma_invert_symmetry(l: int, ramp: Seq<char>)
    requires
        0 <= l <= 255,
        ramp.len() >= 1,
    ensures
        glyph_spec(l, true, ramp) == glyph_spec(255 - l, false, ramp),
{
}

} // verus!
