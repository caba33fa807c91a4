//! The rendering pipeline: resize to the target grid, then map every pixel
//! through luminance, contrast adjustment, optional inversion and ramp
//! quantization, row by row in the grid's natural scan order.

use crate::config::target_height_spec;
use crate::config::RenderConfig;
use crate::glyph::glyph_spec;
use crate::glyph::to_glyph;
use crate::pixel::adjust_contrast;
use crate::pixel::adjust_contrast_spec;
use crate::pixel::gray_of;
use crate::pixel::rgb_to_grayscale;
use crate::ramp::get_ascii_chars;
use crate::ramp::ramp_spec;
use crate::raster::pixel_spec;
use crate::raster::resample;
use crate::raster::resize_image;
use crate::raster::Raster;
use vstd::prelude::*;

verus! {

/// The glyph of the grid cell at column `x` of row `y`, for a resized RGBA
/// buffer of width `width`: luminance of the pixel, contrast-adjusted,
/// quantized into the configured ramp under the invert flag.
pub open spec fn cell_spec(data: Seq<u8>, width: int, x: int, y: int, cfg: RenderConfig) -> char {
    glyph_spec(
        adjust_contrast_spec(
            gray_of(pixel_spec(data, width, x, y)),
            cfg.contrast_num as int,
            cfg.contrast_den as int,
        ),
        cfg.invert,
        ramp_spec(cfg.dense),
    )
}

/// The rows of glyphs for a resized RGBA buffer of `width x height` pixels.
pub open spec fn rows_spec(data: Seq<u8>, width: int, height: int, cfg: RenderConfig) -> Seq<
    Seq<char>,
> {
    Seq::new(height as nat, |y: int| Seq::new(width as nat, |x: int| cell_spec(data, width, x, y, cfg)))
}

/// The full rendering of a source image under a configuration: the rows of
/// glyphs of the resampled grid, whose height the aspect-ratio factor
/// derives from the source dimensions.
pub open spec fn render_spec(data: Seq<u8>, orig_w: int, orig_h: int, cfg: RenderConfig) -> Seq<
    Seq<char>,
> {
    let th = target_height_spec(
        orig_w,
        orig_h,
        cfg.width as int,
        cfg.aspect_num as int,
        cfg.aspect_den as int,
    );
    rows_spec(resample(data, orig_w, orig_h, cfg.width as int, th), cfg.width as int, th, cfg)
}

/// Renders `img` as ASCII art: one row of glyphs per grid row, top to
/// bottom, each row exactly the configured width of characters, and exactly
/// the derived target height of rows. The output is a function of the image
/// and the configuration alone.
pub fn img_to_ascii(img: &Raster, cfg: &RenderConfig) -> (out: Vec<Vec<char>>)
    requires
        img.wf(),
        img.width >= 1,
        img.height >= 1,
        cfg.wf(),
        4 * cfg.width * target_height_spec(
            img.width as int,
            img.height as int,
            cfg.width as int,
            cfg.aspect_num as int,
            cfg.aspect_den as int,
        ) <= usize::MAX,
    ensures
        out@.len() == target_height_spec(
            img.width as int,
            img.height as int,
            cfg.width as int,
            cfg.aspect_num as int,
            cfg.aspect_den as int,
        ),
        forall|y: int| 0 <= y < out@.len() ==> (#[trigger] out@[y])@.len() == cfg.width,
        out.deep_view() == render_spec(img.data@, img.width as int, img.height as int, *cfg),
{
    let (resized, width, height) = resize_image(img, cfg);
    let ghost rdata = resample(
        img.data@,
        img.width as int,
        img.height as int,
        cfg.width as int,
        height as int,
    );
    let ascii_chars = get_ascii_chars(cfg.dense);
    let mut out: Vec<Vec<char>> = Vec::new();
    if height == 0 {
        assert(out.deep_view() =~= render_spec(
            img.data@,
            img.width as int,
            img.height as int,
            *cfg,
        ));
        return out;
    }
    assert(resized.data@ == rdata);
    let mut y: u32 = 0;
    while y < height
        invariant
            y <= height,
            out@.len() == y,
            width == cfg.width,
            height >= 1,
            resized.wf(),
            resized.width == width,
            resized.height == height,
            resized.data@ == rdata,
            cfg.wf(),
            ascii_chars@ == ramp_spec(cfg.dense),
            forall|j: int|
                0 <= j < y ==> (#[trigger] out@[j])@ == rows_spec(
                    rdata,
                    width as int,
                    height as int,
                    *cfg,
                )[j],
        decreases height - y,
    {
        let mut line: Vec<char> = Vec::new();
        let mut x: u32 = 0;
        while x < width
            invariant
                x <= width,
                y < height,
                line@.len() == x,
                width == cfg.width,
                resized.wf(),
                resized.width == width,
                resized.height == height,
                resized.data@ == rdata,
                cfg.wf(),
                ascii_chars@ == ramp_spec(cfg.dense),
                forall|i: int|
                    0 <= i < x ==> line@[i] == cell_spec(rdata, width as int, i, y as int, *cfg),
            decreases width - x,
        {
            let p = resized.pixel_at(x, y);
            let gray = rgb_to_grayscale(p);
            let adjusted = adjust_contrast(gray, cfg.contrast_num, cfg.contrast_den);
            let c = to_glyph(adjusted, cfg.invert, &ascii_chars);
            line.push(c);
            x = x + 1;
        }
        assert(line@ =~= rows_spec(rdata, width as int, height as int, *cfg)[y as int]);
        out.push(line);
        y = y + 1;
    }
    proof {
        let dv = out.deep_view();
        let rs = render_spec(img.data@, img.width as int, img.height as int, *cfg);
        assert forall|j: int| 0 <= j < dv.len() implies dv[j] == rs[j] by {
            assert(out@[j].deep_view() =~= out@[j]@);
            assert(out@[j]@ == rows_spec(rdata, width as int, height as int, *cfg)[j]);
        }
        assert(dv =~= rs);
    }
    out
}

/// Rendering is deterministic: the output is a function of the pixel data,
/// the source dimensions and the configuration alone, so two renderings of
/// identical inputs are identical.
pub proof fn lemma_render_deterministic(
    data: Seq<u8>,
    orig_w: int,
    orig_h: int,
    cfg: RenderConfig,
    out1: Seq<Seq<char>>,
    out2: Seq<Seq<char>>,
)
    requires
        out1 == render_spec(data, orig_w, orig_h, cfg),
        out2 == render_spec(data, orig_w, orig_h, cfg),
    ensures
        out1 == out2,
{
}

} // verus!
