//! An owned RGBA raster: a width, a height, and a row-major byte buffer of
//! four bytes (red, green, blue, alpha) per pixel. Resampling to the target
//! grid is done by the `image` crate behind one trusted wrapper.

use crate::pixel::Pixel;
use vstd::prelude::*;

verus! {

/// A 2D grid of RGBA pixels, row-major, four bytes per pixel.
#[derive(Debug)]
pub struct Raster {
    /// Width in pixels.
    pub width: u32,
    /// Height in pixels.
    pub height: u32,
    /// The pixel bytes: `4 * width * height` of them when well-formed.
    pub data: Vec<u8>,
}

/// The pixel at column `x` of row `y` of a row-major RGBA byte buffer of
/// width `width`.
pub open spec fn pixel_spec(data: Seq<u8>, width: int, x: int, y: int) -> Pixel {
    let i = 4 * (y * width + x);
    Pixel { r: data[i], g: data[i + 1], b: data[i + 2], a: data[i + 3] }
}

impl Raster {
    /// The buffer holds exactly the grid's pixels.
    pub open spec fn wf(self) -> bool {
        self.data@.len() == 4 * self.width * self.height
    }

    /// Builds a raster from plain values; rejects empty dimensions and a
    /// buffer whose length is not exactly four bytes per pixel.
    pub fn new(width: u32, height: u32, data: Vec<u8>) -> (r: Option<Raster>)
        ensures
            r is Some <==> (width >= 1 && height >= 1 && data@.len() == 4 * width * height),
            r is Some ==> r.unwrap() == (Raster { width, height, data }),
            r is Some ==> r.unwrap().wf(),
    {
        assert(4 * (width as int) * (height as int) <= 4 * 0xFFFF_FFFFu64 * 0xFFFF_FFFFu64)
            by (nonlinear_arith)
            requires
                width <= 0xFFFF_FFFFu64,
                height <= 0xFFFF_FFFFu64,
        ;
        let expected = 4u128 * (width as u128) * (height as u128);
        if width >= 1 && height >= 1 && (data.len() as u128) == expected {
            Some(Raster { width, height, data })
        } else {
            None
        }
    }

    /// Reads the pixel at column `x` of row `y`.
    pub fn pixel_at(&self, x: u32, y: u32) -> (p: Pixel)
        requires
            self.wf(),
            x < self.width,
            y < self.height,
        ensures
            p == pixel_spec(self.data@, self.width as int, x as int, y as int),
    {
        let w = self.width as usize;
        let xi = x as usize;
        let yi = y as usize;
        let n = self.data.len();
        assert(0 <= (yi as int) * (w as int) && (yi as int) * (w as int) + (xi as int) < (w as int)
            * (self.height as int)) by (nonlinear_arith)
            requires
                0 <= yi < self.height,
                0 <= xi < w,
                w >= 1,
        ;
        assert(4 * ((w as int) * (self.height as int)) == n) by (nonlinear_arith)
            requires
                n == 4 * (self.width as int) * (self.height as int),
                w == self.width,
        ;
        let i = 4 * (yi * w + xi);
        Pixel { r: self.data[i], g: self.data[i + 1], b: self.data[i + 2], a: self.data[i + 3] }
    }
}

/// What the Catmull-Rom resampler returns for a given RGBA buffer of
/// `width x height` pixels when asked for a `new_width x new_height` grid.
/// The resampling depends on its arguments alone.
pub uninterp spec fn resample(
    data: Seq<u8>,
    width: int,
    height: int,
    new_width: int,
    new_height: int,
) -> Seq<u8>;

/// Relies on `image::imageops::resize` with `FilterType::CatmullRom`: it
/// resamples the source buffer to exactly `new_width x new_height` RGBA
/// pixels, as a pure function of the source pixels and the dimensions.
#[verifier::external_body]
fn resize_rgba(data: &Vec<u8>, width: u32, height: u32, new_width: u32, new_height: u32) -> (r:
    Vec<u8>)
    requires
        width >= 1,
        height >= 1,
        new_width >= 1,
        new_height >= 1,
        data@.len() == 4 * width * height,
        4 * new_width * new_height <= usize::MAX,
    ensures
        r@.len() == 4 * new_width * new_height,
        r@ == resample(data@, width as int, height as int, new_width as int, new_height as int),
{
    let buf: image::RgbaImage = image::ImageBuffer::from_raw(width, height, data.clone()).unwrap();
    let out = image::imageops::resize(
        &buf,
        new_width,
        new_height,
        image::imageops::FilterType::CatmullRom,
    );
    out.into_raw()
}

/// Resizes `img` to the target character grid: the configured width, and the
/// height that the aspect-ratio factor derives from the source dimensions.
/// A derived height of zero yields an empty raster, not an error. Returns
/// the resized raster together with the grid width and height.
pub fn resize_image(img: &Raster, cfg: &crate::config::RenderConfig) -> (r: (Raster, u32, u32))
    requires
        img.wf(),
        img.width >= 1,
        img.height >= 1,
        cfg.wf(),
        4 * cfg.width * crate::config::target_height_spec(
            img.width as int,
            img.height as int,
            cfg.width as int,
            cfg.aspect_num as int,
            cfg.aspect_den as int,
        ) <= usize::MAX,
    ensures
        r.1 == cfg.width,
        r.2 as int == crate::config::target_height_spec(
            img.width as int,
            img.height as int,
            cfg.width as int,
            cfg.aspect_num as int,
            cfg.aspect_den as int,
        ),
        r.0.wf(),
        r.0.width == r.1,
        r.0.height == r.2,
        r.2 >= 1 ==> r.0.data@ == resample(
            img.data@,
            img.width as int,
            img.height as int,
            cfg.width as int,
            r.2 as int,
        ),
{
    let th = crate::config::target_height(
        img.width,
        img.height,
        cfg.width,
        cfg.aspect_num,
        cfg.aspect_den,
    );
    if th == 0 {
        (Raster { width: cfg.width, height: 0, data: Vec::new() }, cfg.width, 0)
    } else {
        let data = resize_rgba(&img.data, img.width, img.height, cfg.width, th);
        (Raster { width: cfg.width, height: th, data }, cfg.width, th)
    }
}

} // verus!
