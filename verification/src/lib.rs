//! Renders a raster image as ASCII art: each cell of a character grid is the
//! glyph whose ink density matches the luminance of the corresponding pixel.
//!
//! The pipeline is: resize the image to the target grid, composite each pixel
//! over a white background, take its Rec. 709 luminance, stretch the contrast
//! around mid-gray, optionally invert, and quantize into a fixed character
//! ramp ordered from the heaviest glyph to a space.

pub mod config;
pub mod glyph;
pub mod pixel;
pub mod ramp;
pub mod raster;
pub mod render;

pub use config::target_height;
pub use config::ConfigError;
pub use config::RenderConfig;
pub use glyph::to_glyph;
pub use pixel::adjust_contrast;
pub use pixel::rgb_to_grayscale;
pub use pixel::Pixel;
pub use ramp::get_ascii_chars;
pub use raster::resize_image;
pub use raster::Raster;
pub use render::img_to_ascii;
