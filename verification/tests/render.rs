use ascii_art::img_to_ascii;
use ascii_art::resize_image;
use ascii_art::Raster;
use ascii_art::RenderConfig;

fn solid_raster(width: u32, height: u32, rgba: [u8; 4]) -> Raster {
    let mut data = Vec::new();
    for _ in 0..(width * height) {
        data.extend_from_slice(&rgba);
    }
    Raster::new(width, height, data).unwrap()
}

fn config(width: u32, an: u32, ad: u32, invert: bool) -> RenderConfig {
    RenderConfig::new(width, an, ad, 1, 1, invert, false).unwrap()
}

#[test]
fn black_square_renders_heaviest_glyph() {
    // A 2x2 all-black opaque image at width 2 and aspect 1 keeps its 2x2
    // grid; every cell is the heaviest glyph of the sparse ramp.
    let img = solid_raster(2, 2, [0, 0, 0, 255]);
    let art = img_to_ascii(&img, &config(2, 1, 1, false));
    assert_eq!(art, vec![vec!['@', '@'], vec!['@', '@']]);
}

#[test]
fn black_square_inverted_renders_spaces() {
    let img = solid_raster(2, 2, [0, 0, 0, 255]);
    let art = img_to_ascii(&img, &config(2, 1, 1, true));
    assert_eq!(art, vec![vec![' ', ' '], vec![' ', ' ']]);
}

#[test]
fn transparent_pixel_renders_space() {
    // Alpha 0 blends to white, so the cell is the lightest glyph, whatever
    // the color channels hold.
    let img = solid_raster(1, 1, [10, 20, 30, 0]);
    let art = img_to_ascii(&img, &config(1, 1, 1, false));
    assert_eq!(art, vec![vec![' ']]);
}

#[test]
fn render_dimensions_follow_aspect_ratio() {
    let img = solid_raster(4, 4, [0, 0, 0, 255]);
    // target height = floor(2 * (1/1) * 4 / 4) = 2
    let art = img_to_ascii(&img, &config(2, 1, 1, false));
    assert_eq!(art.len(), 2);
    for row in &art {
        assert_eq!(row.len(), 2);
    }
    // target height = floor(3 * (1/2) * 4 / 4) = 1
    let art = img_to_ascii(&img, &config(3, 1, 2, false));
    assert_eq!(art.len(), 1);
    assert_eq!(art[0].len(), 3);
}

#[test]
fn render_degenerate_height_is_empty() {
    // floor(1 * (1/2) * 1 / 100) = 0 rows: legitimate empty output.
    let img = solid_raster(100, 1, [0, 0, 0, 255]);
    let art = img_to_ascii(&img, &config(1, 1, 2, false));
    assert_eq!(art.len(), 0);
}

#[test]
fn render_is_deterministic() {
    let mut data = Vec::new();
    for i in 0..(4 * 3 * 4) {
        data.push((i * 37 % 256) as u8);
    }
    let img1 = Raster::new(4, 3, data.clone()).unwrap();
    let img2 = Raster::new(4, 3, data).unwrap();
    let cfg = RenderConfig::new(3, 2, 3, 5, 4, false, true).unwrap();
    assert_eq!(img_to_ascii(&img1, &cfg), img_to_ascii(&img2, &cfg));
}

#[test]
fn resize_reports_grid_and_resamples() {
    // Upscaling a 1x2 black-over-white column to a 1x4 grid really
    // resamples: the output holds 4 rows whose ends keep the extremes.
    let data = vec![0, 0, 0, 255, 255, 255, 255, 255];
    let img = Raster::new(1, 2, data).unwrap();
    let cfg = config(1, 2, 1, false);
    let (resized, w, h) = resize_image(&img, &cfg);
    assert_eq!((w, h), (1, 4));
    assert_eq!((resized.width, resized.height), (1, 4));
    assert_eq!(resized.data.len(), 16);
    let art = img_to_ascii(&img, &cfg);
    assert_eq!(art.len(), 4);
    assert_eq!(art[0], vec!['@']);
    assert_eq!(art[3], vec![' ']);
}

#[test]
fn raster_new_validates() {
    assert!(Raster::new(0, 1, vec![0, 0, 0, 255]).is_none());
    assert!(Raster::new(1, 0, vec![]).is_none());
    assert!(Raster::new(1, 1, vec![0, 0, 0]).is_none());
    assert!(Raster::new(1, 1, vec![0, 0, 0, 255, 9]).is_none());
    assert!(Raster::new(1, 1, vec![0, 0, 0, 255]).is_some());
}
