use ascii_art::adjust_contrast;
use ascii_art::get_ascii_chars;
use ascii_art::rgb_to_grayscale;
use ascii_art::target_height;
use ascii_art::to_glyph;
use ascii_art::ConfigError;
use ascii_art::Pixel;
use ascii_art::RenderConfig;

fn pixel(r: u8, g: u8, b: u8, a: u8) -> Pixel {
    Pixel { r, g, b, a }
}

#[test]
fn grayscale_opaque_extremes() {
    assert_eq!(rgb_to_grayscale(pixel(0, 0, 0, 255)), 0);
    assert_eq!(rgb_to_grayscale(pixel(255, 255, 255, 255)), 255);
}

#[test]
fn grayscale_opaque_rec709_weights() {
    // floor(0.2126 * 255), floor(0.7152 * 255), floor(0.0722 * 255)
    assert_eq!(rgb_to_grayscale(pixel(255, 0, 0, 255)), 54);
    assert_eq!(rgb_to_grayscale(pixel(0, 255, 0, 255)), 182);
    assert_eq!(rgb_to_grayscale(pixel(0, 0, 255, 255)), 18);
}

#[test]
fn grayscale_transparent_is_white() {
    // Alpha 0 blends to pure white whatever the color channels hold.
    assert_eq!(rgb_to_grayscale(pixel(0, 0, 0, 0)), 255);
    assert_eq!(rgb_to_grayscale(pixel(17, 200, 33, 0)), 255);
    assert_eq!(rgb_to_grayscale(pixel(255, 255, 255, 0)), 255);
}

#[test]
fn grayscale_half_transparent_blend() {
    // r' = floor((200*128 + 255*127)/255) = 227, g' = b' = floor(255*127/255) = 127,
    // luminance = floor((2126*227 + 7152*127 + 722*127)/10000) = 148.
    assert_eq!(rgb_to_grayscale(pixel(200, 0, 0, 128)), 148);
}

#[test]
fn contrast_identity_factor() {
    for v in [0u8, 1, 50, 127, 128, 200, 254, 255] {
        assert_eq!(adjust_contrast(v, 1, 1), v);
        assert_eq!(adjust_contrast(v, 7, 7), v);
    }
}

#[test]
fn contrast_pivot_near_invariant() {
    assert_eq!(adjust_contrast(128, 1, 1), 128);
    assert_eq!(adjust_contrast(128, 1, 2), 127);
    assert_eq!(adjust_contrast(128, 2, 1), 128);
    assert_eq!(adjust_contrast(128, 3, 2), 128);
}

#[test]
fn contrast_stretch_and_clamp() {
    // factor 2: floor(255 * clamp((v/255 - 1/2)*2 + 1/2, 0, 1))
    assert_eq!(adjust_contrast(0, 2, 1), 0);
    assert_eq!(adjust_contrast(255, 2, 1), 255);
    assert_eq!(adjust_contrast(200, 100, 1), 255);
    assert_eq!(adjust_contrast(50, 100, 1), 0);
    // factor 1/2 flattens toward mid-gray: floor(255*(0 - 1/2)/2 + 255/2) = 63
    assert_eq!(adjust_contrast(0, 1, 2), 63);
    assert_eq!(adjust_contrast(255, 1, 2), 191);
}

#[test]
fn ramps_shape() {
    let sparse = get_ascii_chars(false);
    let dense = get_ascii_chars(true);
    assert_eq!(sparse.len(), 19);
    assert_eq!(dense.len(), 88);
    assert_eq!(sparse[0], '@');
    assert_eq!(*sparse.last().unwrap(), ' ');
    assert_eq!(dense[0], '@');
    assert_eq!(*dense.last().unwrap(), ' ');
}

#[test]
fn glyph_extremes() {
    let sparse = get_ascii_chars(false);
    assert_eq!(to_glyph(0, false, &sparse), '@');
    assert_eq!(to_glyph(255, false, &sparse), ' ');
    // idx = floor((2*128*18 + 255)/510) = 9
    assert_eq!(to_glyph(128, false, &sparse), sparse[9]);
}

#[test]
fn glyph_monotone_in_luminance() {
    // Brighter input never yields a darker glyph (lower ramp position).
    let sparse = get_ascii_chars(false);
    let rank = |c: char| sparse.iter().position(|&x| x == c).unwrap();
    let mut prev = 0usize;
    for l in 0u16..=255 {
        let r = rank(to_glyph(l as u8, false, &sparse));
        assert!(r >= prev, "luminance {} ranked {} below {}", l, r, prev);
        prev = r;
    }
}

#[test]
fn glyph_invert_symmetry() {
    let sparse = get_ascii_chars(false);
    let dense = get_ascii_chars(true);
    for l in 0u16..=255 {
        let l = l as u8;
        assert_eq!(to_glyph(l, true, &sparse), to_glyph(255 - l, false, &sparse));
        assert_eq!(to_glyph(l, true, &dense), to_glyph(255 - l, false, &dense));
    }
}

#[test]
fn config_rejects_zero_width() {
    assert_eq!(
        RenderConfig::new(0, 1, 2, 1, 1, false, false),
        Err(ConfigError::ZeroWidth)
    );
}

#[test]
fn config_rejects_bad_aspect() {
    assert_eq!(
        RenderConfig::new(10, 0, 2, 1, 1, false, false),
        Err(ConfigError::InvalidAspect)
    );
    assert_eq!(
        RenderConfig::new(10, 1, 0, 1, 1, false, false),
        Err(ConfigError::InvalidAspect)
    );
}

#[test]
fn config_rejects_bad_contrast() {
    assert_eq!(
        RenderConfig::new(10, 1, 2, 1, 0, false, false),
        Err(ConfigError::InvalidContrast)
    );
    assert_eq!(
        RenderConfig::new(10, 1, 2, 1, -3, false, false),
        Err(ConfigError::InvalidContrast)
    );
}

#[test]
fn config_accepts_valid_input() {
    let cfg = RenderConfig::new(100, 1, 2, 3, 2, true, true).unwrap();
    assert_eq!(cfg.width, 100);
    assert_eq!(cfg.aspect_num, 1);
    assert_eq!(cfg.aspect_den, 2);
    assert_eq!(cfg.contrast_num, 3);
    assert_eq!(cfg.contrast_den, 2);
    assert!(cfg.invert);
    assert!(cfg.dense);
}

#[test]
fn target_height_formula() {
    // floor(width * (an/ad) * h0 / w0)
    assert_eq!(target_height(4, 3, 100, 1, 2), 37);
    assert_eq!(target_height(2, 2, 2, 1, 1), 2);
    assert_eq!(target_height(1, 1, 100, 1, 2), 50);
    // degenerate: rounds down to zero rows
    assert_eq!(target_height(100, 1, 1, 1, 2), 0);
}
