use mandelbrot::config::Config;
use mandelbrot::config::ConfigError;
use mandelbrot::palette::Color;
use mandelbrot::palette::Palette;

// One plane unit in fixed-point coordinates.
const UNIT: i64 = 65536;

fn small_palette() -> Palette {
    Palette {
        colors: vec![Color::Red, Color::Green],
        fg_glyph: '@',
        bg_glyph: ' ',
        bg_color: Color::Black,
    }
}

fn empty_palette() -> Palette {
    Palette { colors: vec![], fg_glyph: '@', bg_glyph: ' ', bg_color: Color::Black }
}

#[test]
fn valid_configuration_is_accepted_and_kept() {
    let cfg = Config::new(80, 24, -5 * UNIT / 2, UNIT, -UNIT, UNIT, 100, small_palette())
        .expect("a valid configuration");
    assert_eq!(cfg.viewport.width, 80);
    assert_eq!(cfg.viewport.height, 24);
    assert_eq!(cfg.viewport.re_min, -5 * UNIT / 2);
    assert_eq!(cfg.viewport.re_max, UNIT);
    assert_eq!(cfg.viewport.im_min, -UNIT);
    assert_eq!(cfg.viewport.im_max, UNIT);
    assert_eq!(cfg.max_iter, 100);
    assert_eq!(cfg.palette, small_palette());
}

#[test]
fn zero_width_is_rejected() {
    let r = Config::new(0, 24, -UNIT, UNIT, -UNIT, UNIT, 100, small_palette());
    assert_eq!(r, Err(ConfigError::InvalidWidth));
}

#[test]
fn oversized_width_is_rejected() {
    let r = Config::new(32769, 24, -UNIT, UNIT, -UNIT, UNIT, 100, small_palette());
    assert_eq!(r, Err(ConfigError::InvalidWidth));
}

#[test]
fn zero_height_is_rejected() {
    let r = Config::new(80, 0, -UNIT, UNIT, -UNIT, UNIT, 100, small_palette());
    assert_eq!(r, Err(ConfigError::InvalidHeight));
}

#[test]
fn zero_iteration_cap_is_rejected() {
    let r = Config::new(80, 24, -UNIT, UNIT, -UNIT, UNIT, 0, small_palette());
    assert_eq!(r, Err(ConfigError::InvalidMaxIter));
}

#[test]
fn empty_palette_is_rejected() {
    let r = Config::new(80, 24, -UNIT, UNIT, -UNIT, UNIT, 100, empty_palette());
    assert_eq!(r, Err(ConfigError::EmptyPalette));
}

#[test]
fn empty_plane_rectangle_is_rejected() {
    let r = Config::new(80, 24, UNIT, UNIT, -UNIT, UNIT, 100, small_palette());
    assert_eq!(r, Err(ConfigError::InvalidBounds));
    let r = Config::new(80, 24, -UNIT, UNIT, UNIT, -UNIT, 100, small_palette());
    assert_eq!(r, Err(ConfigError::InvalidBounds));
}

#[test]
fn out_of_range_bounds_are_rejected() {
    let r = Config::new(80, 24, -17 * UNIT, UNIT, -UNIT, UNIT, 100, small_palette());
    assert_eq!(r, Err(ConfigError::InvalidBounds));
    let r = Config::new(80, 24, -UNIT, 17 * UNIT, -UNIT, UNIT, 100, small_palette());
    assert_eq!(r, Err(ConfigError::InvalidBounds));
}

#[test]
fn the_first_failing_check_names_the_error() {
    // Zero width wins over the empty palette and the empty rectangle.
    let r = Config::new(0, 0, UNIT, UNIT, UNIT, UNIT, 0, empty_palette());
    assert_eq!(r, Err(ConfigError::InvalidWidth));
}
