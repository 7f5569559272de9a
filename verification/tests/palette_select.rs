use mandelbrot::palette::select;
use mandelbrot::palette::Cell;
use mandelbrot::palette::Color;
use mandelbrot::palette::Palette;

fn three_colors() -> Palette {
    Palette {
        colors: vec![Color::Red, Color::Green, Color::Blue],
        fg_glyph: '@',
        bg_glyph: ' ',
        bg_color: Color::Black,
    }
}

#[test]
fn bounded_count_selects_the_background_pair() {
    let bg = Cell { glyph: ' ', color: Color::Black };
    assert_eq!(select(&three_colors(), 128, 128), bg);
    // Regardless of palette contents or ordering.
    let reordered = Palette { colors: vec![Color::White, Color::Yellow], ..three_colors() };
    assert_eq!(select(&reordered, 128, 128), bg);
    let single = Palette { colors: vec![Color::Cyan], ..three_colors() };
    assert_eq!(select(&single, 7, 7), bg);
}

#[test]
fn small_count_selects_the_color_at_the_count() {
    let p = three_colors();
    assert_eq!(select(&p, 0, 128), Cell { glyph: '@', color: Color::Red });
    assert_eq!(select(&p, 1, 128), Cell { glyph: '@', color: Color::Green });
    assert_eq!(select(&p, 2, 128), Cell { glyph: '@', color: Color::Blue });
}

#[test]
fn large_count_wraps_around_the_palette() {
    let p = three_colors();
    assert_eq!(select(&p, 3, 128), Cell { glyph: '@', color: Color::Red });
    assert_eq!(select(&p, 4, 128), Cell { glyph: '@', color: Color::Green });
    assert_eq!(select(&p, 7, 128), Cell { glyph: '@', color: Color::Green });
    // A sixteen-color palette under a cap of 128 wraps the same way.
    let sixteen = Palette {
        colors: vec![
            Color::Black,
            Color::Blue,
            Color::LightBlue,
            Color::Cyan,
            Color::LightCyan,
            Color::Green,
            Color::LightGreen,
            Color::Brown,
            Color::Yellow,
            Color::DarkGray,
            Color::LightGray,
            Color::Magenta,
            Color::Pink,
            Color::LightRed,
            Color::Red,
            Color::White,
        ],
        fg_glyph: '@',
        bg_glyph: ' ',
        bg_color: Color::Black,
    };
    assert_eq!(select(&sixteen, 20, 128), Cell { glyph: '@', color: Color::LightCyan });
}

#[test]
fn single_color_palette_always_selects_it() {
    let p = Palette {
        colors: vec![Color::Magenta],
        fg_glyph: '#',
        bg_glyph: '.',
        bg_color: Color::White,
    };
    for count in 0..9usize {
        assert_eq!(select(&p, count, 9), Cell { glyph: '#', color: Color::Magenta });
    }
    assert_eq!(select(&p, 9, 9), Cell { glyph: '.', color: Color::White });
}
