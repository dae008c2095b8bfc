use screencapture::color::Color;
use screencapture::palette::{colors, stroke_widths};

fn float_cmyk(r: u8, g: u8, b: u8) -> String {
    let r = r as f32 / 255.0;
    let g = g as f32 / 255.0;
    let b = b as f32 / 255.0;
    let k = 1.0 - r.max(g).max(b);
    let c = if k < 1.0 { (1.0 - r - k) / (1.0 - k) } else { 0.0 };
    let m = if k < 1.0 { (1.0 - g - k) / (1.0 - k) } else { 0.0 };
    let y = if k < 1.0 { (1.0 - b - k) / (1.0 - k) } else { 0.0 };
    format!("cmyk({:.0}%, {:.0}%, {:.0}%, {:.0}%)", c * 100.0, m * 100.0, y * 100.0, k * 100.0)
}

fn is_exact_half(v: u8, max: u8) -> bool {
    let part = (max - v) as u32;
    max > 0 && 2 * ((100 * part) % max as u32) == max as u32
}

#[test]
fn red_as_hex() {
    assert_eq!(Color::from_rgb(255, 0, 0).hex_text(), "#FF0000");
}

#[test]
fn hex_uses_two_upper_case_digits_per_channel() {
    assert_eq!(Color::from_rgb(0, 0, 0).hex_text(), "#000000");
    assert_eq!(Color::from_rgb(1, 10, 171).hex_text(), "#010AAB");
    assert_eq!(Color::from_rgb(255, 192, 203).hex_text(), "#FFC0CB");
    assert_eq!(Color::from_rgb(18, 52, 86).hex_text(), "#123456");
    assert_eq!(Color::from_rgb(222, 239, 205).hex_text(), "#DEEFCD");
}

#[test]
fn hex_agrees_with_std_formatting_for_every_byte() {
    for v in 0..=255u8 {
        let expected = format!("#{:02X}{:02X}{:02X}", v, 255 - v, v / 2);
        assert_eq!(Color::from_rgb(v, 255 - v, v / 2).hex_text(), expected);
    }
}

#[test]
fn rgb_text_lists_channels_in_decimal() {
    assert_eq!(Color::from_rgb(255, 0, 0).rgb_text(), "rgb(255, 0, 0)");
    assert_eq!(Color::from_rgb(0, 0, 0).rgb_text(), "rgb(0, 0, 0)");
    assert_eq!(Color::from_rgb(7, 42, 100).rgb_text(), "rgb(7, 42, 100)");
    assert_eq!(Color::from_rgb(9, 10, 99).rgb_text(), "rgb(9, 10, 99)");
}

#[test]
fn rgb_text_agrees_with_std_formatting_for_every_byte() {
    for v in 0..=255u8 {
        let expected = format!("rgb({}, {}, {})", v, 255 - v, v / 3);
        assert_eq!(Color::from_rgb(v, 255 - v, v / 3).rgb_text(), expected);
    }
}

#[test]
fn rgb_text_ignores_alpha() {
    assert_eq!(Color::from_rgba(1, 2, 3, 77).rgb_text(), "rgb(1, 2, 3)");
    assert_eq!(Color::from_rgba(1, 2, 3, 77).hex_text(), "#010203");
}

#[test]
fn black_as_cmyk() {
    assert_eq!(Color::from_rgb(0, 0, 0).cmyk_text(), "cmyk(0%, 0%, 0%, 100%)");
}

#[test]
fn white_as_cmyk() {
    assert_eq!(Color::from_rgb(255, 255, 255).cmyk_text(), "cmyk(0%, 0%, 0%, 0%)");
}

#[test]
fn primary_colours_as_cmyk() {
    assert_eq!(Color::from_rgb(255, 0, 0).cmyk_text(), "cmyk(0%, 100%, 100%, 0%)");
    assert_eq!(Color::from_rgb(0, 255, 0).cmyk_text(), "cmyk(100%, 0%, 100%, 0%)");
    assert_eq!(Color::from_rgb(0, 0, 255).cmyk_text(), "cmyk(100%, 100%, 0%, 0%)");
    assert_eq!(Color::from_rgb(255, 192, 203).cmyk_text(), "cmyk(0%, 25%, 20%, 0%)");
    assert_eq!(Color::from_rgb(128, 64, 32).cmyk_text(), "cmyk(0%, 50%, 75%, 50%)");
}

#[test]
fn cmyk_rounds_an_exact_half_to_the_even_percentage() {
    // (200 - 197) / 200 is 1.5 %, (200 - 195) / 200 is 2.5 %, (200 - 199) / 200 is 0.5 %.
    assert_eq!(Color::from_rgb(197, 200, 200).cmyk_text(), "cmyk(2%, 0%, 0%, 22%)");
    assert_eq!(Color::from_rgb(195, 200, 200).cmyk_text(), "cmyk(2%, 0%, 0%, 22%)");
    assert_eq!(Color::from_rgb(199, 200, 200).cmyk_text(), "cmyk(0%, 0%, 0%, 22%)");
}

#[test]
fn cmyk_agrees_with_the_floating_point_formula_off_exact_halves() {
    let mut compared = 0u32;
    for max in 0..=255u8 {
        for v in 0..=max {
            if is_exact_half(v, max) {
                continue;
            }
            assert_eq!(Color::from_rgb(v, max, max).cmyk_text(), float_cmyk(v, max, max));
            assert_eq!(Color::from_rgb(max, v, max).cmyk_text(), float_cmyk(max, v, max));
            assert_eq!(Color::from_rgb(max, max, v).cmyk_text(), float_cmyk(max, max, v));
            compared += 1;
        }
    }
    assert_eq!(compared, 32896 - 300);
}

#[test]
fn opaque_colour_has_full_alpha() {
    assert_eq!(Color::from_rgb(1, 2, 3), Color { r: 1, g: 2, b: 3, a: 255 });
    assert_eq!(Color::red(), Color { r: 255, g: 0, b: 0, a: 255 });
    assert_eq!(Color::from_rgba(1, 2, 3, 4), Color { r: 1, g: 2, b: 3, a: 4 });
}

#[test]
fn the_palette_offers_eight_colours() {
    assert_eq!(
        colors(),
        [
            Color::from_rgb(255, 0, 0),
            Color::from_rgb(255, 255, 0),
            Color::from_rgb(0, 255, 0),
            Color::from_rgb(0, 255, 255),
            Color::from_rgb(0, 0, 255),
            Color::from_rgb(255, 0, 255),
            Color::from_rgb(255, 192, 203),
            Color::from_rgb(0, 0, 0),
        ]
    );
    assert_eq!(colors()[0], Color::red());
}

#[test]
fn the_palette_offers_five_stroke_widths() {
    assert_eq!(stroke_widths(), [1000, 2000, 3000, 5000, 8000]);
}
