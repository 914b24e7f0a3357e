use swatch::color::{light_colors, standard_colors, Color};
use swatch::render::{block_chars, final_format, get_color, get_line};
use termion::{color, style};

const BLOCK_CHARS: &str = "   ";

#[test]
fn test_get_color() {
    {
        let mut s = String::new();
        s.push_str(color::Red.bg_str());
        s.push_str(BLOCK_CHARS);
        assert_eq!(get_color(Color::Red), s);
    }
    {
        let mut s = String::new();
        s.push_str(color::Blue.bg_str());
        s.push_str(BLOCK_CHARS);
        assert_eq!(get_color(Color::Blue), s);
    }
    {
        let mut s = String::new();
        s.push_str(color::Green.bg_str());
        s.push_str(BLOCK_CHARS);
        assert_eq!(get_color(Color::Green), s);
    }
}

#[test]
fn test_get_line() {
    let mut s = String::new();
    s.push_str(color::Red.bg_str());
    s.push_str(BLOCK_CHARS);
    assert_eq!(get_line(&vec![Color::Red]), s);
    s.push_str(color::Yellow.bg_str());
    s.push_str(BLOCK_CHARS);
    assert_eq!(get_line(&vec![Color::Red, Color::Yellow]), s);
    s.push_str(color::Cyan.bg_str());
    s.push_str(BLOCK_CHARS);
    assert_eq!(get_line(&vec![Color::Red, Color::Yellow, Color::Cyan]), s);
}

#[test]
fn test_final_format() {
    let reset: &str = style::Reset.as_ref();
    let mut s = String::new();
    s.push_str(BLOCK_CHARS);

    s.push_str(color::Red.bg_str());
    s.push_str(BLOCK_CHARS);

    let mut s1 = s.clone();
    s1.push_str(reset);
    assert_eq!(final_format(vec![Color::Red]), s1);

    s.push_str(color::Yellow.bg_str());
    s.push_str(BLOCK_CHARS);

    let mut s2 = s.clone();
    s2.push_str(reset);
    assert_eq!(final_format(vec![Color::Red, Color::Yellow]), s2);

    s.push_str(color::Cyan.bg_str());
    s.push_str(BLOCK_CHARS);

    let mut s3 = s.clone();
    s3.push_str(reset);
    assert_eq!(
        final_format(vec![Color::Red, Color::Yellow, Color::Cyan]),
        s3
    );
}

#[test]
fn test_block_chars_is_three_spaces() {
    assert_eq!(block_chars(), "   ");
}

#[test]
fn test_block_is_escape_then_three_spaces() {
    // The block for a color is exactly the background escape plus "   ".
    assert_eq!(get_color(Color::Green), "\u{1b}[48;5;2m   ");
    assert_eq!(get_color(Color::LightWhite), "\u{1b}[48;5;15m   ");
}

#[test]
fn test_line_is_concatenation_of_blocks() {
    let line = get_line(&vec![Color::Black, Color::LightBlue]);
    let blocks = format!("{}{}", get_color(Color::Black), get_color(Color::LightBlue));
    assert_eq!(line, blocks);
}

#[test]
fn test_empty_line_is_empty() {
    assert_eq!(get_line(&vec![]), "");
}

#[test]
fn test_padded_line_of_empty_sequence() {
    // Three spaces of padding, no blocks, then the reset.
    assert_eq!(final_format(vec![]), "   \u{1b}[m");
}

#[test]
fn test_padded_line_of_single_red() {
    assert_eq!(final_format(vec![Color::Red]), "   \u{1b}[48;5;1m   \u{1b}[m");
}

#[test]
fn test_padded_line_of_standard_colors() {
    let mut expected = String::from("   ");
    for code in 0..8 {
        expected.push_str(&format!("\u{1b}[48;5;{}m   ", code));
    }
    expected.push_str("\u{1b}[m");
    assert_eq!(final_format(standard_colors()), expected);
}

#[test]
fn test_padded_line_of_light_colors() {
    let mut expected = String::from("   ");
    for code in 8..16 {
        expected.push_str(&format!("\u{1b}[48;5;{}m   ", code));
    }
    expected.push_str("\u{1b}[m");
    assert_eq!(final_format(light_colors()), expected);
}

#[test]
fn test_rendering_is_idempotent() {
    let cs = vec![Color::Magenta, Color::Cyan, Color::LightYellow];
    assert_eq!(get_color(Color::Magenta), get_color(Color::Magenta));
    assert_eq!(get_line(&cs), get_line(&cs));
    assert_eq!(final_format(cs.clone()), final_format(cs));
}

#[test]
fn test_every_padded_line_ends_with_reset() {
    let reset: &str = style::Reset.as_ref();
    assert!(final_format(vec![]).ends_with(reset));
    assert!(final_format(vec![Color::White]).ends_with(reset));
    assert!(final_format(standard_colors()).ends_with(reset));
    assert!(final_format(light_colors()).ends_with(reset));
}
