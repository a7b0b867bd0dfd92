//! Tests of the character-cell writer: cursor movement, line wrap,
//! scrolling and glyph rendering.

use rain_os::vga_buffer::Color;
use rain_os::vga_buffer::ColorCode;
use rain_os::vga_buffer::Writer;
use rain_os::vga_buffer::BUFFER_HEIGHT;
use rain_os::vga_buffer::BUFFER_WIDTH;

fn yellow_on_black() -> ColorCode {
    ColorCode::new(Color::Yellow, Color::Black)
}

#[test]
fn color_code_packs_background_and_foreground() {
    assert_eq!(ColorCode::new(Color::Yellow, Color::Black).0, 14);
    assert_eq!(ColorCode::new(Color::Black, Color::White).0, 0xf0);
    assert_eq!(ColorCode::new(Color::LightGray, Color::Blue).0, 0x17);
    assert_eq!(ColorCode::new(Color::White, Color::White).0, 0xff);
}

#[test]
fn color_values_are_the_sixteen_standard_ones() {
    assert_eq!(Color::Black.value(), 0);
    assert_eq!(Color::Cyan.value(), 3);
    assert_eq!(Color::Yellow.value(), 14);
    assert_eq!(Color::White.value(), 15);
}

#[test]
fn writer_starts_blank_at_column_zero() {
    let w = Writer::new(yellow_on_black());
    assert_eq!(w.column(), 0);
    for row in 0..BUFFER_HEIGHT {
        for col in 0..BUFFER_WIDTH {
            assert_eq!(w.char_at(row, col), b' ');
        }
    }
}

#[test]
fn write_byte_lands_at_the_cursor_in_the_bottom_row() {
    let mut w = Writer::new(yellow_on_black());
    w.write_byte(b'a');
    assert_eq!(w.char_at(BUFFER_HEIGHT - 1, 0), b'a');
    assert_eq!(w.column(), 1);
    w.write_byte(b'b');
    assert_eq!(w.char_at(BUFFER_HEIGHT - 1, 1), b'b');
    assert_eq!(w.column(), 2);
}

#[test]
fn newline_scrolls_one_row_up() {
    let mut w = Writer::new(yellow_on_black());
    w.write_byte(b'a');
    w.write_byte(b'b');
    w.write_byte(b'\n');
    assert_eq!(w.char_at(BUFFER_HEIGHT - 2, 0), b'a');
    assert_eq!(w.char_at(BUFFER_HEIGHT - 2, 1), b'b');
    assert_eq!(w.char_at(BUFFER_HEIGHT - 1, 0), b' ');
    assert_eq!(w.column(), 0);
}

#[test]
fn full_row_wraps_before_the_next_byte() {
    let mut w = Writer::new(yellow_on_black());
    for _ in 0..BUFFER_WIDTH {
        w.write_byte(b'x');
    }
    assert_eq!(w.column(), BUFFER_WIDTH);
    w.write_byte(b'y');
    assert_eq!(w.column(), 1);
    assert_eq!(w.char_at(BUFFER_HEIGHT - 2, 0), b'x');
    assert_eq!(w.char_at(BUFFER_HEIGHT - 2, BUFFER_WIDTH - 1), b'x');
    assert_eq!(w.char_at(BUFFER_HEIGHT - 1, 0), b'y');
}

#[test]
fn unprintable_characters_become_the_block_glyph() {
    let mut w = Writer::new(yellow_on_black());
    w.write_string("a\u{20ac}b");
    assert_eq!(w.char_at(BUFFER_HEIGHT - 1, 0), b'a');
    assert_eq!(w.char_at(BUFFER_HEIGHT - 1, 1), 0xfe);
    assert_eq!(w.char_at(BUFFER_HEIGHT - 1, 2), b'b');
}

#[test]
fn test_println_simple() {
    let mut w = Writer::new(yellow_on_black());
    w.write_string("test_println_simple output\n");
    let expected = "test_println_simple output";
    for (i, byte) in expected.bytes().enumerate() {
        assert_eq!(w.char_at(BUFFER_HEIGHT - 2, i), byte);
    }
}

#[test]
fn test_println_many() {
    let mut w = Writer::new(yellow_on_black());
    for _ in 0..200 {
        w.write_string("test_println_many output\n");
    }
    let expected = "test_println_many output";
    for (i, byte) in expected.bytes().enumerate() {
        assert_eq!(w.char_at(BUFFER_HEIGHT - 2, i), byte);
    }
}

#[test]
fn test_println_output() {
    let mut w = Writer::new(yellow_on_black());
    let s = "Some test string that fits on a single line";
    w.write_string("\n");
    w.write_string(s);
    w.write_string("\n");
    for (i, c) in s.chars().enumerate() {
        let screen_char = w.char_at(BUFFER_HEIGHT - 2, i);
        assert_eq!(char::from(screen_char), c);
    }
}
