use tetris_core::vga_buffer::{
    change_color, clear_screen, sanitize, Buffer, Color, ColorCode, ScreenChar, Writer,
    BUFFER_HEIGHT, BUFFER_WIDTH, FALLBACK_GLYPH, ROW_OFFSET,
};
use volatile::Volatile;

const WHITE_ON_BLACK: ColorCode = ColorCode(0x0f);

/// A device in ordinary memory, every cell holding the two bytes given.
fn device(glyph: u8, attr: u8) -> &'static mut Buffer {
    let cells: Buffer =
        core::array::from_fn(|_| core::array::from_fn(|_| Volatile::new([glyph, attr])));
    Box::leak(Box::new(cells))
}

fn writer() -> Writer {
    Writer::new(device(0, 0))
}

fn cell(glyph: u8, color_code: ColorCode) -> ScreenChar {
    ScreenChar { ascii_character: glyph, color_code }
}

fn blank() -> ScreenChar {
    cell(b' ', WHITE_ON_BLACK)
}

fn shadow(w: &Writer, row: usize, col: usize) -> ScreenChar {
    w.shadow_cell(row, col).unwrap()
}

fn shown(w: &Writer, row: usize, col: usize) -> ScreenChar {
    w.device_cell(row, col).unwrap()
}

fn assert_shadow_blank_except(w: &Writer, kept: &[(usize, usize)]) {
    for row in 0..BUFFER_HEIGHT {
        for col in 0..BUFFER_WIDTH {
            if !kept.contains(&(row, col)) {
                assert_eq!(shadow(w, row, col), blank(), "row {row}, column {col}");
            }
        }
    }
}

const ALL_COLORS: [Color; 16] = [
    Color::Black,
    Color::Blue,
    Color::Green,
    Color::Cyan,
    Color::Red,
    Color::Magenta,
    Color::Brown,
    Color::LightGray,
    Color::DarkGray,
    Color::LightBlue,
    Color::LightGreen,
    Color::LightCyan,
    Color::LightRed,
    Color::Pink,
    Color::Yellow,
    Color::White,
];

#[test]
fn color_indices_follow_the_palette() {
    for (expected, color) in ALL_COLORS.iter().enumerate() {
        assert_eq!(color.index() as usize, expected);
    }
}

#[test]
fn color_code_packs_background_above_foreground() {
    assert_eq!(ColorCode::new(Color::White, Color::Black), ColorCode(0x0f));
    assert_eq!(ColorCode::new(Color::Black, Color::White), ColorCode(0xf0));
    assert_eq!(ColorCode::new(Color::Yellow, Color::Blue), ColorCode(0x1e));
    assert_eq!(ColorCode::new(Color::LightRed, Color::DarkGray), ColorCode(0x8c));
}

#[test]
fn color_code_unpacks_to_the_colors_it_was_made_from() {
    for fg in ALL_COLORS {
        for bg in ALL_COLORS {
            let code = ColorCode::new(fg, bg).0;
            assert_eq!(code & 0x0f, fg.index());
            assert_eq!(code >> 4, bg.index());
        }
    }
}

#[test]
fn sanitize_keeps_displayable_bytes_and_replaces_the_rest() {
    for byte in 0..=255u8 {
        let displayable =
            (0x20..=0x7e).contains(&byte) || byte == b'\n' || byte == 0xdb || byte == 0xb0;
        let expected = if displayable { byte } else { 0xfe };
        assert_eq!(sanitize(byte), expected, "byte {byte:#04x}");
    }
    assert_eq!(FALLBACK_GLYPH, 0xfe);
    assert_eq!(sanitize(0x1f), 0xfe);
    assert_eq!(sanitize(0x20), 0x20);
    assert_eq!(sanitize(0x7e), 0x7e);
    assert_eq!(sanitize(0x7f), 0xfe);
    assert_eq!(sanitize(0xfe), 0xfe);
}

#[test]
fn every_single_byte_is_written_as_itself_or_as_the_fallback() {
    for byte in 0..=255u8 {
        let mut w = writer();
        w.write_bytes(&[byte]);
        if byte == b'\n' {
            assert_eq!(w.column_position(), 0);
            assert_shadow_blank_except(&w, &[]);
            continue;
        }
        let displayable = (0x20..=0x7e).contains(&byte) || byte == 0xdb || byte == 0xb0;
        let expected = if displayable { byte } else { 0xfe };
        assert_eq!(shadow(&w, BUFFER_HEIGHT - 1, 0), cell(expected, WHITE_ON_BLACK));
        assert_eq!(w.column_position(), 1);
        assert_eq!(w.row_position(), BUFFER_HEIGHT - 1);
        if expected != b' ' {
            assert_shadow_blank_except(&w, &[(BUFFER_HEIGHT - 1, 0)]);
        }
    }
}

#[test]
fn new_writer_is_blank_white_on_black_on_the_last_row() {
    let w = Writer::new(device(b'#', 0x4e));
    assert_eq!(w.column_position(), 0);
    assert_eq!(w.row_position(), 24);
    assert_eq!(w.color_code(), ColorCode(0x0f));
    assert_shadow_blank_except(&w, &[]);
    // The device is not touched before the first flush.
    for row in 0..BUFFER_HEIGHT {
        for col in 0..BUFFER_WIDTH {
            assert_eq!(shown(&w, row, col), cell(b'#', ColorCode(0x4e)));
        }
    }
}

#[test]
fn cells_outside_the_grid_are_not_there() {
    let w = writer();
    assert_eq!(w.shadow_cell(BUFFER_HEIGHT, 0), None);
    assert_eq!(w.shadow_cell(0, BUFFER_WIDTH), None);
    assert_eq!(w.device_cell(BUFFER_HEIGHT, 0), None);
    assert_eq!(w.device_cell(0, BUFFER_WIDTH), None);
    assert_eq!(w.shadow_cell(24, 79), Some(blank()));
    assert_eq!(w.device_cell(24, 79), Some(cell(0, ColorCode(0))));
}

#[test]
fn write_byte_stores_the_byte_unsanitized_and_advances() {
    let mut w = writer();
    w.write_byte(0x01);
    w.write_byte(b'A');
    assert_eq!(shadow(&w, 24, 0), cell(0x01, WHITE_ON_BLACK));
    assert_eq!(shadow(&w, 24, 1), cell(b'A', WHITE_ON_BLACK));
    assert_eq!(w.column_position(), 2);
    assert_eq!(w.row_position(), 24);
    assert_shadow_blank_except(&w, &[(24, 0), (24, 1)]);
}

#[test]
fn write_string_passes_ascii_and_box_glyphs_are_kept_by_write_bytes() {
    let mut w = writer();
    w.write_string("Hi ~");
    w.write_bytes(&[0xdb, 0xb0, 0x00, 0x7f, 0xff]);
    let expected = [b'H', b'i', b' ', b'~', 0xdb, 0xb0, 0xfe, 0xfe, 0xfe];
    for (col, glyph) in expected.iter().enumerate() {
        assert_eq!(shadow(&w, 24, col), cell(*glyph, WHITE_ON_BLACK));
    }
    assert_eq!(w.column_position(), expected.len());
}

#[test]
fn write_string_replaces_each_byte_of_a_multibyte_character() {
    let mut w = writer();
    w.write_string("a\u{e9}b");
    assert_eq!(shadow(&w, 24, 0).ascii_character, b'a');
    assert_eq!(shadow(&w, 24, 1).ascii_character, 0xfe);
    assert_eq!(shadow(&w, 24, 2).ascii_character, 0xfe);
    assert_eq!(shadow(&w, 24, 3).ascii_character, b'b');
    assert_eq!(w.column_position(), 4);
}

#[test]
fn newline_scrolls_every_row_up_and_clears_the_last() {
    let mut w = writer();
    w.write_string("one\ntwo\nthree");
    assert_eq!(shadow(&w, 22, 0).ascii_character, b'o');
    assert_eq!(shadow(&w, 22, 2).ascii_character, b'e');
    assert_eq!(shadow(&w, 22, 3), blank());
    assert_eq!(shadow(&w, 23, 0).ascii_character, b't');
    assert_eq!(shadow(&w, 23, 2).ascii_character, b'o');
    assert_eq!(shadow(&w, 24, 4).ascii_character, b'e');
    assert_eq!(w.column_position(), 5);
    assert_eq!(w.row_position(), 24);
    w.write_byte(b'\n');
    assert_eq!(shadow(&w, 21, 0).ascii_character, b'o');
    assert_eq!(shadow(&w, 23, 4).ascii_character, b'e');
    for col in 0..BUFFER_WIDTH {
        assert_eq!(shadow(&w, 24, col), blank());
    }
    assert_eq!(w.column_position(), 0);
}

#[test]
fn a_full_line_scrolls_before_the_next_glyph() {
    let mut w = writer();
    for i in 0..BUFFER_WIDTH {
        w.write_byte(b'a' + (i % 26) as u8);
    }
    // The line is full, but nothing scrolls until another glyph arrives.
    assert_eq!(w.column_position(), BUFFER_WIDTH);
    assert_eq!(shadow(&w, 24, 79).ascii_character, b'a' + (79 % 26) as u8);
    assert_eq!(shadow(&w, 23, 0), blank());
    w.write_byte(b'Z');
    assert_eq!(w.column_position(), 1);
    assert_eq!(shadow(&w, 24, 0).ascii_character, b'Z');
    assert_eq!(shadow(&w, 24, 1), blank());
    for col in 0..BUFFER_WIDTH {
        assert_eq!(shadow(&w, 23, col).ascii_character, b'a' + (col % 26) as u8);
    }
}

#[test]
fn a_screen_of_newlines_then_a_glyph_leaves_only_that_glyph() {
    let mut w = writer();
    w.write_string("some text\nthat will scroll away");
    for _ in 0..BUFFER_HEIGHT {
        w.write_string("\n");
    }
    w.write_string("X");
    assert_eq!(shadow(&w, BUFFER_HEIGHT - 1, 0), cell(b'X', WHITE_ON_BLACK));
    assert_shadow_blank_except(&w, &[(BUFFER_HEIGHT - 1, 0)]);
    assert_eq!(w.column_position(), 1);
    assert_eq!(w.row_position(), BUFFER_HEIGHT - 1);
}

#[test]
fn flush_makes_the_device_show_the_shadow_grid() {
    let mut w = Writer::new(device(b'?', 0x70));
    w.write_string("ready");
    assert_eq!(shown(&w, 24, 0), cell(b'?', ColorCode(0x70)));
    w.flush();
    for row in 0..BUFFER_HEIGHT {
        for col in 0..BUFFER_WIDTH {
            assert_eq!(shown(&w, row, col), shadow(&w, row, col));
        }
    }
    assert_eq!(shown(&w, 24, 4), cell(b'y', WHITE_ON_BLACK));
    assert_eq!(shown(&w, 0, 0), blank());
    assert_eq!(w.column_position(), 5);
}

#[test]
fn flushing_twice_shows_the_same_as_flushing_once() {
    let mut w = writer();
    w.write_string("frame");
    w.flush();
    let mut first = Vec::new();
    for row in 0..BUFFER_HEIGHT {
        for col in 0..BUFFER_WIDTH {
            first.push(shown(&w, row, col));
        }
    }
    w.flush();
    let mut second = Vec::new();
    for row in 0..BUFFER_HEIGHT {
        for col in 0..BUFFER_WIDTH {
            second.push(shown(&w, row, col));
        }
    }
    assert_eq!(first, second);
    assert_eq!(second[24 * BUFFER_WIDTH], cell(b'f', WHITE_ON_BLACK));
}

#[test]
fn writes_after_a_flush_stay_in_the_shadow_grid_until_the_next() {
    let mut w = writer();
    w.flush();
    w.write_byte(b'!');
    assert_eq!(shadow(&w, 24, 0).ascii_character, b'!');
    assert_eq!(shown(&w, 24, 0), blank());
    w.flush();
    assert_eq!(shown(&w, 24, 0).ascii_character, b'!');
}

#[test]
fn move_to_refuses_positions_beyond_the_grid() {
    let mut w = writer();
    w.write_string("ab");
    assert_eq!(w.move_to(BUFFER_WIDTH, 0), None);
    assert_eq!((w.column_position(), w.row_position()), (2, 24));
    assert_eq!(w.move_to(0, BUFFER_HEIGHT), None);
    assert_eq!((w.column_position(), w.row_position()), (2, 24));
    assert_eq!(w.move_to(BUFFER_WIDTH, BUFFER_HEIGHT), None);
    assert_eq!(w.move_to(usize::MAX, usize::MAX), None);
    assert_eq!((w.column_position(), w.row_position()), (2, 24));
}

#[test]
fn move_to_accepts_the_corner_and_stores_the_row_with_its_offset() {
    let mut w = writer();
    assert_eq!(w.move_to(0, 0), Some(()));
    assert_eq!((w.column_position(), w.row_position()), (0, 2));
    assert_eq!(ROW_OFFSET, 2);
    assert_eq!(w.move_to(79, 24), Some(()));
    assert_eq!((w.column_position(), w.row_position()), (79, 26));
    assert_eq!(w.move_to(7, 10), Some(()));
    w.write_string("go");
    assert_eq!(shadow(&w, 12, 7).ascii_character, b'g');
    assert_eq!(shadow(&w, 12, 8).ascii_character, b'o');
    assert_shadow_blank_except(&w, &[(12, 7), (12, 8)]);
}

#[test]
fn a_newline_below_the_grid_still_scrolls() {
    let mut w = writer();
    w.write_string("x");
    assert_eq!(w.move_to(5, 24), Some(()));
    w.write_string("\n");
    assert_eq!(shadow(&w, 23, 0).ascii_character, b'x');
    assert_eq!((w.column_position(), w.row_position()), (0, 26));
}

#[test]
fn change_color_sets_the_foreground_on_black() {
    let mut w = writer();
    w.write_byte(b'a');
    change_color(&mut w, Color::LightGreen);
    assert_eq!(w.color_code(), ColorCode(0x0a));
    w.write_byte(b'b');
    assert_eq!(shadow(&w, 24, 0), cell(b'a', ColorCode(0x0f)));
    assert_eq!(shadow(&w, 24, 1), cell(b'b', ColorCode(0x0a)));
    w.write_byte(b'\n');
    assert_eq!(shadow(&w, 24, 0), cell(b' ', ColorCode(0x0a)));
    assert_eq!(shadow(&w, 23, 2), cell(b' ', ColorCode(0x0f)));
}

#[test]
fn set_color_code_sets_both_halves_of_the_attribute() {
    let mut w = writer();
    w.set_color_code(ColorCode::new(Color::Black, Color::LightGray));
    assert_eq!(w.color_code(), ColorCode(0x70));
    w.write_byte(b'i');
    assert_eq!(shadow(&w, 24, 0), cell(b'i', ColorCode(0x70)));
    assert_eq!(shadow(&w, 24, 1), blank());
    assert_eq!((w.column_position(), w.row_position()), (1, 24));
}

#[test]
fn clear_screen_blanks_shadow_and_device() {
    let mut w = Writer::new(device(b'@', 0x21));
    w.write_string("left over");
    change_color(&mut w, Color::Cyan);
    clear_screen(&mut w);
    for row in 0..BUFFER_HEIGHT {
        for col in 0..BUFFER_WIDTH {
            assert_eq!(shadow(&w, row, col), cell(b' ', ColorCode(0x03)));
            assert_eq!(shown(&w, row, col), cell(b' ', ColorCode(0x03)));
        }
    }
    assert_eq!((w.column_position(), w.row_position()), (0, 24));
}
