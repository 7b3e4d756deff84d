use kernel_core::vga::{is_printable, vga_char, Color, Cursor, Monitor, COLUMNS, ROWS};

fn blank(bg: Color, fg: Color) -> u16 {
    vga_char(b' ', bg, fg)
}

#[test]
fn vga_char_packs_byte_and_colours() {
    assert_eq!(vga_char(b'A', Color::Black, Color::White), 0x0f41);
    assert_eq!(vga_char(b'A', Color::Blue, Color::LightRed), 0x1c41);
    assert_eq!(vga_char(0xfe, Color::White, Color::Black), 0xf0fe);
    assert_eq!(vga_char(0, Color::Black, Color::Black), 0);
}

#[test]
fn printable_range() {
    assert!(!is_printable(31));
    assert!(is_printable(32));
    assert!(is_printable(b'~'));
    assert!(!is_printable(127));
    assert!(!is_printable(0xfe));
}

#[test]
fn cursor_index_is_row_major() {
    assert_eq!(Cursor { x: 0, y: 0 }.to_array_index(), 0);
    assert_eq!(Cursor { x: 5, y: 2 }.to_array_index(), 165);
    assert_eq!(Cursor { x: 79, y: 24 }.to_array_index(), 1999);
}

#[test]
fn new_console_is_blank() {
    let m = Monitor::new(Color::Blue, Color::Yellow);
    for r in 0..ROWS {
        for c in 0..COLUMNS {
            assert_eq!(m.cell(r, c), blank(Color::Blue, Color::Yellow));
        }
    }
    assert_eq!(m.cursor_index(), 0);
}

#[test]
fn bytes_are_written_at_the_cursor() {
    let mut m = Monitor::new(Color::Black, Color::White);
    m.write_str("Hi");
    assert_eq!(m.cell(0, 0), 0x0f48);
    assert_eq!(m.cell(0, 1), 0x0f69);
    assert_eq!(m.cell(0, 2), blank(Color::Black, Color::White));
    assert_eq!(m.cursor_index(), 2);
}

#[test]
fn colours_apply_to_later_writes() {
    let mut m = Monitor::new(Color::Black, Color::White);
    m.write_byte(b'a');
    m.set_background_color(&Color::Red);
    m.set_foreground_color(&Color::Green);
    m.write_byte(b'b');
    assert_eq!(m.cell(0, 0), vga_char(b'a', Color::Black, Color::White));
    assert_eq!(m.cell(0, 1), vga_char(b'b', Color::Red, Color::Green));
}

#[test]
fn unprintable_bytes_show_as_square() {
    let mut m = Monitor::new(Color::Black, Color::White);
    m.write_byte(0x01);
    m.write_byte(0xc3);
    assert_eq!(m.cell(0, 0), vga_char(0xfe, Color::Black, Color::White));
    assert_eq!(m.cell(0, 1), vga_char(0xfe, Color::Black, Color::White));
}

#[test]
fn control_bytes_move_the_cursor() {
    let mut m = Monitor::new(Color::Black, Color::White);
    m.write_str("abc");
    m.write_byte(b'\r');
    assert_eq!(m.cursor_index(), 0);
    m.write_str("xy\n");
    assert_eq!(m.cursor_index(), COLUMNS);
    assert_eq!(m.cell(0, 0), vga_char(b'x', Color::Black, Color::White));
    assert_eq!(m.cell(0, 2), vga_char(b'c', Color::Black, Color::White));
    m.write_byte(0x08);
    assert_eq!(m.cursor_index(), COLUMNS);
    m.write_str("abc");
    m.write_byte(0x08);
    assert_eq!(m.cursor_index(), COLUMNS + 2);
    m.write_byte(b'\t');
    assert_eq!(m.cursor_index(), COLUMNS + 24);
    m.write_byte(b'\r');
    m.write_byte(b'\t');
    assert_eq!(m.cursor_index(), COLUMNS + 8);
}

#[test]
fn long_rows_wrap() {
    let mut m = Monitor::new(Color::Black, Color::White);
    for _ in 0..COLUMNS {
        m.write_byte(b'z');
    }
    assert_eq!(m.cursor_index(), COLUMNS);
    m.write_byte(b'q');
    assert_eq!(m.cell(1, 0), vga_char(b'q', Color::Black, Color::White));
}

#[test]
fn leaving_the_last_row_scrolls() {
    let mut m = Monitor::new(Color::Black, Color::White);
    m.write_str("top\nsecond");
    for _ in 0..(ROWS - 2) {
        m.write_byte(b'\n');
    }
    assert_eq!(m.cursor_index(), (ROWS - 1) * COLUMNS);
    m.write_str("last");
    m.write_byte(b'\n');
    assert_eq!(m.cursor_index(), (ROWS - 1) * COLUMNS);
    assert_eq!(m.cell(0, 0), vga_char(b's', Color::Black, Color::White));
    assert_eq!(m.cell(ROWS - 2, 0), vga_char(b'l', Color::Black, Color::White));
    assert_eq!(m.cell(ROWS - 1, 0), blank(Color::Black, Color::White));
}

#[test]
fn clear_blanks_and_homes() {
    let mut m = Monitor::new(Color::Black, Color::White);
    m.write_str("some text\nmore");
    m.set_background_color(&Color::Cyan);
    m.clear();
    assert_eq!(m.cursor_index(), 0);
    for r in 0..ROWS {
        for c in 0..COLUMNS {
            assert_eq!(m.cell(r, c), blank(Color::Cyan, Color::White));
        }
    }
}
