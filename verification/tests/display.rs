use rustemu86::display::{get_child_position, Color, ScreenChar, VgaTextBuffer, VgaTextMode};

#[test]
fn create_screen_char() {
    let data: u16 = (Color::Blue as u16) << 12 | (Color::White as u16) << 8 | 'a' as u16;
    let decoded = ScreenChar::from(data);

    assert_eq!(decoded.ascii_character, 'a' as u8);
    assert_eq!(decoded.background, Color::Blue);
    assert_eq!(decoded.foreground, Color::White);
}

#[test]
fn color_names() {
    assert_eq!(Color::LightRed.name(), "red");
    assert_eq!(Color::LightGray.name(), "lightgray");
    assert_eq!(Color::White.name(), "white");
    assert_eq!(Color::from_u8(15), Some(Color::White));
    assert_eq!(Color::from_u8(16), None);
}

#[test]
fn set_color_and_ascii() {
    let mut c = ScreenChar::from(0);
    c.set_ascii(b'z');
    c.set_color(0x4e);
    assert_eq!(c.ascii_character, b'z');
    assert_eq!(c.background, Color::Red);
    assert_eq!(c.foreground, Color::Yellow);
}

#[test]
fn child_position_row_is_truncated_to_i32() {
    assert_eq!(get_child_position(usize::MAX), (-1717986919, 47));
}

#[test]
fn child_positions() {
    assert_eq!(get_child_position(0), (0, 0));
    assert_eq!(get_child_position(2), (0, 1));
    assert_eq!(get_child_position(160), (1, 0));
    assert_eq!(get_child_position(3998), (24, 79));
}

#[test]
fn text_buffer_write_then_read() {
    let mut screen = VgaTextBuffer::new();
    screen.write_u16(2 * (3 * 80 + 7), 0x0242);
    assert_eq!(screen.char_at(3, 7), ScreenChar::from(0x0242));
    assert_eq!(screen.char_at(3, 6).ascii_character, b' ');
    // Byte writes and writes past the last cell change nothing.
    screen.write_u8(0, b'x');
    screen.write_u16(4000, 0x0243);
    assert_eq!(screen.char_at(0, 0).ascii_character, b' ');
}
