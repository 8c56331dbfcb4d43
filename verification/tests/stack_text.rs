use ps2_keyboard::stack_text::{is_printable, render_stack_line};

#[test]
fn printable_range_is_space_through_tilde() {
    assert!(!is_printable(0x00));
    assert!(!is_printable(0x1F));
    assert!(is_printable(0x20));
    assert!(is_printable(b'a'));
    assert!(is_printable(0x7E));
    assert!(!is_printable(0x7F));
    assert!(!is_printable(0xFF));
}

#[test]
fn dump_line_shows_printable_bytes_and_dots() {
    let bytes: [u8; 16] = [
        0x00, b'H', b'e', b'l', b'l', b'o', 0x0A, 0x1F, b' ', b'~', 0x7F, 0xFF, b'4', b'2', 0x01,
        0x80,
    ];
    let line = render_stack_line(&bytes);
    let expected = vec![
        '.', 'H', 'e', 'l', 'l', 'o', '.', '.', ' ', '~', '.', '.', '4', '2', '.', '.',
    ];
    assert_eq!(line, expected);
}
