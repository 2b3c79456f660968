use parquet_scan::cursor::Cursor;
use parquet_scan::cursor_read_string_ext::{
    hex_byte, hex_char_to_digit, is_control_ascii, unescape, BufferReadStringExt, ReadError,
    ReadErrorKind,
};

fn quoted(input: &[u8], quota: u8) -> (Result<(), ReadError>, Vec<u8>, usize) {
    let mut cursor = Cursor::new(input.to_vec());
    let mut buf = Vec::new();
    let r = cursor.read_quoted_text(&mut buf, quota);
    (r, buf, cursor.position())
}

fn escaped(input: &[u8]) -> (Result<(), ReadError>, Vec<u8>, usize) {
    let mut cursor = Cursor::new(input.to_vec());
    let mut buf = Vec::new();
    let r = cursor.read_escaped_string_text(&mut buf);
    (r, buf, cursor.position())
}

#[test]
fn quoted_text_is_read_up_to_the_closing_quote() {
    let (r, buf, pos) = quoted(b"'hello' world", b'\'');
    assert_eq!(r, Ok(()));
    assert_eq!(buf, b"hello".to_vec());
    assert_eq!(pos, 7);
}

#[test]
fn quoted_text_may_be_empty() {
    let (r, buf, pos) = quoted(b"''", b'\'');
    assert_eq!(r, Ok(()));
    assert_eq!(buf, Vec::<u8>::new());
    assert_eq!(pos, 2);
}

#[test]
fn quoted_text_is_appended_to_the_buffer() {
    let mut cursor = Cursor::new(b"\"b\"".to_vec());
    let mut buf = b"a".to_vec();
    assert_eq!(cursor.read_quoted_text(&mut buf, b'"'), Ok(()));
    assert_eq!(buf, b"ab".to_vec());
    assert_eq!(cursor.remaining_len(), 0);
}

#[test]
fn quoted_text_replaces_named_escapes() {
    let (r, buf, pos) = quoted(b"'a\\nb\\tc\\rd\\0e\\'f\\\\g\\\"h'", b'\'');
    assert_eq!(r, Ok(()));
    assert_eq!(buf, b"a\nb\tc\rd\0e'f\\g\"h".to_vec());
    assert_eq!(pos, 24);
}

#[test]
fn quoted_text_keeps_unknown_escapes() {
    let (r, buf, _) = quoted(b"'a\\qb\\xc'", b'\'');
    assert_eq!(r, Ok(()));
    assert_eq!(buf, b"a\\qb\\xc".to_vec());
}

#[test]
fn quoted_text_needs_its_opening_quote() {
    let (r, buf, pos) = quoted(b"hello'", b'\'');
    assert_eq!(r, Err(ReadError::ExpectedByte(b'\'')));
    assert_eq!(buf, Vec::<u8>::new());
    assert_eq!(pos, 0);
    let (r, _, pos) = quoted(b"", b'\'');
    assert_eq!(r, Err(ReadError::ExpectedByte(b'\'')));
    assert_eq!(pos, 0);
}

#[test]
fn quoted_text_needs_its_closing_quote() {
    let (r, buf, pos) = quoted(b"'hello", b'\'');
    assert_eq!(r, Err(ReadError::UnterminatedQuote(b'\'')));
    assert_eq!(buf, b"hello".to_vec());
    assert_eq!(pos, 6);
}

#[test]
fn quoted_text_may_not_end_in_a_backslash() {
    let (r, buf, pos) = quoted(b"'ab\\", b'\'');
    assert_eq!(r, Err(ReadError::UnterminatedEscape));
    assert_eq!(buf, b"ab".to_vec());
    assert_eq!(pos, 4);
}

#[test]
fn an_escaped_quote_does_not_close_the_text() {
    let (r, buf, pos) = quoted(b"\"a\\\"b\"c", b'"');
    assert_eq!(r, Ok(()));
    assert_eq!(buf, b"a\"b".to_vec());
    assert_eq!(pos, 6);
}

#[test]
fn escaped_text_stops_before_a_tab_or_a_line_feed() {
    let (r, buf, pos) = escaped(b"abc\tdef");
    assert_eq!(r, Ok(()));
    assert_eq!(buf, b"abc".to_vec());
    assert_eq!(pos, 3);
    let (r, buf, pos) = escaped(b"ab\ncd");
    assert_eq!(r, Ok(()));
    assert_eq!(buf, b"ab".to_vec());
    assert_eq!(pos, 2);
    let (r, buf, pos) = escaped(b"abcd");
    assert_eq!(r, Ok(()));
    assert_eq!(buf, b"abcd".to_vec());
    assert_eq!(pos, 4);
}

#[test]
fn escaped_text_of_nothing_is_nothing() {
    let (r, buf, pos) = escaped(b"");
    assert_eq!(r, Ok(()));
    assert_eq!(buf, Vec::<u8>::new());
    assert_eq!(pos, 0);
}

#[test]
fn escaped_text_unwraps_quotes_and_slashes() {
    let (r, buf, pos) = escaped(b"a\\'b\\\"c\\\\d\\/e\\`f");
    assert_eq!(r, Ok(()));
    assert_eq!(buf, b"a'b\"c\\d/e`f".to_vec());
    assert_eq!(pos, 16);
}

#[test]
fn escaped_text_drops_the_null_marker() {
    let (r, buf, pos) = escaped(b"a\\Nb");
    assert_eq!(r, Ok(()));
    assert_eq!(buf, b"ab".to_vec());
    assert_eq!(pos, 4);
}

#[test]
fn escaped_text_reads_hexadecimal_bytes() {
    let (r, buf, pos) = escaped(b"\\x41\\x4a\\x7F.");
    assert_eq!(r, Ok(()));
    assert_eq!(buf, vec![0x41, 0x4a, 0x7f, b'.']);
    assert_eq!(pos, 13);
}

#[test]
fn escaped_text_wraps_what_is_no_hexadecimal_digit() {
    let (r, buf, _) = escaped(b"\\xZZ");
    assert_eq!(r, Ok(()));
    assert_eq!(buf, vec![0xef]);
    let (r, buf, _) = escaped(b"\\x1Z");
    assert_eq!(r, Ok(()));
    assert_eq!(buf, vec![0x0f]);
}

#[test]
fn escaped_text_turns_letters_into_control_characters() {
    let (r, buf, _) = escaped(b"\\a\\b\\v\\f\\e\\n\\r\\t\\0");
    assert_eq!(r, Ok(()));
    assert_eq!(buf, vec![0x07, 0x08, 0x0b, 0x0c, 0x1b, 0x0a, 0x0d, 0x09, 0x00]);
}

#[test]
fn escaped_text_keeps_the_backslash_before_other_bytes() {
    let (r, buf, pos) = escaped(b"a\\qb\\%");
    assert_eq!(r, Ok(()));
    assert_eq!(buf, b"a\\qb\\%".to_vec());
    assert_eq!(pos, 6);
}

#[test]
fn escaped_text_may_not_end_in_a_backslash() {
    let (r, buf, pos) = escaped(b"ab\\");
    assert_eq!(r, Err(ReadError::UnexpectedEof));
    assert_eq!(buf, b"ab".to_vec());
    assert_eq!(pos, 3);
}

#[test]
fn a_cut_hexadecimal_escape_takes_the_rest_of_the_input() {
    let (r, buf, pos) = escaped(b"ab\\x4");
    assert_eq!(r, Err(ReadError::UnexpectedEof));
    assert_eq!(buf, b"ab".to_vec());
    assert_eq!(pos, 5);
    let (r, _, pos) = escaped(b"\\x");
    assert_eq!(r, Err(ReadError::UnexpectedEof));
    assert_eq!(pos, 2);
}

#[test]
fn two_texts_are_read_one_after_the_other() {
    let mut cursor = Cursor::new(b"'a' 'b'".to_vec());
    let mut buf = Vec::new();
    assert_eq!(cursor.read_quoted_text(&mut buf, b'\''), Ok(()));
    assert!(cursor.ignore_byte(b' '));
    assert_eq!(cursor.read_quoted_text(&mut buf, b'\''), Ok(()));
    assert_eq!(buf, b"ab".to_vec());
    assert_eq!(cursor.position(), 7);
    assert_eq!(cursor.peek(0), None);
}

#[test]
fn unescape_knows_nine_letters() {
    assert_eq!(unescape(b'a'), 0x07);
    assert_eq!(unescape(b'b'), 0x08);
    assert_eq!(unescape(b'v'), 0x0b);
    assert_eq!(unescape(b'f'), 0x0c);
    assert_eq!(unescape(b'e'), 0x1b);
    assert_eq!(unescape(b'n'), b'\n');
    assert_eq!(unescape(b'r'), b'\r');
    assert_eq!(unescape(b't'), b'\t');
    assert_eq!(unescape(b'0'), 0);
    assert_eq!(unescape(b'q'), b'q');
    assert_eq!(unescape(0xff), 0xff);
}

#[test]
fn control_characters_end_at_31() {
    assert!(is_control_ascii(0));
    assert!(is_control_ascii(31));
    assert!(!is_control_ascii(32));
    assert!(!is_control_ascii(255));
}

#[test]
fn hexadecimal_digits_have_their_values() {
    assert_eq!(hex_char_to_digit(b'0'), 0);
    assert_eq!(hex_char_to_digit(b'9'), 9);
    assert_eq!(hex_char_to_digit(b'a'), 10);
    assert_eq!(hex_char_to_digit(b'f'), 15);
    assert_eq!(hex_char_to_digit(b'A'), 10);
    assert_eq!(hex_char_to_digit(b'F'), 15);
    assert_eq!(hex_char_to_digit(b'g'), 0xff);
    assert_eq!(hex_char_to_digit(b'G'), 0xff);
    assert_eq!(hex_char_to_digit(b'/'), 0xff);
    assert_eq!(hex_char_to_digit(b':'), 0xff);
    assert_eq!(hex_byte(b'f', b'F'), 0xff);
    assert_eq!(hex_byte(b'0', b'0'), 0x00);
    assert_eq!(hex_byte(b'3', b'c'), 0x3c);
}

#[test]
fn read_errors_fall_into_two_classes() {
    assert_eq!(ReadError::ExpectedByte(b'"').kind(), ReadErrorKind::InvalidData);
    assert_eq!(ReadError::UnterminatedEscape.kind(), ReadErrorKind::InvalidData);
    assert_eq!(ReadError::UnterminatedQuote(b'"').kind(), ReadErrorKind::InvalidData);
    assert_eq!(ReadError::UnexpectedEof.kind(), ReadErrorKind::UnexpectedEof);
}

#[test]
fn a_cursor_moves_only_forward_through_its_bytes() {
    let mut cursor = Cursor::new(b"abc".to_vec());
    assert_eq!(cursor.position(), 0);
    assert_eq!(cursor.remaining_len(), 3);
    assert_eq!(cursor.peek(0), Some(b'a'));
    assert_eq!(cursor.peek(2), Some(b'c'));
    assert_eq!(cursor.peek(3), None);
    assert!(!cursor.ignore_byte(b'b'));
    assert_eq!(cursor.position(), 0);
    assert!(cursor.ignore_byte(b'a'));
    assert_eq!(cursor.position(), 1);
    cursor.consume(2);
    assert_eq!(cursor.remaining_len(), 0);
    assert!(!cursor.ignore_byte(b'c'));
}
