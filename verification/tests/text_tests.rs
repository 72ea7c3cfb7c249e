use utmpx_codec::codec::decode;
use utmpx_codec::layout::{RECORD_WIDTH, USER_OFFSET, USER_WIDTH};
use utmpx_codec::text::extract_text;

#[test]
fn extract_stops_at_first_zero() {
    let mut field = b"root".to_vec();
    field.extend(std::iter::repeat(0u8).take(28));
    assert_eq!(field.len(), 32);
    assert_eq!(extract_text(&field), "root");
}

#[test]
fn extract_takes_whole_array_without_zero() {
    let field = vec![b'x'; 32];
    assert_eq!(extract_text(&field), "x".repeat(32));
}

#[test]
fn extract_of_leading_zero_is_empty() {
    let mut field = vec![0u8; 32];
    field[1] = b'a';
    assert_eq!(extract_text(&field), "");
}

#[test]
fn extract_ignores_bytes_after_first_zero() {
    let mut field = b"ab".to_vec();
    field.push(0);
    field.extend_from_slice(b"cd");
    field.push(0);
    field.extend_from_slice(&[0u8; 26]);
    assert_eq!(field.len(), 32);
    assert_eq!(extract_text(&field), "ab");
}

#[test]
fn extract_replaces_invalid_utf8() {
    let field = vec![0xFF, 0x80, b'a'];
    assert_eq!(extract_text(&field), "\u{FFFD}\u{FFFD}a");
}

#[test]
fn extract_of_empty_field_is_empty() {
    let field: Vec<u8> = Vec::new();
    assert_eq!(extract_text(&field), "");
}

#[test]
fn user_field_decodes_to_root() {
    let mut buf = vec![0u8; RECORD_WIDTH];
    buf[USER_OFFSET..USER_OFFSET + 4].copy_from_slice(b"root");
    let rec = decode(&buf).unwrap();
    assert_eq!(rec.ut_user.len(), USER_WIDTH);
    assert_eq!(rec.get_ut_user(), "root");
    assert_eq!(extract_text(&rec.ut_user), "root");
}

#[test]
fn user_field_without_zero_uses_full_width() {
    let mut buf = vec![0u8; RECORD_WIDTH];
    for i in 0..USER_WIDTH {
        buf[USER_OFFSET + i] = b'u';
    }
    let rec = decode(&buf).unwrap();
    assert_eq!(rec.get_ut_user(), "u".repeat(USER_WIDTH));
}
