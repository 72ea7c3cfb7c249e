use utmpx_codec::codec::{decode, encode, DecodeError};
use utmpx_codec::layout::{
    ADDR_OFFSET, EXIT_OFFSET, HOST_OFFSET, ID_OFFSET, LINE_OFFSET, PID_OFFSET, RECORD_WIDTH,
    SESSION_OFFSET, TV_OFFSET, TYPE_OFFSET, UNUSED_OFFSET, USER_OFFSET,
};

fn put(buf: &mut Vec<u8>, off: usize, bytes: &[u8]) {
    for (i, b) in bytes.iter().enumerate() {
        buf[off + i] = *b;
    }
}

fn sample_buffer() -> Vec<u8> {
    let mut buf = vec![0u8; RECORD_WIDTH];
    put(&mut buf, TYPE_OFFSET, &[0x34, 0x12]);
    put(&mut buf, PID_OFFSET, &[0x78, 0x56, 0x34, 0x12]);
    put(&mut buf, LINE_OFFSET, b"tty1");
    put(&mut buf, ID_OFFSET, b"1");
    put(&mut buf, USER_OFFSET, b"alice");
    put(&mut buf, HOST_OFFSET, b"example.com");
    put(&mut buf, EXIT_OFFSET, &[0x01, 0x00, 0x02, 0x00]);
    put(&mut buf, SESSION_OFFSET, &[0x05, 0x00, 0x00, 0x00]);
    put(&mut buf, TV_OFFSET, &[0x0A, 0x00, 0x00, 0x00, 0x0B, 0x00, 0x00, 0x00]);
    put(
        &mut buf,
        ADDR_OFFSET,
        &[
            0x01, 0x00, 0x00, 0x00, 0x02, 0x00, 0x00, 0x00, 0x03, 0x00, 0x00, 0x00, 0x04, 0x00,
            0x00, 0x00,
        ],
    );
    put(&mut buf, UNUSED_OFFSET, &[0xAA; 20]);
    buf
}

#[test]
fn record_width_matches_field_table() {
    assert_eq!(RECORD_WIDTH, 2 + 4 + 32 + 4 + 32 + 256 + 4 + 4 + 8 + 16 + 20);
    assert_eq!(RECORD_WIDTH, 382);
}

#[test]
fn decode_reads_every_field_at_its_offset() {
    let buf = sample_buffer();
    let rec = decode(&buf).unwrap();
    assert_eq!(rec.ut_type, 0x1234);
    assert_eq!(rec.ut_pid, 0x12345678);
    assert_eq!(&rec.ut_line[..4], b"tty1");
    assert!(rec.ut_line[4..].iter().all(|&b| b == 0));
    assert_eq!(&rec.ut_id[..1], b"1");
    assert_eq!(&rec.ut_user[..5], b"alice");
    assert_eq!(&rec.ut_host[..11], b"example.com");
    assert_eq!(rec.ut_exit.e_termination, 1);
    assert_eq!(rec.ut_exit.e_exit, 2);
    assert_eq!(rec.ut_session, 5);
    assert_eq!(rec.ut_tv.tv_sec, 10);
    assert_eq!(rec.ut_tv.tv_usec, 11);
    assert_eq!(rec.ut_addr_v6, vec![1, 2, 3, 4]);
    assert_eq!(rec.ut_reserved, vec![0xAA; 20]);
}

#[test]
fn decode_all_zero_buffer_succeeds() {
    let buf = vec![0u8; RECORD_WIDTH];
    let rec = decode(&buf).unwrap();
    assert_eq!(rec.ut_type, 0);
    assert_eq!(rec.ut_pid, 0);
    assert_eq!(rec.ut_line, vec![0u8; 32]);
    assert_eq!(rec.ut_addr_v6, vec![0, 0, 0, 0]);
    assert_eq!(rec.ut_reserved, vec![0u8; 20]);
}

#[test]
fn decode_negative_integers_little_endian() {
    let mut buf = vec![0u8; RECORD_WIDTH];
    put(&mut buf, TYPE_OFFSET, &[0xFE, 0xFF]);
    put(&mut buf, PID_OFFSET, &[0xFF, 0xFF, 0xFF, 0xFF]);
    put(&mut buf, EXIT_OFFSET, &[0x00, 0x80, 0xFF, 0x7F]);
    put(&mut buf, TV_OFFSET, &[0x00, 0x00, 0x00, 0x80]);
    let rec = decode(&buf).unwrap();
    assert_eq!(rec.ut_type, -2);
    assert_eq!(rec.ut_pid, -1);
    assert_eq!(rec.ut_exit.e_termination, i16::MIN);
    assert_eq!(rec.ut_exit.e_exit, i16::MAX);
    assert_eq!(rec.ut_tv.tv_sec, i32::MIN);
    assert_eq!(rec.ut_tv.tv_usec, 0);
}

#[test]
fn decode_rejects_short_buffer() {
    let buf = vec![0u8; RECORD_WIDTH - 1];
    assert_eq!(decode(&buf).unwrap_err(), DecodeError::Precondition);
}

#[test]
fn decode_rejects_long_buffer() {
    let buf = vec![0u8; RECORD_WIDTH + 1];
    assert_eq!(decode(&buf).unwrap_err(), DecodeError::Precondition);
}

#[test]
fn decode_rejects_empty_buffer() {
    let buf: Vec<u8> = Vec::new();
    assert_eq!(decode(&buf).unwrap_err(), DecodeError::Precondition);
}

#[test]
fn encode_then_decode_is_identity() {
    let buf = sample_buffer();
    let rec = decode(&buf).unwrap();
    let out = encode(&rec);
    assert_eq!(out, buf);
    let back = decode(&out).unwrap();
    assert_eq!(back.ut_type, rec.ut_type);
    assert_eq!(back.ut_pid, rec.ut_pid);
    assert_eq!(back.ut_line, rec.ut_line);
    assert_eq!(back.ut_id, rec.ut_id);
    assert_eq!(back.ut_user, rec.ut_user);
    assert_eq!(back.ut_host, rec.ut_host);
    assert_eq!(back.ut_exit, rec.ut_exit);
    assert_eq!(back.ut_session, rec.ut_session);
    assert_eq!(back.ut_tv, rec.ut_tv);
    assert_eq!(back.ut_addr_v6, rec.ut_addr_v6);
    assert_eq!(back.ut_reserved, rec.ut_reserved);
}

#[test]
fn encode_writes_every_field_at_its_offset() {
    let buf = sample_buffer();
    let rec = decode(&buf).unwrap();
    let out = encode(&rec);
    assert_eq!(out.len(), RECORD_WIDTH);
    assert_eq!(&out[TYPE_OFFSET..TYPE_OFFSET + 2], &[0x34, 0x12]);
    assert_eq!(&out[PID_OFFSET..PID_OFFSET + 4], &[0x78, 0x56, 0x34, 0x12]);
    assert_eq!(&out[LINE_OFFSET..LINE_OFFSET + 4], b"tty1");
    assert_eq!(&out[USER_OFFSET..USER_OFFSET + 5], b"alice");
    assert_eq!(&out[EXIT_OFFSET..EXIT_OFFSET + 4], &[0x01, 0x00, 0x02, 0x00]);
    assert_eq!(&out[UNUSED_OFFSET..], &[0xAA; 20][..]);
}
