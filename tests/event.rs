use keylogger::event::{
    decode, encode, is_key_event, is_key_press, is_key_release, is_shift, DecodeError,
    InputEvent, EVENT_SIZE,
};

#[test]
fn short_buffer_is_short_read() {
    for len in [0usize, 1, 16, 23] {
        let buf = vec![0u8; len];
        assert_eq!(decode(&buf), Err(DecodeError::ShortRead));
    }
}

#[test]
fn long_buffer_is_short_read() {
    let buf = vec![0u8; 25];
    assert_eq!(decode(&buf), Err(DecodeError::ShortRead));
}

#[test]
fn decode_reads_little_endian_fields() {
    let mut buf = vec![0u8; EVENT_SIZE];
    buf[0] = 0x01;
    buf[1] = 0x02;
    buf[8] = 0xff;
    buf[15] = 0x00;
    buf[16] = 0x01;
    buf[18] = 0x10;
    buf[20] = 0x01;
    let e = decode(&buf).unwrap();
    assert_eq!(e, InputEvent { tv_sec: 0x0201, tv_usec: 0xff, type_: 1, code: 16, value: 1 });
}

#[test]
fn decode_reads_negative_values() {
    let buf = vec![0xffu8; EVENT_SIZE];
    let e = decode(&buf).unwrap();
    assert_eq!(e, InputEvent { tv_sec: -1, tv_usec: -1, type_: 0xffff, code: 0xffff, value: -1 });
}

#[test]
fn encode_writes_kernel_layout() {
    let e = InputEvent { tv_sec: 0x0102030405060708, tv_usec: -2, type_: 1, code: 0x1234, value: 2 };
    let expected: Vec<u8> = vec![
        8, 7, 6, 5, 4, 3, 2, 1, 0xfe, 0xff, 0xff, 0xff, 0xff, 0xff, 0xff, 0xff, 1, 0, 0x34, 0x12,
        2, 0, 0, 0,
    ];
    assert_eq!(encode(&e), expected);
}

#[test]
fn decode_inverts_encode() {
    for code in 0u16..112 {
        for value in [0i32, 1] {
            let e = InputEvent { tv_sec: 1_700_000_000 + code as i64, tv_usec: 999_999, type_: 1, code, value };
            assert_eq!(decode(&encode(&e)), Ok(e));
        }
    }
    let extreme = InputEvent { tv_sec: i64::MIN, tv_usec: i64::MAX, type_: u16::MAX, code: 0, value: i32::MIN };
    assert_eq!(decode(&encode(&extreme)), Ok(extreme));
}

#[test]
fn encode_inverts_decode() {
    let buf: Vec<u8> = (0u8..24).map(|b| b.wrapping_mul(37)).collect();
    let e = decode(&buf).unwrap();
    assert_eq!(encode(&e), buf);
}

#[test]
fn classifiers() {
    assert!(is_shift(42));
    assert!(is_shift(54));
    assert!(!is_shift(43));
    assert!(!is_shift(16));
    assert!(is_key_event(1));
    assert!(!is_key_event(0));
    assert!(is_key_press(1));
    assert!(!is_key_press(2));
    assert!(is_key_release(0));
    assert!(!is_key_release(1));
}
