use nettest::framer::{
    classify_message, decode, encode, exit_token_bytes, init_token_bytes, is_exit, is_init, FramerError,
    Message,
};

#[test]
fn encode_puts_sequence_big_endian_then_zeros() {
    let p = encode(0x0102_0304, 8).unwrap();
    assert_eq!(p, vec![1, 2, 3, 4, 0, 0, 0, 0]);
}

#[test]
fn encode_minimum_length() {
    assert_eq!(encode(0xDEAD_BEEF, 4).unwrap(), vec![0xDE, 0xAD, 0xBE, 0xEF]);
}

#[test]
fn encode_rejects_short_length() {
    assert_eq!(encode(7, 3), Err(FramerError::TooShort));
    assert_eq!(encode(7, 0), Err(FramerError::TooShort));
}

#[test]
fn decode_reads_first_four_bytes() {
    assert_eq!(decode(&[0, 0, 1, 0, 9, 9]), Ok(256));
    assert_eq!(decode(&[0xFF, 0xFF, 0xFF, 0xFF]), Ok(u32::MAX));
}

#[test]
fn decode_rejects_truncated() {
    assert_eq!(decode(&[1, 2, 3]), Err(FramerError::Truncated));
    assert_eq!(decode(&[]), Err(FramerError::Truncated));
}

#[test]
fn round_trip_across_wraparound() {
    for len in [4usize, 5, 64, 1500] {
        for seq in [0u32, 1, 2, 255, 256, 65_535, 0x7FFF_FFFF, 0xFFFF_FFFE, 0xFFFF_FFFF] {
            let p = encode(seq, len).unwrap();
            assert_eq!(p.len(), len);
            assert_eq!(decode(&p), Ok(seq));
        }
        let last = encode(u32::MAX, len).unwrap();
        let next = encode(u32::MAX.wrapping_add(1), len).unwrap();
        assert_eq!(decode(&last), Ok(0xFFFF_FFFF));
        assert_eq!(decode(&next), Ok(0));
    }
}

#[test]
fn control_tokens_are_literal_text() {
    assert_eq!(init_token_bytes(), b"Init\n".to_vec());
    assert_eq!(exit_token_bytes(), b"exit\n".to_vec());
    assert!(is_init(b"Init\n"));
    assert!(!is_init(b"Init"));
    assert!(!is_init(b"init\n"));
    assert!(is_exit(b"exit\n"));
    assert!(!is_exit(b"exit\n\n"));
}

#[test]
fn classify_checks_tokens_before_sequence() {
    assert_eq!(classify_message(b"Init\n"), Message::Init);
    assert_eq!(classify_message(b"exit\n"), Message::Exit);
    assert_eq!(classify_message(b"exit"), Message::Data(0x6578_6974));
    assert_eq!(classify_message(&[0, 0, 0, 9, 0]), Message::Data(9));
    assert_eq!(classify_message(&[1, 2]), Message::Short);
    assert_eq!(classify_message(&[]), Message::Short);
}

#[test]
fn data_packets_never_look_like_tokens() {
    for seq in [0x496E_6974u32, 0x6578_6974] {
        for len in [4usize, 5, 6] {
            let p = encode(seq, len).unwrap();
            assert_eq!(classify_message(&p), Message::Data(seq));
        }
    }
}
