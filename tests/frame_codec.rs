use online_filter::frame::{
    decode_frame, decode_frequency, encode_frame, is_sentinel, sentinel_frame, sync_marker,
    BAUD_RATE, SENTINEL_BITS,
};

#[test]
fn encode_one_as_little_endian() {
    assert_eq!(encode_frame(1.0f32.to_bits()), [0x00, 0x00, 0x80, 0x3F]);
    assert_eq!(encode_frame(1.0f32.to_bits()), 1.0f32.to_le_bytes());
}

#[test]
fn encode_negative_sample() {
    assert_eq!(encode_frame((-2.5f32).to_bits()), (-2.5f32).to_le_bytes());
    assert_eq!(encode_frame(0x0102_0304), [0x04, 0x03, 0x02, 0x01]);
}

#[test]
fn decode_inverts_encode() {
    for x in [0u32, 1, 0xFF, 0x1234_5678, u32::MAX, 0.75f32.to_bits()] {
        assert_eq!(decode_frame(encode_frame(x)), x);
    }
    assert_eq!(f32::from_bits(decode_frame([0x00, 0x00, 0x40, 0x40])), 3.0f32);
}

#[test]
fn sentinel_is_quiet_nan() {
    assert_eq!(SENTINEL_BITS, 0x7FC0_0000);
    assert_eq!(sentinel_frame(), [0x00, 0x00, 0xC0, 0x7F]);
    assert!(f32::from_bits(decode_frame(sentinel_frame())).is_nan());
}

#[test]
fn sentinel_detection() {
    assert!(is_sentinel([0x00, 0x00, 0xC0, 0x7F]));
    assert!(!is_sentinel([0x00, 0x00, 0x80, 0x3F]));
    assert!(!is_sentinel([0x7F, 0xC0, 0x00, 0x00]));
    assert!(!is_sentinel([0x01, 0x00, 0xC0, 0x7F]));
}

#[test]
fn sync_marker_is_syn_nul() {
    assert_eq!(&sync_marker(), b"SYN\x00");
}

#[test]
fn frequency_reply_is_little_endian() {
    assert_eq!(decode_frequency([0x10, 0x27, 0x00, 0x00]), 10_000);
    assert_eq!(decode_frequency([0xE8, 0x03, 0x00, 0x00]), 1_000);
    assert_eq!(decode_frequency([0x00, 0x00, 0x00, 0x01]), 0x0100_0000);
    assert_eq!(BAUD_RATE, 115_200);
}
