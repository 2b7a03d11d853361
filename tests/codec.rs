use pn532::bits::reverse_bit;
use pn532::frame::{decode_response, encode_command, is_ack};
use pn532::transport::{
    is_ready, read_transfer, reply_of, status_transfer, swap_bit_order, write_transfer,
};

#[test]
fn reverse_bit_examples() {
    assert_eq!(reverse_bit(0b0000_0001), 0b1000_0000);
    assert_eq!(reverse_bit(0b1100_0000), 0b0000_0011);
    assert_eq!(reverse_bit(0xD4), 0x2B);
    assert_eq!(reverse_bit(0x00), 0x00);
    assert_eq!(reverse_bit(0xFF), 0xFF);
}

#[test]
fn reverse_bit_twice_is_identity() {
    for b in 0..=255u8 {
        assert_eq!(reverse_bit(reverse_bit(b)), b);
    }
}

#[test]
fn encode_sam_configuration_frame() {
    let frame = encode_command(0x14, &[0x01, 0x14, 0x01]);
    assert_eq!(
        frame,
        vec![0x00, 0x00, 0xFF, 0x05, 0xFB, 0xD4, 0x14, 0x01, 0x14, 0x01, 0x02, 0x00]
    );
}

#[test]
fn encode_without_params() {
    let frame = encode_command(0x02, &[]);
    assert_eq!(frame, vec![0x00, 0x00, 0xFF, 0x02, 0xFE, 0xD4, 0x02, 0x2A, 0x00]);
}

#[test]
fn encoded_checksums_cancel() {
    let params: Vec<u8> = (0..40u8).map(|i| i.wrapping_mul(37)).collect();
    let frame = encode_command(0x40, &params);
    assert_eq!(frame[3].wrapping_add(frame[4]), 0);
    let body_end = 5 + frame[3] as usize;
    let sum = frame[5..=body_end].iter().fold(0u8, |a, &b| a.wrapping_add(b));
    assert_eq!(sum, 0);
}

#[test]
fn encode_then_decode_round_trip() {
    let params = [0x01u8, 0x30, 0x08];
    let frame = encode_command(0x40, &params);
    assert_eq!(decode_response(&frame), Some(vec![0xD4, 0x40, 0x01, 0x30, 0x08]));
}

#[test]
fn decode_skips_zero_padding() {
    let raw = [0x00u8, 0x00, 0x00, 0xFF, 0x02, 0xFE, 0xD5, 0x15, 0x16, 0x00];
    assert_eq!(decode_response(&raw), Some(vec![0xD5, 0x15]));
}

#[test]
fn decode_rejects_bad_data_checksum() {
    let raw = [0x00u8, 0x00, 0xFF, 0x02, 0xFE, 0xD5, 0x15, 0x17, 0x00];
    assert_eq!(decode_response(&raw), None);
}

#[test]
fn decode_rejects_missing_start_code() {
    assert_eq!(decode_response(&[0x00, 0x00, 0x00, 0x00]), None);
    assert_eq!(decode_response(&[]), None);
    assert_eq!(decode_response(&[0x00, 0x01, 0x02, 0xFE, 0xD5, 0x15, 0x16]), None);
}

#[test]
fn decode_rejects_bad_length_checksum() {
    let raw = [0x00u8, 0x00, 0xFF, 0x02, 0xFD, 0xD5, 0x15, 0x16, 0x00];
    assert_eq!(decode_response(&raw), None);
}

#[test]
fn decode_rejects_truncated_frame() {
    assert_eq!(decode_response(&[0x00, 0xFF, 0x02]), None);
    assert_eq!(decode_response(&[0x00, 0xFF, 0x02, 0xFE, 0xD5, 0x15]), None);
}

#[test]
fn ack_pattern_recognised() {
    assert!(is_ack(&[0x00, 0x00, 0xFF, 0x00, 0xFF, 0x00]));
    assert!(!is_ack(&[0x00, 0x00, 0xFF, 0x00, 0xFF, 0x01]));
    assert!(!is_ack(&[0x00, 0x00, 0xFF, 0x00, 0xFF]));
}

#[test]
fn bus_requests_are_bit_reversed() {
    assert_eq!(swap_bit_order(&[0x01, 0x80, 0x0F]), vec![0x80, 0x01, 0xF0]);
    assert_eq!(read_transfer(2), vec![0xC0, 0x00, 0x00]);
    assert_eq!(status_transfer(), vec![0x40, 0x00]);
    assert_eq!(write_transfer(&[0xAA]), vec![0x80, 0x55]);
}

#[test]
fn bus_replies_are_corrected() {
    assert!(is_ready(&[0x00, 0x80]));
    assert!(!is_ready(&[0x00, 0x01]));
    assert!(!is_ready(&[0x80]));
    assert_eq!(reply_of(&[0xC0, 0x80, 0x01]), vec![0x01, 0x80]);
    assert_eq!(reply_of(&[]), Vec::<u8>::new());
}
