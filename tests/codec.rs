use sm_contract::codec::{decode_u16_le, encode_u16_le};

#[test]
fn decode_reads_low_byte_first() {
    assert_eq!(decode_u16_le(&[0x05, 0x00]), Some(5));
    assert_eq!(decode_u16_le(&[0x34, 0x12]), Some(0x1234));
    assert_eq!(decode_u16_le(&[0xff, 0xff]), Some(u16::MAX));
}

#[test]
fn decode_ignores_bytes_after_the_second() {
    assert_eq!(decode_u16_le(&[0x01, 0x02, 0x03, 0x04]), Some(0x0201));
}

#[test]
fn decode_rejects_short_messages() {
    assert_eq!(decode_u16_le(&[]), None);
    assert_eq!(decode_u16_le(&[0x07]), None);
}

#[test]
fn encode_writes_low_byte_first() {
    assert_eq!(encode_u16_le(0x1234), vec![0x34, 0x12]);
    assert_eq!(encode_u16_le(0), vec![0, 0]);
    assert_eq!(encode_u16_le(u16::MAX), vec![0xff, 0xff]);
}

#[test]
fn decode_then_encode_round_trips() {
    for v in [0u16, 1, 5, 255, 256, 0x1234, 40000, u16::MAX] {
        assert_eq!(decode_u16_le(&encode_u16_le(v)), Some(v));
    }
    let msg = [0x9a, 0x78];
    assert_eq!(encode_u16_le(decode_u16_le(&msg).unwrap()), msg.to_vec());
}
