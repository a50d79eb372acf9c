use cashcode::frame::{ACK, DEFAULT_ADDR, NAK, SYNC};
use cashcode::{crc16, Error, Frame};

#[test]
fn encode_decode_roundtrip() {
    let sent = Frame::new(vec![0x33]); // POLL command
    let encoded = sent.encode();
    let decoded = Frame::decode(&encoded).expect("decode failed");
    assert_eq!(decoded.addr, DEFAULT_ADDR);
    assert_eq!(decoded.data, vec![0x33]);
}

#[test]
fn encode_sets_correct_lng() {
    // POLL: 1 data byte → LNG = 1 + 5 = 6
    let frame = Frame::new(vec![0x33]);
    let encoded = frame.encode();
    assert_eq!(encoded[2], 6);
}

#[test]
fn decode_rejects_bad_crc() {
    let mut encoded = Frame::new(vec![0x33]).encode();
    let last = encoded.len() - 1;
    encoded[last] ^= 0xFF; // corrupt the CRC high byte
    assert!(matches!(
        Frame::decode(&encoded),
        Err(Error::CrcMismatch { .. })
    ));
}

#[test]
fn decode_rejects_bad_sync() {
    let mut encoded = Frame::new(vec![0x33]).encode();
    encoded[0] = 0x00;
    assert!(matches!(
        Frame::decode(&encoded),
        Err(Error::InvalidFrame(_))
    ));
}

#[test]
fn crc16_known_value() {
    // CRC-KERMIT over empty slice with init 0x0000 should give 0x0000
    assert_eq!(crc16(&[]), 0x0000);
    // IDENTIFICATION frame [02 03 06 37] → CRC = 0xC7FE (transmitted FE C7)
    assert_eq!(crc16(&[0x02, 0x03, 0x06, 0x37]), 0xC7FE);
}

#[test]
fn crc16_check_value() {
    // The standard check value of CRC-16/KERMIT over "123456789".
    assert_eq!(crc16(b"123456789"), 0x2189);
}

#[test]
fn encode_exact_bytes() {
    let encoded = Frame::new(vec![0x37]).encode();
    assert_eq!(encoded, vec![SYNC, 0x03, 0x06, 0x37, 0xFE, 0xC7]);
}

#[test]
fn encode_keeps_address() {
    let frame = Frame { addr: 0x11, data: vec![1, 2, 3] };
    let decoded = Frame::decode(&frame.encode()).unwrap();
    assert_eq!(decoded.addr, 0x11);
    assert_eq!(decoded.data, vec![1, 2, 3]);
}

#[test]
fn decode_ignores_trailing_bytes() {
    let mut encoded = Frame::new(vec![0x14, 0x00]).encode();
    let frame_len = encoded.len();
    encoded.extend_from_slice(&[0xAA, 0xBB]);
    let decoded = Frame::decode(&encoded).unwrap();
    assert_eq!(decoded.data, vec![0x14, 0x00]);
    // Re-encoding the decoded frame gives back the frame's bytes.
    assert_eq!(decoded.encode(), encoded[..frame_len].to_vec());
}

#[test]
fn decode_rejects_short_buffer() {
    assert!(matches!(
        Frame::decode(&[SYNC, 0x03, 0x06, 0x33, 0x00]),
        Err(Error::InvalidFrame("frame shorter than minimum 6 bytes"))
    ));
}

#[test]
fn decode_rejects_small_lng() {
    assert!(matches!(
        Frame::decode(&[SYNC, 0x03, 0x05, 0x33, 0x00, 0x00]),
        Err(Error::InvalidFrame("LNG field is below minimum (6)"))
    ));
}

#[test]
fn decode_rejects_truncated_frame() {
    let encoded = Frame::new(vec![1, 2, 3, 4]).encode();
    assert!(matches!(
        Frame::decode(&encoded[..encoded.len() - 1]),
        Err(Error::InvalidFrame("buffer shorter than LNG field indicates"))
    ));
}

#[test]
fn decode_reports_both_checksums() {
    let mut encoded = Frame::new(vec![0x33]).encode();
    encoded[4] = 0x00;
    encoded[5] = 0x00;
    let expected = crc16(&encoded[..4]);
    match Frame::decode(&encoded) {
        Err(Error::CrcMismatch { expected: e, actual: a }) => {
            assert_eq!(e, expected);
            assert_eq!(a, 0x0000);
        }
        other => panic!("unexpected {:?}", other),
    }
}

#[test]
fn empty_payload_does_not_roundtrip() {
    // A frame with no DATA encodes to 5 bytes, below the decoder's minimum.
    let encoded = Frame::new(vec![]).encode();
    assert_eq!(encoded.len(), 5);
    assert!(Frame::decode(&encoded).is_err());
}

#[test]
fn ack_and_nak_values() {
    assert_eq!(ACK, 0x00);
    assert_eq!(NAK, 0xFF);
}

#[test]
fn every_single_byte_corruption_rejected() {
    let encoded = Frame::new(vec![0x34, 0xFF, 0x00, 0x10, 0x20, 0x30, 0x40]).encode();
    for i in (0..encoded.len()).filter(|&i| i != 2) {
        for v in 0..=255u8 {
            if v == encoded[i] {
                continue;
            }
            let mut bad = encoded.clone();
            bad[i] = v;
            assert!(Frame::decode(&bad).is_err(), "byte {} set to {:#04x} accepted", i, v);
        }
    }
}

#[test]
fn corrupted_lng_can_frame_a_shorter_payload() {
    // A changed LNG byte is the one single-byte corruption the checksum
    // does not always catch: here it yields a shorter, well-formed frame.
    let mut encoded = Frame::new(vec![0x78, 0x6A, 0x25, 0xD2, 0x58]).encode();
    encoded[2] = 8;
    let decoded = Frame::decode(&encoded).unwrap();
    assert_eq!(decoded.data, vec![0x78, 0x6A, 0x25]);
}

#[test]
fn encoded_frame_has_zero_residue() {
    for data in [vec![0x33], vec![], vec![0x34, 0xFF, 0xFF, 0xFF, 0xFF, 0xFF, 0xFF], vec![7u8; 250]] {
        assert_eq!(crc16(&Frame::new(data).encode()), 0);
    }
}
