use cashcode::purchase::{purchase_step, PurchaseStep};
use cashcode::constants::bill_types;
use cashcode::device::{ack_frame, ack_result, encode_command, poll_status_bytes, ready_step, ReadyStep};
use cashcode::receiver::FrameReceiver;
use cashcode::tools::format_to_hex;
use cashcode::{Command, DeviceState, Error, Frame, Identification};

#[test]
fn identification_parses_fields() {
    let mut data = Vec::new();
    data.extend_from_slice(b"SM-ABC\0");
    data.extend_from_slice(b"123456789012");
    data.extend_from_slice(b"A1\0\0\0\0\0");
    let id = Identification::from_response_data(&data).unwrap();
    assert_eq!(id.part_number, "SM-ABC");
    assert_eq!(id.serial_number, "123456789012");
    assert_eq!(id.asset_number, "A1");
}

#[test]
fn identification_too_short() {
    assert!(matches!(
        Identification::from_response_data(&[0u8; 25]),
        Err(Error::InvalidFrame("IDENTIFICATION response too short"))
    ));
}

#[test]
fn identification_lossy_and_inner_nul_kept() {
    let mut data = vec![0u8; 26];
    data[0] = 0xFF;
    data[1] = b'X';
    data[7] = b'a';
    data[8] = 0;
    data[9] = b'b';
    let id = Identification::from_response_data(&data).unwrap();
    assert_eq!(id.part_number, "\u{FFFD}X");
    assert_eq!(id.serial_number, "a\0b");
    assert_eq!(id.asset_number, "");
}

#[test]
fn command_frames() {
    assert_eq!(encode_command(&Command::Poll), vec![0x02, 0x03, 0x06, 0x33, 0xDA, 0x81]);
    assert_eq!(encode_command(&Command::Identification), vec![0x02, 0x03, 0x06, 0x37, 0xFE, 0xC7]);
    let ack = ack_frame();
    assert_eq!(ack, Frame::new(vec![0x00]).encode());
    assert_eq!(ack[3], 0x00);
}

#[test]
fn ack_results() {
    assert!(ack_result(&[0x00]).is_ok());
    assert!(matches!(ack_result(&[0xFF]), Err(Error::Nak)));
    assert!(ack_result(&[0x14, 0x00]).is_ok());
    assert!(ack_result(&[]).is_ok());
}

#[test]
fn ready_steps() {
    assert_eq!(ready_step(&DeviceState::Idling), ReadyStep::Ready);
    assert_eq!(ready_step(&DeviceState::UnitDisabled), ReadyStep::KeepWaiting);
    assert_eq!(ready_step(&DeviceState::Initializing), ReadyStep::AdvanceInitialization);
    assert_eq!(ready_step(&DeviceState::PowerUp), ReadyStep::KeepWaiting);
    assert_eq!(ready_step(&DeviceState::Busy), ReadyStep::KeepWaiting);
    assert_eq!(ready_step(&DeviceState::CassetteFull), ReadyStep::Fault);
    assert_eq!(ready_step(&DeviceState::Accepting), ReadyStep::KeepWaiting);
}

fn receive_all(rx: &mut FrameReceiver, bytes: &[u8]) -> Vec<Result<Frame, Error>> {
    let mut out = Vec::new();
    for &b in bytes {
        if let Some(r) = rx.feed(b) {
            out.push(r);
        }
    }
    out
}

#[test]
fn receiver_skips_noise() {
    let mut rx = FrameReceiver::new();
    assert!(rx.is_hunting());
    assert_eq!(rx.bytes_wanted(), 1);
    let mut bytes = vec![0x55, 0xAA, 0x00];
    bytes.extend(Frame::new(vec![0x14]).encode());
    let out = receive_all(&mut rx, &bytes);
    assert_eq!(out.len(), 1);
    let frame = out.into_iter().next().unwrap().unwrap();
    assert_eq!(frame.data, vec![0x14]);
    assert!(rx.is_hunting());
}

#[test]
fn receiver_wanted_counts() {
    let mut rx = FrameReceiver::new();
    let bytes = Frame::new(vec![1, 2, 3]).encode();
    assert!(rx.feed(bytes[0]).is_none());
    assert_eq!(rx.bytes_wanted(), 2);
    assert!(rx.feed(bytes[1]).is_none());
    assert_eq!(rx.bytes_wanted(), 1);
    assert!(rx.feed(bytes[2]).is_none());
    assert_eq!(rx.bytes_wanted(), bytes.len() - 3);
}

#[test]
fn receiver_rejects_small_lng() {
    let mut rx = FrameReceiver::new();
    assert!(rx.feed(0x02).is_none());
    assert!(rx.feed(0x03).is_none());
    assert!(matches!(
        rx.feed(0x05),
        Some(Err(Error::InvalidFrame("LNG < 6 in received frame")))
    ));
    assert!(rx.is_hunting());
}

#[test]
fn receiver_reports_crc_mismatch() {
    let mut rx = FrameReceiver::new();
    let mut bytes = Frame::new(vec![0x33]).encode();
    bytes[5] ^= 0x01;
    let out = receive_all(&mut rx, &bytes);
    assert!(matches!(out[0], Err(Error::CrcMismatch { .. })));
}

#[test]
fn bill_type_values() {
    assert_eq!(bill_types(0), 1);
    assert_eq!(bill_types(1), 0);
    assert_eq!(bill_types(2), 5);
    assert_eq!(bill_types(3), 10);
    assert_eq!(bill_types(4), 20);
    assert_eq!(bill_types(5), 50);
    assert_eq!(bill_types(6), 100);
    assert_eq!(bill_types(7), 0);
}

#[test]
fn hex_formatting() {
    assert_eq!(format_to_hex(&[0x02, 0x0A, 0x33, 0xFF, 0x00]), vec!["2", "A", "33", "FF", "0"]);
}

#[test]
fn poll_status_bytes_after_header() {
    assert_eq!(poll_status_bytes(&[0x02, 0x03, 0x07, 0x80, 0x03, 0x11, 0x22]), [0x80, 0x03]);
}

#[test]
fn purchase_steps() {
    assert_eq!(purchase_step([0x13, 0x00]), PurchaseStep::SetSecurity);
    assert_eq!(purchase_step([0x80, 0x05]), PurchaseStep::ReturnAndCount { amount: 50 });
    assert_eq!(purchase_step([0x80, 0x01]), PurchaseStep::ReturnAndCount { amount: 0 });
    assert_eq!(purchase_step([0x1C, 0x66]), PurchaseStep::VerificationError);
    assert_eq!(purchase_step([0x1C, 0x60]), PurchaseStep::OtherRejection);
    assert_eq!(purchase_step([0x14, 0x00]), PurchaseStep::Other);
}
