use cashcode::{DeviceState, Error, FailureCode, RejectReason};

#[test]
fn parse_idling() {
    let state = DeviceState::from_poll_data(&[0x14]).unwrap();

    assert_eq!(state, DeviceState::Idling);
    assert!(state.is_ready());
}

#[test]
fn parse_escrow_bill_type_5() {
    // device reports 1-based type 6 in byte[1] → 0-based type 5
    let state = DeviceState::from_poll_data(&[0x80, 0x06]).unwrap();

    assert_eq!(state, DeviceState::EscrowPosition { bill_type: 5 });
    assert!(state.is_escrow());
}

#[test]
fn parse_rejection_with_subreason() {
    let state = DeviceState::from_poll_data(&[0x1C, 0x60]).unwrap();

    assert_eq!(state, DeviceState::Rejecting(RejectReason::Insertion));
}

#[test]
fn parse_failure_with_subcode() {
    let state = DeviceState::from_poll_data(&[0x47, 0x43]).unwrap();

    assert_eq!(
        state,
        DeviceState::Failure(FailureCode::TransportMotorFailure)
    );
}

#[test]
fn parse_bill_stacked() {
    // device reports 1-based type 1 in byte[1] → 0-based type 0
    let state = DeviceState::from_poll_data(&[0x81, 0x01]).unwrap();

    assert_eq!(state, DeviceState::BillStacked { bill_type: 0 });
}

#[test]
fn unknown_status_is_error() {
    assert!(matches!(
        DeviceState::from_poll_data(&[0x20]),
        Err(Error::UnknownStatus(0x20))
    ));
}

#[test]
fn empty_poll_data_is_error() {
    assert!(matches!(
        DeviceState::from_poll_data(&[]),
        Err(Error::InvalidFrame("empty POLL response"))
    ));
}

#[test]
fn bill_returned_without_type_byte_is_zero() {
    // No second byte: the sub-code is taken as 0 and saturates at 0.
    let state = DeviceState::from_poll_data(&[0x82]).unwrap();
    assert_eq!(state, DeviceState::BillReturned { bill_type: 0 });
}

#[test]
fn rejection_without_subcode_is_unknown_zero() {
    let state = DeviceState::from_poll_data(&[0x1C]).unwrap();
    assert_eq!(state, DeviceState::Rejecting(RejectReason::Unknown(0)));
}

#[test]
fn reject_reason_codes() {
    assert_eq!(RejectReason::from_byte(0x66), RejectReason::Verification);
    assert_eq!(RejectReason::from_byte(0x6C), RejectReason::Length);
    assert_eq!(RejectReason::from_byte(0x92), RejectReason::Barcode);
    assert_eq!(RejectReason::from_byte(0x6B), RejectReason::Unknown(0x6B));
}

#[test]
fn failure_codes() {
    assert_eq!(FailureCode::from_byte(0x41), FailureCode::StackMotorFailure);
    assert_eq!(FailureCode::from_byte(0x48), FailureCode::CapacitanceCanal);
    assert_eq!(FailureCode::from_byte(0x50), FailureCode::Unknown(0x50));
}

#[test]
fn error_states() {
    for status in [0x41u8, 0x42, 0x43, 0x44, 0x45, 0x46, 0x47] {
        let state = DeviceState::from_poll_data(&[status, 0x41]).unwrap();
        assert!(state.is_error());
        assert!(!state.is_ready());
        assert!(!state.is_escrow());
    }
    for status in [0x10u8, 0x13, 0x14, 0x15, 0x19, 0x1B, 0x1C, 0x80, 0x81, 0x82] {
        let state = DeviceState::from_poll_data(&[status, 0x01]).unwrap();
        assert!(!state.is_error());
    }
}

#[test]
fn undefined_status_0x16_is_error() {
    assert!(matches!(
        DeviceState::from_poll_data(&[0x16]),
        Err(Error::UnknownStatus(0x16))
    ));
}
