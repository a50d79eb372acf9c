use cashcode::command::{ENABLE_BILL_TYPES, POLL, SET_SECURITY};
use cashcode::{BillMask, Command, SecurityLevel};

#[test]
fn bill_mask_single() {
    let mask = BillMask::single(0);
    assert!(mask.is_enabled(0));
    assert!(!mask.is_enabled(1));
    assert_eq!(mask.0[0], 0x01);
}

#[test]
fn bill_mask_all_enabled() {
    let mask = BillMask::all();
    for i in 0..48u8 {
        assert!(mask.is_enabled(i));
    }
}

#[test]
fn enable_bill_types_data_len() {
    let data = Command::EnableBillTypes(BillMask::all()).to_data();
    assert_eq!(data.len(), 7); // 1 cmd byte + 6 mask bytes
    assert_eq!(data[0], 0x34);
}

#[test]
fn bill_mask_single_only_its_bit() {
    for i in 0..48u8 {
        let mask = BillMask::single(i);
        for j in 0..48u8 {
            assert_eq!(mask.is_enabled(j), i == j);
        }
    }
}

#[test]
fn bill_mask_single_high_index() {
    let mask = BillMask::single(47);
    assert_eq!(mask.0, [0, 0, 0, 0, 0, 0x80]);
}

#[test]
fn bill_mask_none_disabled() {
    let mask = BillMask::none();
    for i in 0..48u8 {
        assert!(!mask.is_enabled(i));
    }
}

#[test]
fn bill_mask_default_is_all() {
    assert_eq!(BillMask::default(), BillMask::all());
}

#[test]
fn command_codes() {
    assert_eq!(Command::Reset.to_data(), vec![0x30]);
    assert_eq!(Command::GetStatus.to_data(), vec![0x31]);
    assert_eq!(Command::Poll.to_data(), vec![POLL]);
    assert_eq!(Command::Stack.to_data(), vec![0x35]);
    assert_eq!(Command::Return.to_data(), vec![0x36]);
    assert_eq!(Command::Identification.to_data(), vec![0x37]);
    assert_eq!(Command::Hold.to_data(), vec![0x38]);
    assert_eq!(Command::GetBillTable.to_data(), vec![0x41]);
    assert_eq!(Command::GetCrc32.to_data(), vec![0x51]);
    assert_eq!(Command::RequestStatistics.to_data(), vec![0x60]);
}

#[test]
fn set_security_data() {
    assert_eq!(Command::SetSecurity(SecurityLevel::Low).to_data(), vec![SET_SECURITY, 0x00]);
    assert_eq!(Command::SetSecurity(SecurityLevel::Normal).to_data(), vec![SET_SECURITY, 0x01]);
    assert_eq!(Command::SetSecurity(SecurityLevel::High).to_data(), vec![SET_SECURITY, 0x02]);
    assert_eq!(Command::SetSecurity(SecurityLevel::VeryHigh).to_data(), vec![SET_SECURITY, 0x03]);
}

#[test]
fn enable_bill_types_carries_mask() {
    let mask = BillMask([1, 2, 3, 4, 5, 6]);
    assert_eq!(
        Command::EnableBillTypes(mask).to_data(),
        vec![ENABLE_BILL_TYPES, 1, 2, 3, 4, 5, 6]
    );
}
