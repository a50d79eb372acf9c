use cashcode::bill_table::entry_fits_check;
use cashcode::bill_table::BILL_TABLE_RESPONSE_LEN;
use cashcode::{BillEntry, BillTable, Error};

// Format: [mantissa, currency[0], currency[1], currency[2], scale_byte]
fn make_entry_bytes(mantissa: u8, code: &[u8; 3], scale: u8) -> [u8; 5] {
    [mantissa, code[0], code[1], code[2], scale]
}

#[test]
fn parse_single_entry_no_scale() {
    // 5 USD: mantissa=5, scale=0x00 → 5 × 10^0 = 5
    let raw = make_entry_bytes(5, b"USD", 0x00);
    let entry = BillEntry::from_bytes(&raw);

    assert_eq!(entry.denomination, 5);
    assert_eq!(&entry.country_code, b"USD");
    assert_eq!(entry.country_str(), "USD");
}

#[test]
fn parse_single_entry_with_scale() {
    // 10 TKM: mantissa=1, exp=1 → 1 × 10^1 = 10
    let raw = make_entry_bytes(1, b"TKM", 0x01);
    let entry = BillEntry::from_bytes(&raw);

    assert_eq!(entry.denomination, 10);
    assert_eq!(entry.country_str(), "TKM");
}

#[test]
fn parse_full_table() {
    let mut data = vec![0u8; BILL_TABLE_RESPONSE_LEN];
    // Put a 5 USD entry in slot 0
    let entry = make_entry_bytes(5, b"USD", 0x00);

    data[..5].copy_from_slice(&entry);

    let table = BillTable::from_response_data(&data).unwrap();

    assert_eq!(table.get(0).unwrap().denomination, 5);
    assert!(table.get(1).unwrap().is_empty());
    assert_eq!(table.active_entries().len(), 1);
}

#[test]
fn short_response_is_error() {
    let data = vec![0u8; 10];

    assert!(matches!(
        BillTable::from_response_data(&data),
        Err(Error::InvalidFrame(_))
    ));
}

#[test]
fn entry_large_exponent() {
    let entry = BillEntry::from_bytes(&make_entry_bytes(5, b"TMT", 3));
    assert_eq!(entry.denomination, 5000);
    let entry = BillEntry::from_bytes(&make_entry_bytes(4, b"TMT", 9));
    assert_eq!(entry.denomination, 4_000_000_000);
}

#[test]
fn country_str_invalid_utf8() {
    let entry = BillEntry::from_bytes(&make_entry_bytes(1, &[0xFF, 0xFE, 0x41], 0));
    assert_eq!(entry.country_str(), "???");
}

#[test]
fn entry_to_string() {
    let entry = BillEntry::from_bytes(&make_entry_bytes(2, b"USD", 2));
    assert_eq!(entry.to_string(), "200 USD");
    let empty = BillEntry::from_bytes(&make_entry_bytes(0, b"USD", 0));
    assert_eq!(empty.to_string(), "(empty)");
}

#[test]
fn table_slots_and_order() {
    let mut data = vec![0u8; BILL_TABLE_RESPONSE_LEN + 3];
    data[10..15].copy_from_slice(&make_entry_bytes(1, b"TMT", 1));
    data[115..120].copy_from_slice(&make_entry_bytes(5, b"TMT", 2));
    let table = BillTable::from_response_data(&data).unwrap();
    assert!(table.get(24).is_none());
    assert_eq!(table.get(23).unwrap().denomination, 500);
    let all = table.iter();
    assert_eq!(all.len(), 24);
    for (k, (idx, entry)) in all.iter().enumerate() {
        assert_eq!(*idx as usize, k);
        assert_eq!(Some(entry), table.get(k as u8));
    }
    assert_eq!(all[2].0, 2);
    assert_eq!(all[2].1.denomination, 10);
    let active = table.active_entries();
    assert_eq!(active.len(), 2);
    assert_eq!(active[0].0, 2);
    assert_eq!(active[1].0, 23);
    assert_eq!(active[1].1.country_str(), "TMT");
}

#[test]
fn table_exactly_short_by_one() {
    let data = vec![0u8; BILL_TABLE_RESPONSE_LEN - 1];
    assert!(matches!(
        BillTable::from_response_data(&data),
        Err(Error::InvalidFrame("GET_BILL_TABLE response too short"))
    ));
}

#[test]
fn cloned_table_has_same_entries() {
    let mut data = vec![0u8; BILL_TABLE_RESPONSE_LEN];
    data[0..5].copy_from_slice(&make_entry_bytes(1, b"USD", 0));
    let table = BillTable::from_response_data(&data).unwrap();
    let copy = table.clone();
    assert_eq!(copy.get(0), table.get(0));
}

#[test]
fn response_fits_checks() {
    let mut data = vec![0u8; BILL_TABLE_RESPONSE_LEN];
    assert!(BillTable::response_fits(&data));
    data[4] = 9;
    data[0] = 4;
    assert!(BillTable::response_fits(&data));
    data[0] = 5; // 5 × 10^9 overflows u32
    assert!(!BillTable::response_fits(&data));
    data[0] = 0;
    data[4] = 10; // 10^10 overflows even with a zero mantissa
    assert!(!BillTable::response_fits(&data));
    assert!(BillTable::response_fits(&[0u8; 10]));
}

#[test]
fn entry_fits_boundary() {
    assert!(entry_fits_check(42, 8));
    assert!(entry_fits_check(4, 9));
    assert!(!entry_fits_check(43, 8));
    assert!(!entry_fits_check(0, 10));
    assert!(entry_fits_check(255, 7));
}
