use vstd::prelude::*;

verus! {

/// Face value of the bill types of the standalone purchase sequence, 0 for a
/// type it does not price.
pub open spec fn bill_value_spec(bill: u8) -> u32 {
    if bill == 0 {
        1
    } else if bill == 2 {
        5
    } else if bill == 3 {
        10
    } else if bill == 4 {
        20
    } else if bill == 5 {
        50
    } else if bill == 6 {
        100
    } else {
        0
    }
}

/// Face value of a bill type, as the standalone purchase sequence prices it.
pub fn bill_types(bill: u8) -> (value: u32)
    ensures
        value == bill_value_spec(bill),
{
    match bill {
        0 => 1,
        2 => 5,
        3 => 10,
        4 => 20,
        5 => 50,
        6 => 100,
        _ => 0,
    }
}

/// The priced bill types and their face values: type 0 is worth 1, types
/// 2 to 6 are worth 5, 10, 20, 50 and 100, and every other type is worth 0.
pub proof fn lemma_bill_values(bill: u8)
    ensures
        bill == 0 ==> bill_value_spec(bill) == 1,
        bill == 2 ==> bill_value_spec(bill) == 5,
        bill == 3 ==> bill_value_spec(bill) == 10,
        bill == 4 ==> bill_value_spec(bill) == 20,
        bill == 5 ==> bill_value_spec(bill) == 50,
        bill == 6 ==> bill_value_spec(bill) == 100,
        (bill == 1 || bill > 6) ==> bill_value_spec(bill) == 0,
{
}

} // verus!
