use vstd::prelude::*;

use crate::constants::{bill_types, bill_value_spec};

verus! {

/// What the standalone purchase sequence does with one POLL answer.
#[derive(Debug, Clone, Copy, PartialEq, Eq)]
pub enum PurchaseStep {
    /// The validator is initialising (0x13): send `SET_SECURITY`.
    SetSecurity,
    /// A bill is in escrow (0x80): return it, and count `amount` towards
    /// the price.
    ReturnAndCount { amount: u32 },
    /// A bill was rejected for failing verification (0x1C, 0x66).
    VerificationError,
    /// A bill was rejected for another reason (0x1C).
    OtherRejection,
    /// Any other answer.
    Other,
}

/// The step that a status byte and its sub-code call for.
pub open spec fn purchase_step_spec(status: u8, sub: u8) -> PurchaseStep {
    if status == 0x13 {
        PurchaseStep::SetSecurity
    } else if status == 0x80 {
        PurchaseStep::ReturnAndCount { amount: bill_value_spec(sub) }
    } else if status == 0x1C {
        if sub == 0x66 { PurchaseStep::VerificationError } else { PurchaseStep::OtherRejection }
    } else {
        PurchaseStep::Other
    }
}

/// Decides what the purchase sequence does with the status bytes of one
/// POLL answer.
pub fn purchase_step(status: [u8; 2]) -> (step: PurchaseStep)
    ensures
        step == purchase_step_spec(status@[0], status@[1]),
{
    match status[0] {
        0x13 => PurchaseStep::SetSecurity,
        0x80 => PurchaseStep::ReturnAndCount { amount: bill_types(status[1]) },
        0x1C => {
            if status[1] == 0x66 {
                PurchaseStep::VerificationError
            } else {
                PurchaseStep::OtherRejection
            }
        },
        _ => PurchaseStep::Other,
    }
}

/// Only an escrow answer (0x80) returns a bill and counts it, with the face
/// value of its bill type; only 0x13 asks for the security command; only a
/// rejection (0x1C) reports a rejection, as a verification error exactly
/// for sub-code 0x66; every other answer is left alone.
pub proof fn lemma_purchase_steps(status: u8, sub: u8)
    ensures
        purchase_step_spec(status, sub) is ReturnAndCount <==> status == 0x80,
        purchase_step_spec(status, sub) is ReturnAndCount ==> purchase_step_spec(status, sub)->amount
            == bill_value_spec(sub),
        purchase_step_spec(status, sub) == PurchaseStep::SetSecurity <==> status == 0x13,
        purchase_step_spec(status, sub) == PurchaseStep::VerificationError <==> (status == 0x1C && sub
            == 0x66),
        purchase_step_spec(status, sub) == PurchaseStep::OtherRejection <==> (status == 0x1C && sub
            != 0x66),
        (status != 0x13 && status != 0x80 && status != 0x1C) <==> purchase_step_spec(status, sub)
            == PurchaseStep::Other,
{
}

} // verus!
