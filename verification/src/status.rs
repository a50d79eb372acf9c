use vstd::prelude::*;

use crate::error::Error;

verus! {

/// Why a bill was rejected, carried in a POLL response whose state is
/// [`DeviceState::Rejecting`].
#[derive(Debug, Clone, PartialEq, Eq)]
pub enum RejectReason {
    Insertion,
    Magnetic,
    RemainingBillInHead,
    Multiplying,
    Conveying,
    Identification1,
    Verification,
    Optic,
    Inhibit,
    Capacity,
    Operation,
    Length,
    Uv,
    Barcode,
    /// A rejection sub-code that the protocol does not name.
    Unknown(u8),
}

/// The rejection reason that a sub-code byte denotes.
pub open spec fn reject_reason_spec(b: u8) -> RejectReason {
    if b == 0x60 {
        RejectReason::Insertion
    } else if b == 0x61 {
        RejectReason::Magnetic
    } else if b == 0x62 {
        RejectReason::RemainingBillInHead
    } else if b == 0x63 {
        RejectReason::Multiplying
    } else if b == 0x64 {
        RejectReason::Conveying
    } else if b == 0x65 {
        RejectReason::Identification1
    } else if b == 0x66 {
        RejectReason::Verification
    } else if b == 0x67 {
        RejectReason::Optic
    } else if b == 0x68 {
        RejectReason::Inhibit
    } else if b == 0x69 {
        RejectReason::Capacity
    } else if b == 0x6A {
        RejectReason::Operation
    } else if b == 0x6C {
        RejectReason::Length
    } else if b == 0x6D {
        RejectReason::Uv
    } else if b == 0x92 {
        RejectReason::Barcode
    } else {
        RejectReason::Unknown(b)
    }
}

impl RejectReason {
    /// Decodes a rejection sub-code.
    pub fn from_byte(b: u8) -> (r: RejectReason)
        ensures
            r == reject_reason_spec(b),
    {
        match b {
            0x60 => RejectReason::Insertion,
            0x61 => RejectReason::Magnetic,
            0x62 => RejectReason::RemainingBillInHead,
            0x63 => RejectReason::Multiplying,
            0x64 => RejectReason::Conveying,
            0x65 => RejectReason::Identification1,
            0x66 => RejectReason::Verification,
            0x67 => RejectReason::Optic,
            0x68 => RejectReason::Inhibit,
            0x69 => RejectReason::Capacity,
            0x6A => RejectReason::Operation,
            0x6C => RejectReason::Length,
            0x6D => RejectReason::Uv,
            0x92 => RejectReason::Barcode,
            other => RejectReason::Unknown(other),
        }
    }
}

/// Hardware failure sub-codes, carried when the state is
/// [`DeviceState::Failure`].
#[derive(Debug, Clone, PartialEq, Eq)]
pub enum FailureCode {
    StackMotorFailure,
    TransportMotorSpeed,
    TransportMotorFailure,
    AligningMotorFailure,
    InitialCassetteStatus,
    OpticCanal,
    MagneticCanal,
    CapacitanceCanal,
    /// A failure sub-code that the protocol does not name.
    Unknown(u8),
}

/// The failure that a sub-code byte denotes.
pub open spec fn failure_code_spec(b: u8) -> FailureCode {
    if b == 0x41 {
        FailureCode::StackMotorFailure
    } else if b == 0x42 {
        FailureCode::TransportMotorSpeed
    } else if b == 0x43 {
        FailureCode::TransportMotorFailure
    } else if b == 0x44 {
        FailureCode::AligningMotorFailure
    } else if b == 0x45 {
        FailureCode::InitialCassetteStatus
    } else if b == 0x46 {
        FailureCode::OpticCanal
    } else if b == 0x47 {
        FailureCode::MagneticCanal
    } else if b == 0x48 {
        FailureCode::CapacitanceCanal
    } else {
        FailureCode::Unknown(b)
    }
}

impl FailureCode {
    /// Decodes a failure sub-code.
    pub fn from_byte(b: u8) -> (r: FailureCode)
        ensures
            r == failure_code_spec(b),
    {
        match b {
            0x41 => FailureCode::StackMotorFailure,
            0x42 => FailureCode::TransportMotorSpeed,
            0x43 => FailureCode::TransportMotorFailure,
            0x44 => FailureCode::AligningMotorFailure,
            0x45 => FailureCode::InitialCassetteStatus,
            0x46 => FailureCode::OpticCanal,
            0x47 => FailureCode::MagneticCanal,
            0x48 => FailureCode::CapacitanceCanal,
            other => FailureCode::Unknown(other),
        }
    }
}

/// The states a CCNET validator reports in its POLL response.
#[derive(Debug, Clone, PartialEq, Eq)]
pub enum DeviceState {
    /// Powered on with no bill present.
    PowerUp,
    /// Powered on with a bill inside the validator head.
    PowerUpBillInValidator,
    /// Powered on with a bill in the stacker.
    PowerUpBillInStacker,
    /// Running self-tests; not yet ready.
    Initializing,
    /// Idle and ready to accept bills.
    Idling,
    /// A bill is being transported through the validator.
    Accepting,
    /// A bill is being moved into the stacker.
    Stacking,
    /// An escrowed bill is being returned.
    Returning,
    /// The validator is disabled.
    UnitDisabled,
    /// A bill is held in escrow after `HOLD`.
    Holding,
    /// Busy with a previous command.
    Busy,
    /// A bill was rejected for the given reason.
    Rejecting(RejectReason),
    /// The cashbox stacker is full.
    CassetteFull,
    /// The cashbox is not seated.
    CassetteOutOfPosition,
    /// A bill is jammed in the validator head.
    ValidatorJammed,
    /// A bill is jammed in the cashbox transport.
    CassetteJammed,
    /// A tamper attempt was detected.
    Cheated,
    /// Operation is paused.
    Paused,
    /// A hardware component failed.
    Failure(FailureCode),
    /// A validated bill waits in escrow for `Stack` or `Return`.
    EscrowPosition { bill_type: u8 },
    /// A bill was moved into the stacker.
    BillStacked { bill_type: u8 },
    /// A bill was returned to the customer.
    BillReturned { bill_type: u8 },
}

/// The sub-code byte of a POLL response: its second byte, or 0 when the
/// response has only one byte.
pub open spec fn poll_sub_code(data: Seq<u8>) -> u8 {
    if data.len() > 1 { data[1] } else { 0u8 }
}

/// The 0-based bill type for a 1-based one reported by the device (0 stays 0).
pub open spec fn zero_based(b: u8) -> u8 {
    if b == 0 { 0u8 } else { (b - 1) as u8 }
}

/// The state that the DATA of a POLL response reports, or the error that
/// rejects it.
pub open spec fn poll_state_spec(data: Seq<u8>) -> Result<DeviceState, Error> {
    if data.len() == 0 {
        Err(Error::InvalidFrame("empty POLL response"))
    } else {
        let status = data[0];
        let sub = poll_sub_code(data);
        if status == 0x10 {
            Ok(DeviceState::PowerUp)
        } else if status == 0x11 {
            Ok(DeviceState::PowerUpBillInValidator)
        } else if status == 0x12 {
            Ok(DeviceState::PowerUpBillInStacker)
        } else if status == 0x13 {
            Ok(DeviceState::Initializing)
        } else if status == 0x14 {
            Ok(DeviceState::Idling)
        } else if status == 0x15 {
            Ok(DeviceState::Accepting)
        } else if status == 0x17 {
            Ok(DeviceState::Stacking)
        } else if status == 0x18 {
            Ok(DeviceState::Returning)
        } else if status == 0x19 {
            Ok(DeviceState::UnitDisabled)
        } else if status == 0x1A {
            Ok(DeviceState::Holding)
        } else if status == 0x1B {
            Ok(DeviceState::Busy)
        } else if status == 0x1C {
            Ok(DeviceState::Rejecting(reject_reason_spec(sub)))
        } else if status == 0x41 {
            Ok(DeviceState::CassetteFull)
        } else if status == 0x42 {
            Ok(DeviceState::CassetteOutOfPosition)
        } else if status == 0x43 {
            Ok(DeviceState::ValidatorJammed)
        } else if status == 0x44 {
            Ok(DeviceState::CassetteJammed)
        } else if status == 0x45 {
            Ok(DeviceState::Cheated)
        } else if status == 0x46 {
            Ok(DeviceState::Paused)
        } else if status == 0x47 {
            Ok(DeviceState::Failure(failure_code_spec(sub)))
        } else if status == 0x80 {
            Ok(DeviceState::EscrowPosition { bill_type: zero_based(sub) })
        } else if status == 0x81 {
            Ok(DeviceState::BillStacked { bill_type: zero_based(sub) })
        } else if status == 0x82 {
            Ok(DeviceState::BillReturned { bill_type: zero_based(sub) })
        } else {
            Err(Error::UnknownStatus(status))
        }
    }
}

/// A fault or error state.
pub open spec fn is_error_spec(state: DeviceState) -> bool {
    match state {
        DeviceState::CassetteFull
        | DeviceState::CassetteOutOfPosition
        | DeviceState::ValidatorJammed
        | DeviceState::CassetteJammed
        | DeviceState::Cheated
        | DeviceState::Paused
        | DeviceState::Failure(_) => true,
        _ => false,
    }
}

impl DeviceState {
    /// Parses the DATA of a POLL response: the first byte is the status,
    /// the second, when present, a sub-code or the 1-based bill type.
    pub fn from_poll_data(data: &[u8]) -> (r: Result<DeviceState, Error>)
        ensures
            r == poll_state_spec(data@),
    {
        if data.len() == 0 {
            return Err(Error::InvalidFrame("empty POLL response"));
        }
        let status = data[0];
        let sub: u8 = if data.len() > 1 { data[1] } else { 0 };
        match status {
            0x10 => Ok(DeviceState::PowerUp),
            0x11 => Ok(DeviceState::PowerUpBillInValidator),
            0x12 => Ok(DeviceState::PowerUpBillInStacker),
            0x13 => Ok(DeviceState::Initializing),
            0x14 => Ok(DeviceState::Idling),
            0x15 => Ok(DeviceState::Accepting),
            0x17 => Ok(DeviceState::Stacking),
            0x18 => Ok(DeviceState::Returning),
            0x19 => Ok(DeviceState::UnitDisabled),
            0x1A => Ok(DeviceState::Holding),
            0x1B => Ok(DeviceState::Busy),
            0x1C => Ok(DeviceState::Rejecting(RejectReason::from_byte(sub))),
            0x41 => Ok(DeviceState::CassetteFull),
            0x42 => Ok(DeviceState::CassetteOutOfPosition),
            0x43 => Ok(DeviceState::ValidatorJammed),
            0x44 => Ok(DeviceState::CassetteJammed),
            0x45 => Ok(DeviceState::Cheated),
            0x46 => Ok(DeviceState::Paused),
            0x47 => Ok(DeviceState::Failure(FailureCode::from_byte(sub))),
            0x80 => Ok(DeviceState::EscrowPosition { bill_type: sub.saturating_sub(1) }),
            0x81 => Ok(DeviceState::BillStacked { bill_type: sub.saturating_sub(1) }),
            0x82 => Ok(DeviceState::BillReturned { bill_type: sub.saturating_sub(1) }),
            other => Err(Error::UnknownStatus(other)),
        }
    }

    /// Whether a bill waits in escrow for a `Stack` or `Return` decision.
    pub fn is_escrow(&self) -> (b: bool)
        ensures
            b == (*self is EscrowPosition),
    {
        matches!(self, DeviceState::EscrowPosition { .. })
    }

    /// Whether the device is in a fault or error state.
    pub fn is_error(&self) -> (b: bool)
        ensures
            b == is_error_spec(*self),
    {
        matches!(
            self,
            DeviceState::CassetteFull | DeviceState::CassetteOutOfPosition
                | DeviceState::ValidatorJammed | DeviceState::CassetteJammed
                | DeviceState::Cheated | DeviceState::Paused | DeviceState::Failure(_)
        )
    }

    /// Whether the device is idle and ready to accept bills.
    pub fn is_ready(&self) -> (b: bool)
        ensures
            b == (*self is Idling),
    {
        matches!(self, DeviceState::Idling)
    }
}

/// A bill event reports the device's 1-based bill type as the 0-based
/// index one lower.
pub proof fn lemma_bill_event_index(status: u8, sub: u8)
    requires
        status == 0x80 || status == 0x81 || status == 0x82,
        1 <= sub,
    ensures
        poll_state_spec(seq![status, sub]) == Ok::<DeviceState, Error>(
            if status == 0x80 {
                DeviceState::EscrowPosition { bill_type: (sub - 1) as u8 }
            } else if status == 0x81 {
                DeviceState::BillStacked { bill_type: (sub - 1) as u8 }
            } else {
                DeviceState::BillReturned { bill_type: (sub - 1) as u8 }
            },
        ),
{
}

/// No state is both ready and faulty, nor both in escrow and faulty.
pub proof fn lemma_states_exclusive(state: DeviceState)
    ensures
        state is Idling ==> !is_error_spec(state),
        state is EscrowPosition ==> !is_error_spec(state),
{
}

/// Each status byte of a POLL answer names the state the CCNET protocol
/// gives it; a byte the protocol does not define is refused with that byte.
pub proof fn lemma_status_bytes(data: Seq<u8>)
    requires
        data.len() >= 1,
    ensures
        data[0] == 0x10 ==> poll_state_spec(data) == Ok::<DeviceState, Error>(DeviceState::PowerUp),
        data[0] == 0x11 ==> poll_state_spec(data) == Ok::<DeviceState, Error>(DeviceState::PowerUpBillInValidator),
        data[0] == 0x12 ==> poll_state_spec(data) == Ok::<DeviceState, Error>(DeviceState::PowerUpBillInStacker),
        data[0] == 0x13 ==> poll_state_spec(data) == Ok::<DeviceState, Error>(DeviceState::Initializing),
        data[0] == 0x14 ==> poll_state_spec(data) == Ok::<DeviceState, Error>(DeviceState::Idling),
        data[0] == 0x15 ==> poll_state_spec(data) == Ok::<DeviceState, Error>(DeviceState::Accepting),
        data[0] == 0x17 ==> poll_state_spec(data) == Ok::<DeviceState, Error>(DeviceState::Stacking),
        data[0] == 0x18 ==> poll_state_spec(data) == Ok::<DeviceState, Error>(DeviceState::Returning),
        data[0] == 0x19 ==> poll_state_spec(data) == Ok::<DeviceState, Error>(DeviceState::UnitDisabled),
        data[0] == 0x1A ==> poll_state_spec(data) == Ok::<DeviceState, Error>(DeviceState::Holding),
        data[0] == 0x1B ==> poll_state_spec(data) == Ok::<DeviceState, Error>(DeviceState::Busy),
        data[0] == 0x1C ==> poll_state_spec(data) is Ok && poll_state_spec(data)->Ok_0 is Rejecting,
        data[0] == 0x41 ==> poll_state_spec(data) == Ok::<DeviceState, Error>(DeviceState::CassetteFull),
        data[0] == 0x42 ==> poll_state_spec(data) == Ok::<DeviceState, Error>(DeviceState::CassetteOutOfPosition),
        data[0] == 0x43 ==> poll_state_spec(data) == Ok::<DeviceState, Error>(DeviceState::ValidatorJammed),
        data[0] == 0x44 ==> poll_state_spec(data) == Ok::<DeviceState, Error>(DeviceState::CassetteJammed),
        data[0] == 0x45 ==> poll_state_spec(data) == Ok::<DeviceState, Error>(DeviceState::Cheated),
        data[0] == 0x46 ==> poll_state_spec(data) == Ok::<DeviceState, Error>(DeviceState::Paused),
        data[0] == 0x47 ==> poll_state_spec(data) is Ok && poll_state_spec(data)->Ok_0 is Failure,
        data[0] == 0x80 ==> poll_state_spec(data) is Ok && poll_state_spec(data)->Ok_0 is EscrowPosition,
        data[0] == 0x81 ==> poll_state_spec(data) is Ok && poll_state_spec(data)->Ok_0 is BillStacked,
        data[0] == 0x82 ==> poll_state_spec(data) is Ok && poll_state_spec(data)->Ok_0 is BillReturned,
        !defined_status(data[0]) ==> poll_state_spec(data) == Err::<DeviceState, Error>(Error::UnknownStatus(data[0])),
        poll_state_spec(seq![]) == Err::<DeviceState, Error>(Error::InvalidFrame("empty POLL response")),
{
}

/// The status bytes the protocol defines.
pub open spec fn defined_status(b: u8) -> bool {
    (0x10 <= b <= 0x15) || (0x17 <= b <= 0x1C) || (0x41 <= b <= 0x47) || (0x80 <= b <= 0x82)
}

/// The variant of a state, as a number: equal for two states exactly
/// when they are the same kind of state.
pub open spec fn state_kind(s: DeviceState) -> int {
    match s {
        DeviceState::PowerUp => 0,
        DeviceState::PowerUpBillInValidator => 1,
        DeviceState::PowerUpBillInStacker => 2,
        DeviceState::Initializing => 3,
        DeviceState::Idling => 4,
        DeviceState::Accepting => 5,
        DeviceState::Stacking => 6,
        DeviceState::Returning => 7,
        DeviceState::UnitDisabled => 8,
        DeviceState::Holding => 9,
        DeviceState::Busy => 10,
        DeviceState::Rejecting(_) => 11,
        DeviceState::CassetteFull => 12,
        DeviceState::CassetteOutOfPosition => 13,
        DeviceState::ValidatorJammed => 14,
        DeviceState::CassetteJammed => 15,
        DeviceState::Cheated => 16,
        DeviceState::Paused => 17,
        DeviceState::Failure(_) => 18,
        DeviceState::EscrowPosition { .. } => 19,
        DeviceState::BillStacked { .. } => 20,
        DeviceState::BillReturned { .. } => 21,
    }
}

/// A POLL answer parses exactly when its status byte is defined, and two
/// answers with different defined status bytes give different kinds of
/// state: no two status bytes share a state.
pub proof fn lemma_status_bytes_distinct(d1: Seq<u8>, d2: Seq<u8>)
    requires
        d1.len() >= 1,
        d2.len() >= 1,
    ensures
        poll_state_spec(d1) is Ok <==> defined_status(d1[0]),
        defined_status(d1[0]) && defined_status(d2[0]) && d1[0] != d2[0] ==> state_kind(
            poll_state_spec(d1)->Ok_0,
        ) != state_kind(poll_state_spec(d2)->Ok_0),
{
}

/// Each rejection sub-code names the reason the protocol gives it, and
/// every other byte is kept as an unknown reason.
pub proof fn lemma_reject_codes(b: u8)
    ensures
        b == 0x60 ==> reject_reason_spec(b) == RejectReason::Insertion,
        b == 0x61 ==> reject_reason_spec(b) == RejectReason::Magnetic,
        b == 0x62 ==> reject_reason_spec(b) == RejectReason::RemainingBillInHead,
        b == 0x63 ==> reject_reason_spec(b) == RejectReason::Multiplying,
        b == 0x64 ==> reject_reason_spec(b) == RejectReason::Conveying,
        b == 0x65 ==> reject_reason_spec(b) == RejectReason::Identification1,
        b == 0x66 ==> reject_reason_spec(b) == RejectReason::Verification,
        b == 0x67 ==> reject_reason_spec(b) == RejectReason::Optic,
        b == 0x68 ==> reject_reason_spec(b) == RejectReason::Inhibit,
        b == 0x69 ==> reject_reason_spec(b) == RejectReason::Capacity,
        b == 0x6A ==> reject_reason_spec(b) == RejectReason::Operation,
        b == 0x6C ==> reject_reason_spec(b) == RejectReason::Length,
        b == 0x6D ==> reject_reason_spec(b) == RejectReason::Uv,
        b == 0x92 ==> reject_reason_spec(b) == RejectReason::Barcode,
        !((0x60 <= b <= 0x6A) || b == 0x6C || b == 0x6D || b == 0x92) ==> reject_reason_spec(b)
            == RejectReason::Unknown(b),
{
}

/// Each failure sub-code names the failure the protocol gives it, and
/// every other byte is kept as an unknown failure.
pub proof fn lemma_failure_codes(b: u8)
    ensures
        b == 0x41 ==> failure_code_spec(b) == FailureCode::StackMotorFailure,
        b == 0x42 ==> failure_code_spec(b) == FailureCode::TransportMotorSpeed,
        b == 0x43 ==> failure_code_spec(b) == FailureCode::TransportMotorFailure,
        b == 0x44 ==> failure_code_spec(b) == FailureCode::AligningMotorFailure,
        b == 0x45 ==> failure_code_spec(b) == FailureCode::InitialCassetteStatus,
        b == 0x46 ==> failure_code_spec(b) == FailureCode::OpticCanal,
        b == 0x47 ==> failure_code_spec(b) == FailureCode::MagneticCanal,
        b == 0x48 ==> failure_code_spec(b) == FailureCode::CapacitanceCanal,
        !(0x41 <= b <= 0x48) ==> failure_code_spec(b) == FailureCode::Unknown(b),
{
}

/// The sub-code of a rejection or failure answer is its second byte (0
/// when absent), and a bill event carries the second byte less one
/// (0 stays 0).
pub proof fn lemma_sub_codes(data: Seq<u8>)
    requires
        data.len() >= 1,
    ensures
        data[0] == 0x1C ==> poll_state_spec(data) == Ok::<DeviceState, Error>(
            DeviceState::Rejecting(reject_reason_spec(if data.len() >= 2 { data[1] } else { 0 })),
        ),
        data[0] == 0x47 ==> poll_state_spec(data) == Ok::<DeviceState, Error>(
            DeviceState::Failure(failure_code_spec(if data.len() >= 2 { data[1] } else { 0 })),
        ),
        (data[0] == 0x80 || data[0] == 0x81 || data[0] == 0x82) ==> ({
            let s = poll_state_spec(data)->Ok_0;
            let t: u8 = match s {
                DeviceState::EscrowPosition { bill_type } => bill_type,
                DeviceState::BillStacked { bill_type } => bill_type,
                DeviceState::BillReturned { bill_type } => bill_type,
                _ => 255u8,
            };
            &&& data.len() >= 2 && data[1] >= 1 ==> t + 1 == data[1]
            &&& (data.len() < 2 || data[1] == 0) ==> t == 0
        }),
{
}

/// The error states are exactly the cassette, jam, cheat, pause and
/// failure states.
pub proof fn lemma_error_states(state: DeviceState)
    ensures
        is_error_spec(state) <==> (state is CassetteFull || state is CassetteOutOfPosition
            || state is ValidatorJammed || state is CassetteJammed || state is Cheated
            || state is Paused || state is Failure),
{
}

} // verus!
