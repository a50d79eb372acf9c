use vstd::prelude::*;

use crate::command::{command_data, Command};
use crate::error::Error;
use crate::command::lemma_command_fits_frame;
use crate::frame::{decode_spec, encode_spec, lemma_decode_encode, Frame, ACK, DEFAULT_ADDR, NAK};
use crate::status::{is_error_spec, DeviceState};
use crate::text::{string_from_utf8_lossy, trim_nul, trim_nul_spec, utf8_lossy};

verus! {

/// Device identification returned by the `IDENTIFICATION` command.
#[derive(Debug, Clone)]
pub struct Identification {
    /// 7-byte part number.
    pub part_number: String,
    /// 12-byte serial number.
    pub serial_number: String,
    /// 7-byte asset number.
    pub asset_number: String,
}

/// The text of an identification field: the bytes decoded as UTF-8 with
/// invalid sequences replaced, without trailing NUL characters.
pub open spec fn id_field_spec(bytes: Seq<u8>) -> Seq<char> {
    trim_nul_spec(utf8_lossy(bytes))
}

impl Identification {
    /// Parses the DATA of an `IDENTIFICATION` response: bytes 0–6 hold the
    /// part number, 7–18 the serial number and 19–25 the asset number.
    pub fn from_response_data(data: &[u8]) -> (r: Result<Identification, Error>)
        ensures
            data@.len() < 26 <==> r is Err,
            r matches Err(e) ==> e == Error::InvalidFrame("IDENTIFICATION response too short"),
            r matches Ok(id) ==> {
                &&& id.part_number@ == id_field_spec(data@.subrange(0, 7))
                &&& id.serial_number@ == id_field_spec(data@.subrange(7, 19))
                &&& id.asset_number@ == id_field_spec(data@.subrange(19, 26))
            },
    {
        if data.len() < 26 {
            return Err(Error::InvalidFrame("IDENTIFICATION response too short"));
        }
        let part = string_from_utf8_lossy(&data[0..7]);
        let serial = string_from_utf8_lossy(&data[7..19]);
        let asset = string_from_utf8_lossy(&data[19..26]);
        Ok(Identification {
            part_number: trim_nul(part.as_str()),
            serial_number: trim_nul(serial.as_str()),
            asset_number: trim_nul(asset.as_str()),
        })
    }
}

/// The bytes that carry `command` to the validator at the default address.
pub fn encode_command(command: &Command) -> (bytes: Vec<u8>)
    ensures
        bytes@ == encode_spec(DEFAULT_ADDR, command_data(*command)),
{
    Frame::new(command.to_data()).encode()
}

/// The ACK frame sent back to the validator after every POLL response.
pub fn ack_frame() -> (bytes: Vec<u8>)
    ensures
        bytes@ == encode_spec(DEFAULT_ADDR, seq![ACK]),
{
    let data: Vec<u8> = vec![ACK];
    assert(data@ =~= seq![ACK]);
    Frame::new(data).encode()
}

/// How the validator answered a command, judged from the DATA of its
/// response: NAK in the first byte is a refusal; anything else, ACK, a
/// longer answer or an empty one, counts as accepted.
pub fn ack_result(data: &[u8]) -> (r: Result<(), Error>)
    ensures
        r is Err <==> (data@.len() > 0 && data@[0] == NAK),
        r matches Err(e) ==> e == Error::Nak,
{
    if data.len() > 0 && data[0] == NAK {
        Err(Error::Nak)
    } else {
        Ok(())
    }
}

/// What to do next while waiting for the validator to become ready.
#[derive(Debug, Clone, Copy, PartialEq, Eq)]
pub enum ReadyStep {
    /// The validator reports `Idling`: it is ready for the next command.
    Ready,
    /// The validator is initialising: send `SET_SECURITY` (level Low) to
    /// advance it, ignore the outcome, and keep polling.
    AdvanceInitialization,
    /// The validator reports a fault: give up with `NotReady`.
    Fault,
    /// Keep polling.
    KeepWaiting,
}

/// The step that a state reported while waiting for readiness calls for.
pub open spec fn ready_step_spec(state: DeviceState) -> ReadyStep {
    if state is Idling {
        ReadyStep::Ready
    } else if state is Initializing {
        ReadyStep::AdvanceInitialization
    } else if is_error_spec(state) {
        ReadyStep::Fault
    } else {
        ReadyStep::KeepWaiting
    }
}

/// Decides, from one polled state, how waiting for readiness goes on:
/// waiting lasts until the validator reports `Idling`.
pub fn ready_step(state: &DeviceState) -> (step: ReadyStep)
    ensures
        step == ready_step_spec(*state),
{
    match state {
        DeviceState::Idling => ReadyStep::Ready,
        DeviceState::Initializing => ReadyStep::AdvanceInitialization,
        DeviceState::PowerUp
        | DeviceState::PowerUpBillInValidator
        | DeviceState::PowerUpBillInStacker
        | DeviceState::Busy => ReadyStep::KeepWaiting,
        other => {
            if other.is_error() {
                ReadyStep::Fault
            } else {
                ReadyStep::KeepWaiting
            }
        },
    }
}

/// Waiting ends only when the validator reports `Idling`; it is advanced
/// only while the validator initialises; it gives up only on the
/// cassette, jam, cheat, pause and failure states; every other state,
/// the power-up states among them, keeps it waiting.
pub proof fn lemma_ready_steps(state: DeviceState)
    ensures
        ready_step_spec(state) == ReadyStep::Ready <==> state is Idling,
        ready_step_spec(state) == ReadyStep::AdvanceInitialization <==> state is Initializing,
        ready_step_spec(state) == ReadyStep::Fault <==> (state is CassetteFull
            || state is CassetteOutOfPosition || state is ValidatorJammed || state is CassetteJammed
            || state is Cheated || state is Paused || state is Failure),
        (state is PowerUp || state is PowerUpBillInValidator || state is PowerUpBillInStacker
            || state is Busy || state is UnitDisabled) ==> ready_step_spec(state) == ReadyStep::KeepWaiting,
{
}

/// The status and sub-code bytes of a raw POLL answer: the first two DATA
/// bytes, after SYNC, ADR and LNG.
pub fn poll_status_bytes(response: &[u8]) -> (r: [u8; 2])
    requires
        response@.len() >= 5,
    ensures
        r@ == response@.subrange(3, 5),
{
    let r: [u8; 2] = [response[3], response[4]];
    assert(r@ =~= response@.subrange(3, 5));
    r
}

/// The frame of every command decodes back to the default address and the
/// command's DATA.
pub proof fn lemma_command_frame_roundtrip(command: Command)
    ensures
        decode_spec(encode_spec(DEFAULT_ADDR, command_data(command)))
            == Ok::<(u8, Seq<u8>), Error>((DEFAULT_ADDR, command_data(command))),
{
    lemma_command_fits_frame(command);
    lemma_decode_encode(DEFAULT_ADDR, command_data(command), Seq::empty());
    assert(encode_spec(DEFAULT_ADDR, command_data(command)) + Seq::<u8>::empty()
        =~= encode_spec(DEFAULT_ADDR, command_data(command)));
}

} // verus!
