use vstd::prelude::*;

verus! {

// CCNET command codes (the first DATA byte of a command frame).
pub const RESET: u8 = 0x30;
pub const GET_STATUS: u8 = 0x31;
pub const SET_SECURITY: u8 = 0x32;
pub const POLL: u8 = 0x33;
pub const ENABLE_BILL_TYPES: u8 = 0x34;
pub const STACK: u8 = 0x35;
pub const RETURN: u8 = 0x36;
pub const IDENTIFICATION: u8 = 0x37;
pub const HOLD: u8 = 0x38;
pub const GET_BILL_TABLE: u8 = 0x41;
pub const GET_CRC32: u8 = 0x51;
pub const REQUEST_STATISTICS: u8 = 0x60;

/// Whether bit `index % 8` of byte `index / 8` of `bytes` is set: the
/// bill-type numbering of an enable mask.
pub open spec fn mask_bit(bytes: Seq<u8>, index: int) -> bool {
    (bytes[index / 8] >> ((index % 8) as u8)) & 1u8 == 1u8
}

/// A bill acceptance bitmask for [`Command::EnableBillTypes`]: bill type `N`
/// maps to bit `N % 8` of byte `N / 8`, for 48 addressable types.
#[derive(Debug, Clone, Copy, PartialEq, Eq)]
pub struct BillMask(pub [u8; 6]);

impl BillMask {
    /// Every bill type enabled.
    pub fn all() -> (mask: BillMask)
        ensures
            mask.0@ == Seq::new(6, |k: int| 0xFFu8),
    {
        let mask = BillMask([0xFF, 0xFF, 0xFF, 0xFF, 0xFF, 0xFF]);
        assert(mask.0@ =~= Seq::new(6, |k: int| 0xFFu8));
        mask
    }

    /// No bill type enabled.
    pub fn none() -> (mask: BillMask)
        ensures
            mask.0@ == Seq::new(6, |k: int| 0x00u8),
    {
        let mask = BillMask([0x00, 0x00, 0x00, 0x00, 0x00, 0x00]);
        assert(mask.0@ =~= Seq::new(6, |k: int| 0x00u8));
        mask
    }

    /// The mask that enables exactly the bill type `index` (0–47).
    pub fn single(index: u8) -> (mask: BillMask)
        requires
            index < 48,
        ensures
            mask.0@ == Seq::new(6, |k: int| if k == index / 8 { 1u8 << (index % 8) } else { 0u8 }),
            forall|j: int| 0 <= j < 48 ==> (mask_bit(mask.0@, j) <==> j == index),
    {
        let mut bytes: [u8; 6] = [0, 0, 0, 0, 0, 0];
        let shift: u8 = index % 8;
        let bit: u8 = 1u8 << shift;
        bytes[(index / 8) as usize] = bytes[(index / 8) as usize] | bit;
        assert(0u8 | bit == bit) by (bit_vector);
        let mask = BillMask(bytes);
        assert(mask.0@ =~= Seq::new(6, |k: int| if k == index / 8 { 1u8 << (index % 8) } else { 0u8 }));
        assert forall|j: int| 0 <= j < 48 implies (mask_bit(mask.0@, j) <==> j == index) by {
            let b: u8 = (j % 8) as u8;
            if j / 8 == index / 8 {
                assert(shift < 8 && b < 8 ==> ((((1u8 << shift) >> b) & 1u8 == 1u8) <==> shift == b))
                    by (bit_vector);
            } else {
                assert((0u8 >> b) & 1u8 == 0u8) by (bit_vector);
            }
        }
        mask
    }

    /// Whether bill type `index` (0–47) is enabled in this mask.
    pub fn is_enabled(self, index: u8) -> (enabled: bool)
        requires
            index < 48,
        ensures
            enabled == mask_bit(self.0@, index as int),
    {
        (self.0[(index / 8) as usize] >> (index % 8)) & 1 == 1
    }
}

impl Default for BillMask {
    /// Every bill type enabled.
    fn default() -> (mask: BillMask)
        ensures
            mask.0@ == Seq::new(6, |k: int| 0xFFu8),
    {
        BillMask::all()
    }
}

/// Every bit of the full mask is set and no bit of the empty mask is.
pub proof fn lemma_all_and_none(index: int)
    requires
        0 <= index < 48,
    ensures
        mask_bit(Seq::new(6, |k: int| 0xFFu8), index),
        !mask_bit(Seq::new(6, |k: int| 0x00u8), index),
{
    let b: u8 = (index % 8) as u8;
    assert(b < 8 ==> (0xFFu8 >> b) & 1u8 == 1u8) by (bit_vector);
    assert((0u8 >> b) & 1u8 == 0u8) by (bit_vector);
}

/// Security level for the `SET_SECURITY` command; higher levels apply
/// stricter validation.
#[derive(Debug, Clone, Copy, PartialEq, Eq)]
pub enum SecurityLevel {
    Low,
    Normal,
    High,
    VeryHigh,
}

/// The byte that encodes a security level.
pub open spec fn security_code(level: SecurityLevel) -> u8 {
    match level {
        SecurityLevel::Low => 0x00,
        SecurityLevel::Normal => 0x01,
        SecurityLevel::High => 0x02,
        SecurityLevel::VeryHigh => 0x03,
    }
}

impl SecurityLevel {
    /// The byte that encodes this level on the wire.
    pub fn code(self) -> (b: u8)
        ensures
            b == security_code(self),
    {
        match self {
            SecurityLevel::Low => 0x00,
            SecurityLevel::Normal => 0x01,
            SecurityLevel::High => 0x02,
            SecurityLevel::VeryHigh => 0x03,
        }
    }
}

/// All commands that can be sent to a CCNET bill validator.
#[derive(Debug, Clone)]
pub enum Command {
    /// Restart the device; an escrowed bill is returned to the customer.
    Reset,
    /// Query the current device status.
    GetStatus,
    /// Set the security level applied to all bill types.
    SetSecurity(SecurityLevel),
    /// Poll the device for state changes and bill events.
    Poll,
    /// Enable exactly the bill types set in the mask.
    EnableBillTypes(BillMask),
    /// Move an escrowed bill into the cashbox stacker.
    Stack,
    /// Return an escrowed bill to the customer.
    Return,
    /// Request part number, serial number and asset number.
    Identification,
    /// Hold the escrowed bill for another ~10 s.
    Hold,
    /// Retrieve the bill denomination table.
    GetBillTable,
    /// Request the CRC-32 of the firmware.
    GetCrc32,
    /// Request device statistics.
    RequestStatistics,
}

/// The DATA bytes of a command frame: the command code, then the
/// command's parameters.
pub open spec fn command_data(command: Command) -> Seq<u8> {
    match command {
        Command::Reset => seq![RESET],
        Command::GetStatus => seq![GET_STATUS],
        Command::SetSecurity(level) => seq![SET_SECURITY, security_code(level)],
        Command::Poll => seq![POLL],
        Command::EnableBillTypes(mask) => seq![ENABLE_BILL_TYPES] + mask.0@,
        Command::Stack => seq![STACK],
        Command::Return => seq![RETURN],
        Command::Identification => seq![IDENTIFICATION],
        Command::Hold => seq![HOLD],
        Command::GetBillTable => seq![GET_BILL_TABLE],
        Command::GetCrc32 => seq![GET_CRC32],
        Command::RequestStatistics => seq![REQUEST_STATISTICS],
    }
}

impl Command {
    /// The DATA bytes placed inside the frame that carries this command.
    pub fn to_data(&self) -> (data: Vec<u8>)
        ensures
            data@ == command_data(*self),
    {
        match self {
            Command::Reset => vec![RESET],
            Command::GetStatus => vec![GET_STATUS],
            Command::SetSecurity(level) => vec![SET_SECURITY, level.code()],
            Command::Poll => vec![POLL],
            Command::EnableBillTypes(mask) => {
                let mut data: Vec<u8> = vec![ENABLE_BILL_TYPES];
                let mut i: usize = 0;
                while i < 6
                    invariant
                        i <= 6,
                        data@ == seq![ENABLE_BILL_TYPES] + mask.0@.take(i as int),
                    decreases 6 - i,
                {
                    data.push(mask.0[i]);
                    i = i + 1;
                    assert(data@ =~= seq![ENABLE_BILL_TYPES] + mask.0@.take(i as int));
                }
                assert(mask.0@.take(6) =~= mask.0@);
                data
            },
            Command::Stack => vec![STACK],
            Command::Return => vec![RETURN],
            Command::Identification => vec![IDENTIFICATION],
            Command::Hold => vec![HOLD],
            Command::GetBillTable => vec![GET_BILL_TABLE],
            Command::GetCrc32 => vec![GET_CRC32],
            Command::RequestStatistics => vec![REQUEST_STATISTICS],
        }
    }
}

/// Each command's DATA starts with the code the CCNET protocol gives it;
/// only `SET_SECURITY` and `ENABLE_BILL_TYPES` carry parameters: the
/// level byte 0 to 3 from Low to VeryHigh, and the six mask bytes.
pub proof fn lemma_command_codes(command: Command)
    ensures
        command is Reset ==> command_data(command) == seq![0x30u8],
        command is GetStatus ==> command_data(command) == seq![0x31u8],
        command is Poll ==> command_data(command) == seq![0x33u8],
        command is Stack ==> command_data(command) == seq![0x35u8],
        command is Return ==> command_data(command) == seq![0x36u8],
        command is Identification ==> command_data(command) == seq![0x37u8],
        command is Hold ==> command_data(command) == seq![0x38u8],
        command is GetBillTable ==> command_data(command) == seq![0x41u8],
        command is GetCrc32 ==> command_data(command) == seq![0x51u8],
        command is RequestStatistics ==> command_data(command) == seq![0x60u8],
        command matches Command::SetSecurity(level) ==> command_data(command) == seq![0x32u8, match level {
            SecurityLevel::Low => 0u8,
            SecurityLevel::Normal => 1u8,
            SecurityLevel::High => 2u8,
            SecurityLevel::VeryHigh => 3u8,
        }],
        command matches Command::EnableBillTypes(mask) ==> command_data(command).len() == 7
            && command_data(command)[0] == 0x34u8 && command_data(command).subrange(1, 7) == mask.0@,
{
    if let Command::EnableBillTypes(mask) = command {
        assert(command_data(command).subrange(1, 7) =~= mask.0@);
    }
}

/// Every command fits in a frame: its DATA holds at most 7 bytes, the
/// first of which is the command code.
pub proof fn lemma_command_fits_frame(command: Command)
    ensures
        1 <= command_data(command).len() <= 7,
{
}

} // verus!
