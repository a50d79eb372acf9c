use vstd::prelude::*;

verus! {

/// Everything that the protocol logic can reject. Failures of the serial
/// port itself are reported by the code that owns the port.
#[derive(Debug)]
pub enum Error {
    /// A frame or a response payload is malformed; the text says how.
    InvalidFrame(&'static str),
    /// The checksum carried by a frame differs from the one computed over it.
    CrcMismatch { expected: u16, actual: u16 },
    /// The device answered a command with NAK.
    Nak,
    /// The device did not answer in time.
    Timeout,
    /// A POLL response carried a status byte that the protocol does not define.
    UnknownStatus(u8),
    /// The device reported a fault while it was expected to become ready.
    NotReady(String),
}

/// Result of the library's fallible operations.
pub type Result<T> = std::result::Result<T, Error>;

} // verus!
