//! Verified core of a driver for CashCode bill validators speaking the
//! CCNET serial protocol.
//!
//! Every message travels in a frame `[SYNC][ADR][LNG][DATA...][CRC_L][CRC_H]`
//! where LNG is the total frame length and the CRC is CRC-16/KERMIT over
//! SYNC through the last DATA byte, sent least significant byte first.

pub mod bill_table;
pub mod command;
pub mod constants;
pub mod device;
pub mod error;
pub mod frame;
pub mod purchase;
pub mod receiver;
pub mod status;
pub mod text;
pub mod tools;

pub use bill_table::{BillEntry, BillTable};
pub use command::{BillMask, Command, SecurityLevel};
pub use device::Identification;
pub use error::{Error, Result};
pub use frame::{crc16, Frame};
pub use status::{DeviceState, FailureCode, RejectReason};
