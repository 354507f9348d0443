//! Common advertising data types for `Pattern::data_type`.
use vstd::prelude::*;

verus! {

/// Flags: settings such as the BR/EDR and LE modes.
pub const FLAGS: u8 = 0x01;
/// Incomplete list of 16-bit service class UUIDs.
pub const INCOMPLETE_LIST_16_BIT_SERVICE_CLASS_UUIDS: u8 = 0x02;
/// Complete list of 16-bit service class UUIDs.
pub const COMPLETE_LIST_16_BIT_SERVICE_CLASS_UUIDS: u8 = 0x03;
/// Incomplete list of 32-bit service class UUIDs.
pub const INCOMPLETE_LIST_32_BIT_SERVICE_CLASS_UUIDS: u8 = 0x04;
/// Complete list of 32-bit service class UUIDs.
pub const COMPLETE_LIST_32_BIT_SERVICE_CLASS_UUIDS: u8 = 0x05;
/// Incomplete list of 128-bit service class UUIDs.
pub const INCOMPLETE_LIST_128_BIT_SERVICE_CLASS_UUIDS: u8 = 0x06;
/// Complete list of 128-bit service class UUIDs.
pub const COMPLETE_LIST_128_BIT_SERVICE_CLASS_UUIDS: u8 = 0x07;
/// Shortened local name.
pub const SHORTENED_LOCAL_NAME: u8 = 0x08;
/// Complete local name.
pub const COMPLETE_LOCAL_NAME: u8 = 0x09;
/// TX power level.
pub const TX_POWER_LEVEL: u8 = 0x0A;
/// Manufacturer specific data.
pub const MANUFACTURER_SPECIFIC_DATA: u8 = 0xFF;

} // verus!
