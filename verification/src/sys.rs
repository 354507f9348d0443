//! System socket interface types and constants of the Linux Bluetooth
//! stack, as plain values.  Fields that the kernel reads as little-endian
//! 16-bit numbers are held as their two bytes, low byte first.
#![allow(non_camel_case_types)]
use vstd::prelude::*;

verus! {

/// Address family of Bluetooth sockets (`AF_BLUETOOTH` on Linux).
pub const AF_BLUETOOTH: u16 = 31;

/// Bluetooth socket security option.
#[derive(Clone, Copy, Debug, PartialEq, Eq, Structural)]
pub struct bt_security {
    /// Security level.
    pub level: u8,
    /// Key size.
    pub key_size: u8,
}

/// `BT_SECURITY` socket option name.
pub const BT_SECURITY: i32 = 4;
/// Security level: insecure (SDP only).
pub const BT_SECURITY_SDP: u8 = 0;
/// Security level: low.
pub const BT_SECURITY_LOW: u8 = 1;
/// Security level: medium.
pub const BT_SECURITY_MEDIUM: u8 = 2;
/// Security level: high.
pub const BT_SECURITY_HIGH: u8 = 3;
/// Security level: FIPS.
pub const BT_SECURITY_FIPS: u8 = 4;

/// Bluetooth socket power option.
#[derive(Clone, Copy, Debug, PartialEq, Eq, Structural)]
pub struct bt_power {
    /// Forced active state.
    pub force_active: u8,
}

/// `BT_POWER` socket option name.
pub const BT_POWER: i32 = 9;
/// Power not forced active.
pub const BT_POWER_FORCE_ACTIVE_OFF: u8 = 0;
/// Power forced active.
pub const BT_POWER_FORCE_ACTIVE_ON: u8 = 1;

/// `BT_SNDMTU` socket option name.
pub const BT_SNDMTU: i32 = 12;
/// `BT_RCVMTU` socket option name.
pub const BT_RCVMTU: i32 = 13;
/// `BT_MODE` socket option name.
pub const BT_MODE: i32 = 15;
/// L2CAP protocol number.
pub const BTPROTO_L2CAP: i32 = 0;

/// Bluetooth device address in kernel byte order (least significant byte
/// first).
#[derive(Clone, Copy, Debug, PartialEq, Eq)]
pub struct bdaddr_t {
    /// Address bytes.
    pub b: [u8; 6],
}

/// Address type: classic (BR/EDR).
pub const BDADDR_BREDR: u8 = 0x00;
/// Address type: LE public.
pub const BDADDR_LE_PUBLIC: u8 = 0x01;
/// Address type: LE random.
pub const BDADDR_LE_RANDOM: u8 = 0x02;

/// L2CAP socket address.
#[derive(Clone, Copy, Debug, PartialEq, Eq)]
pub struct sockaddr_l2 {
    /// Address family.
    pub l2_family: u16,
    /// Protocol service multiplexor, little-endian.
    pub l2_psm: [u8; 2],
    /// Device address.
    pub l2_bdaddr: bdaddr_t,
    /// Connection identifier, little-endian.
    pub l2_cid: [u8; 2],
    /// Device address type.
    pub l2_bdaddr_type: u8,
}

/// The two bytes of `v`, low byte first.
pub open spec fn le_bytes(v: u16) -> Seq<u8> {
    seq![(v % 256) as u8, (v / 256) as u8]
}

/// The value of two bytes, low byte first.
pub open spec fn le_value(b: Seq<u8>) -> u16 {
    (b[0] + b[1] * 256) as u16
}

/// `u16::to_le_bytes`.
pub fn to_le_bytes(v: u16) -> (r: [u8; 2])
    ensures
        r@ == le_bytes(v),
{
    let r = [(v % 256) as u8, (v / 256) as u8];
    assert(r@ =~= le_bytes(v));
    r
}

/// `u16::from_le_bytes`.
pub fn from_le_bytes(b: [u8; 2]) -> (r: u16)
    ensures
        r == le_value(b@),
{
    (b[0] as u16) + (b[1] as u16) * 256
}

/// Reading the bytes of a value gives the value back.
pub proof fn lemma_le_roundtrip(v: u16)
    ensures
        le_value(le_bytes(v)) == v,
{
}

/// RFCOMM protocol number.
pub const BTPROTO_RFCOMM: i32 = 3;
/// RFCOMM socket option level.
pub const SOL_RFCOMM: i32 = 18;
/// `RFCOMM_CONNINFO` socket option name.
pub const RFCOMM_CONNINFO: i32 = 0x02;
/// `RFCOMM_LM` (link mode) socket option name.
pub const RFCOMM_LM: i32 = 0x03;
/// Link mode bit: master.
pub const RFCOMM_LM_MASTER: u32 = 0x0001;
/// TTY flag number: reuse the data link connection.
pub const RFCOMM_REUSE_DLC: u32 = 0;
/// TTY flag number: release the TTY on hang-up.
pub const RFCOMM_RELEASE_ONHUP: u32 = 1;

/// RFCOMM socket address.
#[derive(Clone, Copy, Debug, PartialEq, Eq)]
pub struct sockaddr_rc {
    /// Address family.
    pub rc_family: u16,
    /// Device address.
    pub rc_bdaddr: bdaddr_t,
    /// Channel number.
    pub rc_channel: u8,
}

/// Request to create or release an RFCOMM TTY.
#[derive(Clone, Copy, Debug, PartialEq, Eq)]
pub struct rfcomm_dev_req {
    /// Device id; -1 to allocate one.
    pub dev_id: i16,
    /// Flags.
    pub flags: u32,
    /// Local address.
    pub src: bdaddr_t,
    /// Remote address.
    pub dst: bdaddr_t,
    /// Channel number.
    pub channel: u8,
}

} // verus!
