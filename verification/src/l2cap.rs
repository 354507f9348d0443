//! Logical Link Control and Adaptation Protocol (L2CAP) socket addresses,
//! security and flow control settings, and the choices the socket layer
//! makes with them.
use vstd::prelude::*;
use crate::{Address, AddressType, address_type_value, reversed6};
use crate::sys::{
    bt_power, bt_security, le_bytes, le_value, from_le_bytes, sockaddr_l2, to_le_bytes,
    AF_BLUETOOTH, BT_POWER_FORCE_ACTIVE_OFF, BT_POWER_FORCE_ACTIVE_ON,
};

verus! {

/// First unprivileged protocol service multiplexor (PSM) for classic
/// Bluetooth (BR/EDR).
pub const PSM_BR_EDR_DYN_START: u16 = 0x1001;

/// First unprivileged protocol service multiplexor (PSM) for Bluetooth LE.
pub const PSM_LE_DYN_START: u16 = 0x80;

/// The highest protocol service multiplexor (PSM) for Bluetooth Low Energy.
pub const PSM_LE_MAX: u16 = 0xff;

/// An L2CAP socket address.
#[derive(Clone, Copy, Debug, PartialEq, Eq)]
pub struct SocketAddr {
    /// Device address; `Address::any` for any local adapter address.
    pub addr: Address,
    /// Device address type.
    pub addr_type: AddressType,
    /// Protocol service multiplexor (PSM); 0 when listening assigns one.
    pub psm: u16,
    /// Connection identifier (CID); should be 0.
    pub cid: u16,
}

/// The any address `00:00:00:00:00:00`.
pub open spec fn zero_address() -> Seq<u8> {
    Seq::new(6, |i: int| 0u8)
}

impl SocketAddr {
    /// Creates a new L2CAP socket address.
    pub fn new(addr: Address, addr_type: AddressType, psm: u16) -> (r: Self)
        ensures
            r.addr == addr,
            r.addr_type == addr_type,
            r.psm == psm,
            r.cid == 0,
    {
        Self { addr, addr_type, psm, cid: 0 }
    }

    /// Any local adapter address using classic Bluetooth (BR/EDR) and a
    /// dynamically allocated PSM.
    pub fn any_br_edr() -> (r: Self)
        ensures
            r.addr@ == zero_address(),
            r.addr_type == AddressType::BrEdr,
            r.psm == 0,
            r.cid == 0,
    {
        Self { addr: Address::any(), addr_type: AddressType::BrEdr, psm: 0, cid: 0 }
    }

    /// Any public, local adapter address using Bluetooth Low Energy and a
    /// dynamically allocated PSM.
    pub fn any_le() -> (r: Self)
        ensures
            r.addr@ == zero_address(),
            r.addr_type == AddressType::Public,
            r.psm == 0,
            r.cid == 0,
    {
        Self { addr: Address::any(), addr_type: AddressType::Public, psm: 0, cid: 0 }
    }

    /// The system socket address (`From<SocketAddr> for sockaddr_l2`).
    pub fn to_sys(self) -> (r: sockaddr_l2)
        ensures
            is_sys_of(self, r),
    {
        sockaddr_l2 {
            l2_family: AF_BLUETOOTH,
            l2_psm: to_le_bytes(self.psm),
            l2_cid: to_le_bytes(self.cid),
            l2_bdaddr: self.addr.to_bdaddr(),
            l2_bdaddr_type: self.addr_type.as_u8(),
        }
    }

    /// The socket address that a system socket address stands for
    /// (`TryFrom<sockaddr_l2>`); fails on another address family or an
    /// unknown address type.
    pub fn try_from_sys(saddr: sockaddr_l2) -> (r: Result<SocketAddr, SockAddrError>)
        ensures
            saddr.l2_family != AF_BLUETOOTH ==> r == Err::<SocketAddr, SockAddrError>(SockAddrError::NotBluetooth),
            saddr.l2_family == AF_BLUETOOTH && saddr.l2_bdaddr_type > 2
                ==> r == Err::<SocketAddr, SockAddrError>(SockAddrError::InvalidAddressType),
            r matches Ok(sa) ==> saddr.l2_family == AF_BLUETOOTH && is_read_from_sys(saddr, sa),
            (saddr.l2_family == AF_BLUETOOTH && saddr.l2_bdaddr_type <= 2) ==> r is Ok,
    {
        if saddr.l2_family != AF_BLUETOOTH {
            return Err(SockAddrError::NotBluetooth);
        }
        let addr_type = match AddressType::from_u8(saddr.l2_bdaddr_type) {
            Some(t) => t,
            None => return Err(SockAddrError::InvalidAddressType),
        };
        Ok(Self {
            addr: Address::from_bdaddr(saddr.l2_bdaddr),
            addr_type,
            psm: from_le_bytes(saddr.l2_psm),
            cid: from_le_bytes(saddr.l2_cid),
        })
    }
}

/// Reasons why a system socket address is no L2CAP socket address.
#[derive(Clone, Copy, Debug, PartialEq, Eq, Structural)]
pub enum SockAddrError {
    /// The address family is not `AF_BLUETOOTH`.
    NotBluetooth,
    /// The address type is unknown.
    InvalidAddressType,
}

impl SockAddrError {
    /// The message of the `InvalidInput` IO error that reports it.
    pub fn message(&self) -> (r: &'static str)
        ensures
            *self == SockAddrError::NotBluetooth ==> r@ == "sockaddr_l2::l2_family is not AF_BLUETOOTH"@,
            *self == SockAddrError::InvalidAddressType ==> r@ == "invalid sockaddr_l2::l2_bdaddr_type"@,
    {
        match self {
            SockAddrError::NotBluetooth => "sockaddr_l2::l2_family is not AF_BLUETOOTH",
            SockAddrError::InvalidAddressType => "invalid sockaddr_l2::l2_bdaddr_type",
        }
    }
}

/// `s` is the system form of `sa`: the Bluetooth family, the PSM and CID
/// as little-endian bytes, the address bytes reversed and the numeric
/// address type.
pub open spec fn is_sys_of(sa: SocketAddr, s: sockaddr_l2) -> bool {
    &&& s.l2_family == AF_BLUETOOTH
    &&& s.l2_psm@ == le_bytes(sa.psm)
    &&& s.l2_cid@ == le_bytes(sa.cid)
    &&& s.l2_bdaddr.b@ == reversed6(sa.addr@)
    &&& s.l2_bdaddr_type == address_type_value(sa.addr_type)
}

/// `sa` is what the system form `s` reads as.
pub open spec fn is_read_from_sys(s: sockaddr_l2, sa: SocketAddr) -> bool {
    &&& sa.addr@ == reversed6(s.l2_bdaddr.b@)
    &&& address_type_value(sa.addr_type) == s.l2_bdaddr_type
    &&& sa.psm == le_value(s.l2_psm@)
    &&& sa.cid == le_value(s.l2_cid@)
}

/// Converting a socket address to the system form and reading it back
/// gives the same address, type, PSM and CID; the system form is always
/// readable.
pub proof fn lemma_sockaddr_roundtrip(sa: SocketAddr, s: sockaddr_l2, back: SocketAddr)
    requires
        is_sys_of(sa, s),
        is_read_from_sys(s, back),
    ensures
        s.l2_family == AF_BLUETOOTH && s.l2_bdaddr_type <= 2,
        back.addr@ == sa.addr@,
        back.addr_type == sa.addr_type,
        back.psm == sa.psm,
        back.cid == sa.cid,
{
    crate::lemma_bdaddr_roundtrip(sa.addr@);
    crate::lemma_address_type_value_roundtrip(sa.addr_type);
}

/// Any bind address for connecting to the specified address: classic for a
/// classic peer, LE for an LE peer.
pub fn any_bind_addr(addr: &SocketAddr) -> (r: SocketAddr)
    ensures
        r.addr@ == zero_address(),
        r.psm == 0,
        r.cid == 0,
        addr.addr_type == AddressType::BrEdr ==> r.addr_type == AddressType::BrEdr,
        addr.addr_type != AddressType::BrEdr ==> r.addr_type == AddressType::Public,
{
    match addr.addr_type {
        AddressType::BrEdr => SocketAddr::any_br_edr(),
        AddressType::Public | AddressType::Random => SocketAddr::any_le(),
    }
}

/// L2CAP socket security level.
#[derive(Clone, Copy, Debug, PartialEq, Eq, Structural)]
pub enum SecurityLevel {
    /// Insecure.
    Sdp,
    /// Low: authentication is requested.
    Low,
    /// Medium.
    Medium,
    /// High.
    High,
    /// FIPS.
    Fips,
}

/// Numeric value of a security level.
pub open spec fn security_level_value(l: SecurityLevel) -> u8 {
    match l {
        SecurityLevel::Sdp => 0,
        SecurityLevel::Low => 1,
        SecurityLevel::Medium => 2,
        SecurityLevel::High => 3,
        SecurityLevel::Fips => 4,
    }
}

impl SecurityLevel {
    /// Numeric value (`as u8`).
    pub fn as_u8(self) -> (r: u8)
        ensures
            r == security_level_value(self),
    {
        match self {
            SecurityLevel::Sdp => 0,
            SecurityLevel::Low => 1,
            SecurityLevel::Medium => 2,
            SecurityLevel::High => 3,
            SecurityLevel::Fips => 4,
        }
    }

    /// The level with the given value (`FromPrimitive`).
    pub fn from_u8(v: u8) -> (r: Option<SecurityLevel>)
        ensures
            r matches Some(l) ==> security_level_value(l) == v,
            r is None <==> v > 4,
    {
        match v {
            0 => Some(SecurityLevel::Sdp),
            1 => Some(SecurityLevel::Low),
            2 => Some(SecurityLevel::Medium),
            3 => Some(SecurityLevel::High),
            4 => Some(SecurityLevel::Fips),
            _ => None,
        }
    }
}

/// L2CAP socket security.
#[derive(Clone, Copy, Debug, PartialEq, Eq, Structural)]
pub struct Security {
    /// Level.
    pub level: SecurityLevel,
    /// Key size.
    pub key_size: u8,
}

impl Security {
    /// The socket option value (`From<Security> for bt_security`).
    pub fn to_sys(self) -> (r: bt_security)
        ensures
            r.level == security_level_value(self.level),
            r.key_size == self.key_size,
    {
        bt_security { level: self.level.as_u8(), key_size: self.key_size }
    }

    /// The security that a socket option value stands for
    /// (`TryFrom<bt_security>`); `None` for an unknown level.
    pub fn try_from_sys(value: bt_security) -> (r: Option<Security>)
        ensures
            r is None <==> value.level > 4,
            r matches Some(s) ==> security_level_value(s.level) == value.level && s.key_size
                == value.key_size,
    {
        match SecurityLevel::from_u8(value.level) {
            Some(level) => Some(Security { level, key_size: value.key_size }),
            None => None,
        }
    }
}

/// Converting security settings to the socket option and back gives them
/// back.
pub proof fn lemma_security_roundtrip(s: Security)
    ensures
        security_level_value(s.level) <= 4,
        forall|l: SecurityLevel| #[trigger] security_level_value(l) == security_level_value(s.level) ==> l
            == s.level,
{
}

/// L2CAP socket flow control mode.
#[derive(Clone, Copy, Debug, PartialEq, Eq, Structural)]
pub enum FlowControl {
    /// LE flow control.
    Le,
    /// Extended flow control.
    Extended,
}

impl FlowControl {
    /// Numeric value of the mode (`as u8`).
    pub fn as_u8(self) -> (r: u8)
        ensures
            self == FlowControl::Le ==> r == 3,
            self == FlowControl::Extended ==> r == 4,
    {
        match self {
            FlowControl::Le => 3,
            FlowControl::Extended => 4,
        }
    }

    /// The mode with the given value (`FromPrimitive`).
    pub fn from_u8(v: u8) -> (r: Option<FlowControl>)
        ensures
            v == 3 ==> r == Some(FlowControl::Le),
            v == 4 ==> r == Some(FlowControl::Extended),
            (v != 3 && v != 4) ==> r is None,
    {
        if v == 3 {
            Some(FlowControl::Le)
        } else if v == 4 {
            Some(FlowControl::Extended)
        } else {
            None
        }
    }
}

/// The `BT_POWER` option value for the forced-active setting.
pub fn power_option(power_forced_active: bool) -> (r: bt_power)
    ensures
        r.force_active == (if power_forced_active {
            BT_POWER_FORCE_ACTIVE_ON
        } else {
            BT_POWER_FORCE_ACTIVE_OFF
        }),
{
    bt_power {
        force_active: if power_forced_active {
            BT_POWER_FORCE_ACTIVE_ON
        } else {
            BT_POWER_FORCE_ACTIVE_OFF
        },
    }
}

/// Whether a `BT_POWER` option value means forced active.
pub fn is_power_forced_active(value: bt_power) -> (r: bool)
    ensures
        r == (value.force_active == BT_POWER_FORCE_ACTIVE_ON),
{
    value.force_active == BT_POWER_FORCE_ACTIVE_ON
}

/// Whether the MTU options of a socket bound with this address type are
/// read and written through the raw L2CAP options (classic sockets) rather
/// than the `BT_SNDMTU`/`BT_RCVMTU` socket options.
pub fn mtu_via_l2cap_opts(addr_type: AddressType) -> (r: bool)
    ensures
        r == (addr_type == AddressType::BrEdr),
{
    match addr_type {
        AddressType::BrEdr => true,
        _ => false,
    }
}

/// MTU assumed for sending while the send MTU is not available yet.
pub const SEND_MTU_FALLBACK: usize = 16;

/// How much of a write of `buf_len` bytes a stream socket sends, and the
/// send MTU to remember afterwards.  `cached_mtu` is the remembered MTU
/// (0 while none is known); `queried` is the send MTU reported by the
/// socket when it was asked (only asked while none is known).  Writes are
/// truncated to the MTU, or to 16 bytes while it is not available.
pub fn stream_send_len(buf_len: usize, cached_mtu: usize, queried: Option<u16>) -> (r: (usize, usize))
    ensures
        cached_mtu != 0 ==> r == (if buf_len < cached_mtu { buf_len } else { cached_mtu }, cached_mtu),
        cached_mtu == 0 ==> match queried {
            Some(m) => r == (if buf_len < m as usize { buf_len } else { m as usize }, m as usize),
            None => r == (if buf_len < SEND_MTU_FALLBACK { buf_len } else { SEND_MTU_FALLBACK }, 0usize),
        },
{
    let mtu = if cached_mtu != 0 {
        cached_mtu
    } else {
        match queried {
            Some(m) => m as usize,
            None => SEND_MTU_FALLBACK,
        }
    };
    let keep = if cached_mtu != 0 {
        cached_mtu
    } else {
        match queried {
            Some(m) => m as usize,
            None => 0,
        }
    };
    let len = if buf_len < mtu {
        buf_len
    } else {
        mtu
    };
    (len, keep)
}

} // verus!

verus! {

/// The backlog handed to `listen`: the number of pending connections that
/// the system queues, as the C `int` that the call takes; a backlog beyond
/// `i32::MAX` is refused as an invalid input with the message "invalid
/// backlog".
pub fn listen_backlog(backlog: u32) -> (r: Result<i32, &'static str>)
    ensures
        backlog <= i32::MAX ==> r == Ok::<i32, &'static str>(backlog as i32),
        backlog > i32::MAX ==> (r matches Err(m) && m@ == "invalid backlog"@),
{
    if backlog <= 0x7fff_ffff {
        Ok(backlog as i32)
    } else {
        Err("invalid backlog")
    }
}

} // verus!
