//! Radio frequency communication (RFCOMM) socket addresses, their text
//! form, security settings and the link-mode and TTY requests made on
//! RFCOMM sockets.
use vstd::prelude::*;
use crate::{Address, address_parse, address_text, lemma_address_text_roundtrip, lemma_bdaddr_roundtrip, reversed6};
use crate::sys::{
    bt_security, bdaddr_t, rfcomm_dev_req, sockaddr_rc, AF_BLUETOOTH, RFCOMM_LM_MASTER,
    RFCOMM_RELEASE_ONHUP, RFCOMM_REUSE_DLC,
};
use crate::text::{
    dec_string, digit_value, free_of, lemma_dec_string_parses, lemma_rfind_at, parse_unsigned,
    parse_unsigned_str, push_dec, rfind, rfind_char,
};

pub mod profile;

verus! {

/// An RFCOMM socket address.
///
/// Its text form is `[01:23:45:67:89:0A]:75`: the Bluetooth address in
/// brackets, a colon and the channel number.
#[derive(Clone, Copy, Debug, PartialEq, Eq)]
pub struct SocketAddr {
    /// Device address; `Address::any` for any local adapter address.
    pub addr: Address,
    /// Channel number.
    pub channel: u8,
}

/// Text form of an RFCOMM socket address.
pub open spec fn socket_addr_text(addr: Seq<u8>, channel: u8) -> Seq<char> {
    seq!['['] + address_text(addr) + seq![']', ':'] + dec_string(channel as nat)
}

/// Parse of the text form: the part after the last `:` is the channel, a
/// decimal `u8`; the part before it is an address in brackets.
pub open spec fn socket_addr_parse(s: Seq<char>) -> Option<(Seq<u8>, u8)> {
    match rfind(s, ':') {
        None => None,
        Some(k) => {
            let a = s.take(k);
            let ch = s.skip(k + 1);
            if a.len() >= 2 && a[0] == '[' && a.last() == ']' {
                match (address_parse(a.subrange(1, a.len() - 1)), parse_unsigned(ch, 10, 255)) {
                    (Ok(bytes), Some(c)) => Some((bytes, c as u8)),
                    _ => None,
                }
            } else {
                None
            }
        },
    }
}

impl SocketAddr {
    /// Creates a new RFCOMM socket address.
    pub fn new(addr: Address, channel: u8) -> (r: Self)
        ensures
            r.addr == addr,
            r.channel == channel,
    {
        Self { addr, channel }
    }

    /// Any local adapter address and a dynamically allocated channel.
    pub fn any() -> (r: Self)
        ensures
            r.addr@ == crate::l2cap::zero_address(),
            r.channel == 0,
    {
        let a = Address::any();
        assert(a@ =~= crate::l2cap::zero_address());
        Self { addr: a, channel: 0 }
    }

    /// The text form `[XX:XX:XX:XX:XX:XX]:channel` (the `Display` form).
    pub fn to_string(&self) -> (r: String)
        ensures
            r@ == socket_addr_text(self.addr@, self.channel),
    {
        let mut s = String::from_str("[");
        let a = self.addr.to_string();
        s.append(a.as_str());
        s.append("]:");
        push_dec(&mut s, self.channel as u64);
        proof {
            reveal_strlit("[");
            reveal_strlit("]:");
        }
        assert(s@ =~= socket_addr_text(self.addr@, self.channel));
        s
    }

    /// Parses the text form (the `FromStr` form); the error holds the whole
    /// text.
    pub fn from_str(s: &str) -> (r: Result<SocketAddr, InvalidSocketAddr>)
        ensures
            r matches Ok(sa) ==> socket_addr_parse(s@) == Some((sa.addr@, sa.channel)),
            r matches Err(e) ==> socket_addr_parse(s@) is None && e.0@ == s@,
    {
        let n = s.unicode_len();
        let k = match rfind_char(s, ':') {
            None => return Err(InvalidSocketAddr(s.to_owned())),
            Some(k) => k,
        };
        proof {
            crate::text::lemma_rfind(s@, ':');
        }
        let a = s.substring_char(0, k);
        let ch = s.substring_char(k + 1, n);
        assert(a@ =~= s@.take(k as int));
        assert(ch@ =~= s@.skip(k + 1));
        let m = a.unicode_len();
        if m < 2 || a.get_char(0) != '[' || a.get_char(m - 1) != ']' {
            return Err(InvalidSocketAddr(s.to_owned()));
        }
        let inner = a.substring_char(1, m - 1);
        match Address::from_str(inner) {
            Err(_) => Err(InvalidSocketAddr(s.to_owned())),
            Ok(addr) => match parse_unsigned_str(ch, 10, 255) {
                None => Err(InvalidSocketAddr(s.to_owned())),
                Some(c) => Ok(SocketAddr { addr, channel: c as u8 }),
            },
        }
    }

    /// The system socket address (`into_sys_sock_addr`).
    pub fn to_sys(self) -> (r: sockaddr_rc)
        ensures
            r.rc_family == AF_BLUETOOTH,
            r.rc_bdaddr.b@ == reversed6(self.addr@),
            r.rc_channel == self.channel,
    {
        sockaddr_rc { rc_family: AF_BLUETOOTH, rc_bdaddr: self.addr.to_bdaddr(), rc_channel: self.channel }
    }

    /// The socket address that a system socket address stands for
    /// (`try_from_sys_sock_addr`); fails on another address family.
    pub fn try_from_sys(saddr: sockaddr_rc) -> (r: Result<SocketAddr, SockAddrError>)
        ensures
            saddr.rc_family != AF_BLUETOOTH ==> r == Err::<SocketAddr, SockAddrError>(SockAddrError::NotBluetooth),
            saddr.rc_family == AF_BLUETOOTH ==> (r matches Ok(sa) && sa.addr@ == reversed6(saddr.rc_bdaddr.b@)
                && sa.channel == saddr.rc_channel),
    {
        if saddr.rc_family != AF_BLUETOOTH {
            return Err(SockAddrError::NotBluetooth);
        }
        Ok(Self { addr: Address::from_bdaddr(saddr.rc_bdaddr), channel: saddr.rc_channel })
    }
}

/// Reasons why a system socket address is no RFCOMM socket address.
#[derive(Clone, Copy, Debug, PartialEq, Eq, Structural)]
pub enum SockAddrError {
    /// The address family is not `AF_BLUETOOTH`.
    NotBluetooth,
}

impl SockAddrError {
    /// The message of the `InvalidInput` IO error that reports it.
    pub fn message(&self) -> (r: &'static str)
        ensures
            r@ == "sockaddr_rc::rc_family is not AF_BLUETOOTH"@,
    {
        "sockaddr_rc::rc_family is not AF_BLUETOOTH"
    }
}

/// Invalid RFCOMM socket address error, holding the offending text.
#[derive(Clone, Debug)]
pub struct InvalidSocketAddr(pub String);

impl InvalidSocketAddr {
    /// The error message (the `Display` form).
    pub fn to_string(&self) -> (r: String)
        ensures
            r@ == "invalid RFCOMM socket address: "@ + self.0@,
    {
        let mut r = String::from_str("invalid RFCOMM socket address: ");
        r.append(self.0.as_str());
        r
    }
}

/// The text form of an RFCOMM socket address parses back to the address
/// and channel.
pub proof fn lemma_socket_addr_text_roundtrip(addr: Seq<u8>, channel: u8)
    requires
        addr.len() == 6,
    ensures
        socket_addr_parse(socket_addr_text(addr, channel)) == Some((addr, channel)),
{
    let at = address_text(addr);
    let ds = dec_string(channel as nat);
    let s = socket_addr_text(addr, channel);
    let k: int = at.len() as int + 2;
    lemma_dec_string_parses(channel as nat, 255);
    assert(digit_value(':', 10) is None);
    assert(free_of(ds, ':'));
    assert(s[k] == ':');
    assert forall|i: int| k < i < s.len() implies s[i] != ':' by {
        assert(s[i] == ds[i - k - 1]);
    }
    lemma_rfind_at(s, ':', k);
    let a = s.take(k);
    assert(a =~= seq!['['] + at + seq![']']);
    assert(a.subrange(1, a.len() - 1) =~= at);
    assert(s.skip(k + 1) =~= ds);
    lemma_address_text_roundtrip(addr);
}

/// Reading back the system form of a socket address gives the same
/// address and channel.
pub proof fn lemma_sockaddr_rc_roundtrip(sa: SocketAddr, s: sockaddr_rc, back: SocketAddr)
    requires
        s.rc_bdaddr.b@ == reversed6(sa.addr@),
        s.rc_channel == sa.channel,
        back.addr@ == reversed6(s.rc_bdaddr.b@),
        back.channel == s.rc_channel,
    ensures
        back.addr@ == sa.addr@,
        back.channel == sa.channel,
{
    lemma_bdaddr_roundtrip(sa.addr@);
}

/// RFCOMM socket security level.
#[derive(Clone, Copy, Debug, PartialEq, Eq, Structural)]
pub enum SecurityLevel {
    /// Insecure.
    Sdp,
    /// Low.
    Low,
    /// Medium.
    Medium,
    /// High.
    High,
}

/// Numeric value of a security level (`BT_SECURITY_*`).
pub open spec fn security_level_value(l: SecurityLevel) -> u8 {
    match l {
        SecurityLevel::Sdp => 0,
        SecurityLevel::Low => 1,
        SecurityLevel::Medium => 2,
        SecurityLevel::High => 3,
    }
}

impl SecurityLevel {
    /// Numeric value.
    pub fn as_u8(self) -> (r: u8)
        ensures
            r == security_level_value(self),
    {
        match self {
            SecurityLevel::Sdp => 0,
            SecurityLevel::Low => 1,
            SecurityLevel::Medium => 2,
            SecurityLevel::High => 3,
        }
    }

    /// The level with a numeric value, if any.
    pub fn from_u8(v: u8) -> (r: Option<SecurityLevel>)
        ensures
            r matches Some(l) ==> security_level_value(l) == v,
            r is None <==> v > 3,
    {
        match v {
            0 => Some(SecurityLevel::Sdp),
            1 => Some(SecurityLevel::Low),
            2 => Some(SecurityLevel::Medium),
            3 => Some(SecurityLevel::High),
            _ => None,
        }
    }
}

/// RFCOMM socket security.
#[derive(Clone, Copy, Debug, PartialEq, Eq, Structural)]
pub struct Security {
    /// Level.
    pub level: SecurityLevel,
    /// Key size.
    pub key_size: u8,
}

impl Security {
    /// The `BT_SECURITY` socket option value.
    pub fn to_sys(self) -> (r: bt_security)
        ensures
            r.level == security_level_value(self.level),
            r.key_size == self.key_size,
    {
        bt_security { level: self.level.as_u8(), key_size: self.key_size }
    }

    /// The security that a `BT_SECURITY` value stands for; `None` for an
    /// unknown level.
    pub fn try_from_sys(value: bt_security) -> (r: Option<Security>)
        ensures
            r is None <==> value.level > 3,
            r matches Some(s) ==> security_level_value(s.level) == value.level && s.key_size == value.key_size,
    {
        match SecurityLevel::from_u8(value.level) {
            Some(level) => Some(Security { level, key_size: value.key_size }),
            None => None,
        }
    }
}

/// Reading back the socket option value of a security gives it back.
pub proof fn lemma_rfcomm_security_roundtrip(s: Security, v: bt_security, back: Security)
    requires
        v.level == security_level_value(s.level),
        v.key_size == s.key_size,
        security_level_value(back.level) == v.level,
        back.key_size == v.key_size,
    ensures
        back == s,
{
}

/// Whether the master bit is set in an `RFCOMM_LM` link mode.
pub fn link_mode_is_master(opt: u32) -> (r: bool)
    ensures
        r == (opt & RFCOMM_LM_MASTER != 0),
{
    opt & RFCOMM_LM_MASTER != 0
}

/// The link mode with the master bit set or cleared and every other bit
/// kept.
pub fn link_mode_with_master(opt: u32, master: bool) -> (r: u32)
    ensures
        master ==> r == opt | RFCOMM_LM_MASTER,
        !master ==> r == opt & !RFCOMM_LM_MASTER,
{
    if master {
        opt | RFCOMM_LM_MASTER
    } else {
        opt & !RFCOMM_LM_MASTER
    }
}

/// Setting the master bit and reading it gives what was set, and leaves
/// every other bit alone.
pub proof fn lemma_link_mode_master(opt: u32, master: bool)
    ensures
        (if master { opt | 1u32 } else { opt & !1u32 }) & 1u32 != 0 <==> master,
        (if master { opt | 1u32 } else { opt & !1u32 }) & !1u32 == opt & !1u32,
{
    if master {
        assert((opt | 1u32) & 1u32 != 0) by (bit_vector);
        assert((opt | 1u32) & !1u32 == opt & !1u32) by (bit_vector);
    } else {
        assert((opt & !1u32) & 1u32 == 0) by (bit_vector);
        assert((opt & !1u32) & !1u32 == opt & !1u32) by (bit_vector);
    }
}

/// Flags of the TTY requests: reuse the link, release on hang-up.
pub open spec fn tty_flags() -> u32 {
    RFCOMM_REUSE_DLC | RFCOMM_RELEASE_ONHUP
}

/// The request that creates a TTY for a connection between a local and a
/// remote socket address (`RFCOMMCREATEDEV`).
pub fn create_tty_request(dev_id: i16, local: SocketAddr, remote: SocketAddr) -> (r: rfcomm_dev_req)
    ensures
        r.dev_id == dev_id,
        r.flags == tty_flags(),
        r.src.b@ == reversed6(local.addr@),
        r.dst.b@ == reversed6(remote.addr@),
        r.channel == local.channel,
{
    rfcomm_dev_req {
        dev_id,
        flags: RFCOMM_REUSE_DLC | RFCOMM_RELEASE_ONHUP,
        src: local.addr.to_bdaddr(),
        dst: remote.addr.to_bdaddr(),
        channel: local.channel,
    }
}

/// The request that releases a TTY (`RFCOMMRELEASEDEV`): the other fields
/// are zero.
pub fn release_tty_request(dev_id: i16) -> (r: rfcomm_dev_req)
    ensures
        r.dev_id == dev_id,
        r.flags == tty_flags(),
        r.src.b@ == Seq::new(6, |i: int| 0u8),
        r.dst.b@ == Seq::new(6, |i: int| 0u8),
        r.channel == 0,
{
    let r = rfcomm_dev_req {
        dev_id,
        flags: RFCOMM_REUSE_DLC | RFCOMM_RELEASE_ONHUP,
        src: bdaddr_t { b: [0u8; 6] },
        dst: bdaddr_t { b: [0u8; 6] },
        channel: 0,
    };
    assert(r.src.b@ =~= Seq::new(6, |i: int| 0u8));
    assert(r.dst.b@ =~= Seq::new(6, |i: int| 0u8));
    r
}

} // verus!
