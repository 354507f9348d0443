//! Socket addresses that convert to and from the system socket address
//! structures, and the checks made on the addresses that the kernel
//! returns.
use vstd::prelude::*;
use crate::sys::{sockaddr_l2, sockaddr_rc};

verus! {

/// Address that is convertible to and from a system socket address.
pub trait SysSockAddr: Sized {
    /// System socket address type.
    type SysSockAddr: Sized;

    /// Convert to system socket address.
    fn into_sys_sock_addr(self) -> Self::SysSockAddr;

    /// Convert from system socket address; the error is the message of the
    /// `InvalidInput` IO error.
    fn try_from_sys_sock_addr(addr: Self::SysSockAddr) -> Result<Self, &'static str>;
}

impl SysSockAddr for crate::l2cap::SocketAddr {
    type SysSockAddr = sockaddr_l2;

    fn into_sys_sock_addr(self) -> (r: sockaddr_l2)
        ensures
            crate::l2cap::is_sys_of(self, r),
    {
        self.to_sys()
    }

    fn try_from_sys_sock_addr(addr: sockaddr_l2) -> (r: Result<Self, &'static str>)
        ensures
            r is Ok <==> (addr.l2_family == crate::sys::AF_BLUETOOTH && addr.l2_bdaddr_type <= 2),
            r matches Ok(sa) ==> crate::l2cap::is_read_from_sys(addr, sa),
            r matches Err(e) ==> (addr.l2_family != crate::sys::AF_BLUETOOTH ==> e@
                == "sockaddr_l2::l2_family is not AF_BLUETOOTH"@),
            r matches Err(e) ==> (addr.l2_family == crate::sys::AF_BLUETOOTH ==> e@
                == "invalid sockaddr_l2::l2_bdaddr_type"@),
    {
        match crate::l2cap::SocketAddr::try_from_sys(addr) {
            Ok(sa) => Ok(sa),
            Err(e) => Err(e.message()),
        }
    }
}

impl SysSockAddr for crate::rfcomm::SocketAddr {
    type SysSockAddr = sockaddr_rc;

    fn into_sys_sock_addr(self) -> (r: sockaddr_rc)
        ensures
            r.rc_family == crate::sys::AF_BLUETOOTH,
            r.rc_bdaddr.b@ == crate::reversed6(self.addr@),
            r.rc_channel == self.channel,
    {
        self.to_sys()
    }

    fn try_from_sys_sock_addr(addr: sockaddr_rc) -> (r: Result<Self, &'static str>)
        ensures
            r is Ok <==> addr.rc_family == crate::sys::AF_BLUETOOTH,
            r matches Ok(sa) ==> sa.addr@ == crate::reversed6(addr.rc_bdaddr.b@) && sa.channel == addr.rc_channel,
            r matches Err(e) ==> e@ == "sockaddr_rc::rc_family is not AF_BLUETOOTH"@,
    {
        match crate::rfcomm::SocketAddr::try_from_sys(addr) {
            Ok(sa) => Ok(sa),
            Err(e) => Err(e.message()),
        }
    }
}

/// The kernel returned an address of the size of the system socket address
/// structure; any other length is the `InvalidInput` error "invalid
/// sockaddr length".
pub fn check_sockaddr_len(length: u32, expected: u32) -> (r: Result<(), &'static str>)
    ensures
        r is Ok <==> length == expected,
        r matches Err(e) ==> e@ == "invalid sockaddr length"@,
{
    if length != expected {
        Err("invalid sockaddr length")
    } else {
        Ok(())
    }
}

} // verus!
