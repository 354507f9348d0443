use bluer::l2cap::{self, FlowControl, SecurityLevel};
use bluer::rfcomm::{self, InvalidSocketAddr};
use bluer::sock::{check_sockaddr_len, SysSockAddr};
use bluer::sys::{bdaddr_t, bt_power, bt_security, sockaddr_l2, sockaddr_rc, AF_BLUETOOTH};
use bluer::{Address, AddressType};

#[test]
fn l2cap_constructors() {
    let a = Address::new([1, 2, 3, 4, 5, 6]);
    let sa = l2cap::SocketAddr::new(a, AddressType::Random, 0x1001);
    assert_eq!(sa.addr, a);
    assert_eq!(sa.addr_type, AddressType::Random);
    assert_eq!(sa.psm, 0x1001);
    assert_eq!(sa.cid, 0);
    let any = l2cap::SocketAddr::any_br_edr();
    assert_eq!((any.addr, any.addr_type, any.psm, any.cid), (Address::any(), AddressType::BrEdr, 0, 0));
    let any = l2cap::SocketAddr::any_le();
    assert_eq!((any.addr, any.addr_type, any.psm, any.cid), (Address::any(), AddressType::Public, 0, 0));
    assert_eq!(l2cap::PSM_BR_EDR_DYN_START, 0x1001);
    assert_eq!(l2cap::PSM_LE_DYN_START, 0x80);
    assert_eq!(l2cap::PSM_LE_MAX, 0xff);
}

#[test]
fn l2cap_sockaddr_roundtrip() {
    let sa = l2cap::SocketAddr::new(Address::new([0xaa, 0xbb, 0xcc, 0xdd, 0xee, 0xff]), AddressType::Public, 0x1234);
    let sys = sa.to_sys();
    assert_eq!(sys.l2_family, AF_BLUETOOTH);
    assert_eq!(sys.l2_psm, [0x34, 0x12]);
    assert_eq!(sys.l2_cid, [0, 0]);
    assert_eq!(sys.l2_bdaddr.b, [0xff, 0xee, 0xdd, 0xcc, 0xbb, 0xaa]);
    assert_eq!(sys.l2_bdaddr_type, 1);
    let back = l2cap::SocketAddr::try_from_sys(sys).unwrap();
    assert_eq!(back, sa);
}

#[test]
fn l2cap_sockaddr_errors() {
    let bad_family =
        sockaddr_l2 { l2_family: 2, l2_psm: [1, 0], l2_bdaddr: bdaddr_t { b: [0; 6] }, l2_cid: [0, 0], l2_bdaddr_type: 0 };
    let e = l2cap::SocketAddr::try_from_sys(bad_family).unwrap_err();
    assert_eq!(e, l2cap::SockAddrError::NotBluetooth);
    assert_eq!(e.message(), "sockaddr_l2::l2_family is not AF_BLUETOOTH");
    let bad_type = sockaddr_l2 { l2_family: AF_BLUETOOTH, l2_bdaddr_type: 3, ..bad_family };
    let e = l2cap::SocketAddr::try_from_sys(bad_type).unwrap_err();
    assert_eq!(e.message(), "invalid sockaddr_l2::l2_bdaddr_type");
    let err = <l2cap::SocketAddr as SysSockAddr>::try_from_sys_sock_addr(bad_type).unwrap_err();
    assert_eq!(err, "invalid sockaddr_l2::l2_bdaddr_type");
}

#[test]
fn l2cap_any_bind_addr_matches_transport() {
    let peer = l2cap::SocketAddr::new(Address::new([1; 6]), AddressType::BrEdr, 3);
    assert_eq!(l2cap::any_bind_addr(&peer), l2cap::SocketAddr::any_br_edr());
    let peer = l2cap::SocketAddr::new(Address::new([1; 6]), AddressType::Random, 3);
    assert_eq!(l2cap::any_bind_addr(&peer), l2cap::SocketAddr::any_le());
}

#[test]
fn l2cap_security_and_modes() {
    for v in 0u8..=4 {
        let s = l2cap::Security::try_from_sys(bt_security { level: v, key_size: 16 }).unwrap();
        assert_eq!(s.to_sys(), bt_security { level: v, key_size: 16 });
    }
    assert!(l2cap::Security::try_from_sys(bt_security { level: 5, key_size: 16 }).is_none());
    assert_eq!(SecurityLevel::Fips.as_u8(), 4);
    assert_eq!(FlowControl::from_u8(3), Some(FlowControl::Le));
    assert_eq!(FlowControl::from_u8(4), Some(FlowControl::Extended));
    assert_eq!(FlowControl::from_u8(0), None);
    assert_eq!(FlowControl::Extended.as_u8(), 4);
    assert_eq!(l2cap::power_option(true), bt_power { force_active: 1 });
    assert!(!l2cap::is_power_forced_active(l2cap::power_option(false)));
    assert!(l2cap::mtu_via_l2cap_opts(AddressType::BrEdr));
    assert!(!l2cap::mtu_via_l2cap_opts(AddressType::Public));
}

#[test]
fn l2cap_stream_send_len() {
    // known MTU truncates
    assert_eq!(l2cap::stream_send_len(100, 23, None), (23, 23));
    assert_eq!(l2cap::stream_send_len(10, 23, Some(99)), (10, 23));
    // queried MTU is remembered
    assert_eq!(l2cap::stream_send_len(100, 0, Some(50)), (50, 50));
    // fallback while no MTU is known
    assert_eq!(l2cap::stream_send_len(100, 0, None), (16, 0));
}

#[test]
fn rfcomm_socket_addr_text() {
    let sa = rfcomm::SocketAddr::new(Address::new([0x01, 0x23, 0x45, 0x67, 0x89, 0x0a]), 75);
    assert_eq!(sa.to_string(), "[01:23:45:67:89:0A]:75");
    let back = rfcomm::SocketAddr::from_str("[01:23:45:67:89:0a]:75").unwrap();
    assert_eq!(back, sa);
    let any = rfcomm::SocketAddr::any();
    assert_eq!(any.to_string(), "[00:00:00:00:00:00]:0");
}

#[test]
fn rfcomm_socket_addr_roundtrip() {
    for ch in [0u8, 1, 9, 10, 99, 100, 255] {
        let sa = rfcomm::SocketAddr::new(Address::new([9, 8, 7, 6, 5, 4]), ch);
        assert_eq!(rfcomm::SocketAddr::from_str(&sa.to_string()).unwrap(), sa);
    }
}

#[test]
fn rfcomm_socket_addr_errors() {
    for bad in ["", "01:23:45:67:89:0A", "[01:23:45:67:89:0A]", "01:23:45:67:89:0A]:1", "[01:23:45:67:89:0A:1",
        "[01:23:45:67:89:0A]:256", "[01:23:45:67:89]:1", "[]:1", "[:1"] {
        let e = rfcomm::SocketAddr::from_str(bad).unwrap_err();
        assert_eq!(e.0, bad);
    }
    assert_eq!(InvalidSocketAddr("x".to_string()).to_string(), "invalid RFCOMM socket address: x");
}

#[test]
fn rfcomm_sys_and_security() {
    let sa = rfcomm::SocketAddr::new(Address::new([1, 2, 3, 4, 5, 6]), 3);
    let sys = sa.to_sys();
    assert_eq!(sys, sockaddr_rc { rc_family: AF_BLUETOOTH, rc_bdaddr: bdaddr_t { b: [6, 5, 4, 3, 2, 1] }, rc_channel: 3 });
    assert_eq!(rfcomm::SocketAddr::try_from_sys(sys).unwrap(), sa);
    let bad = sockaddr_rc { rc_family: 0, ..sys };
    assert_eq!(
        <rfcomm::SocketAddr as SysSockAddr>::try_from_sys_sock_addr(bad).unwrap_err(),
        "sockaddr_rc::rc_family is not AF_BLUETOOTH"
    );
    assert_eq!(<rfcomm::SocketAddr as SysSockAddr>::into_sys_sock_addr(sa), sys);
    let s = rfcomm::Security::try_from_sys(bt_security { level: 3, key_size: 7 }).unwrap();
    assert_eq!(s.level, rfcomm::SecurityLevel::High);
    assert!(rfcomm::Security::try_from_sys(bt_security { level: 4, key_size: 7 }).is_none());
    assert_eq!(s.to_sys(), bt_security { level: 3, key_size: 7 });
}

#[test]
fn rfcomm_link_mode_and_tty() {
    assert!(rfcomm::link_mode_is_master(0x5));
    assert!(!rfcomm::link_mode_is_master(0x4));
    assert_eq!(rfcomm::link_mode_with_master(0x4, true), 0x5);
    assert_eq!(rfcomm::link_mode_with_master(0x7, false), 0x6);
    let local = rfcomm::SocketAddr::new(Address::new([1, 2, 3, 4, 5, 6]), 4);
    let remote = rfcomm::SocketAddr::new(Address::new([6, 5, 4, 3, 2, 1]), 9);
    let req = rfcomm::create_tty_request(-1, local, remote);
    assert_eq!(req.dev_id, -1);
    assert_eq!(req.flags, 1);
    assert_eq!(req.src.b, [6, 5, 4, 3, 2, 1]);
    assert_eq!(req.dst.b, [1, 2, 3, 4, 5, 6]);
    assert_eq!(req.channel, 4);
    let rel = rfcomm::release_tty_request(3);
    assert_eq!((rel.dev_id, rel.flags, rel.channel, rel.src.b), (3, 1, 0, [0; 6]));
}

#[test]
fn sockaddr_length_check() {
    assert!(check_sockaddr_len(14, 14).is_ok());
    assert_eq!(check_sockaddr_len(10, 14).unwrap_err(), "invalid sockaddr length");
}

#[test]
fn listen_backlog_fits_int() {
    assert_eq!(l2cap::listen_backlog(5), Ok(5));
    assert_eq!(l2cap::listen_backlog(i32::MAX as u32), Ok(i32::MAX));
    assert_eq!(l2cap::listen_backlog(i32::MAX as u32 + 1), Err("invalid backlog"));
}
