use std::collections::BTreeMap;
use bluer::tools::blumon::device_line;
use bluer::adapter::AdapterEvent;
use bluer::adv::Type;
use bluer::rfcomm::profile::{Channel, Role};
use bluer::tools::bluadv::{select_adapter, tool_advertisement, AdvertisementType, ManufacturerData, ServiceData};
use bluer::tools::blumon::{ago_bar_len, fit_to_width, is_stale, manufacturer_column, rssi_bar_len, DeviceMonitor};
use bluer::tools::io_loop::{io_buffer_size, io_continues, io_start, io_step, IoAction, IoConfig, IoEvent, IoState};
use bluer::tools::{l2cat, rfcat};
use bluer::{Address, AddressType};

fn addr(last: u8) -> Address {
    Address::new([0x00, 0x1a, 0x7d, 0xda, 0x71, last])
}

#[test]
fn io_loop_forwards_until_both_ends_close() {
    let cfg = IoConfig { is_std: true, remote_read_required: false, local_read_required: false };
    let st = io_start();
    assert_eq!(st, IoState { remote_read: true, remote_write: true, local_read: true, local_write: true });
    assert_eq!(io_step(cfg, st, IoEvent::RemoteData), (st, IoAction::WriteLocal));
    assert_eq!(io_step(cfg, st, IoEvent::LocalData), (st, IoAction::WriteRemote));
    let (st1, a1) = io_step(cfg, st, IoEvent::RemoteEnd);
    assert_eq!(a1, IoAction::CloseStdout);
    assert_eq!(st1, IoState { remote_read: false, remote_write: true, local_read: true, local_write: false });
    assert!(io_continues(cfg, st1));
    let (st2, a2) = io_step(cfg, st1, IoEvent::LocalEnd);
    assert_eq!(a2, IoAction::Nothing);
    assert!(!io_continues(cfg, st2));
}

#[test]
fn io_loop_required_reads_and_failures() {
    let serve = l2cat::serve_io_config();
    let st = io_start();
    let (st1, a1) = io_step(serve, st, IoEvent::RemoteWriteFailed);
    assert_eq!(a1, IoAction::Nothing);
    assert!(!st1.local_read);
    assert!(io_continues(serve, st1));
    let (st2, _) = io_step(serve, st, IoEvent::LocalWriteFailed);
    assert!(!io_continues(serve, st2));
    let listen = l2cat::listen_io_config();
    let (st3, a3) = io_step(listen, st, IoEvent::RemoteWriteFailed);
    assert_eq!(a3, IoAction::CloseStdin);
    assert!(!io_continues(listen, st3));
    assert_eq!(io_buffer_size(Some(672)), 672);
    assert_eq!(io_buffer_size(None), 8192);
}

#[test]
fn l2cat_addresses() {
    let (local, peer) = l2cat::connect_addresses(None, true, addr(1), 0x1001);
    assert_eq!(local.addr, Address::any());
    assert_eq!(local.addr_type, AddressType::BrEdr);
    assert_eq!((local.psm, local.cid), (0, 0));
    assert_eq!((peer.addr, peer.addr_type, peer.psm, peer.cid), (addr(1), AddressType::BrEdr, 0x1001, 0));
    let (local, _) = l2cat::connect_addresses(Some(addr(2)), false, addr(1), 0x80);
    assert_eq!((local.addr, local.addr_type), (addr(2), AddressType::Public));
    let sa = l2cat::listen_address(None, false, 0x81);
    assert_eq!((sa.addr, sa.addr_type, sa.psm, sa.cid), (Address::any(), AddressType::Public, 0x81, 0));
}

#[test]
fn l2cat_decisions_and_texts() {
    assert!(l2cat::listen_shows_psm(true, 0));
    assert!(!l2cat::listen_shows_psm(true, 5));
    assert!(l2cat::serve_shows_psm(true, 0));
    assert!(!l2cat::serve_shows_psm(false, 0));
    assert!(!l2cat::serve_shows_psm(true, 7));
    assert!(l2cat::shows_connected(true));
    assert!(!l2cat::shows_connected(false));
    assert!(l2cat::use_raw_mode(true, true));
    assert!(!l2cat::use_raw_mode(false, true));
    assert!(!l2cat::serve_continues(true, true));
    assert!(l2cat::serve_continues(true, false));
    assert!(l2cat::serve_continues(false, true));
    assert_eq!(l2cat::exit_code(true), 0);
    assert_eq!(l2cat::exit_code(false), 2);
    assert_eq!(l2cat::listening_notice(4097), "Listening on PSM 4097");
    assert_eq!(l2cat::connected_notice(addr(0x13)), "Connected from 00:1A:7D:DA:71:13");
    assert_eq!(l2cat::spawn_failed_notice("sh", "not found"), "Cannot execute sh: not found");
    assert_eq!(l2cat::error_notice("boom"), "Error: boom");
    assert_eq!(
        l2cat::connect_io_config(false),
        IoConfig { is_std: true, remote_read_required: false, local_read_required: true }
    );
    assert_eq!(l2cat::SERVICE_UUID, 0xdb9517c5d364d6fa1160931502091984);
}

#[test]
fn rfcat_endpoints_and_addresses() {
    assert_eq!(rfcat::endpoint(Some(3), None), Some(rfcat::Endpoint::Channel(3)));
    assert_eq!(rfcat::endpoint(None, None), Some(rfcat::Endpoint::Profile(rfcat::SERIAL_PORT_UUID)));
    assert_eq!(rfcat::endpoint(None, Some(7)), Some(rfcat::Endpoint::Profile(7)));
    assert_eq!(rfcat::endpoint(Some(3), Some(7)), None);
    assert_eq!(rfcat::endpoint_or_refusal(Some(3), Some(7)), Err(("either channel or profile must be specified", 1)));
    assert_eq!(rfcat::endpoint_or_refusal(None, None), Ok(rfcat::Endpoint::Profile(rfcat::SERIAL_PORT_UUID)));
    assert_eq!(rfcat::endpoint_or_refusal(Some(2), None), Ok(rfcat::Endpoint::Channel(2)));
    assert!(rfcat::listen_shows_channel(true, 0));
    assert!(!rfcat::listen_shows_channel(false, 0));
    assert!(!rfcat::listen_shows_channel(true, 4));
    assert!(rfcat::shows_connected(true) && !rfcat::shows_connected(false));
    let (local, peer) = rfcat::connect_addresses(None, addr(1), 4);
    assert_eq!((local.addr, local.channel), (Address::any(), 0));
    assert_eq!((peer.addr, peer.channel), (addr(1), 4));
    let sa = rfcat::listen_address(Some(addr(2)), 9);
    assert_eq!((sa.addr, sa.channel), (addr(2), 9));
    assert_eq!(rfcat::listening_notice(9), "Listening on channel 9");
    assert_eq!(rfcat::tty_notice(12), "Allocated TTY 12");
}

#[test]
fn rfcat_profiles_and_requests() {
    let c = rfcat::client_profile(rfcat::SERIAL_PORT_UUID);
    assert_eq!(c.uuid, rfcat::SERIAL_PORT_UUID);
    assert_eq!(c.name.as_deref(), Some("rfcat client"));
    assert_eq!(c.role, Some(Role::Client));
    assert_eq!(c.channel, Channel::Unspecified);
    assert_eq!(c.auto_connect, Some(true));
    assert_eq!(c.require_authentication, Some(false));
    let l = rfcat::listener_profile(5);
    assert_eq!((l.role, l.channel, l.auto_connect), (Some(Role::Server), Channel::Auto, None));
    let s = rfcat::server_profile(5);
    assert_eq!((s.name.as_deref(), s.auto_connect), (Some("rfcat server"), Some(true)));
    assert!(rfcat::is_target_added(AdapterEvent::DeviceAdded(addr(1)), addr(1)));
    assert!(!rfcat::is_target_added(AdapterEvent::DeviceAdded(addr(2)), addr(1)));
    assert!(!rfcat::is_target_added(AdapterEvent::DeviceRemoved(addr(1)), addr(1)));
    assert!(rfcat::accepts_request(addr(1), addr(1)));
    assert!(!rfcat::accepts_request(addr(1), addr(2)));
}

#[test]
fn rfcat_speed_window() {
    let mut w = rfcat::SpeedWindow::new();
    w.push(0, 10);
    w.push(500, 20);
    w.push(1500, 5);
    assert_eq!(w.sum(), 35);
    w.expire(1600);
    assert_eq!(w.entries, vec![(1500, 5)]);
    assert_eq!(w.sum(), 5);
    assert_eq!(w.total, 35);
}

#[test]
fn blumon_rows_follow_devices() {
    let mut m = DeviceMonitor::new(6);
    // rows 2, 3 and 4 can show a device
    assert_eq!(m.device_added(addr(1), 0), Some(2));
    assert_eq!(m.device_added(addr(2), 100), Some(3));
    assert_eq!(m.device_added(addr(1), 200), None);
    assert_eq!(m.devices[0].last_seen, 200);
    assert_eq!(m.device_added(addr(3), 300), Some(4));
    assert_eq!(m.device_added(addr(4), 400), None);
    assert_eq!(m.remove_device(addr(2)), Some(3));
    assert_eq!(m.remove_device(addr(2)), None);
    assert_eq!(m.device_added(addr(4), 500), Some(3));
    assert_eq!(m.find(addr(4)), Some(2));
    assert_eq!(m.find(addr(2)), None);
}

#[test]
fn blumon_drops_stale_devices() {
    let mut m = DeviceMonitor::new(10);
    m.device_added(addr(1), 0);
    m.device_added(addr(2), 20_000);
    assert_eq!(m.first_stale(30_999), None);
    assert_eq!(m.first_stale(31_000), Some(0));
    assert_eq!(m.drop_stale(40_000), vec![2]);
    assert_eq!(m.devices.len(), 1);
    assert_eq!(m.devices[0].address, addr(2));
    assert!(is_stale(0, 31_000));
    assert!(!is_stale(0, 30_999));
}

#[test]
fn blumon_bars_and_columns() {
    assert_eq!(rssi_bar_len(None), 0);
    assert_eq!(rssi_bar_len(Some(-75)), 7);
    assert_eq!(rssi_bar_len(Some(-130)), 0);
    assert_eq!(rssi_bar_len(Some(-10)), 15);
    assert_eq!(ago_bar_len(0), 10);
    assert_eq!(ago_bar_len(15), 5);
    assert_eq!(ago_bar_len(40), 0);
    assert_eq!(fit_to_width("abc", 5), "abc  ");
    assert_eq!(fit_to_width("abcdef", 3), "abc");
    assert_eq!(fit_to_width("", 0), "");
}

#[test]
fn blumon_manufacturer_column() {
    let names = vec!["Apple, Inc.".to_string(), "Microsoft".to_string()];
    assert_eq!(manufacturer_column(&names), "Apple / Micr");
    assert_eq!(manufacturer_column(&vec!["Nordic Semiconductor ASA".to_string()]), "Nordic      ");
    assert_eq!(manufacturer_column(&vec![]), "            ");
}

#[test]
fn bluadv_manufacturer_data() {
    let m = ManufacturerData::from_str("ff:0102").unwrap();
    assert_eq!((m.id, m.data), (0xff, vec![1, 2]));
    let m = ManufacturerData::from_str("+a:").unwrap();
    assert_eq!((m.id, m.data), (0xa, vec![]));
    assert_eq!(ManufacturerData::from_str("ff0102").unwrap_err(), ": missing");
    assert_eq!(ManufacturerData::from_str("zz:01").unwrap_err(), "invalid digit found in string");
    assert_eq!(ManufacturerData::from_str(":01").unwrap_err(), "cannot parse integer from empty string");
    assert_eq!(ManufacturerData::from_str("10000:01").unwrap_err(), "number too large to fit in target type");
    assert_eq!(ManufacturerData::from_str("ff:012").unwrap_err(), "Odd number of digits");
    assert!(ManufacturerData::from_str("ff:0g").is_err());
}

#[test]
fn bluadv_service_data() {
    let s = ServiceData::from_str("0000180f-0000-1000-8000-00805f9b34fb:6401").unwrap();
    assert_eq!((s.id, s.data), (0x0000180f_0000_1000_8000_00805f9b34fb, vec![0x64, 0x01]));
    assert_eq!(ServiceData::from_str("nothing").unwrap_err(), ": missing");
    assert!(ServiceData::from_str("180f:01").is_err());
    assert_eq!(
        ServiceData::from_str("0000180f-0000-1000-8000-00805f9b34fb:1").unwrap_err(),
        "Odd number of digits"
    );
}

#[test]
fn bluadv_adapter_choice() {
    let names = vec!["hci0".to_string(), "hci1".to_string()];
    let addrs = vec![addr(1), addr(2)];
    assert_eq!(select_adapter(None, &names, &addrs), Ok(0));
    assert_eq!(select_adapter(Some(addr(2)), &names, &addrs), Ok(1));
    assert_eq!(select_adapter(Some(addr(3)), &names, &addrs), Err("specified Bluetooth adapter not present"));
    assert_eq!(select_adapter(None, &vec![], &vec![]), Err("no Bluetooth adapter present"));
    assert_eq!(AdvertisementType::Broadcast.to_type(), Type::Broadcast);
    assert_eq!(AdvertisementType::Peripheral.to_type(), Type::Peripheral);
}

#[test]
fn bluadv_advertisement() {
    let md = vec![
        ManufacturerData::from_str("4c:0102").unwrap(),
        ManufacturerData::from_str("06:aa").unwrap(),
        ManufacturerData::from_str("4c:03").unwrap(),
    ];
    let sd = vec![ServiceData::from_str("0000180f-0000-1000-8000-00805f9b34fb:64").unwrap()];
    let a = tool_advertisement(
        AdvertisementType::Broadcast,
        Some("bluadv".to_string()),
        true,
        Some(10),
        Some(-3),
        Some(250),
        None,
        &md,
        &sd,
    );
    assert_eq!(a.advertisement_type, Type::Broadcast);
    assert_eq!(a.local_name.as_deref(), Some("bluadv"));
    assert_eq!(a.discoverable, Some(true));
    assert_eq!(a.duration, Some(bluer::time::Timespan { secs: 10, nanos: 0 }));
    assert_eq!(a.tx_power, Some(-3));
    assert_eq!(a.min_interval, Some(bluer::time::Timespan { secs: 0, nanos: 250_000_000 }));
    assert_eq!(a.max_interval, None);
    // collected into a map: ascending ids, the later entry for an id wins
    assert_eq!(a.manufacturer_data, BTreeMap::from([(0x06, vec![0xaa]), (0x4c, vec![0x03])]));
    assert_eq!(a.service_data, BTreeMap::from([(0x0000180f_0000_1000_8000_00805f9b34fb, vec![0x64])]));
    assert!(a.service_uuids.is_empty());
}

#[test]
fn blumon_device_line_and_add() {
    let line = device_line(addr(0x13), "public", Some(-75), 15, &vec!["Apple, Inc.".to_string()], "phone");
    assert_eq!(
        line,
        format!(
            "00:1A:7D:DA:71:13 [public]  -75 dBm [#######        ] 15 s ago [#####     ]  Apple        {:30}   ",
            "phone"
        )
    );
    let line = device_line(addr(0x13), "random", None, 40, &vec![], "");
    assert_eq!(
        line,
        format!("00:1A:7D:DA:71:13 [random] ---- dBm [               ] 40 s ago [          ]               {:30}   ", "")
    );
    let mut m = DeviceMonitor::new(5);
    assert_eq!(m.add_device(addr(1), 0), Some(2));
    assert_eq!(m.add_device(addr(1), 10), None);
    assert_eq!(m.devices[0].last_seen, 0);
    assert_eq!(m.add_device(addr(2), 10), Some(3));
    assert_eq!(m.add_device(addr(3), 10), None);
    assert_eq!(m.devices.len(), 2);
}
