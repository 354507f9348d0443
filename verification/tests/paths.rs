use bluer::session::{signal_route, SignalKind};
use bluer::object_path::{gatt_profile_path, monitor_root_path, monitor_target_path, profile_path};
use bluer::adapter::{self, AdapterEvent};
use bluer::device;
use bluer::gatt::remote;
use bluer::session;
use bluer::{Address, AddressType, ErrorKind};
use bluer::dict::PropValue;
use bluer::adapter::{discovery_step, DiscoveryAction, DiscoveryInput};
use bluer::session::{Subscription, Subscriptions};
use bluer::session::{SessionStart, SingleSession};

fn addr() -> Address {
    Address::new([0x00, 0x1a, 0x7d, 0xda, 0x71, 0x13])
}

#[test]
fn adapter_path_roundtrip() {
    let p = adapter::dbus_path("hci0").unwrap();
    assert_eq!(p, "/org/bluez/hci0");
    assert_eq!(adapter::parse_dbus_path(&p), Some("hci0".to_string()));
    assert_eq!(
        adapter::parse_dbus_path_prefix("/org/bluez/hci1/dev_00_11"),
        Some(("hci1".to_string(), "/dev_00_11".to_string()))
    );
    assert_eq!(adapter::parse_dbus_path("/org/bluez/hci0/x"), None);
    assert_eq!(adapter::parse_dbus_path("/org/other/hci0"), None);
}

#[test]
fn adapter_invalid_name() {
    let e = adapter::dbus_path("hci 0").unwrap_err();
    assert_eq!(e.kind, ErrorKind::InvalidName("hci 0".to_string()));
    assert!(adapter::dbus_path("hci0/").is_err());
    assert!(adapter::dbus_path("a//b").is_err());
    assert!(adapter::dbus_path("").is_err());
}

#[test]
fn device_path_roundtrip() {
    let p = device::device_dbus_path("hci0", addr()).unwrap();
    assert_eq!(p, "/org/bluez/hci0/dev_00_1A_7D_DA_71_13");
    assert_eq!(device::parse_device_dbus_path(&p), Some(("hci0".to_string(), addr())));
    assert_eq!(device::parse_device_dbus_path("/org/bluez/hci0/dev_00_1a_7d_da_71_13"), Some(("hci0".to_string(), addr())));
    assert_eq!(device::parse_device_dbus_path("/org/bluez/hci0/dev_00_1A_7D"), None);
    assert_eq!(device::parse_device_dbus_path("/org/bluez/hci0"), None);
    assert_eq!(
        device::parse_device_dbus_path_prefix("/org/bluez/hci0/dev_00_1A_7D_DA_71_13/service0001"),
        Some(("hci0".to_string(), addr(), "/service0001".to_string()))
    );
}

#[test]
fn remote_paths_roundtrip() {
    let s = remote::service_dbus_path("hci0", addr(), 0x1f).unwrap();
    assert_eq!(s, "/org/bluez/hci0/dev_00_1A_7D_DA_71_13/service001f");
    assert_eq!(remote::parse_service_dbus_path(&s), Some(("hci0".to_string(), addr(), 0x1f)));
    let c = remote::characteristic_dbus_path("hci0", addr(), 0x1f, 0xabcd).unwrap();
    assert_eq!(c, "/org/bluez/hci0/dev_00_1A_7D_DA_71_13/service001f/charabcd");
    assert_eq!(remote::parse_characteristic_dbus_path(&c), Some(("hci0".to_string(), addr(), 0x1f, 0xabcd)));
    let d = remote::descriptor_dbus_path("hci0", addr(), 0x1f, 0xabcd, 2).unwrap();
    assert_eq!(d, "/org/bluez/hci0/dev_00_1A_7D_DA_71_13/service001f/charabcd/desc0002");
    assert_eq!(remote::parse_descriptor_dbus_path(&d), Some(("hci0".to_string(), addr(), 0x1f, 0xabcd, 2)));
    assert_eq!(remote::parse_service_dbus_path(&c), None);
    assert_eq!(remote::parse_characteristic_dbus_path(&s), None);
    assert!(remote::service_dbus_path("bad name", addr(), 1).is_err());
}

#[test]
fn device_events_of_adapter() {
    let p = device::device_dbus_path("hci0", addr()).unwrap();
    assert_eq!(adapter::device_event("hci0", true, &p), Some(AdapterEvent::DeviceAdded(addr())));
    assert_eq!(adapter::device_event("hci0", false, &p), Some(AdapterEvent::DeviceRemoved(addr())));
    assert_eq!(adapter::device_event("hci1", true, &p), None);
    assert_eq!(adapter::device_event("hci0", true, "/org/bluez/hci0"), None);
}

#[test]
fn device_addresses_filters_objects() {
    let other = Address::new([1, 2, 3, 4, 5, 6]);
    let objects = vec![
        (device::device_dbus_path("hci0", addr()).unwrap(), true),
        ("/org/bluez/hci0".to_string(), true),
        (device::device_dbus_path("hci1", other).unwrap(), true),
        (device::device_dbus_path("hci0", other).unwrap(), false),
        (device::device_dbus_path("hci0", other).unwrap(), true),
    ];
    assert_eq!(adapter::device_addresses("hci0", &objects), vec![addr(), other]);
}

#[test]
fn session_adapter_names_and_events() {
    let objects = vec![
        ("/org/bluez/hci0".to_string(), true),
        ("/org/bluez/hci0/dev_00_11_22_33_44_55".to_string(), false),
        ("/org/bluez/hci1".to_string(), true),
    ];
    assert_eq!(session::adapter_names(&objects), vec!["hci0".to_string(), "hci1".to_string()]);
    match session::session_event(true, "/org/bluez/hci3", true) {
        Some(session::SessionEvent::AdapterAdded(n)) => assert_eq!(n, "hci3"),
        _ => panic!("expected an added adapter"),
    }
    match session::session_event(false, "/org/bluez/hci3", true) {
        Some(session::SessionEvent::AdapterRemoved(n)) => assert_eq!(n, "hci3"),
        _ => panic!("expected a removed adapter"),
    }
    assert!(session::session_event(true, "/org/bluez/hci3", false).is_none());
    assert_eq!(session::last_path_element("noslash"), "noslash");
    assert_eq!(session::default_adapter_name(&vec!["hci1".to_string()]).unwrap(), "hci1");
    assert_eq!(session::default_adapter_name(&vec![]).unwrap_err().kind, ErrorKind::NotFound);
}

#[test]
fn session_parent_path() {
    assert_eq!(session::parent_path("/org/bluez/hci0/dev_00_11_22_33_44_55"), "/org/bluez/hci0");
    assert_eq!(session::parent_path("/org/bluez"), "/org");
    assert_eq!(session::parent_path("/org"), "/");
    assert_eq!(session::parent_path("/"), "/");
    let dev = device::device_dbus_path("hci0", addr()).unwrap();
    assert_eq!(session::parent_path(&dev), adapter::dbus_path("hci0").unwrap());
}

#[test]
fn discovery_filter_dict() {
    let f = adapter::discovery_session_filter();
    assert!(!f.duplicate_data);
    let d = f.into_dict();
    assert_eq!(d.get("Transport"), Some(&PropValue::Str("auto".to_string())));
    assert_eq!(d.get("DuplicateData"), Some(&PropValue::Bool(false)));
    assert_eq!(d.get("Discoverable"), Some(&PropValue::Bool(false)));
    assert_eq!(d.get("UUIDs"), Some(&PropValue::StrArray(vec![])));
    assert_eq!(d.get("RSSI"), None);
    assert_eq!(d.get("Pattern"), None);
    let mut g = adapter::DiscoveryFilter::default();
    assert!(g.duplicate_data);
    g.rssi = Some(-60);
    g.pathloss = Some(5);
    g.pattern = Some("AA".to_string());
    g.transport = adapter::DiscoveryTransport::Le;
    g.uuids = vec![0x0000180f_0000_1000_8000_00805f9b34fb];
    let d = g.into_dict();
    assert_eq!(
        d.get("UUIDs"),
        Some(&PropValue::StrArray(vec!["0000180f-0000-1000-8000-00805f9b34fb".to_string()]))
    );
    assert_eq!(d.get("RSSI"), Some(&PropValue::I16(-60)));
    assert_eq!(d.get("Pathloss"), Some(&PropValue::U16(5)));
    assert_eq!(d.get("Pattern"), Some(&PropValue::Str("AA".to_string())));
    assert_eq!(d.get("Transport"), Some(&PropValue::Str("le".to_string())));
    assert_eq!(adapter::DiscoveryTransport::from_str("bredr"), Some(adapter::DiscoveryTransport::BrEdr));
    assert_eq!(adapter::DiscoveryTransport::from_str("x"), None);
}

#[test]
fn discovery_steps() {
    let a = addr();
    assert_eq!(
        discovery_step(DiscoveryInput::Discovered(AdapterEvent::DeviceAdded(a))),
        DiscoveryAction::WatchAndForward(AdapterEvent::DeviceAdded(a))
    );
    assert_eq!(
        discovery_step(DiscoveryInput::Discovered(AdapterEvent::DeviceRemoved(a))),
        DiscoveryAction::Forward(AdapterEvent::DeviceRemoved(a))
    );
    assert_eq!(discovery_step(DiscoveryInput::Changed(a)), DiscoveryAction::Forward(AdapterEvent::DeviceAdded(a)));
    assert_eq!(discovery_step(DiscoveryInput::Ended), DiscoveryAction::Stop);
}

#[test]
fn subscriptions_route_signals() {
    let mut subs = Subscriptions::new();
    subs.subscribe("/org/bluez/hci0", Subscription { id: 1, child_objects: true });
    subs.subscribe("/org/bluez/hci0", Subscription { id: 2, child_objects: false });
    subs.subscribe("/org/bluez/hci0/dev_00_11_22_33_44_55", Subscription { id: 3, child_objects: false });
    // a child appearing reaches only subscriptions that want children
    assert_eq!(subs.targets("/org/bluez/hci0", true), vec![1]);
    // a property change reaches every subscription of the object
    assert_eq!(subs.targets("/org/bluez/hci0", false), vec![1, 2]);
    assert_eq!(subs.targets("/nothing", false), Vec::<u64>::new());
    // a receiver that failed is dropped; the others stay
    subs.drop_failed("/org/bluez/hci0", false, &vec![2]);
    assert_eq!(subs.targets("/org/bluez/hci0", false), vec![1]);
    // a subscription that did not hear of a child signal stays even if its id failed
    subs.subscribe("/org/bluez/hci0", Subscription { id: 4, child_objects: false });
    subs.drop_failed("/org/bluez/hci0", true, &vec![4]);
    assert_eq!(subs.targets("/org/bluez/hci0", false), vec![1, 4]);
    // the last subscription of a path goes with its path
    subs.drop_failed("/org/bluez/hci0/dev_00_11_22_33_44_55", false, &vec![3]);
    assert_eq!(subs.entries.len(), 1);
}

#[test]
fn single_session_counts_holders() {
    let mut s = SingleSession::new();
    assert!(!s.is_active());
    assert_eq!(s.acquire(), SessionStart::Start);
    s.started();
    assert_eq!(s.acquire(), SessionStart::Reuse);
    assert!(!s.release());
    assert!(s.release());
    assert!(!s.is_active());
    assert_eq!(s.acquire(), SessionStart::Start);
}

#[test]
fn connect_device_options() {
    let d = adapter::connect_device_options(addr(), AddressType::Random);
    assert_eq!(d.get("Address"), Some(&PropValue::Str("00:1A:7D:DA:71:13".to_string())));
    assert_eq!(d.get("AddressType"), Some(&PropValue::Str("random".to_string())));
    let d = adapter::connect_device_options(addr(), AddressType::BrEdr);
    assert_eq!(d.get("AddressType"), None);
}

#[test]
fn remote_object_ids() {
    let objects = vec![
        ("/org/bluez/hci0/dev_00_1A_7D_DA_71_13/service000a/char000b".to_string(), true),
        ("/org/bluez/hci0/dev_00_1A_7D_DA_71_13/service000a/char000c".to_string(), false),
        ("/org/bluez/hci0/dev_00_1A_7D_DA_71_13/service000d/char000e".to_string(), true),
        ("/org/bluez/hci1/dev_00_1A_7D_DA_71_13/service000a/char000f".to_string(), true),
        ("/org/bluez/hci0/dev_00_1A_7D_DA_71_13/service000a/char0010".to_string(), true),
        ("/org/bluez/hci0/dev_00_1A_7D_DA_71_13/service000a/char000b/desc0011".to_string(), true),
        ("/org/bluez/hci0/dev_00_1A_7D_DA_71_13/service000a/char0010/desc0012".to_string(), true),
        ("/org/bluez/hci0/dev_00_1A_7D_DA_71_13/service000a/char000b/desc0013".to_string(), true),
    ];
    assert_eq!(remote::characteristic_ids("hci0", addr(), 0x0a, &objects), vec![0x0b, 0x10]);
    assert_eq!(remote::characteristic_ids("hci0", addr(), 0x0d, &objects), vec![0x0e]);
    assert_eq!(remote::descriptor_ids("hci0", addr(), 0x0a, 0x0b, &objects), vec![0x11, 0x13]);
    assert_eq!(remote::descriptor_ids("hci0", addr(), 0x0a, 0x0c, &objects), Vec::<u16>::new());
}

#[test]
fn published_object_paths() {
    let id = 0x0123456789abcdef0011223344556677u128;
    let root = monitor_root_path(id);
    assert_eq!(root, "/org/bluez/bluer/monitor/0123456789abcdef0011223344556677");
    assert_eq!(
        monitor_target_path(&root, 1),
        "/org/bluez/bluer/monitor/0123456789abcdef0011223344556677/00000000000000000000000000000001"
    );
    assert_eq!(profile_path(id), "/org/bluez/profile/0123456789abcdef0011223344556677");
    assert_eq!(gatt_profile_path(id), "/org/bluez/gatt/profile/0123456789abcdef0011223344556677");
    assert_eq!(bluer::gatt::local::gatt_app_path(id), "/org/bluez/gatt/app/0123456789abcdef0011223344556677");
}

#[test]
fn signal_routes() {
    let dev = "/org/bluez/hci0/dev_00_11_22_33_44_55";
    assert_eq!(signal_route(SignalKind::InterfacesAdded, dev), ("/org/bluez/hci0".to_string(), true));
    assert_eq!(signal_route(SignalKind::InterfacesRemoved, dev), ("/org/bluez/hci0".to_string(), true));
    assert_eq!(signal_route(SignalKind::PropertiesChanged, dev), (dev.to_string(), false));
    assert_eq!(signal_route(SignalKind::InterfacesAdded, "/org"), ("/".to_string(), true));
}

#[test]
fn service_path_prefix_with_tail() {
    let s = remote::service_dbus_path("hci0", addr(), 0x1f).unwrap();
    let with_tail = format!("{}/char0001", s);
    assert_eq!(
        remote::parse_service_dbus_path_prefix(&with_tail),
        Some(("hci0".to_string(), addr(), 0x1f, "/char0001".to_string()))
    );
    assert_eq!(
        remote::parse_service_dbus_path_prefix(&s),
        Some(("hci0".to_string(), addr(), 0x1f, String::new()))
    );
    assert_eq!(remote::parse_service_dbus_path_prefix("/org/bluez/hci0/dev_00_1A_7D_DA_71_13/char0001"), None);
}
