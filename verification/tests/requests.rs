use std::collections::{BTreeMap, BTreeSet};
use bluer::gatt::local::{
    application_objects, characteristic_properties, descriptor_properties, gatt_profile_properties, service_properties,
    teardown_steps, GattObjectKind, TeardownStep,
};
use bluer::time::Timespan;
use bluer::adv::{self, Capabilities, PlatformFeature, SecondaryChannel};
use bluer::device;
use bluer::dict::{Dict, PropValue};
use bluer::gatt::local::{
    self, CharacteristicAcquireRequest, CharacteristicReadRequest, CharacteristicWriteRequest, DescriptorReadRequest,
    DescriptorWriteRequest, LinkType, ReqError,
};
use bluer::gatt::{remote, WriteOp};
use bluer::gatt::local::{
    notification_properties, notify_step, NotifyAction, NotifyEvent,
    characteristic_answer, descriptor_answer, notify_acquired, write_acquired, CharacteristicAnswer as A,
    CharacteristicCall as C, CharacteristicMethods, DescriptorCall, NotifyDefinition, ServeMethod,
};

use bluer::{Address, ErrorKind, InternalErrorKind};

fn dev_path() -> String {
    device::device_dbus_path("hci0", Address::new([1, 2, 3, 4, 5, 6])).unwrap()
}

fn base_dict() -> Dict {
    let mut d = Dict::new();
    d.insert("device", PropValue::ObjectPath(dev_path()));
    d.insert("mtu", PropValue::U16(185));
    d
}

#[test]
fn read_request_from_dict() {
    let mut d = base_dict();
    d.insert("offset", PropValue::U16(7));
    d.insert("link", PropValue::Str("LE".to_string()));
    let r = CharacteristicReadRequest::from_dict(&d).unwrap();
    assert_eq!(r.adapter_name, "hci0");
    assert_eq!(r.device_address, Address::new([1, 2, 3, 4, 5, 6]));
    assert_eq!(r.offset, 7);
    assert_eq!(r.mtu, 185);
    assert_eq!(r.link, Some(LinkType::Le));
    // defaults: offset 0, no link; an unknown link text gives no link
    let mut d = base_dict();
    d.insert("link", PropValue::Str("radio".to_string()));
    let r = CharacteristicReadRequest::from_dict(&d).unwrap();
    assert_eq!(r.offset, 0);
    assert_eq!(r.link, None);
}

#[test]
fn read_request_errors() {
    let d = Dict::new();
    assert_eq!(CharacteristicReadRequest::from_dict(&d).unwrap_err().0, "device missing");
    let mut d = Dict::new();
    d.insert("device", PropValue::Str(dev_path()));
    assert_eq!(CharacteristicReadRequest::from_dict(&d).unwrap_err().0, "device invalid");
    let mut d = Dict::new();
    d.insert("device", PropValue::ObjectPath("/org/bluez/hci0".to_string()));
    assert_eq!(CharacteristicReadRequest::from_dict(&d).unwrap_err().0, "device path invalid");
    let mut d = Dict::new();
    d.insert("device", PropValue::Unclonable);
    assert_eq!(CharacteristicReadRequest::from_dict(&d).unwrap_err().0, "clone failed");
    let mut d = Dict::new();
    d.insert("device", PropValue::ObjectPath(dev_path()));
    assert_eq!(CharacteristicReadRequest::from_dict(&d).unwrap_err().0, "mtu missing");
    d.insert("mtu", PropValue::U32(3));
    assert_eq!(CharacteristicReadRequest::from_dict(&d).unwrap_err().0, "mtu invalid");
    let mut d = base_dict();
    d.insert("offset", PropValue::I16(1));
    assert_eq!(CharacteristicReadRequest::from_dict(&d).unwrap_err().0, "offset invalid");
    let mut d = base_dict();
    d.insert("link", PropValue::Bool(true));
    assert_eq!(CharacteristicReadRequest::from_dict(&d).unwrap_err().0, "link invalid");
}

#[test]
fn write_request_from_dict() {
    let mut d = base_dict();
    d.insert("type", PropValue::Str("command".to_string()));
    d.insert("prepare-authorize", PropValue::Bool(true));
    d.insert("link", PropValue::Str("BR/EDR".to_string()));
    let w = CharacteristicWriteRequest::from_dict(&d).unwrap();
    assert_eq!(w.op_type, WriteOp::Command);
    assert!(w.prepare_authorize);
    assert_eq!(w.link, Some(LinkType::BrEdr));
    let w = CharacteristicWriteRequest::from_dict(&base_dict()).unwrap();
    assert_eq!(w.op_type, WriteOp::Request);
    assert!(!w.prepare_authorize);
    let mut d = base_dict();
    d.insert("type", PropValue::Str("fast".to_string()));
    assert_eq!(CharacteristicWriteRequest::from_dict(&d).unwrap_err().0, "type invalid");
    let mut d = base_dict();
    d.insert("prepare-authorize", PropValue::U8(1));
    assert_eq!(CharacteristicWriteRequest::from_dict(&d).unwrap_err().0, "prepare-authorize invalid");
}

#[test]
fn write_request_delivered_from_client() {
    // what a client sends is what the service reads
    for op in [WriteOp::Command, WriteOp::Request, WriteOp::Reliable] {
        let req = remote::CharacteristicWriteRequest { offset: 42, op_type: op, prepare_authorize: true };
        let mut d = req.to_dict();
        d.insert("device", PropValue::ObjectPath(dev_path()));
        d.insert("mtu", PropValue::U16(23));
        let w = CharacteristicWriteRequest::from_dict(&d).unwrap();
        assert_eq!((w.offset, w.op_type, w.prepare_authorize, w.mtu), (42, op, true, 23));
    }
}

#[test]
fn other_requests_from_dict() {
    let a = CharacteristicAcquireRequest::from_dict(&base_dict()).unwrap();
    assert_eq!(a.mtu, 185);
    let mut d = Dict::new();
    d.insert("device", PropValue::ObjectPath(dev_path()));
    d.insert("offset", PropValue::U16(2));
    let r = DescriptorReadRequest::from_dict(&d).unwrap();
    assert_eq!(r.offset, 2);
    assert_eq!(DescriptorWriteRequest::from_dict(&d).unwrap_err().0, "prepare-authorize missing");
    d.insert("prepare-authorize", PropValue::Bool(false));
    let w = DescriptorWriteRequest::from_dict(&d).unwrap();
    assert!(!w.prepare_authorize);
    let mut d = Dict::new();
    d.insert("device", PropValue::ObjectPath(dev_path()));
    assert_eq!(CharacteristicAcquireRequest::from_dict(&d).unwrap_err().0, "mtu missing");
}

#[test]
fn remote_requests_to_dict() {
    let r = remote::CharacteristicReadRequest { offset: 9 };
    assert_eq!(r.to_dict().get("offset"), Some(&PropValue::U16(9)));
    let w = remote::CharacteristicWriteRequest::default();
    let d = w.to_dict();
    assert_eq!(d.get("offset"), Some(&PropValue::U16(0)));
    assert_eq!(d.get("type"), Some(&PropValue::Str("request".to_string())));
    assert_eq!(d.get("prepare-authorize"), Some(&PropValue::Bool(false)));
    let dw = remote::DescriptorWriteRequest { offset: 1, prepare_authorize: true }.to_dict();
    assert_eq!(dw.get("prepare-authorize"), Some(&PropValue::Bool(true)));
    assert_eq!(remote::DescriptorReadRequest::default().to_dict().get("offset"), Some(&PropValue::U16(0)));
}

#[test]
fn write_op_and_link_texts() {
    for op in [WriteOp::Command, WriteOp::Request, WriteOp::Reliable] {
        assert_eq!(WriteOp::from_str(&op.to_string()), Some(op));
    }
    assert_eq!(WriteOp::default(), WriteOp::Request);
    assert_eq!(WriteOp::from_str("Command"), None);
    assert_eq!(LinkType::BrEdr.to_string(), "BR/EDR");
    assert_eq!(LinkType::from_str("LE"), Some(LinkType::Le));
    assert_eq!(LinkType::from_str("le"), None);
}

#[test]
fn gatt_req_errors() {
    assert_eq!(ReqError::default(), ReqError::Failed);
    assert_eq!(ReqError::NotPermitted.to_string(), "Bluetooth request not permitted");
    assert_eq!(ReqError::InvalidValueLength.dbus_error_name(), "org.bluez.Error.InvalidValueLength");
    assert_eq!(ReqError::InProgress.name(), "InProgress");
}

#[test]
fn gatt_application_layout() {
    let id = 0x0123456789abcdef0123456789abcdefu128;
    let root = local::gatt_app_path(id);
    assert_eq!(root, "/org/bluez/gatt/app/0123456789abcdef0123456789abcdef");
    let objs = local::application_objects("/app", &vec![vec![2, 0], vec![]]);
    let paths: Vec<&str> = objs.iter().map(|o| o.1.as_str()).collect();
    assert_eq!(
        paths,
        vec![
            "/app/service0",
            "/app/service0/char0",
            "/app/service0/char0/desc0",
            "/app/service0/char0/desc1",
            "/app/service0/char1",
            "/app/service1"
        ]
    );
    assert_eq!(objs[0].0, local::GattObjectKind::Service);
    assert_eq!(objs[2].0, local::GattObjectKind::Descriptor);
    let cleanup = local::cleanup_order(&objs);
    assert_eq!(cleanup[0].1, "/app/service1");
    assert_eq!(cleanup[5].1, "/app/service0");
}

#[test]
fn advertising_capabilities() {
    let mut d = Dict::new();
    d.insert("MaxAdvLen", PropValue::U8(31));
    d.insert("MaxScnRspLen", PropValue::U8(31));
    d.insert("MinTxPower", PropValue::I16(-34));
    let c = Capabilities::from_dict(&d).unwrap();
    assert_eq!(c, Capabilities { max_advertisement_length: 31, max_scan_response_length: 31, min_tx_power: Some(-34), max_tx_power: None });
    let mut d = Dict::new();
    d.insert("MaxScnRspLen", PropValue::U8(31));
    let e = Capabilities::from_dict(&d).unwrap_err();
    assert_eq!(e.kind, ErrorKind::Internal(InternalErrorKind::MissingKey("MaxAdvLen".to_string())));
    let mut d = Dict::new();
    d.insert("MaxAdvLen", PropValue::U8(31));
    d.insert("MaxScnRspLen", PropValue::U16(31));
    let e = Capabilities::from_dict(&d).unwrap_err();
    assert_eq!(e.kind, ErrorKind::Internal(InternalErrorKind::MissingKey("MaxScnRspLen".to_string())));
}

#[test]
fn advertising_texts() {
    assert_eq!(adv::Type::default(), adv::Type::Peripheral);
    assert_eq!(adv::Type::from_str("broadcast"), Some(adv::Type::Broadcast));
    assert_eq!(adv::Type::Peripheral.to_string(), "peripheral");
    assert_eq!(SecondaryChannel::default(), SecondaryChannel::OneM);
    assert_eq!(SecondaryChannel::Coded.to_string(), "Coded");
    assert_eq!(SecondaryChannel::from_str("2M"), Some(SecondaryChannel::TwoM));
    assert_eq!(adv::Feature::from_str("local-name"), Some(adv::Feature::LocalName));
    assert_eq!(adv::Feature::TxPower.to_string(), "tx-power");
    let feats = adv::platform_features(&vec![
        "HardwareOffload".to_string(),
        "Bogus".to_string(),
        "CanSetTxPower".to_string(),
        "HardwareOffload".to_string(),
    ]);
    assert_eq!(feats, vec![PlatformFeature::CanSetTxPower, PlatformFeature::HardwareOffload]);
    assert_eq!(adv::platform_features(&vec![]), vec![]);
    assert_eq!(adv::secs_property(70000), 0xffff);
    assert_eq!(adv::secs_property(12), 12);
    assert_eq!(adv::millis_property(1u128 << 40), u32::MAX);
    assert_eq!(adv::millis_property(250), 250);
}

#[test]
fn advertisement_properties() {
    let mut a = adv::Advertisement::default();
    let d = a.properties();
    assert_eq!(d.get("Type"), Some(&PropValue::Str("peripheral".to_string())));
    assert_eq!(d.get("ServiceUUIDs"), Some(&PropValue::StrArray(vec![])));
    assert_eq!(d.get("Includes"), Some(&PropValue::StrArray(vec![])));
    assert_eq!(d.get("LocalName"), None);
    assert_eq!(d.get("Timeout"), None);
    a.advertisement_type = adv::Type::Broadcast;
    a.service_uuids = BTreeSet::from([0x0000180f_0000_1000_8000_00805f9b34fb]);
    a.manufacturer_data = BTreeMap::from([(0x004c, vec![1, 2])]);
    a.service_data = BTreeMap::from([(0x0000180f_0000_1000_8000_00805f9b34fb, vec![0x64])]);
    a.advertising_data = BTreeMap::from([(0xff, vec![9])]);
    a.system_includes = vec![adv::Feature::TxPower, adv::Feature::LocalName];
    a.local_name = Some("le_advertise".to_string());
    a.discoverable = Some(true);
    a.discoverable_timeout = Some(Timespan::from_secs(100_000));
    a.duration = Some(Timespan::from_millis(2_500));
    a.secondary_channel = Some(SecondaryChannel::TwoM);
    a.min_interval = Some(Timespan::from_millis(100));
    a.max_interval = Some(Timespan::from_secs(5_000_000));
    a.tx_power = Some(-10);
    let d = a.properties();
    assert_eq!(d.get("Type"), Some(&PropValue::Str("broadcast".to_string())));
    assert_eq!(
        d.get("ServiceUUIDs"),
        Some(&PropValue::StrArray(vec!["0000180f-0000-1000-8000-00805f9b34fb".to_string()]))
    );
    assert_eq!(d.get("ManufacturerData"), Some(&PropValue::U16ToBytes(vec![(0x004c, vec![1, 2])])));
    assert_eq!(
        d.get("ServiceData"),
        Some(&PropValue::StrToBytes(vec![("0000180f-0000-1000-8000-00805f9b34fb".to_string(), vec![0x64])]))
    );
    assert_eq!(d.get("Data"), Some(&PropValue::U8ToBytes(vec![(0xff, vec![9])])));
    assert_eq!(
        d.get("Includes"),
        Some(&PropValue::StrArray(vec!["tx-power".to_string(), "local-name".to_string()]))
    );
    assert_eq!(d.get("LocalName"), Some(&PropValue::Str("le_advertise".to_string())));
    assert_eq!(d.get("Discoverable"), Some(&PropValue::Bool(true)));
    assert_eq!(d.get("DiscoverableTimeout"), Some(&PropValue::U16(0xffff)));
    assert_eq!(d.get("Duration"), Some(&PropValue::U16(2)));
    assert_eq!(d.get("Appearance"), None);
    assert_eq!(d.get("SecondaryChannel"), Some(&PropValue::Str("2M".to_string())));
    assert_eq!(d.get("MinInterval"), Some(&PropValue::U32(100)));
    assert_eq!(d.get("MaxInterval"), Some(&PropValue::U32(u32::MAX)));
    assert_eq!(d.get("TxPower"), Some(&PropValue::I16(-10)));
    assert_eq!(
        adv::advertisement_path(0x0123456789abcdef0011223344556677),
        "/org/bluez/bluer/advertisement/0123456789abcdef0011223344556677"
    );
}

#[test]
fn characteristic_answers() {
    let m = CharacteristicMethods {
        read: true,
        write: Some(ServeMethod::Io),
        notify: Some(NotifyDefinition { method: ServeMethod::Callback, indicate: true, notify: false }),
    };
    assert_eq!(characteristic_answer(m, C::ReadValue), A::Read);
    assert_eq!(characteristic_answer(m, C::WriteValue), A::NotSupported);
    assert_eq!(characteristic_answer(m, C::AcquireWrite), A::WriteIo);
    assert_eq!(characteristic_answer(m, C::StartNotify), A::Notify { confirm: true });
    assert_eq!(characteristic_answer(m, C::AcquireNotify), A::NotSupported);
    let n = CharacteristicMethods {
        read: false,
        write: Some(ServeMethod::Callback),
        notify: Some(NotifyDefinition { method: ServeMethod::Io, indicate: true, notify: true }),
    };
    assert_eq!(characteristic_answer(n, C::ReadValue), A::NotSupported);
    assert_eq!(characteristic_answer(n, C::WriteValue), A::Write);
    assert_eq!(characteristic_answer(n, C::AcquireNotify), A::NotifyIo);
    assert_eq!(characteristic_answer(n, C::StartNotify), A::NotSupported);
    let o = CharacteristicMethods { notify: Some(NotifyDefinition { method: ServeMethod::Callback, indicate: true, notify: true }), ..n };
    assert_eq!(characteristic_answer(o, C::StartNotify), A::Notify { confirm: false });
    assert!(!write_acquired(m));
    assert!(!notify_acquired(n));
    assert_eq!(descriptor_answer(true, false, DescriptorCall::ReadValue), Some(DescriptorCall::ReadValue));
    assert_eq!(descriptor_answer(true, false, DescriptorCall::WriteValue), None);
}

#[test]
fn notifier_steps() {
    let stopped = notify_step(false, NotifyEvent::Begin { stopped: true });
    match stopped {
        NotifyAction::Done(Err(e)) => assert_eq!(e.kind, ErrorKind::NotificationSessionStopped),
        other => panic!("unexpected {:?}", other),
    }
    assert!(matches!(notify_step(true, NotifyEvent::Begin { stopped: false }), NotifyAction::Send { flush: true }));
    assert!(matches!(notify_step(false, NotifyEvent::Begin { stopped: false }), NotifyAction::Send { flush: false }));
    assert!(matches!(notify_step(true, NotifyEvent::Sent { ok: true }), NotifyAction::AwaitConfirmation));
    assert!(matches!(notify_step(false, NotifyEvent::Sent { ok: true }), NotifyAction::Done(Ok(()))));
    match notify_step(true, NotifyEvent::Sent { ok: false }) {
        NotifyAction::Done(Err(e)) => assert_eq!(e.kind, ErrorKind::NotificationSessionStopped),
        other => panic!("unexpected {:?}", other),
    }
    assert!(matches!(notify_step(true, NotifyEvent::Confirmation { received: true }), NotifyAction::Done(Ok(()))));
    match notify_step(true, NotifyEvent::Confirmation { received: false }) {
        NotifyAction::Done(Err(e)) => {
            assert_eq!(e.kind, ErrorKind::IndicationUnconfirmed);
            assert_eq!(e.to_string(), "the indication was not confirmed by the receiving device");
        }
        other => panic!("unexpected {:?}", other),
    }
    let d = notification_properties(vec![1, 2, 3]);
    assert_eq!(d.get("Value"), Some(&PropValue::Bytes(vec![1, 2, 3])));
    assert_eq!(d.entries.len(), 1);
}

#[test]
fn gatt_object_properties() {
    let d = service_properties(0x0000180f_0000_1000_8000_00805f9b34fb, true, None);
    assert_eq!(d.get("UUID"), Some(&PropValue::Str("0000180f-0000-1000-8000-00805f9b34fb".to_string())));
    assert_eq!(d.get("Primary"), Some(&PropValue::Bool(true)));
    assert_eq!(d.get("Handle"), Some(&PropValue::U16(0)));
    let m = CharacteristicMethods { read: true, write: Some(ServeMethod::Io), notify: None };
    let d = characteristic_properties(1, "/app/service0", Some(7), m);
    assert_eq!(d.get("Service"), Some(&PropValue::ObjectPath("/app/service0".to_string())));
    assert_eq!(d.get("Handle"), Some(&PropValue::U16(7)));
    assert_eq!(d.get("WriteAcquired"), Some(&PropValue::Bool(false)));
    assert_eq!(d.get("NotifyAcquired"), Some(&PropValue::Bool(false)));
    assert_eq!(d.get("UUID"), Some(&PropValue::Str("00000000-0000-0000-0000-000000000001".to_string())));
    let d = descriptor_properties(2, "/app/service0/char0", None);
    assert_eq!(d.get("Characteristic"), Some(&PropValue::ObjectPath("/app/service0/char0".to_string())));
    let d = gatt_profile_properties(&vec![3]);
    assert_eq!(d.get("UUIDs"), Some(&PropValue::StrArray(vec!["00000000-0000-0000-0000-000000000003".to_string()])));
}

#[test]
fn gatt_teardown_order() {
    let objs = application_objects("/app", &vec![vec![1]]);
    let steps = teardown_steps("/app", &objs);
    assert_eq!(steps.len(), 5);
    assert!(matches!(&steps[0], TeardownStep::Unregister(p) if p == "/app"));
    assert!(matches!(&steps[1], TeardownStep::Remove(GattObjectKind::Descriptor, p) if p == "/app/service0/char0/desc0"));
    assert!(matches!(&steps[2], TeardownStep::Remove(GattObjectKind::Characteristic, p) if p == "/app/service0/char0"));
    assert!(matches!(&steps[3], TeardownStep::Remove(GattObjectKind::Service, p) if p == "/app/service0"));
    assert!(matches!(&steps[4], TeardownStep::RemoveRoot(p) if p == "/app"));
}

#[test]
fn advertisement_properties_in_key_order() {
    let mut a = adv::Advertisement::default();
    a.service_uuids.insert(0x0000180f_0000_1000_8000_00805f9b34fb);
    a.service_uuids.insert(0x0000180a_0000_1000_8000_00805f9b34fb);
    a.manufacturer_data.insert(0x004c, vec![1]);
    a.manufacturer_data.insert(0x0006, vec![2]);
    a.manufacturer_data.insert(0x004c, vec![3]);
    a.service_data.insert(7, vec![7]);
    a.service_data.insert(5, vec![5]);
    a.advertising_data.insert(0xff, vec![9]);
    a.advertising_data.insert(0x01, vec![8]);
    let d = a.properties();
    assert_eq!(
        d.get("ServiceUUIDs"),
        Some(&PropValue::StrArray(vec![
            "0000180a-0000-1000-8000-00805f9b34fb".to_string(),
            "0000180f-0000-1000-8000-00805f9b34fb".to_string(),
        ]))
    );
    assert_eq!(d.get("ManufacturerData"), Some(&PropValue::U16ToBytes(vec![(0x0006, vec![2]), (0x004c, vec![3])])));
    assert_eq!(
        d.get("ServiceData"),
        Some(&PropValue::StrToBytes(vec![
            ("00000000-0000-0000-0000-000000000005".to_string(), vec![5]),
            ("00000000-0000-0000-0000-000000000007".to_string(), vec![7]),
        ]))
    );
    assert_eq!(d.get("Data"), Some(&PropValue::U8ToBytes(vec![(0x01, vec![8]), (0xff, vec![9])])));
}
