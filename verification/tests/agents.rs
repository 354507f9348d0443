use bluer::agent::{self, AgentAction, AgentCapability, AgentHandlers, AgentRequest};
use bluer::dict::{Dict, PropValue};
use bluer::monitor::{self, Monitor, MonitorEvent, Pattern, RssiSamplingPeriod, Type};
use bluer::rfcomm::profile::{self, Channel, ConnectRequestProps, Profile, Role};
use bluer::time::Timespan;
use bluer::Address;

const DEV: &str = "/org/bluez/hci0/dev_00_1A_7D_DA_71_13";

fn addr() -> Address {
    Address::new([0x00, 0x1a, 0x7d, 0xda, 0x71, 0x13])
}

fn no_handlers() -> AgentHandlers {
    AgentHandlers {
        request_pin_code: false,
        display_pin_code: false,
        request_passkey: false,
        display_passkey: false,
        request_confirmation: false,
        request_authorization: false,
        authorize_service: false,
    }
}

#[test]
fn agent_capability_of_handlers() {
    let none = no_handlers();
    assert_eq!(none.capability(), AgentCapability::NoInputNoOutput);
    assert_eq!(none.capability().as_str(), "NoInputNoOutput");
    let kb = AgentHandlers { request_passkey: true, ..none };
    assert_eq!(kb.capability(), AgentCapability::KeyboardOnly);
    let disp = AgentHandlers { display_pin_code: true, ..none };
    assert_eq!(disp.capability(), AgentCapability::DisplayOnly);
    let yn = AgentHandlers { request_confirmation: true, display_passkey: true, ..none };
    assert_eq!(yn.capability(), AgentCapability::DisplayYesNo);
    let kd = AgentHandlers { request_pin_code: true, display_passkey: true, ..none };
    assert_eq!(kd.capability(), AgentCapability::KeyboardDisplay);
    let ky = AgentHandlers { request_pin_code: true, authorize_service: true, ..none };
    assert_eq!(ky.capability(), AgentCapability::KeyboardDisplay);
    assert_eq!(ky.capability().as_str(), "KeyboardDisplay");
}

#[test]
fn agent_errors() {
    assert_eq!(agent::ReqError::default(), agent::ReqError::Canceled);
    assert_eq!(agent::ReqError::Rejected.to_string(), "Request was rejected.");
    assert_eq!(agent::ReqError::Canceled.to_string(), "Request was canceled.");
    assert_eq!(agent::ReqError::Rejected.dbus_error_name(), "org.bluez.Error.Rejected");
}

#[test]
fn agent_answers_requests() {
    let h = AgentHandlers { request_passkey: true, display_passkey: true, authorize_service: true, ..no_handlers() };
    match agent::agent_action(h, AgentRequest::RequestPasskey, DEV, "") {
        AgentAction::Call { adapter, device, service, cancelable } => {
            assert_eq!(adapter, "hci0");
            assert_eq!(device, addr());
            assert_eq!(service, None);
            assert!(cancelable);
        }
        other => panic!("unexpected {:?}", other),
    }
    match agent::agent_action(h, AgentRequest::DisplayPasskey, DEV, "") {
        AgentAction::Call { cancelable, .. } => assert!(!cancelable),
        other => panic!("unexpected {:?}", other),
    }
    match agent::agent_action(h, AgentRequest::AuthorizeService, DEV, "0000110a-0000-1000-8000-00805f9b34fb") {
        AgentAction::Call { service, .. } => assert_eq!(service, Some(0x0000110a_0000_1000_8000_00805f9b34fb)),
        other => panic!("unexpected {:?}", other),
    }
    assert!(matches!(
        agent::agent_action(h, AgentRequest::AuthorizeService, DEV, "not-a-uuid"),
        AgentAction::Reply(agent::ReqError::Rejected)
    ));
    assert!(matches!(
        agent::agent_action(h, AgentRequest::RequestPinCode, DEV, ""),
        AgentAction::Reply(agent::ReqError::Rejected)
    ));
    assert!(matches!(
        agent::agent_action(h, AgentRequest::RequestPasskey, "/org/bluez/hci0", ""),
        AgentAction::Reply(agent::ReqError::Rejected)
    ));
}

#[test]
fn agent_without_handlers_accepts() {
    let h = no_handlers();
    for req in [
        AgentRequest::RequestConfirmation,
        AgentRequest::RequestAuthorization,
        AgentRequest::DisplayPasskey,
        AgentRequest::DisplayPinCode,
    ] {
        assert!(matches!(agent::agent_action(h, req, DEV, ""), AgentAction::Accept));
    }
    assert!(matches!(
        agent::agent_action(h, AgentRequest::AuthorizeService, DEV, "0000110a-0000-1000-8000-00805f9b34fb"),
        AgentAction::Accept
    ));
    assert!(matches!(
        agent::agent_action(h, AgentRequest::AuthorizeService, DEV, "bad"),
        AgentAction::Reply(agent::ReqError::Rejected)
    ));
    assert!(matches!(
        agent::agent_action(h, AgentRequest::RequestConfirmation, "/org/bluez", ""),
        AgentAction::Reply(agent::ReqError::Rejected)
    ));
    assert!(matches!(
        agent::agent_action(h, AgentRequest::RequestPasskey, DEV, ""),
        AgentAction::Reply(agent::ReqError::Rejected)
    ));
}

#[test]
fn agent_call_outcome() {
    assert_eq!(agent::call_outcome(true, Ok::<u32, agent::ReqError>(5)), Err(agent::ReqError::Canceled));
    assert_eq!(agent::call_outcome(false, Ok::<u32, agent::ReqError>(5)), Ok(5));
    assert_eq!(
        agent::call_outcome(false, Err::<u32, agent::ReqError>(agent::ReqError::Rejected)),
        Err(agent::ReqError::Rejected)
    );
}

#[test]
fn profile_role_and_channel() {
    assert_eq!(Role::Client.to_string(), "client");
    assert_eq!(Role::from_str("server"), Some(Role::Server));
    assert_eq!(Role::from_str("Server"), None);
    assert_eq!(Channel::default(), Channel::Unspecified);
    assert_eq!(profile::ReqError::default(), profile::ReqError::Canceled);
    assert_eq!(profile::ReqError::Canceled.dbus_error_name(), "org.bluez.Error.Canceled");
    assert_eq!(profile::ReqError::Rejected.to_string(), "Request was rejected.");
}

#[test]
fn profile_options_dict() {
    let p = Profile {
        uuid: 0x00001101_0000_1000_8000_00805f9b34fb,
        name: Some("serial".to_string()),
        service: Some(0x00001101_0000_1000_8000_00805f9b34fb),
        role: Some(Role::Server),
        channel: Channel::Auto,
        psm: None,
        require_authentication: Some(false),
        require_authorization: None,
        auto_connect: Some(true),
        service_record: None,
        version: Some(0x0102),
        features: None,
    };
    let d = p.to_dict();
    assert_eq!(d.get("Name"), Some(&PropValue::Str("serial".to_string())));
    assert_eq!(d.get("Service"), Some(&PropValue::Str("00001101-0000-1000-8000-00805f9b34fb".to_string())));
    assert_eq!(d.get("Role"), Some(&PropValue::Str("server".to_string())));
    assert_eq!(d.get("Channel"), Some(&PropValue::U16(0)));
    assert_eq!(d.get("PSM"), None);
    assert_eq!(d.get("RequireAuthentication"), Some(&PropValue::Bool(false)));
    assert_eq!(d.get("RequireAuthorization"), None);
    assert_eq!(d.get("AutoConnect"), Some(&PropValue::Bool(true)));
    assert_eq!(d.get("Version"), Some(&PropValue::U16(0x0102)));
    assert_eq!(d.get("Features"), None);
    let q = Profile { channel: Channel::Specific(3), name: None, ..p.clone() };
    let d = q.to_dict();
    assert_eq!(d.get("Channel"), Some(&PropValue::U16(3)));
    assert_eq!(d.get("Name"), None);
    let u = Profile { channel: Channel::Unspecified, ..p };
    assert_eq!(u.to_dict().get("Channel"), None);
}

#[test]
fn profile_connection_requests() {
    let mut d = Dict::new();
    d.insert("Version", PropValue::U16(7));
    d.insert("Features", PropValue::Bool(true));
    let props = ConnectRequestProps::from_dict(&d);
    assert_eq!(props, ConnectRequestProps { version: Some(7), features: None });
    assert_eq!(profile::connection_device(DEV), Ok(addr()));
    assert_eq!(profile::connection_device("/org/bluez"), Err(profile::ReqError::Rejected));
    assert_eq!(profile::connection_reply(None), Err(profile::ReqError::Rejected));
    assert_eq!(profile::connection_reply(Some(Ok(()))), Ok(()));
    assert_eq!(
        profile::connection_reply(Some(Err(profile::ReqError::Canceled))),
        Err(profile::ReqError::Canceled)
    );
}

#[test]
fn timespans() {
    assert_eq!(Timespan::new(1, 999_999_999), Some(Timespan { secs: 1, nanos: 999_999_999 }));
    assert_eq!(Timespan::new(1, 1_000_000_000), None);
    let t = Timespan::from_millis(2_345);
    assert_eq!(t, Timespan { secs: 2, nanos: 345_000_000 });
    assert_eq!(t.as_millis(), 2_345);
    assert_eq!(Timespan::from_secs(4).as_millis(), 4_000);
}

#[test]
fn monitor_values() {
    assert_eq!(Type::default(), Type::OrPatterns);
    assert_eq!(Type::OrPatterns.to_string(), "or_patterns");
    assert_eq!(Type::from_str("or_patterns"), Some(Type::OrPatterns));
    assert_eq!(Type::from_str("and_patterns"), None);
    assert_eq!(RssiSamplingPeriod::All.to_value(), 0);
    assert_eq!(RssiSamplingPeriod::First.to_value(), 255);
    assert_eq!(RssiSamplingPeriod::Period(Timespan::from_millis(50)).to_value(), 1);
    assert_eq!(RssiSamplingPeriod::Period(Timespan::from_millis(1_234)).to_value(), 12);
    assert_eq!(RssiSamplingPeriod::Period(Timespan::from_secs(100)).to_value(), 254);
    assert_eq!(monitor::timeout_to_value(Timespan::from_millis(500)), 1);
    assert_eq!(monitor::timeout_to_value(Timespan::from_secs(17)), 17);
    assert_eq!(monitor::timeout_to_value(Timespan::from_secs(1_000)), 300);
    let p = Pattern::new(0x09, 1, &[0x41, 0x42]);
    assert_eq!((p.data_type, p.start_position, p.content.clone()), (0x09, 1, vec![0x41, 0x42]));
}

#[test]
fn monitor_properties() {
    let m = Monitor {
        monitor_type: Type::OrPatterns,
        rssi_low_threshold: Some(-90),
        rssi_high_threshold: None,
        rssi_low_timeout: Some(Timespan::from_secs(5)),
        rssi_high_timeout: None,
        rssi_sampling_period: Some(RssiSamplingPeriod::First),
        patterns: Some(vec![Pattern::new(0x01, 0, &[0x06])]),
    };
    let d = m.properties();
    assert_eq!(d.get("Type"), Some(&PropValue::Str("or_patterns".to_string())));
    assert_eq!(d.get("RSSILowThreshold"), Some(&PropValue::I16(-90)));
    assert_eq!(d.get("RSSIHighThreshold"), None);
    assert_eq!(d.get("RSSILowTimeout"), Some(&PropValue::U16(5)));
    assert_eq!(d.get("RSSIHighTimeout"), None);
    assert_eq!(d.get("RSSISamplingPeriod"), Some(&PropValue::U16(255)));
    assert_eq!(d.get("Patterns"), Some(&PropValue::ByteTriples(vec![(0, 0x01, vec![0x06])])));
}

#[test]
fn monitor_events() {
    match monitor::monitor_event(true, DEV) {
        Ok(MonitorEvent::DeviceFound(id)) => {
            assert_eq!(id.adapter, "hci0");
            assert_eq!(id.device, addr());
        }
        other => panic!("unexpected {:?}", other),
    }
    assert!(matches!(monitor::monitor_event(false, DEV), Ok(MonitorEvent::DeviceLost(_))));
    let e = monitor::monitor_event(true, "/x").unwrap_err();
    assert_eq!(e.0, "cannot parse device path");
}

#[test]
fn agent_method_table() {
    let all = [
        AgentRequest::RequestPinCode,
        AgentRequest::DisplayPinCode,
        AgentRequest::RequestPasskey,
        AgentRequest::DisplayPasskey,
        AgentRequest::RequestConfirmation,
        AgentRequest::RequestAuthorization,
        AgentRequest::AuthorizeService,
    ];
    for r in all {
        assert_eq!(AgentRequest::from_method_name(r.method_name()), Some(r));
    }
    assert_eq!(AgentRequest::RequestConfirmation.method_name(), "RequestConfirmation");
    assert_eq!(AgentRequest::from_method_name("AuthorizeService"), Some(AgentRequest::AuthorizeService));
    assert_eq!(AgentRequest::from_method_name("Cancel"), None);
    assert_eq!(AgentRequest::from_method_name("Release"), None);
}
