use bluer::mesh::application::{mesh_app_objects, MeshInterface};
use bluer::mesh::element::{element_properties, Element};
use bluer::dict::PropValue;
use bluer::mesh::agent::{
    self as mesh_agent, Capability, DisplayNumeric, NumericCapability, StaticCapability,
};
use bluer::mesh::application::{app_paths, JoinFailedReason, Properties};
use bluer::mesh::element::{
    message_destination, message_received, ElementEvent, ElementRef, ElementRegistration, Model, VendorModel,
};
use bluer::mesh::management::{add_node_outcome, AddNodeFailedReason, NodeAdded};
use bluer::mesh::provisioner::{add_node_complete, add_node_failed, uuid_from_slice, Provisioner, ProvisionerState};
use bluer::mesh::{FdoErrorKind, ReqError};

const UUID_BYTES: [u8; 16] = [
    0x01, 0x23, 0x45, 0x67, 0x89, 0xab, 0xcd, 0xef, 0x00, 0x11, 0x22, 0x33, 0x44, 0x55, 0x66, 0x77,
];
const UUID: u128 = 0x0123456789abcdef0011223344556677;

#[test]
fn mesh_errors_map_to_fdo() {
    assert_eq!(ReqError::default(), ReqError::Failed);
    assert_eq!(ReqError::Failed.to_fdo(), (FdoErrorKind::Failed, "Failed"));
    assert_eq!(ReqError::InProgress.to_fdo(), (FdoErrorKind::Failed, "In Progress"));
    assert_eq!(ReqError::InvalidOffset.to_fdo(), (FdoErrorKind::InvalidArgs, "Invalid Offset"));
    assert_eq!(ReqError::NotAuthorized.to_fdo(), (FdoErrorKind::AccessDenied, "Not Authorized"));
    assert_eq!(ReqError::NotSupported.to_fdo(), (FdoErrorKind::NotSupported, "Not Supported"));
}

#[test]
fn mesh_agent_capabilities() {
    assert_eq!(StaticCapability::from_str("in-alpha"), Some(StaticCapability::InAlpha));
    assert_eq!(StaticCapability::from_str("static-oob"), Some(StaticCapability::StaticOob));
    assert_eq!(StaticCapability::from_str("InAlpha"), None);
    assert_eq!(NumericCapability::from_str("out-numeric"), Some(NumericCapability::OutNumeric));
    assert_eq!(NumericCapability::from_str("twist"), Some(NumericCapability::Twist));
    assert_eq!(NumericCapability::from_str("shake"), None);
    let caps = vec![Capability::Numeric(NumericCapability::Blink), Capability::Static(StaticCapability::StaticOob)];
    assert_eq!(mesh_agent::capabilities_property(&caps), vec!["Blink".to_string(), "StaticOob".to_string()]);
    assert_eq!(
        mesh_agent::display_numeric_request("beep", 1234),
        DisplayNumeric { display_type: NumericCapability::Beep, number: 1234 }
    );
    assert_eq!(mesh_agent::prompt_static_request("in-alpha"), StaticCapability::InAlpha);
    assert_eq!(mesh_agent::ReqError::default(), mesh_agent::ReqError::Canceled);
    assert_eq!(mesh_agent::ReqError::Rejected.dbus_error_name(), "org.bluez.Error.Rejected");
}

#[test]
fn mesh_join_failed_reasons() {
    assert_eq!(JoinFailedReason::from_reason("bad-pdu"), JoinFailedReason::BadPdu);
    assert_eq!(JoinFailedReason::from_reason("cannot-assign-addresses"), JoinFailedReason::CannotAssignAddresses);
    assert_eq!(JoinFailedReason::from_reason("something"), JoinFailedReason::Unknown);
    assert_eq!(JoinFailedReason::BadPdu.to_string(), "bad PDU");
    assert_eq!(JoinFailedReason::ConfirmationFailed.to_string(), "confirmation failure");
    assert_eq!(JoinFailedReason::Unknown.to_string(), "Unknown reason");
    assert_eq!(JoinFailedReason::default(), JoinFailedReason::UnexpectedError);
    let p = Properties::default();
    assert_eq!((p.company_id, p.product_id, p.version_id), (0, 0, 0));
}

#[test]
fn mesh_application_paths() {
    let p = app_paths(UUID, 2);
    assert_eq!(p.root, "/mesh/app/0123456789abcdef0011223344556677");
    assert_eq!(p.agent, "/mesh/app/0123456789abcdef0011223344556677/agent");
    assert_eq!(p.application, "/mesh/app/0123456789abcdef0011223344556677/application");
    assert_eq!(
        p.elements,
        vec![
            "/mesh/app/0123456789abcdef0011223344556677/ele0".to_string(),
            "/mesh/app/0123456789abcdef0011223344556677/ele1".to_string(),
        ]
    );
}

#[test]
fn mesh_models_and_elements() {
    let m = Model::new(0x1000);
    let (id, opts) = m.as_tuple();
    assert_eq!(id, 0x1000);
    assert_eq!(opts.get("Publish"), Some(&PropValue::Bool(true)));
    assert_eq!(opts.get("Subscribe"), Some(&PropValue::Bool(true)));
    let v = VendorModel { publish: false, ..VendorModel::new(0x05f1, 2) };
    let (vendor, vid, vopts) = v.as_tuple();
    assert_eq!((vendor, vid), (0x05f1, 2));
    assert_eq!(vopts.get("Publish"), Some(&PropValue::Bool(false)));
    assert_eq!(Model::default(), Model { id: 0, publish: true, subscribe: true });
    let unregistered = ElementRef { registration: None };
    assert_eq!(unregistered.index(), None);
    assert_eq!(unregistered.path(), None);
    let r = ElementRef { registration: Some(ElementRegistration { root_path: "/mesh/app/x".to_string(), index: 12 }) };
    assert_eq!(r.index(), Some(12));
    assert_eq!(r.path(), Some("/mesh/app/x/ele12".to_string()));
}

#[test]
fn mesh_message_destinations() {
    assert_eq!(message_destination(&PropValue::U16(0xc001)), Ok(0xc001));
    assert_eq!(message_destination(&PropValue::Bytes(vec![0x12, 0x34, 0x56])), Ok(0x1234));
    assert_eq!(message_destination(&PropValue::Bytes(vec![0x12])), Err(ReqError::Failed));
    assert_eq!(message_destination(&PropValue::Bool(true)), Err(ReqError::Failed));
    match message_received(1, 2, &PropValue::U16(3), vec![9, 8]) {
        Ok(ElementEvent::MessageReceived(m)) => {
            assert_eq!((m.source, m.key_index, m.destination, m.data), (1, 2, 3, vec![9, 8]));
        }
        other => panic!("unexpected {:?}", other),
    }
    assert!(message_received(1, 2, &PropValue::Str("x".to_string()), vec![]).is_err());
}

#[test]
fn mesh_provisioner_addresses() {
    let mut s = ProvisionerState::new(Provisioner { net_index: 3, start_address: 0x0100 });
    assert_eq!(s.request_prov_data(2), (3, 0x0100));
    assert_eq!(s.request_prov_data(0), (3, 0x0103));
    assert_eq!(s.next_address, 0x0104);
}

#[test]
fn mesh_provisioner_results() {
    assert_eq!(uuid_from_slice(&UUID_BYTES), Some(UUID));
    assert_eq!(uuid_from_slice(&UUID_BYTES[..15]), None);
    let done = add_node_complete(&UUID_BYTES, 0x0200, 3).unwrap();
    assert_eq!(done, (UUID, Ok(NodeAdded { unicast: 0x0200, count: 3 })));
    let failed = add_node_failed(&UUID_BYTES, "timeout").unwrap();
    assert_eq!(failed, (UUID, Err(AddNodeFailedReason::Timeout)));
    assert_eq!(add_node_failed(&[1, 2], "timeout"), Err(ReqError::Failed));
    assert_eq!(add_node_outcome(UUID, failed.clone()), Some(Err(AddNodeFailedReason::Timeout)));
    assert_eq!(add_node_outcome(UUID + 1, failed), None);
    assert_eq!(AddNodeFailedReason::from_reason("aborted"), AddNodeFailedReason::Aborted);
    assert_eq!(AddNodeFailedReason::from_reason("nope"), AddNodeFailedReason::Unknown);
    assert_eq!(AddNodeFailedReason::ConfirmationFailed.to_string(), "confirmation failed");
    assert_eq!(AddNodeFailedReason::Unknown.to_string(), "unknown reason");
}

#[test]
fn mesh_published_objects() {
    let with = mesh_app_objects(UUID, true, 1);
    let root = "/mesh/app/0123456789abcdef0011223344556677";
    assert_eq!(
        with,
        vec![
            (MeshInterface::ObjectManager, root.to_string()),
            (MeshInterface::ProvisionAgent, format!("{root}/agent")),
            (MeshInterface::Application, format!("{root}/application")),
            (MeshInterface::Provisioner, format!("{root}/application")),
            (MeshInterface::Element, format!("{root}/ele0")),
        ]
    );
    let without = mesh_app_objects(UUID, false, 0);
    assert_eq!(without.len(), 3);
    assert!(without.iter().all(|(i, _)| *i != MeshInterface::Provisioner));
}

#[test]
fn mesh_element_properties_and_refs() {
    let e = Element {
        location: Some(5),
        models: vec![Model::new(0x1000)],
        vendor_models: vec![VendorModel::new(0x05f1, 1)],
    };
    let p = element_properties(&e, 258);
    assert_eq!(p.index, 2);
    assert_eq!(p.location, Some(5));
    assert_eq!(p.models.len(), 1);
    assert_eq!(p.models[0].0, 0x1000);
    assert_eq!(p.models[0].1.get("Publish"), Some(&PropValue::Bool(true)));
    assert_eq!((p.vendor_models[0].0, p.vendor_models[0].1), (0x05f1, 1));
    let mut r = ElementRef::new();
    assert_eq!(r.index(), None);
    r.register("/mesh/app/x".to_string(), 3);
    assert_eq!(r.index(), Some(3));
    assert_eq!(r.path(), Some("/mesh/app/x/ele3".to_string()));
    r.release();
    assert_eq!(r.index(), None);
}
