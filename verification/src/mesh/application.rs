//! Bluetooth mesh application: its properties, the reasons a join fails,
//! and the object paths under which it is published.
use vstd::prelude::*;
use crate::text::{dec_string, owned, push_dec, str_eq, uuid_simple_string, uuid_simple_text};
use crate::foreign::is_object_path;
use crate::object_path::{
    lemma_object_path_child, lemma_prefix_valid, lemma_uuid_simple_element, lemma_word_element, lemma_word_number_element,
    letters_from, plain_from,
};

verus! {

/// Application properties.
#[derive(Clone, Copy, Debug, PartialEq, Eq, Structural)]
pub struct Properties {
    /// Company id.
    pub company_id: u16,
    /// Product id.
    pub product_id: u16,
    /// Version id.
    pub version_id: u16,
}

impl Properties {
    /// All ids zero.
    pub fn default() -> (r: Properties)
        ensures
            r.company_id == 0 && r.product_id == 0 && r.version_id == 0,
    {
        Properties { company_id: 0, product_id: 0, version_id: 0 }
    }
}

/// Reason why node provisioning initiated by joining has failed.
#[derive(Clone, Copy, Debug, PartialEq, Eq, Structural)]
pub enum JoinFailedReason {
    /// timeout
    Timeout,
    /// bad PDU
    BadPdu,
    /// confirmation failure
    ConfirmationFailed,
    /// out of resources
    OutOfResources,
    /// decryption error
    DecryptionError,
    /// unexpected error
    UnexpectedError,
    /// cannot assign addresses
    CannotAssignAddresses,
    /// Unknown reason
    Unknown,
}

/// The join failure reason that a BlueZ reason text names; `Unknown` for
/// any other text.
pub open spec fn join_failed_reason_of(s: Seq<char>) -> JoinFailedReason {
    if s == "timeout"@ {
        JoinFailedReason::Timeout
    } else if s == "bad-pdu"@ {
        JoinFailedReason::BadPdu
    } else if s == "confirmation-failed"@ {
        JoinFailedReason::ConfirmationFailed
    } else if s == "out-of-resources"@ {
        JoinFailedReason::OutOfResources
    } else if s == "decryption-error"@ {
        JoinFailedReason::DecryptionError
    } else if s == "unexpected-error"@ {
        JoinFailedReason::UnexpectedError
    } else if s == "cannot-assign-addresses"@ {
        JoinFailedReason::CannotAssignAddresses
    } else {
        JoinFailedReason::Unknown
    }
}

/// The text under which the daemon reports each reason of a failed join
/// (none for a reason it does not report).
pub open spec fn join_failed_reason_text(r: JoinFailedReason) -> Option<Seq<char>> {
    match r {
        JoinFailedReason::Timeout => Some("timeout"@),
        JoinFailedReason::BadPdu => Some("bad-pdu"@),
        JoinFailedReason::ConfirmationFailed => Some("confirmation-failed"@),
        JoinFailedReason::OutOfResources => Some("out-of-resources"@),
        JoinFailedReason::DecryptionError => Some("decryption-error"@),
        JoinFailedReason::UnexpectedError => Some("unexpected-error"@),
        JoinFailedReason::CannotAssignAddresses => Some("cannot-assign-addresses"@),
        JoinFailedReason::Unknown => None,
    }
}

/// The text of every reported reason is read back as that reason, and a
/// text is read as a known reason only when it is that reason's text.
pub proof fn lemma_join_failed_reason_texts(r: JoinFailedReason, s: Seq<char>)
    ensures
        join_failed_reason_text(r) matches Some(t) ==> join_failed_reason_of(t) == r,
        join_failed_reason_of(s) != JoinFailedReason::Unknown ==> join_failed_reason_text(join_failed_reason_of(s))
            == Some(s),
{
    reveal_strlit("timeout");
    reveal_strlit("bad-pdu");
    reveal_strlit("confirmation-failed");
    reveal_strlit("out-of-resources");
    reveal_strlit("decryption-error");
    reveal_strlit("unexpected-error");
    reveal_strlit("cannot-assign-addresses");
    assert("timeout"@.len() == 7 && "timeout"@[0] == 't');
    assert("bad-pdu"@.len() == 7 && "bad-pdu"@[0] == 'b');
    assert("confirmation-failed"@.len() == 19);
    assert("out-of-resources"@.len() == 16 && "out-of-resources"@[0] == 'o');
    assert("decryption-error"@.len() == 16 && "decryption-error"@[0] == 'd');
    assert("unexpected-error"@.len() == 16 && "unexpected-error"@[0] == 'u');
    assert("cannot-assign-addresses"@.len() == 23);
}

/// The message of a join failure reason (its `Display` form).
pub open spec fn join_failed_text(r: JoinFailedReason) -> Seq<char> {
    match r {
        JoinFailedReason::Timeout => "timeout"@,
        JoinFailedReason::BadPdu => "bad PDU"@,
        JoinFailedReason::ConfirmationFailed => "confirmation failure"@,
        JoinFailedReason::OutOfResources => "out of resources"@,
        JoinFailedReason::DecryptionError => "decryption error"@,
        JoinFailedReason::UnexpectedError => "unexpected error"@,
        JoinFailedReason::CannotAssignAddresses => "cannot assign addresses"@,
        JoinFailedReason::Unknown => "Unknown reason"@,
    }
}

impl JoinFailedReason {
    /// The reason that a `JoinFailed` call of the daemon gives.
    pub fn from_reason(s: &str) -> (r: JoinFailedReason)
        ensures
            r == join_failed_reason_of(s@),
    {
        if str_eq(s, "timeout") {
            JoinFailedReason::Timeout
        } else if str_eq(s, "bad-pdu") {
            JoinFailedReason::BadPdu
        } else if str_eq(s, "confirmation-failed") {
            JoinFailedReason::ConfirmationFailed
        } else if str_eq(s, "out-of-resources") {
            JoinFailedReason::OutOfResources
        } else if str_eq(s, "decryption-error") {
            JoinFailedReason::DecryptionError
        } else if str_eq(s, "unexpected-error") {
            JoinFailedReason::UnexpectedError
        } else if str_eq(s, "cannot-assign-addresses") {
            JoinFailedReason::CannotAssignAddresses
        } else {
            JoinFailedReason::Unknown
        }
    }

    /// The message of the reason.
    pub fn to_string(&self) -> (r: String)
        ensures
            r@ == join_failed_text(*self),
    {
        match self {
            JoinFailedReason::Timeout => owned("timeout"),
            JoinFailedReason::BadPdu => owned("bad PDU"),
            JoinFailedReason::ConfirmationFailed => owned("confirmation failure"),
            JoinFailedReason::OutOfResources => owned("out of resources"),
            JoinFailedReason::DecryptionError => owned("decryption error"),
            JoinFailedReason::UnexpectedError => owned("unexpected error"),
            JoinFailedReason::CannotAssignAddresses => owned("cannot assign addresses"),
            JoinFailedReason::Unknown => owned("Unknown reason"),
        }
    }

    /// The default reason: an unexpected error.
    pub fn default() -> (r: JoinFailedReason)
        ensures
            r == JoinFailedReason::UnexpectedError,
    {
        JoinFailedReason::UnexpectedError
    }
}

/// Root object path of a mesh application: `/mesh/app/` and its device id
/// without hyphens.
pub open spec fn app_root_text(device_id: u128) -> Seq<char> {
    "/mesh/app/"@ + uuid_simple_text(device_id)
}

/// The object paths under which a mesh application is published.
#[derive(Clone, Debug)]
pub struct AppPaths {
    /// The root, with the object manager.
    pub root: String,
    /// The provisioning agent.
    pub agent: String,
    /// The application (and provisioner) interface.
    pub application: String,
    /// The elements, by index.
    pub elements: Vec<String>,
}

/// The object paths of a mesh application with `n_elements` elements:
/// the root, `<root>/agent`, `<root>/application` and `<root>/ele<i>`.
pub fn app_paths(device_id: u128, n_elements: usize) -> (r: AppPaths)
    ensures
        r.root@ == app_root_text(device_id),
        r.agent@ == app_root_text(device_id) + "/agent"@,
        r.application@ == app_root_text(device_id) + "/application"@,
        r.elements@.len() == n_elements,
        forall|i: int| 0 <= i < n_elements ==> #[trigger] r.elements@[i]@ == app_root_text(device_id) + "/ele"@
            + dec_string(i as nat),
{
    let mut root = owned("/mesh/app/");
    let id = uuid_simple_string(device_id);
    root.append(id.as_str());
    let mut agent = owned(root.as_str());
    agent.append("/agent");
    let mut application = owned(root.as_str());
    application.append("/application");
    let mut elements: Vec<String> = Vec::new();
    let mut i: usize = 0;
    while i < n_elements
        invariant
            i <= n_elements,
            root@ == app_root_text(device_id),
            elements@.len() == i,
            forall|j: int| 0 <= j < i ==> #[trigger] elements@[j]@ == app_root_text(device_id) + "/ele"@ + dec_string(
                j as nat,
            ),
        decreases n_elements - i,
    {
        let mut e = owned(root.as_str());
        e.append("/ele");
        push_dec(&mut e, i as u64);
        elements.push(e);
        i = i + 1;
    }
    AppPaths { root, agent, application, elements }
}


/// The object paths of a mesh application are valid D-Bus object paths:
/// its root, agent, application and element paths.
pub proof fn lemma_app_paths_valid(device_id: u128, i: nat)
    ensures
        is_object_path(app_root_text(device_id)),
        is_object_path(app_root_text(device_id) + "/agent"@),
        is_object_path(app_root_text(device_id) + "/application"@),
        is_object_path(app_root_text(device_id) + "/ele"@ + dec_string(i)),
{
    reveal_strlit("/mesh/app/");
    reveal_strlit("/mesh/app");
    reveal_strlit("/");
    reveal_strlit("/agent");
    reveal_strlit("agent");
    reveal_strlit("/application");
    reveal_strlit("application");
    reveal_strlit("/ele");
    reveal_strlit("ele");
    let root = app_root_text(device_id);
    assert("/mesh/app/"@ =~= "/mesh/app"@ + "/"@);
    assert(root =~= "/mesh/app"@ + "/"@ + uuid_simple_text(device_id));
    assert(plain_from("/mesh/app"@, 0)) by {
        reveal_with_fuel(plain_from, 12);
    }
    lemma_prefix_valid("/mesh/app"@);
    lemma_uuid_simple_element(device_id);
    lemma_object_path_child("/mesh/app"@, uuid_simple_text(device_id));
    assert(letters_from("agent"@, 0)) by {
        reveal_with_fuel(letters_from, 8);
    }
    lemma_word_element("agent"@);
    assert(root + "/agent"@ =~= root + "/"@ + "agent"@);
    lemma_object_path_child(root, "agent"@);
    assert(letters_from("application"@, 0)) by {
        reveal_with_fuel(letters_from, 14);
    }
    lemma_word_element("application"@);
    assert(root + "/application"@ =~= root + "/"@ + "application"@);
    lemma_object_path_child(root, "application"@);
    assert(letters_from("ele"@, 0)) by {
        reveal_with_fuel(letters_from, 6);
    }
    lemma_word_element("ele"@);
    lemma_word_number_element("ele"@, i);
    assert(root + "/ele"@ + dec_string(i) =~= root + "/"@ + ("ele"@ + dec_string(i)));
    lemma_object_path_child(root, "ele"@ + dec_string(i));
}

} // verus!

verus! {

/// An interface that a mesh application publishes.
#[derive(Clone, Copy, Debug, PartialEq, Eq, Structural)]
pub enum MeshInterface {
    /// The object manager, at the root.
    ObjectManager,
    /// `ProvisionAgent1`, at `<root>/agent`.
    ProvisionAgent,
    /// `Application1`, at `<root>/application`.
    Application,
    /// `Provisioner1`, at `<root>/application` too.
    Provisioner,
    /// `Element1`, at `<root>/ele<i>`.
    Element,
}

/// The interfaces that registering a mesh application publishes, in
/// order, with their paths: the object manager at the root, the agent, the
/// application, the provisioner exactly when one is given, and each
/// element.
pub open spec fn mesh_objects(device_id: u128, provisioner: bool, n_elements: nat) -> Seq<(MeshInterface, Seq<char>)> {
    let root = app_root_text(device_id);
    seq![
        (MeshInterface::ObjectManager, root),
        (MeshInterface::ProvisionAgent, root + "/agent"@),
        (MeshInterface::Application, root + "/application"@),
    ] + (if provisioner {
        seq![(MeshInterface::Provisioner, root + "/application"@)]
    } else {
        Seq::empty()
    }) + Seq::new(n_elements, |i: int| (MeshInterface::Element, root + "/ele"@ + dec_string(i as nat)))
}

/// The interfaces and paths of a list of published objects.
pub open spec fn mesh_objects_view(v: Seq<(MeshInterface, String)>) -> Seq<(MeshInterface, Seq<char>)> {
    v.map_values(|o: (MeshInterface, String)| (o.0, o.1@))
}

/// The interfaces that registering a mesh application with the given
/// device id, with or without a provisioner, and with `n_elements`
/// elements publishes, in order, with their object paths.
pub fn mesh_app_objects(device_id: u128, provisioner: bool, n_elements: usize) -> (r: Vec<(MeshInterface, String)>)
    ensures
        mesh_objects_view(r@) == mesh_objects(device_id, provisioner, n_elements as nat),
{
    let paths = app_paths(device_id, n_elements);
    let mut r: Vec<(MeshInterface, String)> = Vec::new();
    r.push((MeshInterface::ObjectManager, owned(paths.root.as_str())));
    r.push((MeshInterface::ProvisionAgent, owned(paths.agent.as_str())));
    r.push((MeshInterface::Application, owned(paths.application.as_str())));
    if provisioner {
        r.push((MeshInterface::Provisioner, owned(paths.application.as_str())));
    }
    let ghost head = mesh_objects_view(r@);
    let ghost root = app_root_text(device_id);
    let ghost els = Seq::new(n_elements as nat, |i: int| (MeshInterface::Element, root + "/ele"@ + dec_string(i as nat)));
    assert(head =~= seq![
        (MeshInterface::ObjectManager, root),
        (MeshInterface::ProvisionAgent, root + "/agent"@),
        (MeshInterface::Application, root + "/application"@),
    ] + (if provisioner {
        seq![(MeshInterface::Provisioner, root + "/application"@)]
    } else {
        Seq::<(MeshInterface, Seq<char>)>::empty()
    }));
    let mut i: usize = 0;
    while i < n_elements
        invariant
            i <= n_elements,
            paths.elements@.len() == n_elements,
            forall|j: int| 0 <= j < n_elements ==> #[trigger] paths.elements@[j]@ == root + "/ele"@ + dec_string(j as nat),
            root == app_root_text(device_id),
            els == Seq::new(n_elements as nat, |k: int| (MeshInterface::Element, root + "/ele"@ + dec_string(k as nat))),
            mesh_objects_view(r@) == head + els.take(i as int),
        decreases n_elements - i,
    {
        let ghost before = mesh_objects_view(r@);
        r.push((MeshInterface::Element, owned(paths.elements[i].as_str())));
        assert(mesh_objects_view(r@) =~= before.push((MeshInterface::Element, paths.elements@[i as int]@)));
        assert(els.take(i + 1) =~= els.take(i as int).push(els[i as int]));
        i = i + 1;
    }
    assert(els.take(n_elements as int) =~= els);
    r
}

} // verus!
