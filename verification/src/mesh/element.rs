//! Bluetooth mesh elements: their models and the properties they publish,
//! the reference to a registered element, and the messages the daemon
//! delivers to them.
use vstd::prelude::*;
use crate::dict::{Dict, PropValue};
use crate::mesh::ReqError;
use crate::text::{dec_string, owned, push_dec};

verus! {

/// SIG model information.
#[derive(Clone, Copy, Debug, PartialEq, Eq, Structural)]
pub struct Model {
    /// SIG model identifier.
    pub id: u16,
    /// The model supports publication (true by default).
    pub publish: bool,
    /// The model supports subscription (true by default).
    pub subscribe: bool,
}

/// The options dictionary of a model: `Publish` and `Subscribe`.
pub open spec fn model_options(d: Dict, publish: bool, subscribe: bool) -> bool {
    &&& d.get_spec("Publish"@) == Some(PropValue::Bool(publish))
    &&& d.get_spec("Subscribe"@) == Some(PropValue::Bool(subscribe))
    &&& forall|k: Seq<char>| k != "Publish"@ && k != "Subscribe"@ ==> #[trigger] d.get_spec(k) is None
}

fn model_options_dict(publish: bool, subscribe: bool) -> (r: Dict)
    ensures
        model_options(r, publish, subscribe),
{
    proof {
        reveal_strlit("Publish");
        reveal_strlit("Subscribe");
        assert("Publish"@.len() == 7 && "Subscribe"@.len() == 9);
    }
    let mut d = Dict::new();
    assert forall|k: Seq<char>| #[trigger] d.get_spec(k) is None by {}
    d.insert("Publish", PropValue::Bool(publish));
    d.insert("Subscribe", PropValue::Bool(subscribe));
    d
}

impl Model {
    /// A model with the given SIG identifier, supporting publication and
    /// subscription.
    pub fn new(id: u16) -> (r: Self)
        ensures
            r.id == id && r.publish && r.subscribe,
    {
        Model { id, publish: true, subscribe: true }
    }

    /// The default model: identifier 0, publication and subscription.
    pub fn default() -> (r: Self)
        ensures
            r.id == 0 && r.publish && r.subscribe,
    {
        Model { id: 0, publish: true, subscribe: true }
    }

    /// The entry of the model in the `Models` property.
    pub fn as_tuple(&self) -> (r: (u16, Dict))
        ensures
            r.0 == self.id,
            model_options(r.1, self.publish, self.subscribe),
    {
        (self.id, model_options_dict(self.publish, self.subscribe))
    }
}

/// Vendor model information.
#[derive(Clone, Copy, Debug, PartialEq, Eq, Structural)]
pub struct VendorModel {
    /// Company id.
    pub vendor: u16,
    /// Vendor-assigned model identifier.
    pub id: u16,
    /// The model supports publication (true by default).
    pub publish: bool,
    /// The model supports subscription (true by default).
    pub subscribe: bool,
}

impl VendorModel {
    /// A model with the vendor and model identifiers, supporting
    /// publication and subscription.
    pub fn new(vendor: u16, id: u16) -> (r: Self)
        ensures
            r.vendor == vendor && r.id == id && r.publish && r.subscribe,
    {
        VendorModel { vendor, id, publish: true, subscribe: true }
    }

    /// The default model: identifiers 0, publication and subscription.
    pub fn default() -> (r: Self)
        ensures
            r.vendor == 0 && r.id == 0 && r.publish && r.subscribe,
    {
        VendorModel { vendor: 0, id: 0, publish: true, subscribe: true }
    }

    /// The entry of the model in the `VendorModels` property.
    pub fn as_tuple(&self) -> (r: (u16, u16, Dict))
        ensures
            r.0 == self.vendor && r.1 == self.id,
            model_options(r.2, self.publish, self.subscribe),
    {
        (self.vendor, self.id, model_options_dict(self.publish, self.subscribe))
    }
}

/// A Bluetooth mesh element.
#[derive(Clone, Debug)]
pub struct Element {
    /// Location descriptor.
    pub location: Option<u16>,
    /// Element SIG models.
    pub models: Vec<Model>,
    /// Vendor models.
    pub vendor_models: Vec<VendorModel>,
}

/// Where a registered element is published: the application's root path
/// and the element's index.
#[derive(Clone, Debug)]
pub struct ElementRegistration {
    /// Root path of the application.
    pub root_path: String,
    /// Element index.
    pub index: usize,
}

/// A reference to an element, with its registration while it is
/// registered.
#[derive(Clone, Debug)]
pub struct ElementRef {
    /// The registration, `None` while the element is not registered.
    pub registration: Option<ElementRegistration>,
}

impl ElementRef {
    /// Element index; `None` if the element is currently not registered.
    pub fn index(&self) -> (r: Option<usize>)
        ensures
            self.registration is None ==> r is None,
            self.registration matches Some(reg) ==> r == Some(reg.index),
    {
        match &self.registration {
            Some(reg) => Some(reg.index),
            None => None,
        }
    }

    /// Element object path, `<root>/ele<index>`; `None` if the element is
    /// currently not registered.
    pub fn path(&self) -> (r: Option<String>)
        ensures
            self.registration is None ==> r is None,
            self.registration matches Some(reg) ==> (r matches Some(p) && p@ == reg.root_path@ + "/ele"@
                + dec_string(reg.index as nat)),
    {
        match &self.registration {
            Some(reg) => {
                let mut p = owned(reg.root_path.as_str());
                p.append("/ele");
                push_dec(&mut p, reg.index as u64);
                Some(p)
            },
            None => None,
        }
    }
}

/// A message addressed to the application element.
#[derive(Clone, Debug)]
pub struct ReceivedMessage {
    /// Index of application key used to decode the incoming message.
    pub key_index: u16,
    /// Unicast address of the remote node-element that sent the message.
    pub source: u16,
    /// The destination address of the received message.
    pub destination: u16,
    /// Incoming message.
    pub data: Vec<u8>,
}

/// Message originated by a local model encoded with the device key of
/// the remote node.
#[derive(Clone, Debug)]
pub struct ReceivedDevKeyMessage {
    /// Unicast address of the remote node-element that sent the message.
    pub source: u16,
    /// The device key used to decrypt the message was from the sender.
    pub remote: bool,
    /// Subnet message was received on.
    pub net_index: u16,
    /// Incoming message.
    pub data: Vec<u8>,
}

/// Bluetooth mesh element events received by the application.
#[derive(Clone, Debug)]
pub enum ElementEvent {
    /// A message arrived addressed to the application element.
    MessageReceived(ReceivedMessage),
    /// A message arrived, sent with the remote node's device key.
    DevKeyMessageReceived(ReceivedDevKeyMessage),
}

/// The destination address of a `MessageReceived` call: a 16-bit value,
/// or the first two bytes of a byte array, most significant first.
pub open spec fn destination_of(v: PropValue) -> Option<u16> {
    match v {
        PropValue::U16(x) => Some(x),
        PropValue::Bytes(b) => if b@.len() >= 2 {
            Some((b@[0] * 256 + b@[1]) as u16)
        } else {
            None
        },
        _ => None,
    }
}

/// The destination address of a `MessageReceived` call; a byte array that
/// is too short, or a value of another kind, is answered with `Failed`.
pub fn message_destination(v: &PropValue) -> (r: Result<u16, ReqError>)
    ensures
        r matches Ok(x) ==> destination_of(*v) == Some(x),
        r is Err ==> destination_of(*v) is None && r == Err::<u16, ReqError>(ReqError::Failed),
{
    match v {
        PropValue::U16(x) => Ok(*x),
        PropValue::Bytes(b) => if b.len() >= 2 {
            Ok((b[0] as u16) * 256 + (b[1] as u16))
        } else {
            Err(ReqError::Failed)
        },
        _ => Err(ReqError::Failed),
    }
}

/// The event of a `MessageReceived` call.
pub fn message_received(source: u16, key_index: u16, destination: &PropValue, data: Vec<u8>) -> (r: Result<
    ElementEvent,
    ReqError,
>)
    ensures
        r is Err <==> destination_of(*destination) is None,
        r matches Err(e) ==> e == ReqError::Failed,
        r matches Ok(ev) ==> (ev matches ElementEvent::MessageReceived(m) && m.source == source && m.key_index
            == key_index && Some(m.destination) == destination_of(*destination) && m.data@ == data@),
{
    let destination = message_destination(destination)?;
    Ok(ElementEvent::MessageReceived(ReceivedMessage { key_index, source, destination, data }))
}

} // verus!

verus! {

/// The properties that a registered element publishes: its index (as a
/// byte), its location when it has one, and the entries of its SIG and
/// vendor models.
#[derive(Clone, Debug)]
pub struct ElementProperties {
    /// `Index`.
    pub index: u8,
    /// `Location`, absent when `None`.
    pub location: Option<u16>,
    /// `Models`: each model's id and options.
    pub models: Vec<(u16, Dict)>,
    /// `VendorModels`: each model's vendor, id and options.
    pub vendor_models: Vec<(u16, u16, Dict)>,
}

/// The properties of the element with the given index: the index cut to a
/// byte, the element's location, and for each SIG and vendor model, in
/// order, its ids and its publish and subscribe options.
pub fn element_properties(e: &Element, index: usize) -> (r: ElementProperties)
    ensures
        r.index == index % 256,
        r.location == e.location,
        r.models@.len() == e.models@.len(),
        forall|i: int| 0 <= i < e.models@.len() ==> #[trigger] r.models@[i].0 == e.models@[i].id && model_options(
            r.models@[i].1,
            e.models@[i].publish,
            e.models@[i].subscribe,
        ),
        r.vendor_models@.len() == e.vendor_models@.len(),
        forall|i: int| #![trigger r.vendor_models@[i]] 0 <= i < e.vendor_models@.len() ==> r.vendor_models@[i].0 == e.vendor_models@[i].vendor
            && r.vendor_models@[i].1 == e.vendor_models@[i].id && model_options(
            r.vendor_models@[i].2,
            e.vendor_models@[i].publish,
            e.vendor_models@[i].subscribe,
        ),
{
    let mut models: Vec<(u16, Dict)> = Vec::new();
    let mut i: usize = 0;
    while i < e.models.len()
        invariant
            i <= e.models@.len(),
            models@.len() == i,
            forall|j: int| 0 <= j < i ==> #[trigger] models@[j].0 == e.models@[j].id && model_options(
                models@[j].1,
                e.models@[j].publish,
                e.models@[j].subscribe,
            ),
        decreases e.models@.len() - i,
    {
        let ghost before = models@;
        let t = e.models[i].as_tuple();
        models.push(t);
        assert(models@[i as int] == t);
        assert forall|j: int| 0 <= j < i + 1 implies #[trigger] models@[j].0 == e.models@[j].id && model_options(
            models@[j].1,
            e.models@[j].publish,
            e.models@[j].subscribe,
        ) by {
            if j < i {
                assert(models@[j] == before[j]);
            }
        }
        i = i + 1;
    }
    let mut vendor_models: Vec<(u16, u16, Dict)> = Vec::new();
    let mut k: usize = 0;
    while k < e.vendor_models.len()
        invariant
            k <= e.vendor_models@.len(),
            vendor_models@.len() == k,
            forall|j: int| 0 <= j < k ==> #[trigger] vendor_models@[j].0 == e.vendor_models@[j].vendor
                && vendor_models@[j].1 == e.vendor_models@[j].id && model_options(
                vendor_models@[j].2,
                e.vendor_models@[j].publish,
                e.vendor_models@[j].subscribe,
            ),
        decreases e.vendor_models@.len() - k,
    {
        let ghost before = vendor_models@;
        let t = e.vendor_models[k].as_tuple();
        vendor_models.push(t);
        assert(vendor_models@[k as int] == t);
        assert forall|j: int| 0 <= j < k + 1 implies #[trigger] vendor_models@[j].0 == e.vendor_models@[j].vendor
            && vendor_models@[j].1 == e.vendor_models@[j].id && model_options(
            vendor_models@[j].2,
            e.vendor_models@[j].publish,
            e.vendor_models@[j].subscribe,
        ) by {
            if j < k {
                assert(vendor_models@[j] == before[j]);
            }
        }
        k = k + 1;
    }
    let r = ElementProperties { index: (index % 256) as u8, location: e.location, models, vendor_models };
    assert forall|i: int| #![trigger r.vendor_models@[i]] 0 <= i < e.vendor_models@.len() implies r.vendor_models@[i].0
        == e.vendor_models@[i].vendor && r.vendor_models@[i].1 == e.vendor_models@[i].id && model_options(
        r.vendor_models@[i].2,
        e.vendor_models@[i].publish,
        e.vendor_models@[i].subscribe,
    ) by {
        assert(r.vendor_models@[i] == vendor_models@[i]);
    }
    r
}

/// The index that an element reference reports.
pub open spec fn element_index(r: ElementRef) -> Option<usize> {
    match r.registration {
        Some(reg) => Some(reg.index),
        None => None,
    }
}

impl ElementRef {
    /// A reference to an element that is not registered yet: it reports
    /// no index.
    pub fn new() -> (r: ElementRef)
        ensures
            element_index(r) is None,
    {
        ElementRef { registration: None }
    }

    /// The element is registered under the application root at the given
    /// index: from now on the reference reports that index.
    pub fn register(&mut self, root_path: String, index: usize)
        ensures
            element_index(*final(self)) == Some(index),
            final(self).registration matches Some(reg) && reg.root_path@ == root_path@,
    {
        self.registration = Some(ElementRegistration { root_path, index });
    }

    /// The application handle was dropped: the reference reports no index
    /// any more.
    pub fn release(&mut self)
        ensures
            element_index(*final(self)) is None,
    {
        self.registration = None;
    }
}

/// The life of an element reference: no index before the element is
/// registered, its index while it is registered, and none once the
/// application handle is dropped.
pub proof fn lemma_element_ref_life(root_path: String, index: usize)
    ensures
        element_index(ElementRef { registration: None }) is None,
        element_index(ElementRef { registration: Some(ElementRegistration { root_path, index }) }) == Some(index),
{
}

} // verus!
