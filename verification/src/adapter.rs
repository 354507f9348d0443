//! Bluetooth adapters: their D-Bus object paths, the device events and
//! device lists derived from the objects that BlueZ announces, and the
//! discovery filter sent to the daemon.
use vstd::prelude::*;
use crate::{address_text, address_type_text, Address, AddressType, Error, ErrorKind};
use crate::dict::{Dict, PropValue};
use crate::device::{device_path_parse, parse_device_dbus_path};
use crate::foreign::{is_object_path, object_path_is_valid};
use crate::text::{
    find_char_or_len, find_or_len, free_of, has_prefix, lemma_find_or_len, lemma_find_or_len_at, owned, str_eq, strip_prefix,
    texts, uuid_text, uuid_texts,
};

verus! {

/// D-Bus object path of the adapter with the given name.
pub open spec fn adapter_path_text(name: Seq<char>) -> Seq<char> {
    "/org/bluez/"@ + name
}

/// Splits an object path below `/org/bluez/` into the adapter name (up to
/// the next `/`) and the rest.
pub open spec fn adapter_path_prefix_parse(p: Seq<char>) -> Option<(Seq<char>, Seq<char>)> {
    if has_prefix(p, "/org/bluez/"@) {
        let r = p.skip("/org/bluez/"@.len() as int);
        let k = find_or_len(r, '/');
        Some((r.take(k), r.skip(k)))
    } else {
        None
    }
}

/// The adapter name of an adapter object path.
pub open spec fn adapter_path_parse(p: Seq<char>) -> Option<Seq<char>> {
    match adapter_path_prefix_parse(p) {
        Some((name, rest)) => if rest.len() == 0 {
            Some(name)
        } else {
            None
        },
        None => None,
    }
}

/// D-Bus object path of the adapter with the given name; an
/// `InvalidName` error when that is no valid object path.
pub fn dbus_path(adapter_name: &str) -> (r: Result<String, Error>)
    ensures
        r matches Ok(p) ==> p@ == adapter_path_text(adapter_name@) && is_object_path(p@),
        r is Err <==> !is_object_path(adapter_path_text(adapter_name@)),
        r matches Err(e) ==> (e.kind matches ErrorKind::InvalidName(n) && n@ == adapter_name@)
            && e.message@.len() == 0,
{
    let mut p = String::from_str("/org/bluez/");
    p.append(adapter_name);
    if object_path_is_valid(p.as_str()) {
        Ok(p)
    } else {
        Err(Error::new(ErrorKind::InvalidName(owned(adapter_name))))
    }
}

/// Splits an object path below `/org/bluez/` into the adapter name and
/// the rest of the path.
pub fn parse_dbus_path_prefix(path: &str) -> (r: Option<(String, String)>)
    ensures
        r matches Some((n, rest)) ==> adapter_path_prefix_parse(path@) == Some((n@, rest@)),
        r is None ==> adapter_path_prefix_parse(path@) is None,
{
    match strip_prefix(path, "/org/bluez/") {
        Some(p) => {
            let sep = find_char_or_len(p, '/');
            proof {
                lemma_find_or_len(p@, '/');
            }
            let n = p.unicode_len();
            let name = p.substring_char(0, sep);
            let rest = p.substring_char(sep, n);
            assert(name@ =~= p@.take(sep as int));
            assert(rest@ =~= p@.skip(sep as int));
            Some((owned(name), owned(rest)))
        },
        None => None,
    }
}

/// The adapter name of an adapter object path.
pub fn parse_dbus_path(path: &str) -> (r: Option<String>)
    ensures
        r matches Some(n) ==> adapter_path_parse(path@) == Some(n@),
        r is None ==> adapter_path_parse(path@) is None,
{
    match parse_dbus_path_prefix(path) {
        Some((name, rest)) => if rest.as_str().unicode_len() == 0 {
            Some(name)
        } else {
            None
        },
        None => None,
    }
}

/// Parsing the object path of an adapter gives its name back, for a name
/// without `/`.
pub proof fn lemma_adapter_path_roundtrip(name: Seq<char>)
    requires
        free_of(name, '/'),
    ensures
        adapter_path_parse(adapter_path_text(name)) == Some(name),
        adapter_path_prefix_parse(adapter_path_text(name)) == Some((name, Seq::<char>::empty())),
{
    let p = adapter_path_text(name);
    let pre = "/org/bluez/"@;
    assert(p.take(pre.len() as int) =~= pre);
    assert(p.skip(pre.len() as int) =~= name);
    lemma_find_or_len_at(name, '/', name.len() as int);
    assert(name.take(name.len() as int) =~= name);
    assert(name.skip(name.len() as int) =~= Seq::<char>::empty());
}

/// Bluetooth adapter event about its devices.
#[derive(Clone, Copy, Debug, PartialEq, Eq)]
pub enum AdapterEvent {
    /// Bluetooth device with specified address was added.
    DeviceAdded(Address),
    /// Bluetooth device with specified address was removed.
    DeviceRemoved(Address),
}

/// The event that the addition (or removal) of a D-Bus object stands for
/// on the named adapter: a device of that adapter was added (removed);
/// other objects give no event.
pub fn device_event(adapter_name: &str, added: bool, object: &str) -> (r: Option<AdapterEvent>)
    ensures
        r is Some <==> (device_path_parse(object@) matches Some((a, addr)) && a == adapter_name@),
        r matches Some(ev) ==> (device_path_parse(object@) matches Some((a, addr)) && (if added {
            ev matches AdapterEvent::DeviceAdded(x) && x@ == addr
        } else {
            ev matches AdapterEvent::DeviceRemoved(x) && x@ == addr
        })),
{
    match parse_device_dbus_path(object) {
        Some((adapter, address)) => if str_eq(adapter.as_str(), adapter_name) {
            if added {
                Some(AdapterEvent::DeviceAdded(address))
            } else {
                Some(AdapterEvent::DeviceRemoved(address))
            }
        } else {
            None
        },
        None => None,
    }
}

/// The addresses of the devices of the named adapter among D-Bus objects:
/// each object is its path and whether it has the device interface.
pub open spec fn devices_of(adapter_name: Seq<char>, objects: Seq<(Seq<char>, bool)>) -> Seq<Seq<u8>>
    decreases objects.len(),
{
    if objects.len() == 0 {
        Seq::empty()
    } else {
        let rest = devices_of(adapter_name, objects.drop_last());
        let (path, is_device) = objects.last();
        match device_path_parse(path) {
            Some((a, addr)) => if a == adapter_name && is_device {
                rest.push(addr)
            } else {
                rest
            },
            None => rest,
        }
    }
}

/// Bluetooth addresses of the devices of the named adapter, in the order
/// of the objects.
pub fn device_addresses(adapter_name: &str, objects: &Vec<(String, bool)>) -> (r: Vec<Address>)
    ensures
        r@.map_values(|a: Address| a@) == devices_of(
            adapter_name@,
            objects@.map_values(|o: (String, bool)| (o.0@, o.1)),
        ),
{
    let ghost objs = objects@.map_values(|o: (String, bool)| (o.0@, o.1));
    let mut addrs: Vec<Address> = Vec::new();
    let mut i: usize = 0;
    while i < objects.len()
        invariant
            i <= objects@.len(),
            objs == objects@.map_values(|o: (String, bool)| (o.0@, o.1)),
            addrs@.map_values(|a: Address| a@) == devices_of(adapter_name@, objs.take(i as int)),
        decreases objects@.len() - i,
    {
        assert(objs.take(i + 1).drop_last() =~= objs.take(i as int));
        assert(objs.take(i + 1).last() == (objects@[i as int].0@, objects@[i as int].1));
        let ghost before = addrs@;
        match parse_device_dbus_path(objects[i].0.as_str()) {
            Some((adapter, addr)) => {
                if str_eq(adapter.as_str(), adapter_name) && objects[i].1 {
                    addrs.push(addr);
                    assert(addrs@.map_values(|a: Address| a@) =~= before.map_values(|a: Address| a@).push(
                        addr@,
                    ));
                }
            },
            None => {},
        }
        i = i + 1;
    }
    assert(objs.take(objects@.len() as int) =~= objs);
    addrs
}

/// Transport of a discovery: the type of scan.
#[derive(Clone, Copy, Debug, PartialEq, Eq, Structural)]
pub enum DiscoveryTransport {
    /// Interleaved scan.
    Auto,
    /// BR/EDR inquiry.
    BrEdr,
    /// LE scan only.
    Le,
}

/// Text of a discovery transport (its `Display` form).
pub open spec fn discovery_transport_text(t: DiscoveryTransport) -> Seq<char> {
    match t {
        DiscoveryTransport::Auto => "auto"@,
        DiscoveryTransport::BrEdr => "bredr"@,
        DiscoveryTransport::Le => "le"@,
    }
}

impl DiscoveryTransport {
    /// The text of the transport.
    pub fn to_string(&self) -> (r: String)
        ensures
            r@ == discovery_transport_text(*self),
    {
        match self {
            DiscoveryTransport::Auto => owned("auto"),
            DiscoveryTransport::BrEdr => owned("bredr"),
            DiscoveryTransport::Le => owned("le"),
        }
    }

    /// The transport with the given text.
    pub fn from_str(s: &str) -> (r: Option<DiscoveryTransport>)
        ensures
            r matches Some(t) ==> discovery_transport_text(t) == s@,
            r is None ==> forall|t: DiscoveryTransport| discovery_transport_text(t) != s@,
    {
        if str_eq(s, "auto") {
            Some(DiscoveryTransport::Auto)
        } else if str_eq(s, "bredr") {
            Some(DiscoveryTransport::BrEdr)
        } else if str_eq(s, "le") {
            Some(DiscoveryTransport::Le)
        } else {
            proof {
                assert forall|t: DiscoveryTransport| discovery_transport_text(t) != s@ by {
                    match t {
                        DiscoveryTransport::Auto => {},
                        DiscoveryTransport::BrEdr => {},
                        DiscoveryTransport::Le => {},
                    }
                }
            }
            None
        }
    }

    /// The default transport: interleaved scan.
    pub fn default() -> (r: DiscoveryTransport)
        ensures
            r == DiscoveryTransport::Auto,
    {
        DiscoveryTransport::Auto
    }
}

/// Bluetooth device discovery filter.
#[derive(Clone, Debug)]
pub struct DiscoveryFilter {
    /// Service UUIDs to filter by, each once, as their 128-bit values;
    /// empty matches any.
    pub uuids: Vec<u128>,
    /// RSSI threshold.
    pub rssi: Option<i16>,
    /// Path loss threshold.
    pub pathloss: Option<u16>,
    /// Type of scan.
    pub transport: DiscoveryTransport,
    /// Report every advertisement, without duplicate detection.
    pub duplicate_data: bool,
    /// Make the adapter discoverable while discovering.
    pub discoverable: bool,
    /// Prefix of the address or name to look for.
    pub pattern: Option<String>,
}

impl DiscoveryFilter {
    /// The default filter: any UUID, no thresholds, interleaved scan, with
    /// duplicate data, not discoverable, no pattern.
    pub fn default() -> (r: DiscoveryFilter)
        ensures
            r.uuids@.len() == 0,
            r.rssi is None,
            r.pathloss is None,
            r.transport == DiscoveryTransport::Auto,
            r.duplicate_data,
            !r.discoverable,
            r.pattern is None,
    {
        DiscoveryFilter {
            uuids: Vec::new(),
            rssi: None,
            pathloss: None,
            transport: DiscoveryTransport::Auto,
            duplicate_data: true,
            discoverable: false,
            pattern: None,
        }
    }

    /// The options dictionary of `SetDiscoveryFilter`: the UUIDs, the
    /// transport and the two flags always; the thresholds and the pattern
    /// when set.
    pub fn into_dict(self) -> (r: Dict)
        ensures
            r.get_spec("UUIDs"@) matches Some(PropValue::StrArray(v)) && texts(v@) == self.uuids@.map_values(
                |u: u128| uuid_text(u),
            ),
            r.get_spec("RSSI"@) == match self.rssi {
                Some(x) => Some(PropValue::I16(x)),
                None => None::<PropValue>,
            },
            r.get_spec("Pathloss"@) == match self.pathloss {
                Some(x) => Some(PropValue::U16(x)),
                None => None::<PropValue>,
            },
            r.get_spec("Transport"@) matches Some(PropValue::Str(t)) && t@ == discovery_transport_text(
                self.transport,
            ),
            r.get_spec("DuplicateData"@) == Some(PropValue::Bool(self.duplicate_data)),
            r.get_spec("Discoverable"@) == Some(PropValue::Bool(self.discoverable)),
            r.get_spec("Pattern"@) == match self.pattern {
                Some(p) => Some(PropValue::Str(p)),
                None => None::<PropValue>,
            },
    {
        let DiscoveryFilter { uuids, rssi, pathloss, transport, duplicate_data, discoverable, pattern } = self;
        proof {
            reveal_strlit("UUIDs");
            reveal_strlit("RSSI");
            reveal_strlit("Pathloss");
            reveal_strlit("Transport");
            reveal_strlit("DuplicateData");
            reveal_strlit("Discoverable");
            reveal_strlit("Pattern");
            assert("UUIDs"@.len() == 5 && "RSSI"@.len() == 4 && "Pathloss"@.len() == 8);
            assert("Transport"@.len() == 9 && "DuplicateData"@.len() == 13);
            assert("Discoverable"@.len() == 12 && "Pattern"@.len() == 7);
        }
        let mut d = Dict::new();
        assert forall|k: Seq<char>| #[trigger] d.get_spec(k) is None by {}
        d.insert("UUIDs", PropValue::StrArray(uuid_texts(&uuids)));
        if let Some(x) = rssi {
            d.insert("RSSI", PropValue::I16(x));
        }
        assert(d.get_spec("RSSI"@) == match rssi {
            Some(x) => Some(PropValue::I16(x)),
            None => None::<PropValue>,
        });
        if let Some(x) = pathloss {
            d.insert("Pathloss", PropValue::U16(x));
        }
        assert(d.get_spec("RSSI"@) == match rssi {
            Some(x) => Some(PropValue::I16(x)),
            None => None::<PropValue>,
        });
        assert(d.get_spec("Pathloss"@) == match pathloss {
            Some(x) => Some(PropValue::U16(x)),
            None => None::<PropValue>,
        });
        d.insert("Transport", PropValue::Str(transport.to_string()));
        d.insert("DuplicateData", PropValue::Bool(duplicate_data));
        d.insert("Discoverable", PropValue::Bool(discoverable));
        if let Some(p) = pattern {
            d.insert("Pattern", PropValue::Str(p));
        }
        d
    }
}

} // verus!

verus! {

/// The filter of a discovery session: duplicate detection on, interleaved
/// scan, and the defaults otherwise.
pub fn discovery_session_filter() -> (r: DiscoveryFilter)
    ensures
        r.uuids@.len() == 0,
        r.rssi is None,
        r.pathloss is None,
        r.transport == DiscoveryTransport::Auto,
        !r.duplicate_data,
        !r.discoverable,
        r.pattern is None,
{
    let mut f = DiscoveryFilter::default();
    f.duplicate_data = false;
    f.transport = DiscoveryTransport::Auto;
    f
}

/// What the discovery-with-changes loop receives.
#[derive(Clone, Copy, Debug, PartialEq, Eq)]
pub enum DiscoveryInput {
    /// An event of the device discovery.
    Discovered(AdapterEvent),
    /// A property of a watched device changed.
    Changed(Address),
    /// The discovery ended, or the receiver of the events went away.
    Ended,
}

/// What the discovery-with-changes loop does.
#[derive(Clone, Copy, Debug, PartialEq, Eq)]
pub enum DiscoveryAction {
    /// Start watching the device's properties, then pass on the event.
    WatchAndForward(AdapterEvent),
    /// Pass on the event.
    Forward(AdapterEvent),
    /// Stop.
    Stop,
}

/// One step of the discovery-with-changes loop: an added device is
/// watched and reported; a removed device is reported; a change of a
/// watched device is reported as the device added again.
pub fn discovery_step(input: DiscoveryInput) -> (r: DiscoveryAction)
    ensures
        input matches DiscoveryInput::Discovered(AdapterEvent::DeviceAdded(a)) ==> r == DiscoveryAction::WatchAndForward(
            AdapterEvent::DeviceAdded(a),
        ),
        input matches DiscoveryInput::Discovered(AdapterEvent::DeviceRemoved(a)) ==> r == DiscoveryAction::Forward(
            AdapterEvent::DeviceRemoved(a),
        ),
        input matches DiscoveryInput::Changed(a) ==> r == DiscoveryAction::Forward(AdapterEvent::DeviceAdded(a)),
        input == DiscoveryInput::Ended ==> r == DiscoveryAction::Stop,
{
    match input {
        DiscoveryInput::Discovered(AdapterEvent::DeviceAdded(a)) => DiscoveryAction::WatchAndForward(
            AdapterEvent::DeviceAdded(a),
        ),
        DiscoveryInput::Discovered(AdapterEvent::DeviceRemoved(a)) => DiscoveryAction::Forward(
            AdapterEvent::DeviceRemoved(a),
        ),
        DiscoveryInput::Changed(a) => DiscoveryAction::Forward(AdapterEvent::DeviceAdded(a)),
        DiscoveryInput::Ended => DiscoveryAction::Stop,
    }
}

} // verus!

verus! {

/// The options of `ConnectDevice`: the address in text form, and the
/// address type for an LE address (none for BR/EDR).
pub fn connect_device_options(address: Address, address_type: AddressType) -> (r: Dict)
    ensures
        r.get_spec("Address"@) matches Some(PropValue::Str(t)) && t@ == address_text(address@),
        address_type == AddressType::BrEdr ==> r.get_spec("AddressType"@) is None,
        address_type != AddressType::BrEdr ==> (r.get_spec("AddressType"@) matches Some(PropValue::Str(t)) && t@
            == address_type_text(address_type)),
{
    proof {
        reveal_strlit("Address");
        reveal_strlit("AddressType");
        assert("Address"@.len() == 7 && "AddressType"@.len() == 11);
    }
    let mut d = Dict::new();
    assert forall|k: Seq<char>| #[trigger] d.get_spec(k) is None by {}
    d.insert("Address", PropValue::Str(address.to_string()));
    match address_type {
        AddressType::Public | AddressType::Random => {
            d.insert("AddressType", PropValue::Str(address_type.to_string()));
        },
        AddressType::BrEdr => {},
    }
    d
}

} // verus!
