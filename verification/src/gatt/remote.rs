//! Remote GATT services, characteristics and descriptors: their D-Bus
//! object paths below the device (`/serviceXXXX`, `/charXXXX`,
//! `/descXXXX`, with four lower-case hexadecimal digits), and the option
//! dictionaries of the read and write requests sent to them.
use vstd::prelude::*;
use crate::{Address, Error};
use crate::device::{
    device_dbus_path, device_path_prefix_parse, device_path_text, lemma_device_path_roundtrip,
    parse_device_dbus_path_prefix,
};
use crate::dict::{Dict, PropValue};
use crate::foreign::is_object_path;
use crate::adapter::adapter_path_text;
use crate::gatt::{write_op_text, WriteOp};
use crate::text::{
    digit_value, find_char_or_len, find_or_len, free_of, has_prefix, hex4_lower, lemma_find_or_len,
    lemma_find_or_len_at, lemma_hex4_lower_parses, owned, parse_unsigned, parse_unsigned_str,
    push_hex4_lower, str_eq, strip_prefix,
};

verus! {

/// One path element with a numeric id: `tag` (such as `/service`) and the
/// id as four lower-case hexadecimal digits.
pub open spec fn id_element(tag: Seq<char>, id: u16) -> Seq<char> {
    tag + hex4_lower(id)
}

/// Splits `p` into the id of an element `tag` + hexadecimal digits (up to
/// the next `/`) and the rest.
pub open spec fn id_element_parse(p: Seq<char>, tag: Seq<char>) -> Option<(u16, Seq<char>)> {
    if has_prefix(p, tag) {
        let r = p.skip(tag.len() as int);
        let k = find_or_len(r, '/');
        match parse_unsigned(r.take(k), 16, 65535) {
            Some(id) => Some((id as u16, r.skip(k))),
            None => None,
        }
    } else {
        None
    }
}

/// Reads an element `tag` + hexadecimal id off the front of `p`.
fn parse_id_element(p: &str, tag: &str) -> (r: Option<(u16, String)>)
    ensures
        r matches Some((id, rest)) ==> id_element_parse(p@, tag@) == Some((id, rest@)),
        r is None ==> id_element_parse(p@, tag@) is None,
{
    match strip_prefix(p, tag) {
        Some(r) => {
            let sep = find_char_or_len(r, '/');
            proof {
                lemma_find_or_len(r@, '/');
            }
            let n = r.unicode_len();
            let head = r.substring_char(0, sep);
            let rest = r.substring_char(sep, n);
            assert(head@ =~= r@.take(sep as int));
            assert(rest@ =~= r@.skip(sep as int));
            match parse_unsigned_str(head, 16, 65535) {
                Some(id) => Some((id as u16, owned(rest))),
                None => None,
            }
        },
        None => None,
    }
}

/// An id element parses back to its id, leaving what follows it, when the
/// tag starts with `/` and holds no other `/`.
pub proof fn lemma_id_element_roundtrip(tag: Seq<char>, id: u16, tail: Seq<char>)
    requires
        tail.len() == 0 || tail[0] == '/',
        free_of(tag.drop_first(), '/'),
    ensures
        id_element_parse(id_element(tag, id) + tail, tag) == Some((id, tail)),
{
    let h = hex4_lower(id);
    let q = id_element(tag, id) + tail;
    assert(q.take(tag.len() as int) =~= tag);
    let r = q.skip(tag.len() as int);
    assert(r =~= h + tail);
    lemma_hex4_lower_parses(id);
    assert(digit_value('/', 16) is None);
    assert forall|i: int| 0 <= i < h.len() implies r[i] != '/' by {
        assert(r[i] == h[i]);
    }
    lemma_find_or_len_at(r, '/', h.len() as int);
    assert(r.take(h.len() as int) =~= h);
    assert(r.skip(h.len() as int) =~= tail);
}

/// D-Bus object path of a remote service.
pub open spec fn service_path_text(adapter_name: Seq<char>, addr: Seq<u8>, id: u16) -> Seq<char> {
    device_path_text(adapter_name, addr) + id_element("/service"@, id)
}

/// D-Bus object path of a remote characteristic.
pub open spec fn characteristic_path_text(adapter_name: Seq<char>, addr: Seq<u8>, service_id: u16, id: u16) -> Seq<char> {
    service_path_text(adapter_name, addr, service_id) + id_element("/char"@, id)
}

/// D-Bus object path of a remote descriptor.
pub open spec fn descriptor_path_text(
    adapter_name: Seq<char>,
    addr: Seq<u8>,
    service_id: u16,
    characteristic_id: u16,
    id: u16,
) -> Seq<char> {
    characteristic_path_text(adapter_name, addr, service_id, characteristic_id) + id_element("/desc"@, id)
}

/// Splits a path below a service object into the adapter name, device
/// address, service id and the rest.
pub open spec fn service_path_prefix_parse(p: Seq<char>) -> Option<(Seq<char>, Seq<u8>, u16, Seq<char>)> {
    match device_path_prefix_parse(p) {
        None => None,
        Some((name, addr, q)) => match id_element_parse(q, "/service"@) {
            Some((id, rest)) => Some((name, addr, id, rest)),
            None => None,
        },
    }
}

/// Splits a path below a characteristic object into the adapter name,
/// device address, service id, characteristic id and the rest.
pub open spec fn characteristic_path_prefix_parse(p: Seq<char>) -> Option<(Seq<char>, Seq<u8>, u16, u16, Seq<char>)> {
    match service_path_prefix_parse(p) {
        None => None,
        Some((name, addr, sid, q)) => match id_element_parse(q, "/char"@) {
            Some((id, rest)) => Some((name, addr, sid, id, rest)),
            None => None,
        },
    }
}

/// Splits a path below a descriptor object into the adapter name, device
/// address, service, characteristic and descriptor ids and the rest.
pub open spec fn descriptor_path_prefix_parse(p: Seq<char>) -> Option<(Seq<char>, Seq<u8>, u16, u16, u16, Seq<char>)> {
    match characteristic_path_prefix_parse(p) {
        None => None,
        Some((name, addr, sid, cid, q)) => match id_element_parse(q, "/desc"@) {
            Some((id, rest)) => Some((name, addr, sid, cid, id, rest)),
            None => None,
        },
    }
}

/// Object path of the remote service `id` of a device.
pub fn service_dbus_path(adapter_name: &str, device_address: Address, id: u16) -> (r: Result<String, Error>)
    ensures
        r matches Ok(p) ==> p@ == service_path_text(adapter_name@, device_address@, id),
        r is Err <==> !is_object_path(adapter_path_text(adapter_name@)),
{
    let mut p = device_dbus_path(adapter_name, device_address)?;
    p.append("/service");
    push_hex4_lower(&mut p, id);
    Ok(p)
}

/// Object path of the remote characteristic `id` of a service.
pub fn characteristic_dbus_path(adapter_name: &str, device_address: Address, service_id: u16, id: u16) -> (r: Result<String, Error>)
    ensures
        r matches Ok(p) ==> p@ == characteristic_path_text(adapter_name@, device_address@, service_id, id),
        r is Err <==> !is_object_path(adapter_path_text(adapter_name@)),
{
    let mut p = service_dbus_path(adapter_name, device_address, service_id)?;
    p.append("/char");
    push_hex4_lower(&mut p, id);
    Ok(p)
}

/// Object path of the remote descriptor `id` of a characteristic.
pub fn descriptor_dbus_path(
    adapter_name: &str,
    device_address: Address,
    service_id: u16,
    characteristic_id: u16,
    id: u16,
) -> (r: Result<String, Error>)
    ensures
        r matches Ok(p) ==> p@ == descriptor_path_text(adapter_name@, device_address@, service_id, characteristic_id, id),
        r is Err <==> !is_object_path(adapter_path_text(adapter_name@)),
{
    let mut p = characteristic_dbus_path(adapter_name, device_address, service_id, characteristic_id)?;
    p.append("/desc");
    push_hex4_lower(&mut p, id);
    Ok(p)
}

/// Splits a path below a service object.
pub fn parse_service_dbus_path_prefix(path: &str) -> (r: Option<(String, Address, u16, String)>)
    ensures
        r matches Some((n, a, id, rest)) ==> service_path_prefix_parse(path@) == Some((n@, a@, id, rest@)),
        r is None ==> service_path_prefix_parse(path@) is None,
{
    let (name, addr, q) = match parse_device_dbus_path_prefix(path) {
        Some(x) => x,
        None => return None,
    };
    match parse_id_element(q.as_str(), "/service") {
        Some((id, rest)) => Some((name, addr, id, rest)),
        None => None,
    }
}

/// The adapter name, device address and service id of a service path.
pub fn parse_service_dbus_path(path: &str) -> (r: Option<(String, Address, u16)>)
    ensures
        r matches Some((n, a, id)) ==> service_path_prefix_parse(path@) == Some((n@, a@, id, Seq::<char>::empty())),
        r is None ==> !(service_path_prefix_parse(path@) matches Some((n, a, id, rest)) && rest.len() == 0),
{
    match parse_service_dbus_path_prefix(path) {
        Some((name, addr, id, rest)) => if rest.as_str().unicode_len() == 0 {
            assert(rest@ =~= Seq::<char>::empty());
            Some((name, addr, id))
        } else {
            None
        },
        None => None,
    }
}

/// Splits a path below a characteristic object.
pub fn parse_characteristic_dbus_path_prefix(path: &str) -> (r: Option<(String, Address, u16, u16, String)>)
    ensures
        r matches Some((n, a, sid, id, rest)) ==> characteristic_path_prefix_parse(path@) == Some(
            (n@, a@, sid, id, rest@),
        ),
        r is None ==> characteristic_path_prefix_parse(path@) is None,
{
    let (name, addr, sid, q) = match parse_service_dbus_path_prefix(path) {
        Some(x) => x,
        None => return None,
    };
    match parse_id_element(q.as_str(), "/char") {
        Some((id, rest)) => Some((name, addr, sid, id, rest)),
        None => None,
    }
}

/// The adapter name, device address, service and characteristic ids of a
/// characteristic path.
pub fn parse_characteristic_dbus_path(path: &str) -> (r: Option<(String, Address, u16, u16)>)
    ensures
        r matches Some((n, a, sid, id)) ==> characteristic_path_prefix_parse(path@) == Some(
            (n@, a@, sid, id, Seq::<char>::empty()),
        ),
        r is None ==> !(characteristic_path_prefix_parse(path@) matches Some((n, a, sid, id, rest)) && rest.len()
            == 0),
{
    match parse_characteristic_dbus_path_prefix(path) {
        Some((name, addr, sid, id, rest)) => if rest.as_str().unicode_len() == 0 {
            assert(rest@ =~= Seq::<char>::empty());
            Some((name, addr, sid, id))
        } else {
            None
        },
        None => None,
    }
}

/// Splits a path below a descriptor object.
pub fn parse_descriptor_dbus_path_prefix(path: &str) -> (r: Option<(String, Address, u16, u16, u16, String)>)
    ensures
        r matches Some((n, a, sid, cid, id, rest)) ==> descriptor_path_prefix_parse(path@) == Some(
            (n@, a@, sid, cid, id, rest@),
        ),
        r is None ==> descriptor_path_prefix_parse(path@) is None,
{
    let (name, addr, sid, cid, q) = match parse_characteristic_dbus_path_prefix(path) {
        Some(x) => x,
        None => return None,
    };
    match parse_id_element(q.as_str(), "/desc") {
        Some((id, rest)) => Some((name, addr, sid, cid, id, rest)),
        None => None,
    }
}

/// The adapter name, device address, service, characteristic and
/// descriptor ids of a descriptor path.
pub fn parse_descriptor_dbus_path(path: &str) -> (r: Option<(String, Address, u16, u16, u16)>)
    ensures
        r matches Some((n, a, sid, cid, id)) ==> descriptor_path_prefix_parse(path@) == Some(
            (n@, a@, sid, cid, id, Seq::<char>::empty()),
        ),
        r is None ==> !(descriptor_path_prefix_parse(path@) matches Some((n, a, sid, cid, id, rest))
            && rest.len() == 0),
{
    match parse_descriptor_dbus_path_prefix(path) {
        Some((name, addr, sid, cid, id, rest)) => if rest.as_str().unicode_len() == 0 {
            assert(rest@ =~= Seq::<char>::empty());
            Some((name, addr, sid, cid, id))
        } else {
            None
        },
        None => None,
    }
}

/// The id elements of services, characteristics and descriptors start
/// with `/`, and their names after it hold none.
proof fn lemma_id_elements_start(sid: u16, cid: u16, did: u16)
    ensures
        id_element("/service"@, sid)[0] == '/',
        id_element("/char"@, cid)[0] == '/',
        id_element("/desc"@, did)[0] == '/',
        free_of("/service"@.drop_first(), '/'),
        free_of("/char"@.drop_first(), '/'),
        free_of("/desc"@.drop_first(), '/'),
{
    reveal_strlit("/service");
    reveal_strlit("/char");
    reveal_strlit("/desc");
    assert(free_of("/service"@.drop_first(), '/'));
    assert(free_of("/char"@.drop_first(), '/'));
    assert(free_of("/desc"@.drop_first(), '/'));
    assert(id_element("/service"@, sid)[0] == '/');
    assert(id_element("/char"@, cid)[0] == '/');
    assert(id_element("/desc"@, did)[0] == '/');
}

/// Parsing the object path of a remote service followed by a tail that
/// is empty or starts with `/` gives back the adapter name, the device
/// address, the id and the tail, for an adapter name without `/`.
pub proof fn lemma_service_path_prefix_roundtrip(name: Seq<char>, addr: Seq<u8>, sid: u16, t: Seq<char>)
    requires
        free_of(name, '/'),
        addr.len() == 6,
        t.len() == 0 || t[0] == '/',
    ensures
        service_path_prefix_parse(service_path_text(name, addr, sid) + t) == Some((name, addr, sid, t)),
{
    lemma_id_elements_start(sid, 0, 0);
    let s = id_element("/service"@, sid);
    lemma_device_path_roundtrip(name, addr, s + t);
    lemma_id_element_roundtrip("/service"@, sid, t);
    assert(service_path_text(name, addr, sid) + t =~= device_path_text(name, addr) + (s + t));
    assert((s + t)[0] == '/');
}

/// Parsing the object path of a remote characteristic followed by a tail
/// that is empty or starts with `/` gives back the adapter name, the
/// device address, the ids and the tail, for an adapter name without `/`.
pub proof fn lemma_characteristic_path_prefix_roundtrip(
    name: Seq<char>,
    addr: Seq<u8>,
    sid: u16,
    cid: u16,
    t: Seq<char>,
)
    requires
        free_of(name, '/'),
        addr.len() == 6,
        t.len() == 0 || t[0] == '/',
    ensures
        characteristic_path_prefix_parse(characteristic_path_text(name, addr, sid, cid) + t) == Some(
            (name, addr, sid, cid, t),
        ),
{
    lemma_id_elements_start(sid, cid, 0);
    let s = id_element("/service"@, sid);
    let c = id_element("/char"@, cid);
    lemma_device_path_roundtrip(name, addr, s + (c + t));
    lemma_id_element_roundtrip("/service"@, sid, c + t);
    lemma_id_element_roundtrip("/char"@, cid, t);
    assert(characteristic_path_text(name, addr, sid, cid) + t =~= device_path_text(name, addr) + (s + (c + t)));
    assert((c + t)[0] == '/');
    assert((s + (c + t))[0] == '/');
}

/// Parsing the object path of a remote descriptor followed by a tail that
/// is empty or starts with `/` gives back the adapter name, the device
/// address, the ids and the tail, for an adapter name without `/`.
pub proof fn lemma_descriptor_path_prefix_roundtrip(
    name: Seq<char>,
    addr: Seq<u8>,
    sid: u16,
    cid: u16,
    did: u16,
    t: Seq<char>,
)
    requires
        free_of(name, '/'),
        addr.len() == 6,
        t.len() == 0 || t[0] == '/',
    ensures
        descriptor_path_prefix_parse(descriptor_path_text(name, addr, sid, cid, did) + t) == Some(
            (name, addr, sid, cid, did, t),
        ),
{
    lemma_id_elements_start(sid, cid, did);
    let s = id_element("/service"@, sid);
    let c = id_element("/char"@, cid);
    let d = id_element("/desc"@, did);
    lemma_device_path_roundtrip(name, addr, s + (c + (d + t)));
    lemma_id_element_roundtrip("/service"@, sid, c + (d + t));
    lemma_id_element_roundtrip("/char"@, cid, d + t);
    lemma_id_element_roundtrip("/desc"@, did, t);
    assert(descriptor_path_text(name, addr, sid, cid, did) + t =~= device_path_text(name, addr) + (s + (c + (d
        + t))));
    assert((d + t)[0] == '/');
    assert((c + (d + t))[0] == '/');
    assert((s + (c + (d + t)))[0] == '/');
}

/// Parsing the object path of a remote descriptor (and of its
/// characteristic and service) gives back the adapter name, the device
/// address and the ids, for an adapter name without `/`.
pub proof fn lemma_remote_paths_roundtrip(name: Seq<char>, addr: Seq<u8>, sid: u16, cid: u16, did: u16)
    requires
        free_of(name, '/'),
        addr.len() == 6,
    ensures
        service_path_prefix_parse(service_path_text(name, addr, sid)) == Some(
            (name, addr, sid, Seq::<char>::empty()),
        ),
        characteristic_path_prefix_parse(characteristic_path_text(name, addr, sid, cid)) == Some(
            (name, addr, sid, cid, Seq::<char>::empty()),
        ),
        descriptor_path_prefix_parse(descriptor_path_text(name, addr, sid, cid, did)) == Some(
            (name, addr, sid, cid, did, Seq::<char>::empty()),
        ),
{
    let e = Seq::<char>::empty();
    lemma_service_path_prefix_roundtrip(name, addr, sid, e);
    lemma_characteristic_path_prefix_roundtrip(name, addr, sid, cid, e);
    lemma_descriptor_path_prefix_roundtrip(name, addr, sid, cid, did, e);
    assert(service_path_text(name, addr, sid) + e =~= service_path_text(name, addr, sid));
    assert(characteristic_path_text(name, addr, sid, cid) + e =~= characteristic_path_text(name, addr, sid, cid));
    assert(descriptor_path_text(name, addr, sid, cid, did) + e =~= descriptor_path_text(name, addr, sid, cid, did));
}

/// Read characteristic value extended request.
#[derive(Clone, Copy, Debug, PartialEq, Eq, Structural)]
pub struct CharacteristicReadRequest {
    /// Offset.
    pub offset: u16,
}

/// Write characteristic value extended request.
#[derive(Clone, Copy, Debug, PartialEq, Eq, Structural)]
pub struct CharacteristicWriteRequest {
    /// Start offset.
    pub offset: u16,
    /// Write operation type.
    pub op_type: WriteOp,
    /// True if prepare authorization request.
    pub prepare_authorize: bool,
}

/// Read characteristic descriptor value extended request.
#[derive(Clone, Copy, Debug, PartialEq, Eq, Structural)]
pub struct DescriptorReadRequest {
    /// Offset.
    pub offset: u16,
}

/// Write characteristic descriptor value extended request.
#[derive(Clone, Copy, Debug, PartialEq, Eq, Structural)]
pub struct DescriptorWriteRequest {
    /// Start offset.
    pub offset: u16,
    /// True if prepare authorization request.
    pub prepare_authorize: bool,
}

impl CharacteristicReadRequest {
    /// The default request: offset 0.
    pub fn default() -> (r: Self)
        ensures
            r.offset == 0,
    {
        Self { offset: 0 }
    }

    /// The options dictionary of the request: the offset.
    pub fn to_dict(&self) -> (r: Dict)
        ensures
            r.get_spec("offset"@) == Some(PropValue::U16(self.offset)),
            forall|k: Seq<char>| k != "offset"@ ==> #[trigger] r.get_spec(k) is None,
    {
        let mut d = Dict::new();
        assert forall|k: Seq<char>| #[trigger] d.get_spec(k) is None by {}
        d.insert("offset", PropValue::U16(self.offset));
        d
    }
}

impl CharacteristicWriteRequest {
    /// The default request: offset 0, write with response, no prepare
    /// authorization.
    pub fn default() -> (r: Self)
        ensures
            r.offset == 0,
            r.op_type == WriteOp::Request,
            !r.prepare_authorize,
    {
        Self { offset: 0, op_type: WriteOp::Request, prepare_authorize: false }
    }

    /// The options dictionary of the request: offset, type and
    /// prepare-authorize.
    pub fn to_dict(&self) -> (r: Dict)
        ensures
            r.get_spec("offset"@) == Some(PropValue::U16(self.offset)),
            r.get_spec("type"@) matches Some(PropValue::Str(t)) && t@ == write_op_text(self.op_type),
            r.get_spec("prepare-authorize"@) == Some(PropValue::Bool(self.prepare_authorize)),
            forall|k: Seq<char>| k != "offset"@ && k != "type"@ && k != "prepare-authorize"@ ==> #[trigger] r.get_spec(k) is None,
    {
        proof {
            reveal_strlit("offset");
            reveal_strlit("type");
            reveal_strlit("prepare-authorize");
            assert("offset"@.len() == 6 && "type"@.len() == 4 && "prepare-authorize"@.len() == 17);
        }
        let mut d = Dict::new();
        assert forall|k: Seq<char>| #[trigger] d.get_spec(k) is None by {}
        d.insert("offset", PropValue::U16(self.offset));
        d.insert("type", PropValue::Str(self.op_type.to_string()));
        d.insert("prepare-authorize", PropValue::Bool(self.prepare_authorize));
        d
    }
}

impl DescriptorReadRequest {
    /// The default request: offset 0.
    pub fn default() -> (r: Self)
        ensures
            r.offset == 0,
    {
        Self { offset: 0 }
    }

    /// The options dictionary of the request: the offset.
    pub fn to_dict(&self) -> (r: Dict)
        ensures
            r.get_spec("offset"@) == Some(PropValue::U16(self.offset)),
            forall|k: Seq<char>| k != "offset"@ ==> #[trigger] r.get_spec(k) is None,
    {
        let mut d = Dict::new();
        assert forall|k: Seq<char>| #[trigger] d.get_spec(k) is None by {}
        d.insert("offset", PropValue::U16(self.offset));
        d
    }
}

impl DescriptorWriteRequest {
    /// The default request: offset 0, no prepare authorization.
    pub fn default() -> (r: Self)
        ensures
            r.offset == 0,
            !r.prepare_authorize,
    {
        Self { offset: 0, prepare_authorize: false }
    }

    /// The options dictionary of the request: offset and
    /// prepare-authorize.
    pub fn to_dict(&self) -> (r: Dict)
        ensures
            r.get_spec("offset"@) == Some(PropValue::U16(self.offset)),
            r.get_spec("prepare-authorize"@) == Some(PropValue::Bool(self.prepare_authorize)),
            forall|k: Seq<char>| k != "offset"@ && k != "prepare-authorize"@ ==> #[trigger] r.get_spec(k) is None,
    {
        proof {
            reveal_strlit("offset");
            reveal_strlit("prepare-authorize");
            assert("offset"@.len() == 6 && "prepare-authorize"@.len() == 17);
        }
        let mut d = Dict::new();
        assert forall|k: Seq<char>| #[trigger] d.get_spec(k) is None by {}
        d.insert("offset", PropValue::U16(self.offset));
        d.insert("prepare-authorize", PropValue::Bool(self.prepare_authorize));
        d
    }
}

} // verus!

verus! {

/// A characteristic path, when nothing follows the characteristic.
pub open spec fn characteristic_path_parse(p: Seq<char>) -> Option<(Seq<char>, Seq<u8>, u16, u16)> {
    match characteristic_path_prefix_parse(p) {
        Some((n, a, sid, id, rest)) => if rest.len() == 0 {
            Some((n, a, sid, id))
        } else {
            None
        },
        None => None,
    }
}

/// A descriptor path, when nothing follows the descriptor.
pub open spec fn descriptor_path_parse(p: Seq<char>) -> Option<(Seq<char>, Seq<u8>, u16, u16, u16)> {
    match descriptor_path_prefix_parse(p) {
        Some((n, a, sid, cid, id, rest)) => if rest.len() == 0 {
            Some((n, a, sid, cid, id))
        } else {
            None
        },
        None => None,
    }
}

/// The ids of the characteristics of a service among D-Bus objects, in
/// the order of the objects: each object is its path and whether it has
/// the characteristic interface.
pub open spec fn characteristics_of(
    adapter_name: Seq<char>,
    addr: Seq<u8>,
    service_id: u16,
    objects: Seq<(Seq<char>, bool)>,
) -> Seq<u16>
    decreases objects.len(),
{
    if objects.len() == 0 {
        Seq::empty()
    } else {
        let rest = characteristics_of(adapter_name, addr, service_id, objects.drop_last());
        let (path, has_interface) = objects.last();
        match characteristic_path_parse(path) {
            Some((n, a, sid, id)) => if n == adapter_name && a == addr && sid == service_id && has_interface {
                rest.push(id)
            } else {
                rest
            },
            None => rest,
        }
    }
}

/// The ids of the descriptors of a characteristic among D-Bus objects, in
/// the order of the objects: each object is its path and whether it has
/// the descriptor interface.
pub open spec fn descriptors_of(
    adapter_name: Seq<char>,
    addr: Seq<u8>,
    service_id: u16,
    characteristic_id: u16,
    objects: Seq<(Seq<char>, bool)>,
) -> Seq<u16>
    decreases objects.len(),
{
    if objects.len() == 0 {
        Seq::empty()
    } else {
        let rest = descriptors_of(adapter_name, addr, service_id, characteristic_id, objects.drop_last());
        let (path, has_interface) = objects.last();
        match descriptor_path_parse(path) {
            Some((n, a, sid, cid, id)) => if n == adapter_name && a == addr && sid == service_id && cid
                == characteristic_id && has_interface {
                rest.push(id)
            } else {
                rest
            },
            None => rest,
        }
    }
}

/// The objects by view.
pub open spec fn objects_view(objects: Seq<(String, bool)>) -> Seq<(Seq<char>, bool)> {
    objects.map_values(|o: (String, bool)| (o.0@, o.1))
}

/// The ids of the characteristics of the given service of a device.
pub fn characteristic_ids(adapter_name: &str, device_address: Address, service_id: u16, objects: &Vec<(String, bool)>) -> (r: Vec<u16>)
    ensures
        r@ == characteristics_of(adapter_name@, device_address@, service_id, objects_view(objects@)),
{
    let ghost objs = objects_view(objects@);
    let mut ids: Vec<u16> = Vec::new();
    let mut i: usize = 0;
    while i < objects.len()
        invariant
            i <= objects@.len(),
            objs == objects_view(objects@),
            ids@ == characteristics_of(adapter_name@, device_address@, service_id, objs.take(i as int)),
        decreases objects@.len() - i,
    {
        assert(objs.take(i + 1).drop_last() =~= objs.take(i as int));
        assert(objs.take(i + 1).last() == (objects@[i as int].0@, objects@[i as int].1));
        match parse_characteristic_dbus_path(objects[i].0.as_str()) {
            Some((adapter, addr, sid, id)) => {
                if str_eq(adapter.as_str(), adapter_name) && addr == device_address && sid == service_id
                    && objects[i].1 {
                    ids.push(id);
                }
            },
            None => {},
        }
        i = i + 1;
    }
    assert(objs.take(objects@.len() as int) =~= objs);
    ids
}

/// The ids of the descriptors of the given characteristic of a device.
pub fn descriptor_ids(
    adapter_name: &str,
    device_address: Address,
    service_id: u16,
    characteristic_id: u16,
    objects: &Vec<(String, bool)>,
) -> (r: Vec<u16>)
    ensures
        r@ == descriptors_of(adapter_name@, device_address@, service_id, characteristic_id, objects_view(objects@)),
{
    let ghost objs = objects_view(objects@);
    let mut ids: Vec<u16> = Vec::new();
    let mut i: usize = 0;
    while i < objects.len()
        invariant
            i <= objects@.len(),
            objs == objects_view(objects@),
            ids@ == descriptors_of(adapter_name@, device_address@, service_id, characteristic_id, objs.take(i as int)),
        decreases objects@.len() - i,
    {
        assert(objs.take(i + 1).drop_last() =~= objs.take(i as int));
        assert(objs.take(i + 1).last() == (objects@[i as int].0@, objects@[i as int].1));
        match parse_descriptor_dbus_path(objects[i].0.as_str()) {
            Some((adapter, addr, sid, cid, id)) => {
                if str_eq(adapter.as_str(), adapter_name) && addr == device_address && sid == service_id
                    && cid == characteristic_id && objects[i].1 {
                    ids.push(id);
                }
            },
            None => {},
        }
        i = i + 1;
    }
    assert(objs.take(objects@.len() as int) =~= objs);
    ids
}

} // verus!
