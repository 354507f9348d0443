//! The decisions of `bluadv`, the LE advertiser: reading the manufacturer
//! and service data given on the command line, and choosing the adapter.
use vstd::prelude::*;
use crate::Address;
use vstd::string::StringSliceAdditionalSpecFns;
use vstd::utf8::encode_utf8;
use crate::adv::{Advertisement, Type};
use crate::keyed::{bytes_map, pairs_map};
use crate::dict::copy_bytes;
use crate::time::Timespan;
use crate::foreign::{hex_decodable, hex_decode, hex_decoded, hex_error_text, parse_uuid, uuid_error_text, uuid_parsed};
use crate::text::{
    find_char_or_len, find_or_len, int_error_kind, int_error_kind_of, int_error_message, int_error_text,
    lemma_find_or_len, owned, parse_unsigned, parse_unsigned_str,
};

verus! {

/// Advertisement type of the command line.
#[derive(Clone, Copy, Debug, PartialEq, Eq, Structural)]
pub enum AdvertisementType {
    /// Broadcast.
    Broadcast,
    /// Peripheral.
    Peripheral,
}

impl AdvertisementType {
    /// The advertisement type it selects.
    pub fn to_type(self) -> (r: Type)
        ensures
            self == AdvertisementType::Broadcast ==> r == Type::Broadcast,
            self == AdvertisementType::Peripheral ==> r == Type::Peripheral,
    {
        match self {
            AdvertisementType::Broadcast => Type::Broadcast,
            AdvertisementType::Peripheral => Type::Peripheral,
        }
    }
}

/// Splits at the first `:` (`split_once(':')`).
pub open spec fn split_once_colon(s: Seq<char>) -> Option<(Seq<char>, Seq<char>)> {
    let k = find_or_len(s, ':');
    if k < s.len() {
        Some((s.take(k), s.skip(k + 1)))
    } else {
        None
    }
}

fn split_colon<'a>(s: &'a str) -> (r: Option<(&'a str, &'a str)>)
    ensures
        r matches Some((a, b)) ==> split_once_colon(s@) == Some((a@, b@)),
        r is None ==> split_once_colon(s@) is None,
{
    let n = s.unicode_len();
    let k = find_char_or_len(s, ':');
    proof {
        lemma_find_or_len(s@, ':');
    }
    if k < n {
        let a = s.substring_char(0, k);
        let b = s.substring_char(k + 1, n);
        assert(a@ =~= s@.take(k as int));
        assert(b@ =~= s@.skip(k + 1));
        Some((a, b))
    } else {
        None
    }
}

/// Manufacturer specific data: `<manufacturer id>:<hex data>`, the id in
/// hexadecimal.
#[derive(Clone, Debug)]
pub struct ManufacturerData {
    /// Manufacturer id.
    pub id: u16,
    /// Data.
    pub data: Vec<u8>,
}

impl ManufacturerData {
    /// Parses `<manufacturer id>:<hex data>`: without a `:` the error is
    /// ": missing"; an id that is no hexadecimal `u16` gives the integer
    /// parse error's message; data that is no hex gives the hex error's
    /// message.
    pub fn from_str(s: &str) -> (r: Result<ManufacturerData, String>)
        ensures
            split_once_colon(s@) is None ==> (r matches Err(e) && e@ == ": missing"@),
            split_once_colon(s@) matches Some((id, data)) ==> (match parse_unsigned(id, 16, 65535) {
                None => r matches Err(e) && e@ == int_error_text(int_error_kind_of(id, 16, 65535)),
                Some(v) => (r is Ok <==> hex_decodable(encode_utf8(data))) && (r matches Ok(m) ==> m.id
                    == v && m.data@ == hex_decoded(encode_utf8(data))) && (r matches Err(e) ==> e@
                    == hex_error_text(encode_utf8(data))),
            }),
    {
        let (id, data) = match split_colon(s) {
            Some(x) => x,
            None => return Err(owned(": missing")),
        };
        let v = match parse_unsigned_str(id, 16, 65535) {
            Some(v) => v,
            None => return Err(int_error_message(int_error_kind(id, 16, 65535))),
        };
        match hex_decode(data.as_bytes()) {
            Ok(d) => Ok(ManufacturerData { id: v as u16, data: d }),
            Err(e) => Err(e),
        }
    }
}

/// Service data: `<service uuid>:<hex data>`.
#[derive(Clone, Debug)]
pub struct ServiceData {
    /// Service UUID, as its 128-bit value.
    pub id: u128,
    /// Data.
    pub data: Vec<u8>,
}

impl ServiceData {
    /// Parses `<service uuid>:<hex data>`: without a `:` the error is
    /// ": missing"; a UUID that does not parse gives the UUID parser's
    /// message; data that is no hex gives the hex error's message.
    pub fn from_str(s: &str) -> (r: Result<ServiceData, String>)
        ensures
            split_once_colon(s@) is None ==> (r matches Err(e) && e@ == ": missing"@),
            split_once_colon(s@) matches Some((id, data)) ==> (match uuid_parsed(id) {
                None => r matches Err(e) && e@ == uuid_error_text(id),
                Some(u) => (r is Ok <==> hex_decodable(encode_utf8(data))) && (r matches Ok(m) ==> m.id
                    == u && m.data@ == hex_decoded(encode_utf8(data))) && (r matches Err(e) ==> e@
                    == hex_error_text(encode_utf8(data))),
            }),
    {
        let (id, data) = match split_colon(s) {
            Some(x) => x,
            None => return Err(owned(": missing")),
        };
        let u = match parse_uuid(id) {
            Ok(u) => u,
            Err(e) => return Err(e),
        };
        match hex_decode(data.as_bytes()) {
            Ok(d) => Ok(ServiceData { id: u, data: d }),
            Err(e) => Err(e),
        }
    }
}

/// The adapter to advertise on, among the adapters' names and addresses
/// (in the same order): with a requested address, the first adapter with
/// that address, or the error "specified Bluetooth adapter not present";
/// else the first adapter, or "no Bluetooth adapter present".
pub fn select_adapter(bind: Option<Address>, names: &Vec<String>, addresses: &Vec<Address>) -> (r: Result<usize, &'static str>)
    requires
        names@.len() == addresses@.len(),
    ensures
        bind is None ==> (if names@.len() > 0 {
            r == Ok::<usize, &'static str>(0)
        } else {
            r matches Err(e) && e@ == "no Bluetooth adapter present"@
        }),
        bind matches Some(b) ==> match r {
            Ok(i) => i < addresses@.len() && addresses@[i as int]@ == b@ && forall|j: int| 0 <= j < i ==> addresses@[j]@
                != b@,
            Err(e) => e@ == "specified Bluetooth adapter not present"@ && forall|j: int| 0 <= j < addresses@.len()
                ==> addresses@[j]@ != b@,
        },
{
    match bind {
        None => if names.len() > 0 {
            Ok(0)
        } else {
            Err("no Bluetooth adapter present")
        },
        Some(b) => {
            let mut i: usize = 0;
            while i < addresses.len()
                invariant
                    bind == Some(b),
                    i <= addresses@.len(),
                    forall|j: int| 0 <= j < i ==> addresses@[j]@ != b@,
                decreases addresses@.len() - i,
            {
                if addresses[i] == b {
                    return Ok(i);
                }
                i = i + 1;
            }
            Err("specified Bluetooth adapter not present")
        },
    }
}

} // verus!

verus! {

/// The manufacturer data given on the command line as (id, bytes) pairs.
pub open spec fn manufacturer_pairs(m: Seq<ManufacturerData>) -> Seq<(u16, Vec<u8>)> {
    m.map_values(|d: ManufacturerData| (d.id, d.data))
}

/// The service data given on the command line as (UUID, bytes) pairs.
pub open spec fn service_pairs(s: Seq<ServiceData>) -> Seq<(u128, Vec<u8>)> {
    s.map_values(|d: ServiceData| (d.id, d.data))
}

/// The advertisement that `bluadv` sends for its options: the type, local
/// name, discoverability, duration (whole seconds), TX power and intervals
/// (milliseconds) as given, and the manufacturer and service data
/// collected into maps (a later entry for the same id replaces an earlier
/// one); nothing else is set.
pub fn tool_advertisement(
    advertisement_type: AdvertisementType,
    local_name: Option<String>,
    discoverable: bool,
    duration_secs: Option<u64>,
    tx_power: Option<i16>,
    min_interval_millis: Option<u64>,
    max_interval_millis: Option<u64>,
    manufacturer_data: &Vec<ManufacturerData>,
    service_data: &Vec<ServiceData>,
) -> (r: Advertisement)
    ensures
        r.wf(),
        advertisement_type == AdvertisementType::Broadcast ==> r.advertisement_type == Type::Broadcast,
        advertisement_type == AdvertisementType::Peripheral ==> r.advertisement_type == Type::Peripheral,
        r.local_name == local_name,
        r.discoverable == Some(discoverable),
        duration_secs matches Some(s) ==> r.duration == Some(Timespan { secs: s, nanos: 0 }),
        duration_secs is None ==> r.duration is None,
        r.tx_power == tx_power,
        min_interval_millis matches Some(ms) ==> (r.min_interval matches Some(t) && t.wf() && t.millis() == ms),
        min_interval_millis is None ==> r.min_interval is None,
        max_interval_millis matches Some(ms) ==> (r.max_interval matches Some(t) && t.wf() && t.millis() == ms),
        max_interval_millis is None ==> r.max_interval is None,
        bytes_map(r.manufacturer_data@) == pairs_map(manufacturer_pairs(manufacturer_data@)),
        bytes_map(r.service_data@) == pairs_map(service_pairs(service_data@)),
        r.service_uuids@ == Set::<u128>::empty() && r.solicit_uuids@ == Set::<u128>::empty(),
        r.advertising_data@ == Map::<u8, Vec<u8>>::empty(),
        r.system_includes@.len() == 0,
        r.discoverable_timeout is None && r.appearance is None && r.timeout is None && r.secondary_channel is None,
{
    let mut a = Advertisement::default();
    a.advertisement_type = advertisement_type.to_type();
    a.local_name = local_name;
    a.discoverable = Some(discoverable);
    a.duration = match duration_secs {
        Some(s) => Some(Timespan::from_secs(s)),
        None => None,
    };
    a.tx_power = tx_power;
    a.min_interval = match min_interval_millis {
        Some(ms) => Some(Timespan::from_millis(ms)),
        None => None,
    };
    a.max_interval = match max_interval_millis {
        Some(ms) => Some(Timespan::from_millis(ms)),
        None => None,
    };
    let ghost mp = manufacturer_pairs(manufacturer_data@);
    let mut i: usize = 0;
    assert(bytes_map(a.manufacturer_data@) =~= pairs_map(mp.take(0)));
    while i < manufacturer_data.len()
        invariant
            i <= manufacturer_data@.len(),
            mp == manufacturer_pairs(manufacturer_data@),
            a.wf(),
            a.service_data@ == Map::<u128, Vec<u8>>::empty(),
            bytes_map(a.manufacturer_data@) == pairs_map(mp.take(i as int)),
            advertisement_type == AdvertisementType::Broadcast ==> a.advertisement_type == Type::Broadcast,
            advertisement_type == AdvertisementType::Peripheral ==> a.advertisement_type == Type::Peripheral,
            a.local_name == local_name,
            a.discoverable == Some(discoverable),
            duration_secs matches Some(s) ==> a.duration == Some(Timespan { secs: s, nanos: 0 }),
            duration_secs is None ==> a.duration is None,
            a.tx_power == tx_power,
            min_interval_millis matches Some(ms) ==> (a.min_interval matches Some(t) && t.wf() && t.millis() == ms),
            min_interval_millis is None ==> a.min_interval is None,
            max_interval_millis matches Some(ms) ==> (a.max_interval matches Some(t) && t.wf() && t.millis() == ms),
            max_interval_millis is None ==> a.max_interval is None,
            a.service_uuids@ == Set::<u128>::empty() && a.solicit_uuids@ == Set::<u128>::empty(),
            a.advertising_data@ == Map::<u8, Vec<u8>>::empty(),
            a.system_includes@.len() == 0,
            a.discoverable_timeout is None && a.appearance is None && a.timeout is None && a.secondary_channel is None,
        decreases manufacturer_data@.len() - i,
    {
        let m = &manufacturer_data[i];
        let data = copy_bytes(&m.data);
        let ghost before = a.manufacturer_data@;
        a.manufacturer_data.insert(m.id, data);
        assert(bytes_map(a.manufacturer_data@) =~= bytes_map(before).insert(m.id, m.data@));
        assert(mp.take(i + 1).drop_last() =~= mp.take(i as int));
        assert(mp.take(i + 1).last() == (m.id, m.data));
        i = i + 1;
    }
    assert(mp.take(manufacturer_data@.len() as int) =~= mp);
    let ghost sp = service_pairs(service_data@);
    let mut j: usize = 0;
    assert(bytes_map(a.service_data@) =~= pairs_map(sp.take(0)));
    while j < service_data.len()
        invariant
            j <= service_data@.len(),
            sp == service_pairs(service_data@),
            a.wf(),
            bytes_map(a.service_data@) == pairs_map(sp.take(j as int)),
            bytes_map(a.manufacturer_data@) == pairs_map(mp),
            mp == manufacturer_pairs(manufacturer_data@),
            advertisement_type == AdvertisementType::Broadcast ==> a.advertisement_type == Type::Broadcast,
            advertisement_type == AdvertisementType::Peripheral ==> a.advertisement_type == Type::Peripheral,
            a.local_name == local_name,
            a.discoverable == Some(discoverable),
            duration_secs matches Some(s) ==> a.duration == Some(Timespan { secs: s, nanos: 0 }),
            duration_secs is None ==> a.duration is None,
            a.tx_power == tx_power,
            min_interval_millis matches Some(ms) ==> (a.min_interval matches Some(t) && t.wf() && t.millis() == ms),
            min_interval_millis is None ==> a.min_interval is None,
            max_interval_millis matches Some(ms) ==> (a.max_interval matches Some(t) && t.wf() && t.millis() == ms),
            max_interval_millis is None ==> a.max_interval is None,
            a.service_uuids@ == Set::<u128>::empty() && a.solicit_uuids@ == Set::<u128>::empty(),
            a.advertising_data@ == Map::<u8, Vec<u8>>::empty(),
            a.system_includes@.len() == 0,
            a.discoverable_timeout is None && a.appearance is None && a.timeout is None && a.secondary_channel is None,
        decreases service_data@.len() - j,
    {
        let d = &service_data[j];
        let data = copy_bytes(&d.data);
        let ghost before = a.service_data@;
        a.service_data.insert(d.id, data);
        assert(bytes_map(a.service_data@) =~= bytes_map(before).insert(d.id, d.data@));
        assert(sp.take(j + 1).drop_last() =~= sp.take(j as int));
        assert(sp.take(j + 1).last() == (d.id, d.data));
        j = j + 1;
    }
    assert(sp.take(service_data@.len() as int) =~= sp);
    a
}

} // verus!
