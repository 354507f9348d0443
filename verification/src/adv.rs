//! Bluetooth LE advertising: the texts of the advertising options, the
//! controller capabilities read from BlueZ, and the conversions of the
//! advertisement's times into the property values that BlueZ reads.
use vstd::prelude::*;
use crate::{Error, ErrorKind, InternalErrorKind};
use crate::dict::{copy_bytes, opt_bool_value, opt_str_value, opt_u16_value, Dict, PropValue};
use crate::text::{owned, str_eq, texts, uuid_simple_string, uuid_simple_text, uuid_string, uuid_text, uuid_texts};
use crate::time::Timespan;
use crate::foreign::is_object_path;
use crate::object_path::{lemma_object_path_child, lemma_prefix_valid, lemma_uuid_simple_element, plain_from};
use crate::keyed::{bytes_map, pairs_map, u128_elements, u128_keyed_pairs, u16_keyed_pairs, u8_keyed_pairs};
use std::collections::{BTreeMap, BTreeSet};

verus! {

/// Determines the type of advertising packet requested.
#[derive(Clone, Copy, Debug, PartialEq, Eq, Structural)]
pub enum Type {
    /// Broadcast
    Broadcast,
    /// Peripheral
    Peripheral,
}

/// The type with the given text, if any.
pub open spec fn type_parse(s: Seq<char>) -> Option<Type> {
    if s == "broadcast"@ {
        Some(Type::Broadcast)
    } else if s == "peripheral"@ {
        Some(Type::Peripheral)
    } else {
        None
    }
}

impl Type {
    /// The text of the type (its `Display` form).
    pub fn to_string(&self) -> (r: String)
        ensures
            *self == Type::Broadcast ==> r@ == "broadcast"@,
            *self == Type::Peripheral ==> r@ == "peripheral"@,
    {
        match self {
            Type::Broadcast => owned("broadcast"),
            Type::Peripheral => owned("peripheral"),
        }
    }

    /// The type with the given text (its `FromStr` form).
    pub fn from_str(s: &str) -> (r: Option<Type>)
        ensures
            r == type_parse(s@),
    {
        if str_eq(s, "broadcast") {
            Some(Type::Broadcast)
        } else if str_eq(s, "peripheral") {
            Some(Type::Peripheral)
        } else {
            None
        }
    }

    /// The default type: peripheral.
    pub fn default() -> (r: Type)
        ensures
            r == Type::Peripheral,
    {
        Type::Peripheral
    }
}

/// Secondary channel for advertisement.
#[derive(Clone, Copy, Debug, PartialEq, Eq, Structural)]
pub enum SecondaryChannel {
    /// 1M
    OneM,
    /// 2M
    TwoM,
    /// Coded
    Coded,
}

/// The secondary channel with the given text, if any.
pub open spec fn secondary_channel_parse(s: Seq<char>) -> Option<SecondaryChannel> {
    if s == "1M"@ {
        Some(SecondaryChannel::OneM)
    } else if s == "2M"@ {
        Some(SecondaryChannel::TwoM)
    } else if s == "Coded"@ {
        Some(SecondaryChannel::Coded)
    } else {
        None
    }
}

impl SecondaryChannel {
    /// The text of the channel (its `Display` form).
    pub fn to_string(&self) -> (r: String)
        ensures
            *self == SecondaryChannel::OneM ==> r@ == "1M"@,
            *self == SecondaryChannel::TwoM ==> r@ == "2M"@,
            *self == SecondaryChannel::Coded ==> r@ == "Coded"@,
    {
        match self {
            SecondaryChannel::OneM => owned("1M"),
            SecondaryChannel::TwoM => owned("2M"),
            SecondaryChannel::Coded => owned("Coded"),
        }
    }

    /// The channel with the given text (its `FromStr` form).
    pub fn from_str(s: &str) -> (r: Option<SecondaryChannel>)
        ensures
            r == secondary_channel_parse(s@),
    {
        if str_eq(s, "1M") {
            Some(SecondaryChannel::OneM)
        } else if str_eq(s, "2M") {
            Some(SecondaryChannel::TwoM)
        } else if str_eq(s, "Coded") {
            Some(SecondaryChannel::Coded)
        } else {
            None
        }
    }

    /// The default channel: 1M.
    pub fn default() -> (r: SecondaryChannel)
        ensures
            r == SecondaryChannel::OneM,
    {
        SecondaryChannel::OneM
    }
}

/// Advertisement feature.
#[derive(Clone, Copy, Debug, PartialEq, Eq, Structural)]
pub enum Feature {
    /// TX power.
    TxPower,
    /// Appearance.
    Appearance,
    /// Local name.
    LocalName,
}

/// The feature with the given text, if any.
pub open spec fn feature_parse(s: Seq<char>) -> Option<Feature> {
    if s == "tx-power"@ {
        Some(Feature::TxPower)
    } else if s == "appearance"@ {
        Some(Feature::Appearance)
    } else if s == "local-name"@ {
        Some(Feature::LocalName)
    } else {
        None
    }
}

impl Feature {
    /// The text of the feature (its `Display` form).
    pub fn to_string(&self) -> (r: String)
        ensures
            *self == Feature::TxPower ==> r@ == "tx-power"@,
            *self == Feature::Appearance ==> r@ == "appearance"@,
            *self == Feature::LocalName ==> r@ == "local-name"@,
    {
        match self {
            Feature::TxPower => owned("tx-power"),
            Feature::Appearance => owned("appearance"),
            Feature::LocalName => owned("local-name"),
        }
    }

    /// The feature with the given text (its `FromStr` form).
    pub fn from_str(s: &str) -> (r: Option<Feature>)
        ensures
            r == feature_parse(s@),
    {
        if str_eq(s, "tx-power") {
            Some(Feature::TxPower)
        } else if str_eq(s, "appearance") {
            Some(Feature::Appearance)
        } else if str_eq(s, "local-name") {
            Some(Feature::LocalName)
        } else {
            None
        }
    }
}

/// LE advertising platform feature.
#[derive(Clone, Copy, Debug, PartialEq, Eq, Structural)]
pub enum PlatformFeature {
    /// Indicates whether platform can specify TX power on each advertising
    /// instance.
    CanSetTxPower,
    /// Indicates whether multiple advertising will be offloaded to the
    /// controller.
    HardwareOffload,
}

/// The platform feature with the given text, if any.
pub open spec fn platform_feature_parse(s: Seq<char>) -> Option<PlatformFeature> {
    if s == "CanSetTxPower"@ {
        Some(PlatformFeature::CanSetTxPower)
    } else if s == "HardwareOffload"@ {
        Some(PlatformFeature::HardwareOffload)
    } else {
        None
    }
}

impl PlatformFeature {
    /// The text of the feature (its `Display` form).
    pub fn to_string(&self) -> (r: String)
        ensures
            *self == PlatformFeature::CanSetTxPower ==> r@ == "CanSetTxPower"@,
            *self == PlatformFeature::HardwareOffload ==> r@ == "HardwareOffload"@,
    {
        match self {
            PlatformFeature::CanSetTxPower => owned("CanSetTxPower"),
            PlatformFeature::HardwareOffload => owned("HardwareOffload"),
        }
    }

    /// The feature with the given text (its `FromStr` form).
    pub fn from_str(s: &str) -> (r: Option<PlatformFeature>)
        ensures
            r == platform_feature_parse(s@),
    {
        if str_eq(s, "CanSetTxPower") {
            Some(PlatformFeature::CanSetTxPower)
        } else if str_eq(s, "HardwareOffload") {
            Some(PlatformFeature::HardwareOffload)
        } else {
            None
        }
    }
}

/// Some text of `v` names the platform feature `f`.
pub open spec fn names_platform_feature(v: Seq<String>, f: PlatformFeature) -> bool {
    exists|i: int| 0 <= i < v.len() && platform_feature_parse(#[trigger] v[i]@) == Some(f)
}

/// The set of platform features named by the texts of the
/// `SupportedFeatures` property, in their order (`CanSetTxPower` first);
/// unknown texts are skipped.
pub fn platform_features(v: &Vec<String>) -> (r: Vec<PlatformFeature>)
    ensures
        r@.contains(PlatformFeature::CanSetTxPower) <==> names_platform_feature(v@, PlatformFeature::CanSetTxPower),
        r@.contains(PlatformFeature::HardwareOffload) <==> names_platform_feature(v@, PlatformFeature::HardwareOffload),
        r@.len() <= 2,
        r@.len() == 2 ==> r@[0] == PlatformFeature::CanSetTxPower && r@[1] == PlatformFeature::HardwareOffload,
{
    let mut can_set = false;
    let mut offload = false;
    let mut i: usize = 0;
    while i < v.len()
        invariant
            i <= v@.len(),
            can_set <==> exists|j: int| 0 <= j < i && platform_feature_parse(#[trigger] v@[j]@) == Some(
                PlatformFeature::CanSetTxPower,
            ),
            offload <==> exists|j: int| 0 <= j < i && platform_feature_parse(#[trigger] v@[j]@) == Some(
                PlatformFeature::HardwareOffload,
            ),
        decreases v@.len() - i,
    {
        match PlatformFeature::from_str(v[i].as_str()) {
            Some(PlatformFeature::CanSetTxPower) => {
                can_set = true;
            },
            Some(PlatformFeature::HardwareOffload) => {
                offload = true;
            },
            None => {},
        }
        i = i + 1;
    }
    let mut r: Vec<PlatformFeature> = Vec::new();
    if can_set {
        r.push(PlatformFeature::CanSetTxPower);
    }
    if offload {
        r.push(PlatformFeature::HardwareOffload);
    }
    proof {
        if !can_set {
            assert(!r@.contains(PlatformFeature::CanSetTxPower));
        }
        if !offload {
            assert(!r@.contains(PlatformFeature::HardwareOffload));
        }
        if can_set {
            assert(r@[0] == PlatformFeature::CanSetTxPower);
        }
        if offload {
            assert(r@[r@.len() - 1] == PlatformFeature::HardwareOffload);
        }
    }
    r
}

/// Advertising-related controller capabilities.
#[derive(Clone, Copy, Debug, PartialEq, Eq, Structural)]
pub struct Capabilities {
    /// Maximum advertising data length.
    pub max_advertisement_length: u8,
    /// Maximum advertising scan response length.
    pub max_scan_response_length: u8,
    /// Minimum advertising TX power (dBm).
    pub min_tx_power: Option<i16>,
    /// Maximum advertising TX power (dBm).
    pub max_tx_power: Option<i16>,
}

/// A byte-valued entry of the dictionary, if present with that type.
pub open spec fn u8_entry(d: Dict, key: Seq<char>) -> Option<u8> {
    match d.get_spec(key) {
        Some(PropValue::U8(x)) => Some(x),
        _ => None,
    }
}

/// A signed 16-bit entry of the dictionary, if present with that type.
pub open spec fn i16_entry(d: Dict, key: Seq<char>) -> Option<i16> {
    match d.get_spec(key) {
        Some(PropValue::I16(x)) => Some(x),
        _ => None,
    }
}

/// Reads a byte-valued entry; a missing or mistyped one is the internal
/// error `MissingKey` with the key.
fn read_u8(d: &Dict, key: &str) -> (r: Result<u8, Error>)
    ensures
        r matches Ok(x) ==> u8_entry(*d, key@) == Some(x),
        r matches Err(e) ==> u8_entry(*d, key@) is None && (e.kind matches ErrorKind::Internal(
            InternalErrorKind::MissingKey(k),
        ) && k@ == key@),
{
    match d.get(key) {
        Some(PropValue::U8(x)) => Ok(*x),
        _ => Err(Error::new(ErrorKind::Internal(InternalErrorKind::MissingKey(owned(key))))),
    }
}

/// Reads an optional signed 16-bit entry.
fn read_i16(d: &Dict, key: &str) -> (r: Option<i16>)
    ensures
        r == i16_entry(*d, key@),
{
    match d.get(key) {
        Some(PropValue::I16(x)) => Some(*x),
        _ => None,
    }
}

impl Capabilities {
    /// Reads the capabilities from the `SupportedCapabilities` dictionary:
    /// `MaxAdvLen` and `MaxScnRspLen` are required bytes, `MinTxPower` and
    /// `MaxTxPower` optional 16-bit values.  A missing or mistyped
    /// required entry gives the internal error `MissingKey` naming the
    /// first such key.
    pub fn from_dict(d: &Dict) -> (r: Result<Capabilities, Error>)
        ensures
            r is Ok <==> u8_entry(*d, "MaxAdvLen"@) is Some && u8_entry(*d, "MaxScnRspLen"@) is Some,
            r matches Ok(c) ==> Some(c.max_advertisement_length) == u8_entry(*d, "MaxAdvLen"@) && Some(
                c.max_scan_response_length,
            ) == u8_entry(*d, "MaxScnRspLen"@) && c.min_tx_power == i16_entry(*d, "MinTxPower"@)
                && c.max_tx_power == i16_entry(*d, "MaxTxPower"@),
            r matches Err(e) ==> (e.kind matches ErrorKind::Internal(InternalErrorKind::MissingKey(k)) && (if u8_entry(
                *d,
                "MaxAdvLen"@,
            ) is None {
                k@ == "MaxAdvLen"@
            } else {
                k@ == "MaxScnRspLen"@
            })),
    {
        let max_advertisement_length = read_u8(d, "MaxAdvLen")?;
        let max_scan_response_length = read_u8(d, "MaxScnRspLen")?;
        Ok(Capabilities {
            max_advertisement_length,
            max_scan_response_length,
            min_tx_power: read_i16(d, "MinTxPower"),
            max_tx_power: read_i16(d, "MaxTxPower"),
        })
    }
}

/// A time in whole seconds as a 16-bit property value: saturated at
/// `u16::MAX` (discoverable timeout, duration and timeout).
pub fn secs_property(secs: u64) -> (r: u16)
    ensures
        secs <= 0xffff ==> r == secs,
        secs > 0xffff ==> r == 0xffff,
{
    if secs > 0xffff {
        0xffff
    } else {
        secs as u16
    }
}

/// A time in whole milliseconds as a 32-bit property value: saturated at
/// `u32::MAX` (the advertising intervals).
pub fn millis_property(millis: u128) -> (r: u32)
    ensures
        millis <= 0xffff_ffff ==> r == millis,
        millis > 0xffff_ffff ==> r == 0xffff_ffff,
{
    if millis > 0xffff_ffff {
        0xffff_ffff
    } else {
        millis as u32
    }
}

} // verus!

verus! {

/// The text of an advertisement type.
pub open spec fn type_text(t: Type) -> Seq<char> {
    match t {
        Type::Broadcast => "broadcast"@,
        Type::Peripheral => "peripheral"@,
    }
}

/// The text of a secondary channel.
pub open spec fn secondary_channel_text(c: SecondaryChannel) -> Seq<char> {
    match c {
        SecondaryChannel::OneM => "1M"@,
        SecondaryChannel::TwoM => "2M"@,
        SecondaryChannel::Coded => "Coded"@,
    }
}

/// The text of a feature.
pub open spec fn feature_text(f: Feature) -> Seq<char> {
    match f {
        Feature::TxPower => "tx-power"@,
        Feature::Appearance => "appearance"@,
        Feature::LocalName => "local-name"@,
    }
}

/// The place of a feature in the order of the features.
pub open spec fn feature_rank(f: Feature) -> int {
    match f {
        Feature::TxPower => 0,
        Feature::Appearance => 1,
        Feature::LocalName => 2,
    }
}

/// The keys are strictly ascending: the sequence is a set, or the keys of
/// a map, in its order.
pub open spec fn ascending<T>(s: Seq<T>, key: spec_fn(T) -> int) -> bool {
    forall|i: int, j: int| 0 <= i < j < s.len() ==> key(s[i]) < key(s[j])
}

/// Data to be broadcast in a Bluetooth LE advertisement.
///
/// The included features are held in ascending order, each present once.
#[derive(Clone, Debug)]
pub struct Advertisement {
    /// Type of the advertisement.
    pub advertisement_type: Type,
    /// Service UUIDs to include, as their 128-bit values.
    pub service_uuids: BTreeSet<u128>,
    /// Manufacturer data by manufacturer id.
    pub manufacturer_data: BTreeMap<u16, Vec<u8>>,
    /// Solicit UUIDs to include, as their 128-bit values.
    pub solicit_uuids: BTreeSet<u128>,
    /// Service data by service UUID.
    pub service_data: BTreeMap<u128, Vec<u8>>,
    /// Advertising data by advertising data type.
    pub advertising_data: BTreeMap<u8, Vec<u8>>,
    /// Advertise as general discoverable.
    pub discoverable: Option<bool>,
    /// The discoverable timeout.
    pub discoverable_timeout: Option<Timespan>,
    /// System features to include.
    pub system_includes: Vec<Feature>,
    /// Local name to include.
    pub local_name: Option<String>,
    /// Appearance to include.
    pub appearance: Option<u16>,
    /// Rotation duration of the advertisement.
    pub duration: Option<Timespan>,
    /// Timeout of the advertisement.
    pub timeout: Option<Timespan>,
    /// Secondary channel to be used.
    pub secondary_channel: Option<SecondaryChannel>,
    /// Minimum advertising interval.
    pub min_interval: Option<Timespan>,
    /// Maximum advertising interval.
    pub max_interval: Option<Timespan>,
    /// Requested transmission power.
    pub tx_power: Option<i16>,
}

impl Advertisement {
    /// The included features are held once each, in ascending order.
    pub open spec fn wf(&self) -> bool {
        ascending(self.system_includes@, |f: Feature| feature_rank(f))
    }

    /// A peripheral advertisement with nothing else set.
    pub fn default() -> (r: Advertisement)
        ensures
            r.wf(),
            r.advertisement_type == Type::Peripheral,
            r.service_uuids@ == Set::<u128>::empty() && r.solicit_uuids@ == Set::<u128>::empty(),
            r.manufacturer_data@ == Map::<u16, Vec<u8>>::empty(),
            r.service_data@ == Map::<u128, Vec<u8>>::empty(),
            r.advertising_data@ == Map::<u8, Vec<u8>>::empty(),
            r.system_includes@.len() == 0,
            r.discoverable is None && r.discoverable_timeout is None && r.local_name is None,
            r.appearance is None && r.duration is None && r.timeout is None && r.secondary_channel is None,
            r.min_interval is None && r.max_interval is None && r.tx_power is None,
    {
        Advertisement {
            advertisement_type: Type::Peripheral,
            service_uuids: BTreeSet::new(),
            manufacturer_data: BTreeMap::new(),
            solicit_uuids: BTreeSet::new(),
            service_data: BTreeMap::new(),
            advertising_data: BTreeMap::new(),
            discoverable: None,
            discoverable_timeout: None,
            system_includes: Vec::new(),
            local_name: None,
            appearance: None,
            duration: None,
            timeout: None,
            secondary_channel: None,
            min_interval: None,
            max_interval: None,
            tx_power: None,
        }
    }
}

/// The texts of features.
fn feature_texts(v: &Vec<Feature>) -> (r: Vec<String>)
    ensures
        texts(r@) == v@.map_values(|f: Feature| feature_text(f)),
{
    let mut r: Vec<String> = Vec::new();
    let mut i: usize = 0;
    while i < v.len()
        invariant
            i <= v@.len(),
            texts(r@) == v@.take(i as int).map_values(|f: Feature| feature_text(f)),
        decreases v@.len() - i,
    {
        let ghost before = r@;
        let f = v[i];
        let t = f.to_string();
        assert(t@ == feature_text(f));
        r.push(t);
        assert(texts(r@) =~= texts(before).push(feature_text(v@[i as int])));
        assert(v@.take(i + 1).map_values(|f: Feature| feature_text(f)) =~= v@.take(i as int).map_values(
            |f: Feature| feature_text(f),
        ).push(feature_text(v@[i as int])));
        i = i + 1;
    }
    assert(v@.take(v@.len() as int) =~= v@);
    r
}

/// Pairs of a UUID and a byte array, the UUID by its hyphenated text.
pub open spec fn uuid_keyed_texts(v: Seq<(u128, Vec<u8>)>) -> Seq<(Seq<char>, Seq<u8>)> {
    v.map_values(|p: (u128, Vec<u8>)| (uuid_text(p.0), p.1@))
}

/// Pairs of a string and a byte array, both by view.
pub open spec fn str_keyed_bytes(v: Seq<(String, Vec<u8>)>) -> Seq<(Seq<char>, Seq<u8>)> {
    v.map_values(|p: (String, Vec<u8>)| (p.0@, p.1@))
}

/// The UUIDs' texts, in the ascending order of the set's elements.
pub open spec fn in_order_uuid_texts(t: Seq<Seq<char>>, s: Set<u128>) -> bool {
    exists|q: Seq<u128>|
        ascending(q, |u: u128| u as int) && #[trigger] q.to_set() == s && t == q.map_values(|u: u128| uuid_text(u))
}

/// The pairs of the map's keys, written as UUID texts, and its arrays, in
/// ascending key order.
pub open spec fn in_order_uuid_keyed(t: Seq<(Seq<char>, Seq<u8>)>, m: Map<u128, Vec<u8>>) -> bool {
    exists|q: Seq<(u128, Vec<u8>)>|
        ascending(q, |p: (u128, Vec<u8>)| p.0 as int) && #[trigger] pairs_map(q) == bytes_map(m) && t
            == uuid_keyed_texts(q)
}

/// The service data with each UUID written as its hyphenated text.
fn uuid_keyed_copy(v: &Vec<(u128, Vec<u8>)>) -> (r: Vec<(String, Vec<u8>)>)
    ensures
        str_keyed_bytes(r@) == uuid_keyed_texts(v@),
{
    let mut r: Vec<(String, Vec<u8>)> = Vec::new();
    let mut i: usize = 0;
    while i < v.len()
        invariant
            i <= v@.len(),
            str_keyed_bytes(r@) == uuid_keyed_texts(v@.take(i as int)),
        decreases v@.len() - i,
    {
        let ghost before = r@;
        r.push((uuid_string(v[i].0), copy_bytes(&v[i].1)));
        assert(str_keyed_bytes(r@) =~= str_keyed_bytes(before).push((uuid_text(v@[i as int].0), v@[i as int].1@)));
        assert(uuid_keyed_texts(v@.take(i + 1)) =~= uuid_keyed_texts(v@.take(i as int)).push(
            (uuid_text(v@[i as int].0), v@[i as int].1@),
        ));
        i = i + 1;
    }
    assert(v@.take(v@.len() as int) =~= v@);
    r
}

} // verus!

verus! {

/// Whole seconds of a time as a 16-bit property value, saturated.
pub open spec fn secs_value(t: Timespan) -> u16 {
    if t.secs > 0xffff {
        0xffff
    } else {
        t.secs as u16
    }
}

/// Whole milliseconds of a time as a 32-bit property value, saturated.
pub open spec fn millis_value(t: Timespan) -> u32 {
    if t.millis() > 0xffff_ffff {
        0xffff_ffff
    } else {
        t.millis() as u32
    }
}

/// The entry of an optional time in whole seconds.
fn opt_secs_value(o: Option<Timespan>) -> (r: Option<PropValue>)
    ensures
        r == match o {
            Some(t) => Some(PropValue::U16(secs_value(t))),
            None => None::<PropValue>,
        },
{
    match o {
        Some(t) => Some(PropValue::U16(secs_property(t.secs))),
        None => None,
    }
}

/// The entry of an optional time in whole milliseconds.
fn opt_millis_value(o: Option<Timespan>) -> (r: Option<PropValue>)
    ensures
        r == match o {
            Some(t) => Some(PropValue::U32(millis_value(t))),
            None => None::<PropValue>,
        },
{
    match o {
        Some(t) => Some(PropValue::U32(millis_property(t.as_millis()))),
        None => None,
    }
}

/// The path prefix under which advertisements are published.
pub open spec fn advertisement_prefix() -> Seq<char> {
    "/org/bluez/bluer/advertisement"@
}

/// The object path under which the advertisement with the given id is
/// published: the prefix, `/` and the id as 32 lower-case hex digits.
pub fn advertisement_path(id: u128) -> (r: String)
    ensures
        r@ == advertisement_prefix() + "/"@ + uuid_simple_text(id),
        is_object_path(r@),
{
    proof {
        reveal_strlit("/org/bluez/bluer/advertisement/");
        reveal_strlit("/org/bluez/bluer/advertisement");
        reveal_strlit("/");
    }
    let mut p = owned("/org/bluez/bluer/advertisement/");
    let s = uuid_simple_string(id);
    p.append(s.as_str());
    assert("/org/bluez/bluer/advertisement/"@ =~= advertisement_prefix() + "/"@);
    proof {
        assert(plain_from(advertisement_prefix(), 0)) by {
            reveal_with_fuel(plain_from, 40);
        }
        lemma_prefix_valid(advertisement_prefix());
        lemma_uuid_simple_element(id);
        lemma_object_path_child(advertisement_prefix(), uuid_simple_text(id));
    }
    p
}

impl Advertisement {
    /// The properties that the advertisement object publishes: its type,
    /// UUIDs, data and included features always; each other option when
    /// it is set, times in whole seconds (or milliseconds for the
    /// intervals), saturated.
    pub fn properties(&self) -> (r: Dict)
        ensures
            r.get_spec("Type"@) matches Some(PropValue::Str(t)) && t@ == type_text(self.advertisement_type),
            r.get_spec("ServiceUUIDs"@) matches Some(PropValue::StrArray(v)) && in_order_uuid_texts(
                texts(v@),
                self.service_uuids@,
            ),
            r.get_spec("ManufacturerData"@) matches Some(PropValue::U16ToBytes(v)) && ascending(
                v@,
                |p: (u16, Vec<u8>)| p.0 as int,
            ) && pairs_map(v@) == bytes_map(self.manufacturer_data@),
            r.get_spec("SolicitUUIDs"@) matches Some(PropValue::StrArray(v)) && in_order_uuid_texts(
                texts(v@),
                self.solicit_uuids@,
            ),
            r.get_spec("ServiceData"@) matches Some(PropValue::StrToBytes(v)) && in_order_uuid_keyed(
                str_keyed_bytes(v@),
                self.service_data@,
            ),
            r.get_spec("Data"@) matches Some(PropValue::U8ToBytes(v)) && ascending(v@, |p: (u8, Vec<u8>)| p.0 as int)
                && pairs_map(v@) == bytes_map(self.advertising_data@),
            r.get_spec("Discoverable"@) == match self.discoverable {
                Some(b) => Some(PropValue::Bool(b)),
                None => None::<PropValue>,
            },
            r.get_spec("DiscoverableTimeout"@) == match self.discoverable_timeout {
                Some(t) => Some(PropValue::U16(secs_value(t))),
                None => None::<PropValue>,
            },
            r.get_spec("Includes"@) matches Some(PropValue::StrArray(v)) && texts(v@)
                == self.system_includes@.map_values(|f: Feature| feature_text(f)),
            self.local_name is None ==> r.get_spec("LocalName"@) is None,
            self.local_name matches Some(n) ==> (r.get_spec("LocalName"@) matches Some(PropValue::Str(t)) && t@
                == n@),
            r.get_spec("Appearance"@) == match self.appearance {
                Some(a) => Some(PropValue::U16(a)),
                None => None::<PropValue>,
            },
            r.get_spec("Duration"@) == match self.duration {
                Some(t) => Some(PropValue::U16(secs_value(t))),
                None => None::<PropValue>,
            },
            r.get_spec("Timeout"@) == match self.timeout {
                Some(t) => Some(PropValue::U16(secs_value(t))),
                None => None::<PropValue>,
            },
            self.secondary_channel is None ==> r.get_spec("SecondaryChannel"@) is None,
            self.secondary_channel matches Some(c) ==> (r.get_spec("SecondaryChannel"@) matches Some(
                PropValue::Str(t),
            ) && t@ == secondary_channel_text(c)),
            r.get_spec("MinInterval"@) == match self.min_interval {
                Some(t) => Some(PropValue::U32(millis_value(t))),
                None => None::<PropValue>,
            },
            r.get_spec("MaxInterval"@) == match self.max_interval {
                Some(t) => Some(PropValue::U32(millis_value(t))),
                None => None::<PropValue>,
            },
            r.get_spec("TxPower"@) == match self.tx_power {
                Some(p) => Some(PropValue::I16(p)),
                None => None::<PropValue>,
            },
    {
        proof {
            reveal_strlit("Type");
            reveal_strlit("ServiceUUIDs");
            reveal_strlit("ManufacturerData");
            reveal_strlit("SolicitUUIDs");
            reveal_strlit("ServiceData");
            reveal_strlit("Data");
            reveal_strlit("Discoverable");
            reveal_strlit("DiscoverableTimeout");
            reveal_strlit("Includes");
            reveal_strlit("LocalName");
            reveal_strlit("Appearance");
            reveal_strlit("Duration");
            reveal_strlit("Timeout");
            reveal_strlit("SecondaryChannel");
            reveal_strlit("MinInterval");
            reveal_strlit("MaxInterval");
            reveal_strlit("TxPower");
            assert("Type"@.len() == 4 && "Data"@.len() == 4 && "Type"@[0] == 'T' && "Data"@[0] == 'D');
            assert("ServiceUUIDs"@.len() == 12 && "SolicitUUIDs"@.len() == 12 && "Discoverable"@.len() == 12);
            assert("ServiceUUIDs"@[1] == 'e' && "SolicitUUIDs"@[1] == 'o' && "Discoverable"@[0] == 'D');
            assert("ManufacturerData"@.len() == 16 && "SecondaryChannel"@.len() == 16);
            assert("ManufacturerData"@[0] == 'M' && "SecondaryChannel"@[0] == 'S');
            assert("ServiceData"@.len() == 11 && "MinInterval"@.len() == 11 && "MaxInterval"@.len() == 11);
            assert("ServiceData"@[0] == 'S' && "MinInterval"@[1] == 'i' && "MaxInterval"@[1] == 'a');
            assert("MinInterval"@[0] == 'M' && "MaxInterval"@[0] == 'M');
            assert("DiscoverableTimeout"@.len() == 19 && "LocalName"@.len() == 9 && "Appearance"@.len() == 10);
            assert("Includes"@.len() == 8 && "Duration"@.len() == 8 && "Includes"@[0] == 'I' && "Duration"@[0] == 'D');
            assert("Timeout"@.len() == 7 && "TxPower"@.len() == 7 && "Timeout"@[1] == 'i' && "TxPower"@[1] == 'x');
        }
        let mut d = Dict::new();
        assert forall|k: Seq<char>| #[trigger] d.get_spec(k) is None by {}
        let kind_text = self.advertisement_type.to_string();
        assert(kind_text@ == type_text(self.advertisement_type));
        d.insert("Type", PropValue::Str(kind_text));
        let service_uuids = u128_elements(&self.service_uuids);
        d.insert("ServiceUUIDs", PropValue::StrArray(uuid_texts(&service_uuids)));
        d.insert("ManufacturerData", PropValue::U16ToBytes(u16_keyed_pairs(&self.manufacturer_data)));
        let solicit_uuids = u128_elements(&self.solicit_uuids);
        d.insert("SolicitUUIDs", PropValue::StrArray(uuid_texts(&solicit_uuids)));
        let service_data = u128_keyed_pairs(&self.service_data);
        d.insert("ServiceData", PropValue::StrToBytes(uuid_keyed_copy(&service_data)));
        d.insert("Data", PropValue::U8ToBytes(u8_keyed_pairs(&self.advertising_data)));
        d.insert_opt("Discoverable", opt_bool_value(self.discoverable));
        d.insert_opt("DiscoverableTimeout", opt_secs_value(self.discoverable_timeout));
        d.insert("Includes", PropValue::StrArray(feature_texts(&self.system_includes)));
        d.insert_opt("LocalName", opt_str_value(&self.local_name));
        d.insert_opt("Appearance", opt_u16_value(self.appearance));
        d.insert_opt("Duration", opt_secs_value(self.duration));
        d.insert_opt("Timeout", opt_secs_value(self.timeout));
        let channel = match self.secondary_channel {
            Some(c) => {
                let t = c.to_string();
                assert(t@ == secondary_channel_text(c));
                Some(PropValue::Str(t))
            },
            None => None,
        };
        d.insert_opt("SecondaryChannel", channel);
        d.insert_opt("MinInterval", opt_millis_value(self.min_interval));
        d.insert_opt("MaxInterval", opt_millis_value(self.max_interval));
        let tx = match self.tx_power {
            Some(p) => Some(PropValue::I16(p)),
            None => None,
        };
        d.insert_opt("TxPower", tx);
        d
    }
}

} // verus!

