//! Bluetooth advertisement monitors: the properties that a monitor
//! publishes to BlueZ (its type, RSSI thresholds and timers, sampling
//! period and patterns), and the events that BlueZ reports for it.
use vstd::prelude::*;
use crate::Address;
use crate::device::{device_path_parse, parse_device_dbus_path};
use crate::dict::{copy_bytes, Dict, InvalidArgs, PropValue};
use crate::text::{owned, str_eq};
use crate::time::Timespan;

pub mod data_type;

verus! {

/// Determines the type of advertisement monitor.
#[derive(Clone, Copy, Debug, PartialEq, Eq, Structural)]
pub enum Type {
    /// Patterns with logic OR applied.
    OrPatterns,
}

impl Type {
    /// The text of the type (its `Display` form).
    pub fn to_string(&self) -> (r: String)
        ensures
            r@ == "or_patterns"@,
    {
        owned("or_patterns")
    }

    /// The type with the given text (its `FromStr` form).
    pub fn from_str(s: &str) -> (r: Option<Type>)
        ensures
            r is Some <==> s@ == "or_patterns"@,
    {
        if str_eq(s, "or_patterns") {
            Some(Type::OrPatterns)
        } else {
            None
        }
    }

    /// The default type: OR of the patterns.
    pub fn default() -> (r: Type)
        ensures
            r == Type::OrPatterns,
    {
        Type::OrPatterns
    }
}

/// An advertisement data pattern, used to filter devices in the
/// advertisement monitor.
#[derive(Clone, Debug)]
pub struct Pattern {
    /// Advertising data type to match.
    pub data_type: u8,
    /// The index in an AD data field where the search should start.
    pub start_position: u8,
    /// The value of the pattern (at most 31 bytes).
    pub content: Vec<u8>,
}

impl Pattern {
    /// Creates a new advertisement data pattern.
    pub fn new(data_type: u8, start_position: u8, content: &[u8]) -> (r: Self)
        ensures
            r.data_type == data_type,
            r.start_position == start_position,
            r.content@ == content@,
    {
        let mut v: Vec<u8> = Vec::new();
        let mut i: usize = 0;
        while i < content.len()
            invariant
                i <= content@.len(),
                v@ == content@.take(i as int),
            decreases content@.len() - i,
        {
            v.push(content[i]);
            assert(content@.take(i + 1) =~= content@.take(i as int).push(content@[i as int]));
            i = i + 1;
        }
        assert(content@.take(content@.len() as int) =~= content@);
        Pattern { data_type, start_position, content: v }
    }
}

/// Grouping rules on how to propagate the received advertisement packets
/// to the client.
#[derive(Clone, Copy, Debug, PartialEq, Eq, Structural)]
pub enum RssiSamplingPeriod {
    /// All advertisement packets from in-range devices are propagated.
    All,
    /// Only the first advertisement packet of in-range devices is
    /// propagated, and again the first one after a device was lost.
    First,
    /// Packets are grouped into the given period, rounded to 100 ms.
    Period(Timespan),
}

/// `v` clamped to `lo..=hi`.
pub open spec fn clamp(v: int, lo: int, hi: int) -> int {
    if v < lo {
        lo
    } else if v > hi {
        hi
    } else {
        v
    }
}

/// The property value of a sampling period: 0 for all packets, 255 for
/// the first, else the period in units of 100 ms, between 1 and 254.
pub open spec fn sampling_value(p: RssiSamplingPeriod) -> u16 {
    match p {
        RssiSamplingPeriod::All => 0,
        RssiSamplingPeriod::First => 255,
        RssiSamplingPeriod::Period(t) => clamp((t.millis() / 100) as int, 1, 254) as u16,
    }
}

impl RssiSamplingPeriod {
    /// The `RSSISamplingPeriod` property value.
    pub fn to_value(self) -> (r: u16)
        ensures
            r == sampling_value(self),
    {
        match self {
            RssiSamplingPeriod::All => 0,
            RssiSamplingPeriod::First => 255,
            RssiSamplingPeriod::Period(t) => {
                let units = t.as_millis() / 100;
                if units < 1 {
                    1
                } else if units > 254 {
                    254
                } else {
                    units as u16
                }
            },
        }
    }
}

/// The property value of an RSSI timeout: its whole seconds clamped to
/// 1..=300.
pub open spec fn timeout_value(t: Timespan) -> u16 {
    clamp(t.secs as int, 1, 300) as u16
}

/// The `RSSILowTimeout` / `RSSIHighTimeout` property value.
pub fn timeout_to_value(t: Timespan) -> (r: u16)
    ensures
        r == timeout_value(t),
        1 <= r <= 300,
{
    if t.secs < 1 {
        1
    } else if t.secs > 300 {
        300
    } else {
        t.secs as u16
    }
}

/// Advertisement monitor specification.
#[derive(Clone, Debug)]
pub struct Monitor {
    /// The type of the monitor.
    pub monitor_type: Type,
    /// Threshold below which a device becomes out of range (-127 to 20 dBm).
    pub rssi_low_threshold: Option<i16>,
    /// Threshold above which a device becomes in range (-127 to 20 dBm).
    pub rssi_high_threshold: Option<i16>,
    /// Time without a strong signal after which a device is lost.
    pub rssi_low_timeout: Option<Timespan>,
    /// Time with a strong signal after which a device is found.
    pub rssi_high_timeout: Option<Timespan>,
    /// Grouping of the received advertisement packets.
    pub rssi_sampling_period: Option<RssiSamplingPeriod>,
    /// Patterns to match; required for `Type::OrPatterns`.
    pub patterns: Option<Vec<Pattern>>,
}

/// The `Patterns` property value: for each pattern its start position,
/// data type and content, in this order.
pub open spec fn patterns_value(ps: Seq<Pattern>) -> Seq<(u8, u8, Seq<u8>)> {
    ps.map_values(|p: Pattern| (p.start_position, p.data_type, p.content@))
}

/// The triples of a `ByteTriples` value, with the byte arrays by view.
pub open spec fn triples_view(v: Seq<(u8, u8, Vec<u8>)>) -> Seq<(u8, u8, Seq<u8>)> {
    v.map_values(|t: (u8, u8, Vec<u8>)| (t.0, t.1, t.2@))
}

/// The `Patterns` property value of a list of patterns.
pub fn patterns_to_value(ps: &Vec<Pattern>) -> (r: Vec<(u8, u8, Vec<u8>)>)
    ensures
        triples_view(r@) == patterns_value(ps@),
{
    let mut r: Vec<(u8, u8, Vec<u8>)> = Vec::new();
    let mut i: usize = 0;
    while i < ps.len()
        invariant
            i <= ps@.len(),
            triples_view(r@) == patterns_value(ps@.take(i as int)),
        decreases ps@.len() - i,
    {
        let p = &ps[i];
        let ghost before = r@;
        r.push((p.start_position, p.data_type, copy_bytes(&p.content)));
        assert(triples_view(r@) =~= triples_view(before).push((p.start_position, p.data_type, p.content@)));
        assert(patterns_value(ps@.take(i + 1)) =~= patterns_value(ps@.take(i as int)).push(
            (p.start_position, p.data_type, p.content@),
        ));
        i = i + 1;
    }
    assert(ps@.take(ps@.len() as int) =~= ps@);
    r
}

impl Monitor {
    /// The properties that the monitor object publishes: its type always;
    /// the thresholds, timeouts (clamped to 1 to 300 seconds), sampling
    /// period and patterns when set.
    pub fn properties(&self) -> (r: Dict)
        ensures
            r.get_spec("Type"@) matches Some(PropValue::Str(t)) && t@ == "or_patterns"@,
            r.get_spec("RSSILowThreshold"@) == match self.rssi_low_threshold {
                Some(v) => Some(PropValue::I16(v)),
                None => None::<PropValue>,
            },
            r.get_spec("RSSIHighThreshold"@) == match self.rssi_high_threshold {
                Some(v) => Some(PropValue::I16(v)),
                None => None::<PropValue>,
            },
            r.get_spec("RSSILowTimeout"@) == match self.rssi_low_timeout {
                Some(t) => Some(PropValue::U16(timeout_value(t))),
                None => None::<PropValue>,
            },
            r.get_spec("RSSIHighTimeout"@) == match self.rssi_high_timeout {
                Some(t) => Some(PropValue::U16(timeout_value(t))),
                None => None::<PropValue>,
            },
            r.get_spec("RSSISamplingPeriod"@) == match self.rssi_sampling_period {
                Some(p) => Some(PropValue::U16(sampling_value(p))),
                None => None::<PropValue>,
            },
            self.patterns is None ==> r.get_spec("Patterns"@) is None,
            self.patterns matches Some(ps) ==> (r.get_spec("Patterns"@) matches Some(PropValue::ByteTriples(v))
                && triples_view(v@) == patterns_value(ps@)),
    {
        proof {
            reveal_strlit("Type");
            reveal_strlit("RSSILowThreshold");
            reveal_strlit("RSSIHighThreshold");
            reveal_strlit("RSSILowTimeout");
            reveal_strlit("RSSIHighTimeout");
            reveal_strlit("RSSISamplingPeriod");
            reveal_strlit("Patterns");
            assert("Type"@.len() == 4 && "RSSILowThreshold"@.len() == 16 && "RSSIHighThreshold"@.len() == 17);
            assert("RSSILowTimeout"@.len() == 14 && "RSSIHighTimeout"@.len() == 15);
            assert("RSSISamplingPeriod"@.len() == 18 && "Patterns"@.len() == 8);
            assert("RSSILowThreshold"@[5] == 'o' && "RSSILowTimeout"@[5] == 'o');
            assert("RSSILowThreshold"@[7] == 'T' && "RSSILowTimeout"@[7] == 'T');
            assert("RSSILowThreshold"@[8] == 'h' && "RSSILowTimeout"@[8] == 'i');
        }
        let mut d = Dict::new();
        assert forall|k: Seq<char>| #[trigger] d.get_spec(k) is None by {}
        d.insert("Type", PropValue::Str(self.monitor_type.to_string()));
        if let Some(v) = self.rssi_low_threshold {
            d.insert("RSSILowThreshold", PropValue::I16(v));
        }
        if let Some(v) = self.rssi_high_threshold {
            d.insert("RSSIHighThreshold", PropValue::I16(v));
        }
        if let Some(t) = self.rssi_low_timeout {
            d.insert("RSSILowTimeout", PropValue::U16(timeout_to_value(t)));
        }
        if let Some(t) = self.rssi_high_timeout {
            d.insert("RSSIHighTimeout", PropValue::U16(timeout_to_value(t)));
        }
        if let Some(p) = self.rssi_sampling_period {
            d.insert("RSSISamplingPeriod", PropValue::U16(p.to_value()));
        }
        if let Some(ps) = &self.patterns {
            d.insert("Patterns", PropValue::ByteTriples(patterns_to_value(ps)));
        }
        d
    }
}

/// Information identifying a found or lost device.
#[derive(Clone, Debug)]
pub struct DeviceId {
    /// Bluetooth adapter that found or lost the device.
    pub adapter: String,
    /// Device address.
    pub device: Address,
}

/// An advertisement monitor event.
#[derive(Clone, Debug)]
pub enum MonitorEvent {
    /// The targeted device was found.
    DeviceFound(DeviceId),
    /// The targeted device was lost.
    DeviceLost(DeviceId),
}

/// The event for a `DeviceFound` (or `DeviceLost`) call of BlueZ about
/// the device at `device_path`; a path that names no device is answered
/// with `InvalidArgs`.
pub fn monitor_event(found: bool, device_path: &str) -> (r: Result<MonitorEvent, InvalidArgs>)
    ensures
        r is Err <==> device_path_parse(device_path@) is None,
        r matches Err(e) ==> e.0@ == "cannot parse device path"@,
        r matches Ok(ev) ==> (if found {
            ev matches MonitorEvent::DeviceFound(id) && device_path_parse(device_path@) == Some(
                (id.adapter@, id.device@),
            )
        } else {
            ev matches MonitorEvent::DeviceLost(id) && device_path_parse(device_path@) == Some(
                (id.adapter@, id.device@),
            )
        }),
{
    match parse_device_dbus_path(device_path) {
        Some((adapter, device)) => {
            let id = DeviceId { adapter, device };
            if found {
                Ok(MonitorEvent::DeviceFound(id))
            } else {
                Ok(MonitorEvent::DeviceLost(id))
            }
        },
        None => Err(InvalidArgs(owned("cannot parse device path"))),
    }
}

} // verus!
