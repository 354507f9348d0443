//! Bluetooth mesh provisioning agent: its capabilities and the requests
//! the daemon makes of it.
use vstd::prelude::*;
use crate::text::{owned, str_eq};

verus! {

/// Error response from us to a mesh agent request.
#[derive(Clone, Copy, Debug, PartialEq, Eq, Structural)]
pub enum ReqError {
    /// Request was rejected.
    Rejected,
    /// Request was canceled.
    Canceled,
}

impl ReqError {
    /// The default error: `Canceled`.
    pub fn default() -> (r: ReqError)
        ensures
            r == ReqError::Canceled,
    {
        ReqError::Canceled
    }

    /// The D-Bus error name of the reply: `org.bluez.Error.` and the
    /// variant name.
    pub fn dbus_error_name(&self) -> (r: String)
        ensures
            *self == ReqError::Rejected ==> r@ == "org.bluez.Error.Rejected"@,
            *self == ReqError::Canceled ==> r@ == "org.bluez.Error.Canceled"@,
    {
        match self {
            ReqError::Rejected => owned("org.bluez.Error.Rejected"),
            ReqError::Canceled => owned("org.bluez.Error.Canceled"),
        }
    }
}

/// Agent static capabilities.
#[derive(Clone, Copy, Debug, PartialEq, Eq, Structural)]
pub enum StaticCapability {
    /// 16 octet alpha array.
    InAlpha,
    /// 16 octet array.
    StaticOob,
}

/// The static capability with the given BlueZ name, if any.
pub open spec fn static_capability_parse(s: Seq<char>) -> Option<StaticCapability> {
    if s == "in-alpha"@ {
        Some(StaticCapability::InAlpha)
    } else if s == "static-oob"@ {
        Some(StaticCapability::StaticOob)
    } else {
        None
    }
}

impl StaticCapability {
    /// The capability with the given BlueZ name (its `FromStr` form).
    pub fn from_str(s: &str) -> (r: Option<StaticCapability>)
        ensures
            r == static_capability_parse(s@),
    {
        if str_eq(s, "in-alpha") {
            Some(StaticCapability::InAlpha)
        } else if str_eq(s, "static-oob") {
            Some(StaticCapability::StaticOob)
        } else {
            None
        }
    }
}

/// Agent numeric capabilities.
#[derive(Clone, Copy, Debug, PartialEq, Eq, Structural)]
pub enum NumericCapability {
    /// LED blinks.
    Blink,
    /// Device beeps.
    Beep,
    /// Device vibrations.
    Vibrate,
    /// Remote value.
    OutNumeric,
    /// Button pushes.
    Push,
    /// Knob twists.
    Twist,
}

/// The numeric capability with the given BlueZ name, if any.
pub open spec fn numeric_capability_parse(s: Seq<char>) -> Option<NumericCapability> {
    if s == "blink"@ {
        Some(NumericCapability::Blink)
    } else if s == "beep"@ {
        Some(NumericCapability::Beep)
    } else if s == "vibrate"@ {
        Some(NumericCapability::Vibrate)
    } else if s == "out-numeric"@ {
        Some(NumericCapability::OutNumeric)
    } else if s == "push"@ {
        Some(NumericCapability::Push)
    } else if s == "twist"@ {
        Some(NumericCapability::Twist)
    } else {
        None
    }
}

impl NumericCapability {
    /// The capability with the given BlueZ name (its `FromStr` form).
    pub fn from_str(s: &str) -> (r: Option<NumericCapability>)
        ensures
            r == numeric_capability_parse(s@),
    {
        if str_eq(s, "blink") {
            Some(NumericCapability::Blink)
        } else if str_eq(s, "beep") {
            Some(NumericCapability::Beep)
        } else if str_eq(s, "vibrate") {
            Some(NumericCapability::Vibrate)
        } else if str_eq(s, "out-numeric") {
            Some(NumericCapability::OutNumeric)
        } else if str_eq(s, "push") {
            Some(NumericCapability::Push)
        } else if str_eq(s, "twist") {
            Some(NumericCapability::Twist)
        } else {
            None
        }
    }
}

/// Agent capability.
#[derive(Clone, Copy, Debug, PartialEq, Eq, Structural)]
pub enum Capability {
    /// Static capability.
    Static(StaticCapability),
    /// Numeric capability.
    Numeric(NumericCapability),
}

/// The text that the agent publishes for a capability in its
/// `Capabilities` property: the name of the variant (the capability's
/// debug rendering).
pub open spec fn capability_text(c: Capability) -> Seq<char> {
    match c {
        Capability::Static(StaticCapability::InAlpha) => "InAlpha"@,
        Capability::Static(StaticCapability::StaticOob) => "StaticOob"@,
        Capability::Numeric(NumericCapability::Blink) => "Blink"@,
        Capability::Numeric(NumericCapability::Beep) => "Beep"@,
        Capability::Numeric(NumericCapability::Vibrate) => "Vibrate"@,
        Capability::Numeric(NumericCapability::OutNumeric) => "OutNumeric"@,
        Capability::Numeric(NumericCapability::Push) => "Push"@,
        Capability::Numeric(NumericCapability::Twist) => "Twist"@,
    }
}

impl Capability {
    /// The text of the capability (its `Display` form).
    pub fn to_string(&self) -> (r: String)
        ensures
            r@ == capability_text(*self),
    {
        match self {
            Capability::Static(StaticCapability::InAlpha) => owned("InAlpha"),
            Capability::Static(StaticCapability::StaticOob) => owned("StaticOob"),
            Capability::Numeric(NumericCapability::Blink) => owned("Blink"),
            Capability::Numeric(NumericCapability::Beep) => owned("Beep"),
            Capability::Numeric(NumericCapability::Vibrate) => owned("Vibrate"),
            Capability::Numeric(NumericCapability::OutNumeric) => owned("OutNumeric"),
            Capability::Numeric(NumericCapability::Push) => owned("Push"),
            Capability::Numeric(NumericCapability::Twist) => owned("Twist"),
        }
    }
}

/// The `Capabilities` property: the text of each capability, in order.
pub fn capabilities_property(caps: &Vec<Capability>) -> (r: Vec<String>)
    ensures
        r@.len() == caps@.len(),
        forall|i: int| 0 <= i < caps@.len() ==> r@[i]@ == capability_text(#[trigger] caps@[i]),
{
    let mut r: Vec<String> = Vec::new();
    let mut i: usize = 0;
    while i < caps.len()
        invariant
            i <= caps@.len(),
            r@.len() == i,
            forall|j: int| 0 <= j < i ==> r@[j]@ == capability_text(#[trigger] caps@[j]),
        decreases caps@.len() - i,
    {
        r.push(caps[i].to_string());
        i = i + 1;
    }
    r
}

/// Arguments for display numeric function.
#[derive(Clone, Copy, Debug, PartialEq, Eq, Structural)]
pub struct DisplayNumeric {
    /// Type of a display.
    pub display_type: NumericCapability,
    /// The value to display.
    pub number: u32,
}

/// The arguments of a `DisplayNumeric` request of the daemon, whose type
/// names a numeric capability.
pub fn display_numeric_request(type_: &str, value: u32) -> (r: DisplayNumeric)
    requires
        numeric_capability_parse(type_@) is Some,
    ensures
        Some(r.display_type) == numeric_capability_parse(type_@),
        r.number == value,
{
    match NumericCapability::from_str(type_) {
        Some(t) => DisplayNumeric { display_type: t, number: value },
        None => DisplayNumeric { display_type: NumericCapability::Blink, number: value },
    }
}

/// The capability of a `PromptStatic` request of the daemon, whose type
/// names a static capability.
pub fn prompt_static_request(type_: &str) -> (r: StaticCapability)
    requires
        static_capability_parse(type_@) is Some,
    ensures
        Some(r) == static_capability_parse(type_@),
{
    match StaticCapability::from_str(type_) {
        Some(t) => t,
        None => StaticCapability::InAlpha,
    }
}

} // verus!
