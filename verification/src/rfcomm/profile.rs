//! Bluetooth profiles for RFCOMM connections: the options of a profile as
//! registered with BlueZ, the properties of a connection request, and the
//! answers to the daemon's requests.
use vstd::prelude::*;
use crate::Address;
use crate::device::{device_path_parse, parse_device_dbus_path};
use crate::dict::{opt_bool_value, opt_str_value, opt_u16_value, Dict, PropValue};
use crate::text::{owned, str_eq, uuid_string, uuid_text};

verus! {

/// Error response from us to a Bluetooth profile request.
#[derive(Clone, Copy, Debug, PartialEq, Eq, Structural)]
pub enum ReqError {
    /// Request was rejected.
    Rejected,
    /// Request was canceled.
    Canceled,
}

impl ReqError {
    /// The default error: `Canceled`.
    pub fn default() -> (r: ReqError)
        ensures
            r == ReqError::Canceled,
    {
        ReqError::Canceled
    }

    /// The message of the error (its `Display` form).
    pub fn to_string(&self) -> (r: String)
        ensures
            *self == ReqError::Rejected ==> r@ == "Request was rejected."@,
            *self == ReqError::Canceled ==> r@ == "Request was canceled."@,
    {
        match self {
            ReqError::Rejected => owned("Request was rejected."),
            ReqError::Canceled => owned("Request was canceled."),
        }
    }

    /// The D-Bus error name of the reply: `org.bluez.Error.` and the
    /// variant name.
    pub fn dbus_error_name(&self) -> (r: String)
        ensures
            *self == ReqError::Rejected ==> r@ == "org.bluez.Error.Rejected"@,
            *self == ReqError::Canceled ==> r@ == "org.bluez.Error.Canceled"@,
    {
        match self {
            ReqError::Rejected => owned("org.bluez.Error.Rejected"),
            ReqError::Canceled => owned("org.bluez.Error.Canceled"),
        }
    }
}

/// Local profile role.
#[derive(Clone, Copy, Debug, PartialEq, Eq, Structural)]
pub enum Role {
    /// Client.
    Client,
    /// Server.
    Server,
}

/// Text of a role.
pub open spec fn role_text(r: Role) -> Seq<char> {
    match r {
        Role::Client => "client"@,
        Role::Server => "server"@,
    }
}

impl Role {
    /// The text of the role (its `Display` form).
    pub fn to_string(&self) -> (r: String)
        ensures
            r@ == role_text(*self),
    {
        match self {
            Role::Client => owned("client"),
            Role::Server => owned("server"),
        }
    }

    /// The role with the given text (its `FromStr` form).
    pub fn from_str(s: &str) -> (r: Option<Role>)
        ensures
            r matches Some(x) ==> role_text(x) == s@,
            r is None ==> s@ != "client"@ && s@ != "server"@,
    {
        if str_eq(s, "client") {
            Some(Role::Client)
        } else if str_eq(s, "server") {
            Some(Role::Server)
        } else {
            None
        }
    }
}

/// RFCOMM channel for the profile.
#[derive(Clone, Copy, Debug, PartialEq, Eq, Structural)]
pub enum Channel {
    /// Do not specify a channel: the daemon will not listen on RFCOMM
    /// unless the UUID implies a fixed channel.
    Unspecified,
    /// Automatically allocate a channel (channel 0 is sent to the daemon).
    Auto,
    /// Use a specific channel.
    Specific(u16),
}

impl Channel {
    /// The default channel: none.
    pub fn default() -> (r: Channel)
        ensures
            r == Channel::Unspecified,
    {
        Channel::Unspecified
    }
}

/// The `Channel` option of a channel choice.
pub open spec fn channel_option(c: Channel) -> Option<u16> {
    match c {
        Channel::Unspecified => None,
        Channel::Auto => Some(0),
        Channel::Specific(n) => Some(n),
    }
}

/// Bluetooth RFCOMM profile definition.
#[derive(Clone, Debug)]
pub struct Profile {
    /// Profile UUID, as its 128-bit value.
    pub uuid: u128,
    /// Human readable name for the profile.
    pub name: Option<String>,
    /// The primary service class UUID (if different from the profile UUID).
    pub service: Option<u128>,
    /// The precise local role of an asymmetric profile.
    pub role: Option<Role>,
    /// RFCOMM channel number.
    pub channel: Channel,
    /// PSM number that is used for client and server UUIDs.
    pub psm: Option<u16>,
    /// Pairing is required before connections will be established.
    pub require_authentication: Option<bool>,
    /// Request authorization before any connection will be established.
    pub require_authorization: Option<bool>,
    /// Connect the channels when a remote device is connected.
    pub auto_connect: Option<bool>,
    /// A manual SDP record.
    pub service_record: Option<String>,
    /// Profile version (for the SDP record).
    pub version: Option<u16>,
    /// Profile features (for the SDP record).
    pub features: Option<u16>,
}

/// The entry of an optional value: absent or the value.
pub open spec fn opt_entry<T>(o: Option<T>, f: spec_fn(T) -> PropValue) -> Option<PropValue> {
    match o {
        Some(x) => Some(f(x)),
        None => None,
    }
}

/// The text value of an optional string option is that string.
pub open spec fn str_entry_is(v: Option<PropValue>, o: Option<Seq<char>>) -> bool {
    match o {
        None => v is None,
        Some(s) => v matches Some(PropValue::Str(t)) && t@ == s,
    }
}

/// The optional string as a view.
pub open spec fn opt_str_view(o: Option<String>) -> Option<Seq<char>> {
    match o {
        Some(s) => Some(s@),
        None => None,
    }
}

/// The `Service` option of an optional service UUID: its hyphenated text.
fn uuid_value(o: Option<u128>) -> (r: Option<PropValue>)
    ensures
        o is None ==> r is None,
        o matches Some(u) ==> (r matches Some(PropValue::Str(t)) && t@ == uuid_text(u)),
{
    match o {
        Some(u) => Some(PropValue::Str(uuid_string(u))),
        None => None,
    }
}

/// The `Role` option of an optional role: its text.
fn role_value(o: Option<Role>) -> (r: Option<PropValue>)
    ensures
        o is None ==> r is None,
        o matches Some(x) ==> (r matches Some(PropValue::Str(t)) && t@ == role_text(x)),
{
    match o {
        Some(x) => Some(PropValue::Str(x.to_string())),
        None => None,
    }
}

/// The channel number sent for a channel choice.
fn channel_value(c: Channel) -> (r: Option<u16>)
    ensures
        r == channel_option(c),
{
    match c {
        Channel::Unspecified => None,
        Channel::Auto => Some(0),
        Channel::Specific(n) => Some(n),
    }
}

impl Profile {
    /// The options dictionary of `RegisterProfile`: each option that is
    /// set, the channel as 0 for an automatic one, the UUIDs in their
    /// hyphenated text form.
    pub fn to_dict(&self) -> (r: Dict)
        ensures
            str_entry_is(r.get_spec("Name"@), opt_str_view(self.name)),
            str_entry_is(
                r.get_spec("Service"@),
                match self.service {
                    Some(u) => Some(uuid_text(u)),
                    None => None,
                },
            ),
            str_entry_is(
                r.get_spec("Role"@),
                match self.role {
                    Some(x) => Some(role_text(x)),
                    None => None,
                },
            ),
            r.get_spec("Channel"@) == opt_entry(channel_option(self.channel), |x: u16| PropValue::U16(x)),
            r.get_spec("PSM"@) == opt_entry(self.psm, |x: u16| PropValue::U16(x)),
            r.get_spec("RequireAuthentication"@) == opt_entry(self.require_authentication, |x: bool| PropValue::Bool(x)),
            r.get_spec("RequireAuthorization"@) == opt_entry(self.require_authorization, |x: bool| PropValue::Bool(x)),
            r.get_spec("AutoConnect"@) == opt_entry(self.auto_connect, |x: bool| PropValue::Bool(x)),
            str_entry_is(r.get_spec("ServiceRecord"@), opt_str_view(self.service_record)),
            r.get_spec("Version"@) == opt_entry(self.version, |x: u16| PropValue::U16(x)),
            r.get_spec("Features"@) == opt_entry(self.features, |x: u16| PropValue::U16(x)),
    {
        proof {
            reveal_strlit("Name");
            reveal_strlit("Service");
            reveal_strlit("Role");
            reveal_strlit("Channel");
            reveal_strlit("PSM");
            reveal_strlit("RequireAuthentication");
            reveal_strlit("RequireAuthorization");
            reveal_strlit("AutoConnect");
            reveal_strlit("ServiceRecord");
            reveal_strlit("Version");
            reveal_strlit("Features");
            assert("Name"@.len() == 4 && "Service"@.len() == 7 && "Role"@.len() == 4 && "Channel"@.len() == 7);
            assert("PSM"@.len() == 3 && "RequireAuthentication"@.len() == 21 && "RequireAuthorization"@.len() == 20);
            assert("AutoConnect"@.len() == 11 && "ServiceRecord"@.len() == 13 && "Version"@.len() == 7);
            assert("Features"@.len() == 8);
            assert("Name"@[0] == 'N' && "Role"@[0] == 'R');
            assert("Service"@[0] == 'S' && "Channel"@[0] == 'C' && "Version"@[0] == 'V');
        }
        let mut d = Dict::new();
        assert forall|k: Seq<char>| #[trigger] d.get_spec(k) is None by {}
        d.insert_opt("Name", opt_str_value(&self.name));
        d.insert_opt("Service", uuid_value(self.service));
        d.insert_opt("Role", role_value(self.role));
        d.insert_opt("Channel", opt_u16_value(channel_value(self.channel)));
        d.insert_opt("PSM", opt_u16_value(self.psm));
        d.insert_opt("RequireAuthentication", opt_bool_value(self.require_authentication));
        d.insert_opt("RequireAuthorization", opt_bool_value(self.require_authorization));
        d.insert_opt("AutoConnect", opt_bool_value(self.auto_connect));
        d.insert_opt("ServiceRecord", opt_str_value(&self.service_record));
        d.insert_opt("Version", opt_u16_value(self.version));
        d.insert_opt("Features", opt_u16_value(self.features));
        d
    }
}

/// Properties of a connection request.
#[derive(Clone, Copy, Debug, PartialEq, Eq, Structural)]
pub struct ConnectRequestProps {
    /// Profile version.
    pub version: Option<u16>,
    /// Profile features.
    pub features: Option<u16>,
}

/// A 16-bit entry, if present with that type.
pub open spec fn u16_entry(d: Dict, key: Seq<char>) -> Option<u16> {
    match d.get_spec(key) {
        Some(PropValue::U16(x)) => Some(x),
        _ => None,
    }
}

impl ConnectRequestProps {
    /// Reads the file descriptor properties of a new connection: the
    /// `Version` and `Features` entries when they are 16-bit values.
    pub fn from_dict(d: &Dict) -> (r: ConnectRequestProps)
        ensures
            r.version == u16_entry(*d, "Version"@),
            r.features == u16_entry(*d, "Features"@),
    {
        let version = match d.get("Version") {
            Some(PropValue::U16(x)) => Some(*x),
            _ => None,
        };
        let features = match d.get("Features") {
            Some(PropValue::U16(x)) => Some(*x),
            _ => None,
        };
        ConnectRequestProps { version, features }
    }
}

/// The device that a `NewConnection` or `RequestDisconnection` of the
/// daemon is about; a path that names no device is rejected.
pub fn connection_device(device_path: &str) -> (r: Result<Address, ReqError>)
    ensures
        r is Err <==> device_path_parse(device_path@) is None,
        r matches Err(e) ==> e == ReqError::Rejected,
        r matches Ok(a) ==> (device_path_parse(device_path@) matches Some((n, x)) && x == a@),
{
    match parse_device_dbus_path(device_path) {
        Some((_, device)) => Ok(device),
        None => Err(ReqError::Rejected),
    }
}

/// The reply to `NewConnection` once the application has answered the
/// connection request: its answer, or `Rejected` when it dropped the
/// request without answering.
pub fn connection_reply(answer: Option<Result<(), ReqError>>) -> (r: Result<(), ReqError>)
    ensures
        answer is None ==> r == Err::<(), ReqError>(ReqError::Rejected),
        answer matches Some(a) ==> r == a,
{
    match answer {
        Some(a) => a,
        None => Err(ReqError::Rejected),
    }
}

} // verus!
