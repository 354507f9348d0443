//! Bluetooth stack types and the protocol logic around them: device
//! addresses, error kinds, socket addresses, D-Bus object paths and request
//! options, with their contracts proved by Verus.
use vstd::prelude::*;

mod foreign;
pub mod adapter;
pub mod adv;
pub mod agent;
pub mod device;
pub mod dict;
pub mod gatt;
pub mod keyed;
pub mod l2cap;
pub mod mesh;
pub mod monitor;
pub mod object_path;
pub mod rfcomm;
pub mod session;
pub mod sock;
pub mod sys;
pub mod text;
pub mod time;
pub mod tools;

use crate::foreign::{
    hex_decodable, hex_decode, hex_decoded, io_error_kind_debug, string_push,
};
use vstd::string::StringSliceAdditionalSpecFns;
use vstd::utf8::{encode_utf8, is_char_boundary};
use crate::text::{
    has_prefix, owned, str_eq, strip_prefix,
    all_digits, digit_value, digits_value, free_of, hex2_upper, hex_char_upper, hex_digit_upper,
    join_on, lemma_split_join, parse_unsigned, parse_unsigned_str, split_on, split_str,
    unsigned_digits,
};

verus! {

/// Bluetooth address.
#[derive(Clone, Copy, Debug, Eq, Hash, Default)]
pub struct Address(pub [u8; 6]);

impl PartialEq for Address {
    fn eq(&self, other: &Self) -> (r: bool) {
        let r = self.0[0] == other.0[0] && self.0[1] == other.0[1] && self.0[2] == other.0[2]
            && self.0[3] == other.0[3] && self.0[4] == other.0[4] && self.0[5] == other.0[5];
        proof {
            if r {
                assert(self.0@ =~= other.0@);
            }
        }
        r
    }
}

impl vstd::std_specs::cmp::PartialEqSpecImpl for Address {
    open spec fn obeys_eq_spec() -> bool {
        true
    }

    open spec fn eq_spec(&self, other: &Self) -> bool {
        self.0@ == other.0@
    }
}

impl Address {
    /// Creates a new Bluetooth address with the specified value.
    pub fn new(addr: [u8; 6]) -> (r: Self)
        ensures
            r.0@ == addr@,
    {
        Self(addr)
    }

    /// Any Bluetooth address, `00:00:00:00:00:00`.
    pub fn any() -> (r: Self)
        ensures
            r.0@ == Seq::new(6, |i: int| 0u8),
    {
        Self([0u8; 6])
    }
}


impl View for Address {
    type V = Seq<u8>;

    open spec fn view(&self) -> Seq<u8> {
        self.0@
    }
}

/// The six fields of the text form of an address: each byte as two
/// upper-case hexadecimal digits.
pub open spec fn address_fields(a: Seq<u8>) -> Seq<Seq<char>> {
    Seq::new(6, |i: int| hex2_upper(a[i]))
}

/// Text form of an address, `XX:XX:XX:XX:XX:XX` in upper-case hexadecimal.
pub open spec fn address_text(a: Seq<u8>) -> Seq<char> {
    join_on(address_fields(a), ':')
}

/// The byte that one field of an address text stands for.
pub open spec fn address_field_byte(f: Seq<char>) -> Option<u8> {
    match parse_unsigned(f, 16, 255) {
        Some(v) => Some(v as u8),
        None => None,
    }
}

/// The bytes of the fields, or the first field that is no hexadecimal byte.
pub open spec fn address_field_bytes(fields: Seq<Seq<char>>) -> Result<Seq<u8>, Seq<char>>
    decreases fields.len(),
{
    if fields.len() == 0 {
        Ok(Seq::<u8>::empty())
    } else {
        match address_field_byte(fields[0]) {
            None => Err(fields[0]),
            Some(b) => match address_field_bytes(fields.drop_first()) {
                Ok(rest) => Ok(seq![b] + rest),
                Err(e) => Err(e),
            },
        }
    }
}

/// Parse result of an address text: its bytes, or the text to report as
/// invalid (the first bad field, or the whole text when there are not
/// exactly six fields).
pub open spec fn address_parse(s: Seq<char>) -> Result<Seq<u8>, Seq<char>> {
    match address_field_bytes(split_on(s, ':')) {
        Err(f) => Err(f),
        Ok(bytes) => if bytes.len() == 6 {
            Ok(bytes)
        } else {
            Err(s)
        },
    }
}

/// Prepends bytes to a parse result.
pub open spec fn prepend_bytes(v: Seq<u8>, r: Result<Seq<u8>, Seq<char>>) -> Result<Seq<u8>, Seq<char>> {
    match r {
        Ok(x) => Ok(v + x),
        Err(e) => Err(e),
    }
}

impl Address {
    /// Renders the address as `XX:XX:XX:XX:XX:XX` with upper-case
    /// hexadecimal digits (the `Display` form).
    pub fn to_string(&self) -> (r: String)
        ensures
            r@ == address_text(self@),
    {
        let mut s = String::new();
        let mut i: usize = 0;
        while i < 6
            invariant
                i <= 6,
                i == 0 ==> s@ == Seq::<char>::empty(),
                i > 0 ==> s@ == join_on(Seq::new(i as nat, |j: int| hex2_upper(self.0@[j])), ':'),
            decreases 6 - i,
        {
            let ghost prev = s@;
            if i > 0 {
                string_push(&mut s, ':');
            }
            let b = self.0[i];
            string_push(&mut s, hex_digit_upper(b / 16));
            string_push(&mut s, hex_digit_upper(b % 16));
            proof {
                let f = Seq::new((i + 1) as nat, |j: int| hex2_upper(self.0@[j]));
                assert(f.last() == hex2_upper(b));
                if i == 0 {
                    assert(s@ =~= hex2_upper(b));
                    assert(join_on(f, ':') == f[0]);
                } else {
                    assert(f.drop_last() =~= Seq::new(i as nat, |j: int| hex2_upper(self.0@[j])));
                    assert(s@ =~= prev.push(':') + hex2_upper(b));
                }
            }
            i = i + 1;
        }
        assert(Seq::new(6, |j: int| hex2_upper(self.0@[j])) =~= address_fields(self@));
        s
    }

    /// Parses `XX:XX:XX:XX:XX:XX` (the `FromStr` form): each field as
    /// `u8::from_str_radix(field, 16)`, exactly six fields.
    pub fn from_str(s: &str) -> (r: Result<Address, InvalidAddress>)
        ensures
            r matches Ok(a) ==> address_parse(s@) == Ok::<Seq<u8>, Seq<char>>(a@),
            r matches Err(e) ==> address_parse(s@) == Err::<Seq<u8>, Seq<char>>(e.0@),
    {
        let fields = split_str(s, ':');
        let ghost fs = fields@.map_values(|f: String| f@);
        let mut bytes: Vec<u8> = Vec::new();
        let mut i: usize = 0;
        assert(fs.skip(0) =~= fs);
        assert(Seq::<u8>::empty() + Seq::<u8>::empty() =~= Seq::<u8>::empty());
        assert(prepend_bytes(Seq::<u8>::empty(), address_field_bytes(fs)) == address_field_bytes(fs)) by {
            match address_field_bytes(fs) {
                Ok(x) => { assert(Seq::<u8>::empty() + x =~= x); },
                Err(e) => {},
            }
        }
        while i < fields.len()
            invariant
                i <= fields@.len(),
                fs == fields@.map_values(|f: String| f@),
                fs == split_on(s@, ':'),
                address_field_bytes(fs) == prepend_bytes(bytes@, address_field_bytes(fs.skip(i as int))),
            decreases fields@.len() - i,
        {
            let ghost rest = fs.skip(i as int);
            assert(rest[0] == fields@[i as int]@);
            assert(rest.drop_first() =~= fs.skip(i + 1));
            match parse_unsigned_str(fields[i].as_str(), 16, 255) {
                None => {
                    assert(address_field_bytes(rest) == Err::<Seq<u8>, Seq<char>>(rest[0]));
                    let f = fields[i].clone();
                    return Err(InvalidAddress(f));
                },
                Some(v) => {
                    let b = v as u8;
                    let ghost old_bytes = bytes@;
                    bytes.push(b);
                    proof {
                        match address_field_bytes(fs.skip(i + 1)) {
                            Ok(x) => {
                                assert(old_bytes + (seq![b] + x) =~= bytes@ + x);
                            },
                            Err(e) => {},
                        }
                    }
                },
            }
            i = i + 1;
        }
        assert(fs.skip(i as int) =~= Seq::<Seq<char>>::empty());
        assert(bytes@ + Seq::<u8>::empty() =~= bytes@);
        if bytes.len() != 6 {
            let whole = s.to_owned();
            return Err(InvalidAddress(whole));
        }
        let a = Address([bytes[0], bytes[1], bytes[2], bytes[3], bytes[4], bytes[5]]);
        assert(a@ =~= bytes@);
        Ok(a)
    }
}

/// Invalid Bluetooth address error, holding the offending text.
#[derive(Clone, Debug)]
pub struct InvalidAddress(pub String);

impl InvalidAddress {
    /// The error message (the `Display` form).
    pub fn to_string(&self) -> (r: String)
        ensures
            r@ == "invalid Bluetooth address: "@ + self.0@,
    {
        let mut r = String::from_str("invalid Bluetooth address: ");
        r.append(self.0.as_str());
        r
    }
}

/// Parsing the text form of an address gives the address back.
pub proof fn lemma_address_text_roundtrip(a: Seq<u8>)
    requires
        a.len() == 6,
    ensures
        address_parse(address_text(a)) == Ok::<Seq<u8>, Seq<char>>(a),
{
    let fields = address_fields(a);
    assert forall|i: int| 0 <= i < fields.len() implies free_of(#[trigger] fields[i], ':') by {
        lemma_hex2_upper_value(a[i]);
    }
    lemma_split_join(fields, ':');
    assert forall|k: int| 0 <= k <= 6 implies address_field_bytes(#[trigger] fields.skip(k))
        == Ok::<Seq<u8>, Seq<char>>(a.skip(k)) by {
        lemma_field_bytes_suffix(a, k);
    }
    assert(fields.skip(0) =~= fields);
    assert(a.skip(0) =~= a);
}

proof fn lemma_field_bytes_suffix(a: Seq<u8>, k: int)
    requires
        a.len() == 6,
        0 <= k <= 6,
    ensures
        address_field_bytes(address_fields(a).skip(k)) == Ok::<Seq<u8>, Seq<char>>(a.skip(k)),
    decreases 6 - k,
{
    let fields = address_fields(a);
    if k == 6 {
        assert(fields.skip(k) =~= Seq::<Seq<char>>::empty());
        assert(a.skip(k) =~= Seq::<u8>::empty());
    } else {
        lemma_field_bytes_suffix(a, k + 1);
        lemma_hex2_upper_value(a[k]);
        assert(fields.skip(k)[0] == hex2_upper(a[k]));
        assert(fields.skip(k).drop_first() =~= fields.skip(k + 1));
        assert(seq![a[k]] + a.skip(k + 1) =~= a.skip(k));
    }
}

/// The text form of an address holds only hexadecimal digits and `:`.
pub proof fn lemma_address_text_chars(a: Seq<u8>, c: char)
    requires
        a.len() == 6,
        c != ':',
        digit_value(c, 16) is None,
    ensures
        free_of(address_text(a), c),
{
    let fields = address_fields(a);
    assert forall|i: int| 0 <= i < fields.len() implies free_of(#[trigger] fields[i], c) by {
        let hi = a[i] as nat / 16;
        let lo = a[i] as nat % 16;
        assert(digit_value(hex_char_upper(hi), 16) == Some(hi));
        assert(digit_value(hex_char_upper(lo), 16) == Some(lo));
        assert(fields[i] == hex2_upper(a[i]));
    }
    crate::text::lemma_join_free_of(fields, ':', c);
}

/// The two hexadecimal digits of a byte parse back to the byte, and hold no
/// `:`.
pub proof fn lemma_hex2_upper_value(b: u8)
    ensures
        address_field_byte(hex2_upper(b)) == Some(b),
        free_of(hex2_upper(b), ':'),
{
    let s = hex2_upper(b);
    let hi = b as nat / 16;
    let lo = b as nat % 16;
    assert(digit_value(hex_char_upper(hi), 16) == Some(hi));
    assert(digit_value(hex_char_upper(lo), 16) == Some(lo));
    assert(unsigned_digits(s) == s);
    assert(s.drop_last() =~= seq![hex_char_upper(hi)]);
    assert(seq![hex_char_upper(hi)].drop_last() =~= Seq::<char>::empty());
    assert(seq![hex_char_upper(hi)].last() == hex_char_upper(hi));
    assert(digits_value(Seq::<char>::empty(), 16) == 0);
    assert(digits_value(seq![hex_char_upper(hi)], 16) == 0 * 16 + hi);
    assert(digits_value(seq![hex_char_upper(hi)], 16) == hi);
    assert(digits_value(s, 16) == hi * 16 + lo);
    assert(all_digits(s, 16));
}


/// Internal Bluetooth error kind.
///
/// This is most likely caused by incompatibilities between this library
/// and the version of the Bluetooth daemon.
#[derive(Clone, Debug, PartialEq, Eq)]
pub enum InternalErrorKind {
    /// invalid UUID: {0}
    InvalidUuid(String),
    /// invalid value
    InvalidValue,
    /// invalid modalias: {0}
    InvalidModalias(String),
    /// key {0} is missing
    MissingKey(String),
    /// join error
    JoinError,
    /// IO error {0:?}
    Io(std::io::ErrorKind),
    /// D-Bus error {0}
    DBus(String),
    /// lost connection to D-Bus
    DBusConnectionLost,
}

/// Bluetooth error kind.
#[derive(Clone, Debug, PartialEq, Eq)]
pub enum ErrorKind {
    /// Bluetooth device already connected
    AlreadyConnected,
    /// Bluetooth device already exists
    AlreadyExists,
    /// Bluetooth authentication canceled
    AuthenticationCanceled,
    /// Bluetooth authentication failed
    AuthenticationFailed,
    /// Bluetooth authentication rejected
    AuthenticationRejected,
    /// Bluetooth authentication timeout
    AuthenticationTimeout,
    /// Bluetooth connection attempt failed
    ConnectionAttemptFailed,
    /// Bluetooth device does not exist
    DoesNotExist,
    /// Bluetooth operation failed
    Failed,
    /// Bluetooth operation in progress
    InProgress,
    /// Invalid arguments for Bluetooth operation
    InvalidArguments,
    /// the data provided is of invalid length
    InvalidLength,
    /// Bluetooth operation not available
    NotAvailable,
    /// Bluetooth operation not authorized
    NotAuthorized,
    /// Bluetooth device not ready
    NotReady,
    /// Bluetooth operation not supported
    NotSupported,
    /// Bluetooth operation not permitted
    NotPermitted,
    /// invalid offset for Bluetooth GATT property
    InvalidOffset,
    /// invalid Bluetooth address: {0}
    InvalidAddress(String),
    /// invalid Bluetooth adapter name: {0}
    InvalidName(String),
    /// GATT services have not been resolved for that Bluetooth device
    ServicesUnresolved,
    /// Bluetooth application is not registered
    NotRegistered,
    /// the receiving Bluetooth device has stopped the notification session
    NotificationSessionStopped,
    /// the indication was not confirmed by the receiving device
    IndicationUnconfirmed,
    /// the target object was either not present or removed
    NotFound,
    /// internal error: {0}
    Internal(InternalErrorKind),
}

/// Bluetooth error.
#[derive(Clone, Debug, PartialEq, Eq)]
pub struct Error {
    /// Error kind.
    pub kind: ErrorKind,
    /// Detailed error message provided by BlueZ.
    pub message: String,
}

/// Prefix of the D-Bus error names of BlueZ.
pub open spec fn bluez_error_prefix() -> Seq<char> {
    "org.bluez.Error."@
}

/// The error kind that a BlueZ error name (after its prefix) stands for:
/// the variant of that exact name, for the kinds that BlueZ reports.
pub open spec fn error_kind_from_name(s: Seq<char>) -> Option<ErrorKind> {
    if false {
        None
    } else if s == "AlreadyConnected"@ {
        Some(ErrorKind::AlreadyConnected)
    } else if s == "AlreadyExists"@ {
        Some(ErrorKind::AlreadyExists)
    } else if s == "AuthenticationCanceled"@ {
        Some(ErrorKind::AuthenticationCanceled)
    } else if s == "AuthenticationFailed"@ {
        Some(ErrorKind::AuthenticationFailed)
    } else if s == "AuthenticationRejected"@ {
        Some(ErrorKind::AuthenticationRejected)
    } else if s == "AuthenticationTimeout"@ {
        Some(ErrorKind::AuthenticationTimeout)
    } else if s == "ConnectionAttemptFailed"@ {
        Some(ErrorKind::ConnectionAttemptFailed)
    } else if s == "DoesNotExist"@ {
        Some(ErrorKind::DoesNotExist)
    } else if s == "Failed"@ {
        Some(ErrorKind::Failed)
    } else if s == "InProgress"@ {
        Some(ErrorKind::InProgress)
    } else if s == "InvalidArguments"@ {
        Some(ErrorKind::InvalidArguments)
    } else if s == "InvalidLength"@ {
        Some(ErrorKind::InvalidLength)
    } else if s == "NotAvailable"@ {
        Some(ErrorKind::NotAvailable)
    } else if s == "NotAuthorized"@ {
        Some(ErrorKind::NotAuthorized)
    } else if s == "NotReady"@ {
        Some(ErrorKind::NotReady)
    } else if s == "NotSupported"@ {
        Some(ErrorKind::NotSupported)
    } else if s == "NotPermitted"@ {
        Some(ErrorKind::NotPermitted)
    } else if s == "InvalidOffset"@ {
        Some(ErrorKind::InvalidOffset)
    } else {
        None
    }
}

/// Message text of an internal error kind.  The text of an IO error kind
/// depends on the `Debug` rendering of `std::io::ErrorKind` and is not
/// described here.
pub open spec fn internal_error_kind_text(k: InternalErrorKind) -> Seq<char> {
    match k {
        InternalErrorKind::InvalidUuid(s) => "invalid UUID: "@ + s@,
        InternalErrorKind::InvalidValue => "invalid value"@,
        InternalErrorKind::InvalidModalias(s) => "invalid modalias: "@ + s@,
        InternalErrorKind::MissingKey(s) => "key "@ + s@ + " is missing"@,
        InternalErrorKind::JoinError => "join error"@,
        InternalErrorKind::Io(_) => "IO error "@,
        InternalErrorKind::DBus(s) => "D-Bus error "@ + s@,
        InternalErrorKind::DBusConnectionLost => "lost connection to D-Bus"@,
    }
}

/// Whether the text of the kind is fully described by the spec functions
/// here (all kinds but IO errors).
pub open spec fn error_kind_text_known(k: ErrorKind) -> bool {
    !(k matches ErrorKind::Internal(InternalErrorKind::Io(_)))
}

/// Message text of an error kind (its `Display` form).
pub open spec fn error_kind_text(k: ErrorKind) -> Seq<char> {
    match k {
        ErrorKind::AlreadyConnected => "Bluetooth device already connected"@,
        ErrorKind::AlreadyExists => "Bluetooth device already exists"@,
        ErrorKind::AuthenticationCanceled => "Bluetooth authentication canceled"@,
        ErrorKind::AuthenticationFailed => "Bluetooth authentication failed"@,
        ErrorKind::AuthenticationRejected => "Bluetooth authentication rejected"@,
        ErrorKind::AuthenticationTimeout => "Bluetooth authentication timeout"@,
        ErrorKind::ConnectionAttemptFailed => "Bluetooth connection attempt failed"@,
        ErrorKind::DoesNotExist => "Bluetooth device does not exist"@,
        ErrorKind::Failed => "Bluetooth operation failed"@,
        ErrorKind::InProgress => "Bluetooth operation in progress"@,
        ErrorKind::InvalidArguments => "Invalid arguments for Bluetooth operation"@,
        ErrorKind::InvalidLength => "the data provided is of invalid length"@,
        ErrorKind::NotAvailable => "Bluetooth operation not available"@,
        ErrorKind::NotAuthorized => "Bluetooth operation not authorized"@,
        ErrorKind::NotReady => "Bluetooth device not ready"@,
        ErrorKind::NotSupported => "Bluetooth operation not supported"@,
        ErrorKind::NotPermitted => "Bluetooth operation not permitted"@,
        ErrorKind::InvalidOffset => "invalid offset for Bluetooth GATT property"@,
        ErrorKind::ServicesUnresolved => "GATT services have not been resolved for that Bluetooth device"@,
        ErrorKind::NotRegistered => "Bluetooth application is not registered"@,
        ErrorKind::NotificationSessionStopped => "the receiving Bluetooth device has stopped the notification session"@,
        ErrorKind::IndicationUnconfirmed => "the indication was not confirmed by the receiving device"@,
        ErrorKind::NotFound => "the target object was either not present or removed"@,
        ErrorKind::InvalidAddress(s) => "invalid Bluetooth address: "@ + s@,
        ErrorKind::InvalidName(s) => "invalid Bluetooth adapter name: "@ + s@,
        ErrorKind::Internal(i) => "internal error: "@ + internal_error_kind_text(i),
    }
}

/// Message text of an error (its `Display` form).
pub open spec fn error_text(e: Error) -> Seq<char> {
    if e.message@.len() == 0 {
        error_kind_text(e.kind)
    } else {
        error_kind_text(e.kind) + ": "@ + e.message@
    }
}

/// The error kind that a BlueZ D-Bus error name stands for, if any.
pub open spec fn dbus_name_kind(name: Option<Seq<char>>) -> Option<ErrorKind> {
    match name {
        Some(n) => if has_prefix(n, bluez_error_prefix()) {
            error_kind_from_name(n.skip(bluez_error_prefix().len() as int))
        } else {
            None
        },
        None => None,
    }
}

/// `o`, or the empty text when `o` is `None` (`unwrap_or_default`).
pub open spec fn text_or_empty(o: Option<Seq<char>>) -> Seq<char> {
    match o {
        Some(t) => t,
        None => Seq::<char>::empty(),
    }
}

/// `r` is the error that a D-Bus error reply with the given name and
/// message becomes: `NotFound` with no message for an unknown object; else
/// the message, with the kind that a BlueZ error name names, or an internal
/// D-Bus error carrying the name.
pub open spec fn is_error_from_dbus(r: Error, name: Option<Seq<char>>, message: Option<Seq<char>>) -> bool {
    if name == Some("org.freedesktop.DBus.Error.UnknownObject"@) {
        r.kind == ErrorKind::NotFound && r.message@ == Seq::<char>::empty()
    } else {
        &&& r.message@ == text_or_empty(message)
        &&& match dbus_name_kind(name) {
            Some(k) => r.kind == k,
            None => r.kind matches ErrorKind::Internal(InternalErrorKind::DBus(s)) && s@
                == text_or_empty(name),
        }
    }
}

/// View of an optional string slice.
pub open spec fn opt_view(o: Option<&str>) -> Option<Seq<char>> {
    match o {
        Some(s) => Some(s@),
        None => None,
    }
}

/// The name under which BlueZ reports an error of the kind, for the kinds
/// that BlueZ reports (`org.bluez.Error.` followed by this name).
pub open spec fn bluez_error_name(k: ErrorKind) -> Option<Seq<char>> {
    match k {
        ErrorKind::AlreadyConnected => Some("AlreadyConnected"@),
        ErrorKind::AlreadyExists => Some("AlreadyExists"@),
        ErrorKind::AuthenticationCanceled => Some("AuthenticationCanceled"@),
        ErrorKind::AuthenticationFailed => Some("AuthenticationFailed"@),
        ErrorKind::AuthenticationRejected => Some("AuthenticationRejected"@),
        ErrorKind::AuthenticationTimeout => Some("AuthenticationTimeout"@),
        ErrorKind::ConnectionAttemptFailed => Some("ConnectionAttemptFailed"@),
        ErrorKind::DoesNotExist => Some("DoesNotExist"@),
        ErrorKind::Failed => Some("Failed"@),
        ErrorKind::InProgress => Some("InProgress"@),
        ErrorKind::InvalidArguments => Some("InvalidArguments"@),
        ErrorKind::InvalidLength => Some("InvalidLength"@),
        ErrorKind::NotAvailable => Some("NotAvailable"@),
        ErrorKind::NotAuthorized => Some("NotAuthorized"@),
        ErrorKind::NotReady => Some("NotReady"@),
        ErrorKind::NotSupported => Some("NotSupported"@),
        ErrorKind::NotPermitted => Some("NotPermitted"@),
        ErrorKind::InvalidOffset => Some("InvalidOffset"@),
        _ => None,
    }
}

/// Parsing the name of every kind that BlueZ reports gives that kind, and
/// a name parses only to the kind that it names.
pub proof fn lemma_error_kind_names(k: ErrorKind, s: Seq<char>)
    ensures
        bluez_error_name(k) matches Some(n) ==> error_kind_from_name(n) == Some(k),
        error_kind_from_name(s) == Some(k) ==> bluez_error_name(k) == Some(s),
{
    reveal_strlit("AlreadyConnected");
    reveal_strlit("AlreadyExists");
    reveal_strlit("AuthenticationCanceled");
    reveal_strlit("AuthenticationFailed");
    reveal_strlit("AuthenticationRejected");
    reveal_strlit("AuthenticationTimeout");
    reveal_strlit("ConnectionAttemptFailed");
    reveal_strlit("DoesNotExist");
    reveal_strlit("Failed");
    reveal_strlit("InProgress");
    reveal_strlit("InvalidArguments");
    reveal_strlit("InvalidLength");
    reveal_strlit("NotAvailable");
    reveal_strlit("NotAuthorized");
    reveal_strlit("NotReady");
    reveal_strlit("NotSupported");
    reveal_strlit("NotPermitted");
    reveal_strlit("InvalidOffset");
    assert("AlreadyConnected"@.len() == 16 && "AlreadyConnected"@[0] == 'A' && "AlreadyConnected"@[3] == 'e' && "AlreadyConnected"@[7] == 'C' && "AlreadyConnected"@[14] == 'e');
    assert("AlreadyExists"@.len() == 13 && "AlreadyExists"@[0] == 'A' && "AlreadyExists"@[3] == 'e' && "AlreadyExists"@[7] == 'E');
    assert("AuthenticationCanceled"@.len() == 22 && "AuthenticationCanceled"@[0] == 'A' && "AuthenticationCanceled"@[3] == 'h' && "AuthenticationCanceled"@[7] == 'i' && "AuthenticationCanceled"@[14] == 'C');
    assert("AuthenticationFailed"@.len() == 20 && "AuthenticationFailed"@[0] == 'A' && "AuthenticationFailed"@[3] == 'h' && "AuthenticationFailed"@[7] == 'i' && "AuthenticationFailed"@[14] == 'F');
    assert("AuthenticationRejected"@.len() == 22 && "AuthenticationRejected"@[0] == 'A' && "AuthenticationRejected"@[3] == 'h' && "AuthenticationRejected"@[7] == 'i' && "AuthenticationRejected"@[14] == 'R');
    assert("AuthenticationTimeout"@.len() == 21 && "AuthenticationTimeout"@[0] == 'A' && "AuthenticationTimeout"@[3] == 'h' && "AuthenticationTimeout"@[7] == 'i' && "AuthenticationTimeout"@[14] == 'T');
    assert("ConnectionAttemptFailed"@.len() == 23 && "ConnectionAttemptFailed"@[0] == 'C' && "ConnectionAttemptFailed"@[3] == 'n' && "ConnectionAttemptFailed"@[7] == 'i' && "ConnectionAttemptFailed"@[14] == 'm');
    assert("DoesNotExist"@.len() == 12 && "DoesNotExist"@[0] == 'D' && "DoesNotExist"@[3] == 's' && "DoesNotExist"@[7] == 'E');
    assert("Failed"@.len() == 6 && "Failed"@[0] == 'F' && "Failed"@[3] == 'l');
    assert("InProgress"@.len() == 10 && "InProgress"@[0] == 'I' && "InProgress"@[3] == 'r' && "InProgress"@[7] == 'e');
    assert("InvalidArguments"@.len() == 16 && "InvalidArguments"@[0] == 'I' && "InvalidArguments"@[3] == 'a' && "InvalidArguments"@[7] == 'A' && "InvalidArguments"@[14] == 't');
    assert("InvalidLength"@.len() == 13 && "InvalidLength"@[0] == 'I' && "InvalidLength"@[3] == 'a' && "InvalidLength"@[7] == 'L');
    assert("NotAvailable"@.len() == 12 && "NotAvailable"@[0] == 'N' && "NotAvailable"@[3] == 'A' && "NotAvailable"@[7] == 'l');
    assert("NotAuthorized"@.len() == 13 && "NotAuthorized"@[0] == 'N' && "NotAuthorized"@[3] == 'A' && "NotAuthorized"@[7] == 'o');
    assert("NotReady"@.len() == 8 && "NotReady"@[0] == 'N' && "NotReady"@[3] == 'R' && "NotReady"@[7] == 'y');
    assert("NotSupported"@.len() == 12 && "NotSupported"@[0] == 'N' && "NotSupported"@[3] == 'S' && "NotSupported"@[7] == 'o');
    assert("NotPermitted"@.len() == 12 && "NotPermitted"@[0] == 'N' && "NotPermitted"@[3] == 'P' && "NotPermitted"@[7] == 'i');
    assert("InvalidOffset"@.len() == 13 && "InvalidOffset"@[0] == 'I' && "InvalidOffset"@[3] == 'a' && "InvalidOffset"@[7] == 'O');
}

impl ErrorKind {
    /// Parses the kind from its variant name (as BlueZ names its errors).
    pub fn from_name(s: &str) -> (r: Option<ErrorKind>)
        ensures
            r == error_kind_from_name(s@),
    {
        if false {
            None
        } else if str_eq(s, "AlreadyConnected") {
            Some(ErrorKind::AlreadyConnected)
        } else if str_eq(s, "AlreadyExists") {
            Some(ErrorKind::AlreadyExists)
        } else if str_eq(s, "AuthenticationCanceled") {
            Some(ErrorKind::AuthenticationCanceled)
        } else if str_eq(s, "AuthenticationFailed") {
            Some(ErrorKind::AuthenticationFailed)
        } else if str_eq(s, "AuthenticationRejected") {
            Some(ErrorKind::AuthenticationRejected)
        } else if str_eq(s, "AuthenticationTimeout") {
            Some(ErrorKind::AuthenticationTimeout)
        } else if str_eq(s, "ConnectionAttemptFailed") {
            Some(ErrorKind::ConnectionAttemptFailed)
        } else if str_eq(s, "DoesNotExist") {
            Some(ErrorKind::DoesNotExist)
        } else if str_eq(s, "Failed") {
            Some(ErrorKind::Failed)
        } else if str_eq(s, "InProgress") {
            Some(ErrorKind::InProgress)
        } else if str_eq(s, "InvalidArguments") {
            Some(ErrorKind::InvalidArguments)
        } else if str_eq(s, "InvalidLength") {
            Some(ErrorKind::InvalidLength)
        } else if str_eq(s, "NotAvailable") {
            Some(ErrorKind::NotAvailable)
        } else if str_eq(s, "NotAuthorized") {
            Some(ErrorKind::NotAuthorized)
        } else if str_eq(s, "NotReady") {
            Some(ErrorKind::NotReady)
        } else if str_eq(s, "NotSupported") {
            Some(ErrorKind::NotSupported)
        } else if str_eq(s, "NotPermitted") {
            Some(ErrorKind::NotPermitted)
        } else if str_eq(s, "InvalidOffset") {
            Some(ErrorKind::InvalidOffset)
        } else {
            None
        }
    }

    /// Message text of the kind (its `Display` form).
    pub fn to_string(&self) -> (r: String)
        ensures
            error_kind_text_known(*self) ==> r@ == error_kind_text(*self),
    {
        match self {
            ErrorKind::AlreadyConnected => owned("Bluetooth device already connected"),
            ErrorKind::AlreadyExists => owned("Bluetooth device already exists"),
            ErrorKind::AuthenticationCanceled => owned("Bluetooth authentication canceled"),
            ErrorKind::AuthenticationFailed => owned("Bluetooth authentication failed"),
            ErrorKind::AuthenticationRejected => owned("Bluetooth authentication rejected"),
            ErrorKind::AuthenticationTimeout => owned("Bluetooth authentication timeout"),
            ErrorKind::ConnectionAttemptFailed => owned("Bluetooth connection attempt failed"),
            ErrorKind::DoesNotExist => owned("Bluetooth device does not exist"),
            ErrorKind::Failed => owned("Bluetooth operation failed"),
            ErrorKind::InProgress => owned("Bluetooth operation in progress"),
            ErrorKind::InvalidArguments => owned("Invalid arguments for Bluetooth operation"),
            ErrorKind::InvalidLength => owned("the data provided is of invalid length"),
            ErrorKind::NotAvailable => owned("Bluetooth operation not available"),
            ErrorKind::NotAuthorized => owned("Bluetooth operation not authorized"),
            ErrorKind::NotReady => owned("Bluetooth device not ready"),
            ErrorKind::NotSupported => owned("Bluetooth operation not supported"),
            ErrorKind::NotPermitted => owned("Bluetooth operation not permitted"),
            ErrorKind::InvalidOffset => owned("invalid offset for Bluetooth GATT property"),
            ErrorKind::ServicesUnresolved => owned("GATT services have not been resolved for that Bluetooth device"),
            ErrorKind::NotRegistered => owned("Bluetooth application is not registered"),
            ErrorKind::NotificationSessionStopped => owned("the receiving Bluetooth device has stopped the notification session"),
            ErrorKind::IndicationUnconfirmed => owned("the indication was not confirmed by the receiving device"),
            ErrorKind::NotFound => owned("the target object was either not present or removed"),
            ErrorKind::InvalidAddress(s) => {
                let mut r = owned("invalid Bluetooth address: ");
                r.append(s.as_str());
                r
            },
            ErrorKind::InvalidName(s) => {
                let mut r = owned("invalid Bluetooth adapter name: ");
                r.append(s.as_str());
                r
            },
            ErrorKind::Internal(i) => {
                let mut r = owned("internal error: ");
                let t = i.to_string();
                r.append(t.as_str());
                r
            },
        }
    }
}

impl InternalErrorKind {
    /// Message text of the kind (its `Display` form).
    pub fn to_string(&self) -> (r: String)
        ensures
            !(*self is Io) ==> r@ == internal_error_kind_text(*self),
    {
        match self {
            InternalErrorKind::InvalidUuid(s) => {
                let mut r = owned("invalid UUID: ");
                r.append(s.as_str());
                r
            },
            InternalErrorKind::InvalidValue => owned("invalid value"),
            InternalErrorKind::InvalidModalias(s) => {
                let mut r = owned("invalid modalias: ");
                r.append(s.as_str());
                r
            },
            InternalErrorKind::MissingKey(s) => {
                let mut r = owned("key ");
                r.append(s.as_str());
                r.append(" is missing");
                r
            },
            InternalErrorKind::JoinError => owned("join error"),
            InternalErrorKind::Io(k) => {
                let mut r = owned("IO error ");
                let t = io_error_kind_debug(k);
                r.append(t.as_str());
                r
            },
            InternalErrorKind::DBus(s) => {
                let mut r = owned("D-Bus error ");
                r.append(s.as_str());
                r
            },
            InternalErrorKind::DBusConnectionLost => owned("lost connection to D-Bus"),
        }
    }
}

impl Error {
    /// An error of the given kind with an empty message.
    pub fn new(kind: ErrorKind) -> (r: Self)
        ensures
            r.kind == kind,
            r.message@ == Seq::<char>::empty(),
    {
        Self { kind, message: String::new() }
    }

    /// Message text of the error (its `Display` form): the kind's text,
    /// followed by `: ` and the message when there is one.
    pub fn to_string(&self) -> (r: String)
        ensures
            error_kind_text_known(self.kind) ==> r@ == error_text(*self),
    {
        let mut r = self.kind.to_string();
        if self.message.as_str().unicode_len() != 0 {
            r.append(": ");
            r.append(self.message.as_str());
        }
        r
    }

    /// The error that a D-Bus error reply with the given error name and
    /// message stands for: `NotFound` for an unknown object, the kind that
    /// a BlueZ error name names, or else an internal D-Bus error carrying
    /// the name.
    pub fn from_dbus(name: Option<&str>, message: Option<&str>) -> (r: Self)
        ensures
            is_error_from_dbus(r, opt_view(name), opt_view(message)),
    {
        if let Some(n) = name {
            if str_eq(n, "org.freedesktop.DBus.Error.UnknownObject") {
                return Self::new(ErrorKind::NotFound);
            }
        }
        let kind = match name {
            Some(n) => match strip_prefix(n, "org.bluez.Error.") {
                Some(rest) => ErrorKind::from_name(rest),
                None => None,
            },
            None => None,
        };
        let msg = match message {
            Some(m) => owned(m),
            None => String::new(),
        };
        match kind {
            Some(k) => Self { kind: k, message: msg },
            None => {
                let n = match name {
                    Some(n) => owned(n),
                    None => String::new(),
                };
                Self { kind: ErrorKind::Internal(InternalErrorKind::DBus(n)), message: msg }
            },
        }
    }
}

impl Error {
    /// The error for an invalid address text (`From<InvalidAddress>`).
    pub fn from_invalid_address(err: InvalidAddress) -> (r: Self)
        ensures
            r.kind matches ErrorKind::InvalidAddress(s) && s@ == err.0@,
            r.message@ == Seq::<char>::empty(),
    {
        Self::new(ErrorKind::InvalidAddress(err.0))
    }
}


/// Bluetooth device address type.
///
/// The classic transport (BR/EDR) is needed by L2CAP sockets; the two LE
/// address types are the ones BlueZ reports for LE devices.
#[derive(Clone, Copy, Debug, PartialEq, Eq, Hash, Structural)]
pub enum AddressType {
    /// Classic Bluetooth (BR/EDR).
    BrEdr,
    /// Public address.
    Public,
    /// Random address.
    Random,
}

/// Text form of an address type (its `Display` form).
pub open spec fn address_type_text(t: AddressType) -> Seq<char> {
    match t {
        AddressType::BrEdr => "br/edr"@,
        AddressType::Public => "public"@,
        AddressType::Random => "random"@,
    }
}

/// Numeric value of an address type in the system socket interface.
pub open spec fn address_type_value(t: AddressType) -> u8 {
    match t {
        AddressType::BrEdr => 0,
        AddressType::Public => 1,
        AddressType::Random => 2,
    }
}

impl AddressType {
    /// The text form (`Display`).
    pub fn to_string(&self) -> (r: String)
        ensures
            r@ == address_type_text(*self),
    {
        match self {
            AddressType::BrEdr => owned("br/edr"),
            AddressType::Public => owned("public"),
            AddressType::Random => owned("random"),
        }
    }

    /// Parses the text form (`FromStr`).
    pub fn from_str(s: &str) -> (r: Option<AddressType>)
        ensures
            r matches Some(t) ==> address_type_text(t) == s@,
            r is None ==> forall|t: AddressType| address_type_text(t) != s@,
    {
        if str_eq(s, "br/edr") {
            Some(AddressType::BrEdr)
        } else if str_eq(s, "public") {
            Some(AddressType::Public)
        } else if str_eq(s, "random") {
            Some(AddressType::Random)
        } else {
            proof {
                assert forall|t: AddressType| address_type_text(t) != s@ by {
                    match t {
                        AddressType::BrEdr => {},
                        AddressType::Public => {},
                        AddressType::Random => {},
                    }
                }
            }
            None
        }
    }

    /// Numeric value (`as u8`).
    pub fn as_u8(self) -> (r: u8)
        ensures
            r == address_type_value(self),
    {
        match self {
            AddressType::BrEdr => 0,
            AddressType::Public => 1,
            AddressType::Random => 2,
        }
    }

    /// The address type with the given numeric value (`FromPrimitive`).
    pub fn from_u8(v: u8) -> (r: Option<AddressType>)
        ensures
            r matches Some(t) ==> address_type_value(t) == v,
            r is None ==> v > 2,
    {
        if v == 0 {
            Some(AddressType::BrEdr)
        } else if v == 1 {
            Some(AddressType::Public)
        } else if v == 2 {
            Some(AddressType::Random)
        } else {
            None
        }
    }

    /// The default address type: public.
    pub fn default() -> (r: AddressType)
        ensures
            r == AddressType::Public,
    {
        AddressType::Public
    }
}

/// Reading the numeric value of an address type gives the type back.
pub proof fn lemma_address_type_value_roundtrip(t: AddressType)
    ensures
        address_type_value(t) <= 2,
        forall|u: AddressType| #[trigger] address_type_value(u) == address_type_value(t) ==> u == t,
{
}

/// Linux kernel modalias information.
#[derive(Clone, Debug, PartialEq, Eq)]
pub struct Modalias {
    /// Source.
    pub source: String,
    /// Vendor id.
    pub vendor: u32,
    /// Product id.
    pub product: u32,
    /// Device id.
    pub device: u32,
}

/// `str::get(lo..hi)` on the UTF-8 bytes of a string: the bytes of the
/// range when it lies within the string and on char boundaries.
pub open spec fn str_get_bytes(b: Seq<u8>, lo: int, hi: int) -> Option<Seq<u8>> {
    if lo <= hi <= b.len() && is_char_boundary(b, lo) && is_char_boundary(b, hi) {
        Some(b.subrange(lo, hi))
    } else {
        None
    }
}

/// The 16-bit id written as four hexadecimal digits at bytes `lo..lo+4` of
/// `b`, as the modalias parser reads it.
pub open spec fn modalias_id(b: Seq<u8>, lo: int) -> Option<u32> {
    match str_get_bytes(b, lo, lo + 4) {
        Some(h) => if hex_decodable(h) {
            let v = hex_decoded(h);
            Some(((v[0] as u32) * 256 + (v[1] as u32)) as u32)
        } else {
            None
        },
        None => None,
    }
}

/// Parse result of a modalias text such as `usb:v1D6Bp0246d0540`: the
/// source before the first `:`, and vendor, product and device ids at
/// bytes 1..5, 6..10 and 11..15 of the second field.
pub open spec fn modalias_parse(m: Seq<char>) -> Option<(Seq<char>, u32, u32, u32)> {
    let ids = split_on(m, ':');
    if ids.len() < 2 {
        None
    } else {
        let b = encode_utf8(ids[1]);
        match (modalias_id(b, 1), modalias_id(b, 6), modalias_id(b, 11)) {
            (Some(v), Some(p), Some(d)) => Some((ids[0], v, p, d)),
            _ => None,
        }
    }
}

/// Reads the four hexadecimal digits at `lo..lo+4` of `s`.
fn modalias_read_id(s: &str, lo: usize) -> (r: Option<u32>)
    requires
        lo <= 11,
    ensures
        r == modalias_id(s.spec_bytes(), lo as int),
{
    let hi = lo + 4;
    let bytes = s.as_bytes();
    if !(hi <= bytes.len() && s.is_char_boundary(lo) && s.is_char_boundary(hi)) {
        return None;
    }
    let mut part: Vec<u8> = Vec::new();
    let mut i = lo;
    while i < hi
        invariant
            lo <= i <= hi,
            hi == lo + 4,
            hi <= bytes@.len(),
            bytes@ == s.spec_bytes(),
            part@ == bytes@.subrange(lo as int, i as int),
        decreases hi - i,
    {
        part.push(bytes[i]);
        assert(part@ =~= bytes@.subrange(lo as int, i + 1));
        i = i + 1;
    }
    match hex_decode(part.as_slice()) {
        Ok(v) => {
            assert(v@.len() == 2);
            Some((v[0] as u32) * 256 + (v[1] as u32))
        },
        Err(_) => None,
    }
}

impl Modalias {
    /// Parses a modalias text (`FromStr`); on failure the error is an
    /// internal invalid-modalias error carrying the text.
    pub fn from_str(m: &str) -> (r: Result<Modalias, Error>)
        ensures
            r matches Ok(v) ==> modalias_parse(m@) == Some((v.source@, v.vendor, v.product, v.device)),
            r is Err ==> modalias_parse(m@) is None,
            r matches Err(e) ==> e.message@ == Seq::<char>::empty(),
            r matches Err(e) ==> (e.kind matches ErrorKind::Internal(InternalErrorKind::InvalidModalias(t)) && t@ == m@),
    {
        let ids = split_str(m, ':');
        let ghost fs = ids@.map_values(|f: String| f@);
        if ids.len() < 2 {
            return Err(Error::new(ErrorKind::Internal(InternalErrorKind::InvalidModalias(owned(m)))));
        }
        assert(fs[1] == ids@[1]@);
        assert(fs[0] == ids@[0]@);
        let id1 = ids[1].as_str();
        let vendor = modalias_read_id(id1, 1);
        let product = modalias_read_id(id1, 6);
        let device = modalias_read_id(id1, 11);
        match (vendor, product, device) {
            (Some(v), Some(p), Some(d)) => Ok(
                Modalias { source: ids[0].clone(), vendor: v, product: p, device: d },
            ),
            _ => Err(Error::new(ErrorKind::Internal(InternalErrorKind::InvalidModalias(owned(m))))),
        }
    }
}


/// The bytes of an address in reverse order.
pub open spec fn reversed6(a: Seq<u8>) -> Seq<u8> {
    Seq::new(6, |i: int| a[5 - i])
}

impl Address {
    /// Address as system socket address type (bytes reversed, least
    /// significant first).
    pub fn to_bdaddr(self) -> (r: crate::sys::bdaddr_t)
        ensures
            r.b@ == reversed6(self@),
    {
        let a = self.0;
        let r = crate::sys::bdaddr_t { b: [a[5], a[4], a[3], a[2], a[1], a[0]] };
        assert(r.b@ =~= reversed6(self@));
        r
    }

    /// Address from system socket address type (bytes reversed).
    pub fn from_bdaddr(addr: crate::sys::bdaddr_t) -> (r: Self)
        ensures
            r@ == reversed6(addr.b@),
    {
        let b = addr.b;
        let r = Address([b[5], b[4], b[3], b[2], b[1], b[0]]);
        assert(r@ =~= reversed6(addr.b@));
        r
    }
}

/// Converting an address to the system type and back gives it back.
pub proof fn lemma_bdaddr_roundtrip(a: Seq<u8>)
    requires
        a.len() == 6,
    ensures
        reversed6(reversed6(a)) == a,
{
    assert(reversed6(reversed6(a)) =~= a);
}

} // verus!
