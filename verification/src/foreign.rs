//! Calls into std and into the hex and uuid crates whose behaviour the
//! verified code relies on.  Each item states what the called function
//! guarantees according to its documentation or source.
use vstd::prelude::*;

verus! {

/// `String::push`: appends the given char to the end of the string.
#[verifier::external_body]
pub fn string_push(s: &mut String, c: char)
    ensures
        final(s)@ == old(s)@.push(c),
{
    s.push(c);
}

} // verus!

verus! {

#[verifier::external_type_specification]
#[verifier::external_body]
pub struct ExIoErrorKind(std::io::ErrorKind);

/// `Clone` of `std::io::ErrorKind`, a `Copy` type: the same kind.
pub assume_specification[ <std::io::ErrorKind as Clone>::clone ](k: &std::io::ErrorKind) -> (r: std::io::ErrorKind)
    ensures
        r == *k,
;

/// `Debug` rendering of an `std::io::ErrorKind` (the variant's name).
/// Nothing is stated of the text.
#[verifier::external_body]
pub fn io_error_kind_debug(k: &std::io::ErrorKind) -> String {
    format!("{:?}", k)
}

} // verus!

verus! {

/// Value of one hexadecimal digit byte, as the hex crate reads it.
pub open spec fn hex_nibble(c: u8) -> Option<u8> {
    if 48 <= c <= 57 {
        Some((c - 48) as u8)
    } else if 97 <= c <= 102 {
        Some((c - 87) as u8)
    } else if 65 <= c <= 70 {
        Some((c - 55) as u8)
    } else {
        None
    }
}

/// `data` is an even number of hexadecimal digit bytes.
pub open spec fn hex_decodable(data: Seq<u8>) -> bool {
    data.len() % 2 == 0 && forall|i: int| 0 <= i < data.len() ==> (#[trigger] hex_nibble(data[i])) is Some
}

/// The bytes that a decodable hex text stands for: each pair of digits,
/// high digit first.
pub open spec fn hex_decoded(data: Seq<u8>) -> Seq<u8> {
    Seq::new(
        (data.len() / 2) as nat,
        |i: int| (hex_nibble(data[2 * i]).unwrap() * 16 + hex_nibble(data[2 * i + 1]).unwrap()) as u8,
    )
}

/// Message of the hex crate's error for undecodable `data`.
pub uninterp spec fn hex_error_text(data: Seq<u8>) -> Seq<char>;

/// `hex::decode`: decodes an even number of hexadecimal digits (either
/// case) into bytes, high digit first; fails on an odd length or any other
/// byte.  The error is rendered with its `Display` text, which for an odd
/// length is "Odd number of digits".
#[verifier::external_body]
pub fn hex_decode(data: &[u8]) -> (r: Result<Vec<u8>, String>)
    ensures
        r is Ok <==> hex_decodable(data@),
        r matches Ok(v) ==> v@ == hex_decoded(data@),
        r matches Err(e) ==> e@ == hex_error_text(data@),
        r matches Err(e) ==> (data@.len() % 2 != 0 ==> e@ == "Odd number of digits"@),
{
    match hex::decode(data) {
        Ok(v) => Ok(v),
        Err(e) => Err(e.to_string()),
    }
}

} // verus!

verus! {

/// A char allowed in a D-Bus object path: an ASCII letter or digit, `_` or
/// `/`.
pub open spec fn object_path_char(c: char) -> bool {
    ('0' <= c && c <= '9') || ('a' <= c && c <= 'z') || ('A' <= c && c <= 'Z') || c == '_' || c == '/'
}

/// `s` is a D-Bus object path: it starts with `/`, holds only ASCII
/// letters, digits, `_` and `/`, has no `//` and no trailing `/` unless it
/// is `/` itself.
pub open spec fn is_object_path(s: Seq<char>) -> bool {
    &&& s.len() > 0
    &&& s[0] == '/'
    &&& forall|i: int| 0 <= i < s.len() ==> object_path_char(#[trigger] s[i])
    &&& forall|i: int| 0 < i < s.len() ==> !(#[trigger] s[i] == '/' && s[i - 1] == '/')
    &&& (s.len() > 1 ==> s.last() != '/')
}

/// `zbus::zvariant::ObjectPath::try_from(&str)`: succeeds exactly on the
/// texts that are D-Bus object paths by the rules of `is_object_path`.
#[verifier::external_body]
pub fn object_path_is_valid(s: &str) -> (r: bool)
    ensures
        r == is_object_path(s@),
{
    zbus::zvariant::ObjectPath::try_from(s).is_ok()
}

} // verus!

verus! {

/// What `uuid::Uuid::parse_str` makes of a text, as the 128-bit value of
/// the UUID (`Uuid::as_u128`), or `None` when it fails.
pub uninterp spec fn uuid_parsed(s: Seq<char>) -> Option<u128>;

/// The message (`Display` text) of the error of `uuid::Uuid::parse_str`
/// for a text that does not parse.
pub uninterp spec fn uuid_error_text(s: Seq<char>) -> Seq<char>;

/// `uuid::Uuid::parse_str`, taken as the 128-bit value of the UUID, or the
/// error's message.  The crate reads the simple, hyphenated, braced and URN
/// forms; of them this contract states that the hyphenated lower-case form
/// of a value (its `Display` text) parses back to that value.
#[verifier::external_body]
pub fn parse_uuid(s: &str) -> (r: Result<u128, String>)
    ensures
        r is Ok <==> uuid_parsed(s@) is Some,
        r matches Ok(v) ==> uuid_parsed(s@) == Some(v),
        r matches Err(e) ==> e@ == uuid_error_text(s@),
        crate::text::is_uuid_text(s@) ==> r is Ok,
        r matches Ok(x) ==> (crate::text::is_uuid_text(s@) ==> crate::text::uuid_text(x) == s@),
{
    match uuid::Uuid::parse_str(s) {
        Ok(u) => Ok(u.as_u128()),
        Err(e) => Err(e.to_string()),
    }
}

} // verus!
