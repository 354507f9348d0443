//! Option dictionaries exchanged with the Bluetooth daemon, as plain
//! values: each entry is a key and a value of one of the D-Bus basic
//! kinds, and the readers that take a typed field out of a dictionary with
//! the error that a missing or mistyped field is answered with.
use vstd::prelude::*;
use crate::text::{owned, str_eq};

verus! {

/// A dictionary value.  A typed read succeeds only on the variant of that
/// type, as D-Bus values convert.
#[derive(Clone, Debug, PartialEq, Eq)]
pub enum PropValue {
    /// Boolean.
    Bool(bool),
    /// Byte.
    U8(u8),
    /// Signed 16-bit integer.
    I16(i16),
    /// Unsigned 16-bit integer.
    U16(u16),
    /// Signed 32-bit integer.
    I32(i32),
    /// Unsigned 32-bit integer.
    U32(u32),
    /// Signed 64-bit integer.
    I64(i64),
    /// Unsigned 64-bit integer.
    U64(u64),
    /// String.
    Str(String),
    /// Object path.
    ObjectPath(String),
    /// Array of strings.
    StrArray(Vec<String>),
    /// Array of bytes.
    Bytes(Vec<u8>),
    /// Array of (byte, byte, byte array) structures.
    ByteTriples(Vec<(u8, u8, Vec<u8>)>),
    /// Dictionary from 16-bit keys to byte arrays.
    U16ToBytes(Vec<(u16, Vec<u8>)>),
    /// Dictionary from string keys to byte arrays.
    StrToBytes(Vec<(String, Vec<u8>)>),
    /// Dictionary from byte keys to byte arrays.
    U8ToBytes(Vec<(u8, Vec<u8>)>),
    /// A value of another kind.
    Other,
    /// A value that could not be copied out of the message (it holds a
    /// file descriptor that could not be duplicated).
    Unclonable,
}

/// An option dictionary: keys and values in the order they came.
#[derive(Clone, Debug)]
pub struct Dict {
    /// The entries.
    pub entries: Vec<(String, PropValue)>,
}

/// The value stored under `key`: that of the first entry with this key.
pub open spec fn entries_get(e: Seq<(String, PropValue)>, key: Seq<char>) -> Option<PropValue>
    decreases e.len(),
{
    if e.len() == 0 {
        None
    } else if e[0].0@ == key {
        Some(e[0].1)
    } else {
        entries_get(e.drop_first(), key)
    }
}

impl Dict {
    /// The value stored under `key`.
    pub open spec fn get_spec(&self, key: Seq<char>) -> Option<PropValue> {
        entries_get(self.entries@, key)
    }

    /// An empty dictionary.
    pub fn new() -> (r: Dict)
        ensures
            r.entries@.len() == 0,
    {
        Dict { entries: Vec::new() }
    }

    /// Adds an entry at the end; a key that is already present keeps its
    /// value.
    pub fn insert(&mut self, key: &str, value: PropValue)
        ensures
            final(self).entries@ == old(self).entries@.push(final(self).entries@.last()),
            final(self).entries@.last().0@ == key@,
            final(self).entries@.last().1 == value,
            forall|k: Seq<char>| #[trigger] final(self).get_spec(k) == (if k == key@ && old(self).get_spec(k) is None {
                Some(value)
            } else {
                old(self).get_spec(k)
            }),
    {
        let ghost e = self.entries@;
        let k = owned(key);
        let ghost kk = k;
        self.entries.push((k, value));
        proof {
            assert forall|q: Seq<char>| #[trigger] entries_get(e.push((kk, value)), q) == (if q == key@
                && entries_get(e, q) is None {
                Some(value)
            } else {
                entries_get(e, q)
            }) by {
                if q == key@ {
                    if entries_get(e, q) is None {
                        lemma_get_after_insert(e, q, value, kk);
                    } else {
                        lemma_get_present_after_insert(e, q, value, kk);
                    }
                } else {
                    lemma_get_other_after_insert(e, q, value, kk);
                }
            }
        }
    }

    /// Adds an entry when there is a value; a key that is already present
    /// keeps its value.
    pub fn insert_opt(&mut self, key: &str, value: Option<PropValue>)
        ensures
            forall|k: Seq<char>| #[trigger] final(self).get_spec(k) == (if k == key@ && old(self).get_spec(k) is None {
                value
            } else {
                old(self).get_spec(k)
            }),
    {
        match value {
            Some(v) => self.insert(key, v),
            None => {},
        }
    }

    /// The value stored under `key`.
    pub fn get(&self, key: &str) -> (r: Option<&PropValue>)
        ensures
            r matches Some(v) ==> self.get_spec(key@) == Some(*v),
            r is None ==> self.get_spec(key@) is None,
    {
        let n = self.entries.len();
        let mut i: usize = 0;
        assert(self.entries@.skip(0) =~= self.entries@);
        while i < n
            invariant
                i <= n,
                n == self.entries@.len(),
                entries_get(self.entries@, key@) == entries_get(self.entries@.skip(i as int), key@),
            decreases n - i,
        {
            let ghost rest = self.entries@.skip(i as int);
            assert(rest[0] == self.entries@[i as int]);
            assert(rest.drop_first() =~= self.entries@.skip(i + 1));
            if str_eq(self.entries[i].0.as_str(), key) {
                return Some(&self.entries[i].1);
            }
            i = i + 1;
        }
        None
    }
}

/// Looking up a key right after inserting it gives the inserted value when
/// the key was not there before.
pub proof fn lemma_get_after_insert(e: Seq<(String, PropValue)>, key: Seq<char>, value: PropValue, k: String)
    requires
        entries_get(e, key) is None,
        k@ == key,
    ensures
        entries_get(e.push((k, value)), key) == Some(value),
    decreases e.len(),
{
    if e.len() > 0 {
        assert(e.push((k, value)).drop_first() =~= e.drop_first().push((k, value)));
        lemma_get_after_insert(e.drop_first(), key, value, k);
        assert(e.push((k, value))[0] == e[0]);
    } else {
        assert(e.push((k, value))[0] == (k, value));
    }
}

/// Inserting a key that is already present leaves its lookup alone.
pub proof fn lemma_get_present_after_insert(e: Seq<(String, PropValue)>, key: Seq<char>, value: PropValue, k: String)
    requires
        entries_get(e, key) is Some,
    ensures
        entries_get(e.push((k, value)), key) == entries_get(e, key),
    decreases e.len(),
{
    if e.len() > 0 {
        assert(e.push((k, value)).drop_first() =~= e.drop_first().push((k, value)));
        assert(e.push((k, value))[0] == e[0]);
        if e[0].0@ != key {
            lemma_get_present_after_insert(e.drop_first(), key, value, k);
        }
    }
}

/// Inserting a key leaves the lookup of every other key alone.
pub proof fn lemma_get_other_after_insert(
    e: Seq<(String, PropValue)>,
    key: Seq<char>,
    value: PropValue,
    k: String,
)
    requires
        k@ != key,
    ensures
        entries_get(e.push((k, value)), key) == entries_get(e, key),
    decreases e.len(),
{
    if e.len() > 0 {
        assert(e.push((k, value)).drop_first() =~= e.drop_first().push((k, value)));
        lemma_get_other_after_insert(e.drop_first(), key, value, k);
        assert(e.push((k, value))[0] == e[0]);
    } else {
        assert(e.push((k, value))[0] == (k, value));
        assert(e.push((k, value)).drop_first() =~= Seq::<(String, PropValue)>::empty());
        assert(entries_get(Seq::<(String, PropValue)>::empty(), key) is None);
    }
}

/// D-Bus `InvalidArgs` error, with its message.
#[derive(Clone, Debug)]
pub struct InvalidArgs(pub String);

/// Message of a failed copy of a value.
pub open spec fn clone_failed_msg() -> Seq<char> {
    "clone failed"@
}

/// An optional unsigned 16-bit field: 0 when absent.
pub open spec fn opt_u16_field(v: Option<PropValue>, invalid: Seq<char>) -> Result<u16, Seq<char>> {
    match v {
        None => Ok(0),
        Some(PropValue::Unclonable) => Err(clone_failed_msg()),
        Some(PropValue::U16(x)) => Ok(x),
        Some(_) => Err(invalid),
    }
}

/// A required unsigned 16-bit field.
pub open spec fn req_u16_field(v: Option<PropValue>, missing: Seq<char>, invalid: Seq<char>) -> Result<u16, Seq<char>> {
    match v {
        None => Err(missing),
        Some(PropValue::Unclonable) => Err(clone_failed_msg()),
        Some(PropValue::U16(x)) => Ok(x),
        Some(_) => Err(invalid),
    }
}

/// An optional boolean field: false when absent.
pub open spec fn opt_bool_field(v: Option<PropValue>, invalid: Seq<char>) -> Result<bool, Seq<char>> {
    match v {
        None => Ok(false),
        Some(PropValue::Unclonable) => Err(clone_failed_msg()),
        Some(PropValue::Bool(x)) => Ok(x),
        Some(_) => Err(invalid),
    }
}

/// A required boolean field.
pub open spec fn req_bool_field(v: Option<PropValue>, missing: Seq<char>, invalid: Seq<char>) -> Result<bool, Seq<char>> {
    match v {
        None => Err(missing),
        Some(PropValue::Unclonable) => Err(clone_failed_msg()),
        Some(PropValue::Bool(x)) => Ok(x),
        Some(_) => Err(invalid),
    }
}

/// An optional string field.
pub open spec fn opt_str_field(v: Option<PropValue>, invalid: Seq<char>) -> Result<Option<Seq<char>>, Seq<char>> {
    match v {
        None => Ok(None),
        Some(PropValue::Unclonable) => Err(clone_failed_msg()),
        Some(PropValue::Str(s)) => Ok(Some(s@)),
        Some(_) => Err(invalid),
    }
}

/// A required object path field.
pub open spec fn req_path_field(v: Option<PropValue>, missing: Seq<char>, invalid: Seq<char>) -> Result<Seq<char>, Seq<char>> {
    match v {
        None => Err(missing),
        Some(PropValue::Unclonable) => Err(clone_failed_msg()),
        Some(PropValue::ObjectPath(p)) => Ok(p@),
        Some(_) => Err(invalid),
    }
}

/// Reads an optional unsigned 16-bit field.
pub fn read_opt_u16(d: &Dict, key: &str, invalid: &str) -> (r: Result<u16, InvalidArgs>)
    ensures
        r matches Ok(x) ==> opt_u16_field(d.get_spec(key@), invalid@) == Ok::<u16, Seq<char>>(x),
        r matches Err(e) ==> opt_u16_field(d.get_spec(key@), invalid@) == Err::<u16, Seq<char>>(e.0@),
{
    match d.get(key) {
        None => Ok(0),
        Some(PropValue::Unclonable) => Err(InvalidArgs(owned("clone failed"))),
        Some(PropValue::U16(x)) => Ok(*x),
        Some(_) => Err(InvalidArgs(owned(invalid))),
    }
}

/// Reads a required unsigned 16-bit field.
pub fn read_req_u16(d: &Dict, key: &str, missing: &str, invalid: &str) -> (r: Result<u16, InvalidArgs>)
    ensures
        r matches Ok(x) ==> req_u16_field(d.get_spec(key@), missing@, invalid@) == Ok::<u16, Seq<char>>(x),
        r matches Err(e) ==> req_u16_field(d.get_spec(key@), missing@, invalid@) == Err::<u16, Seq<char>>(
            e.0@,
        ),
{
    match d.get(key) {
        None => Err(InvalidArgs(owned(missing))),
        Some(PropValue::Unclonable) => Err(InvalidArgs(owned("clone failed"))),
        Some(PropValue::U16(x)) => Ok(*x),
        Some(_) => Err(InvalidArgs(owned(invalid))),
    }
}

/// Reads an optional boolean field.
pub fn read_opt_bool(d: &Dict, key: &str, invalid: &str) -> (r: Result<bool, InvalidArgs>)
    ensures
        r matches Ok(x) ==> opt_bool_field(d.get_spec(key@), invalid@) == Ok::<bool, Seq<char>>(x),
        r matches Err(e) ==> opt_bool_field(d.get_spec(key@), invalid@) == Err::<bool, Seq<char>>(e.0@),
{
    match d.get(key) {
        None => Ok(false),
        Some(PropValue::Unclonable) => Err(InvalidArgs(owned("clone failed"))),
        Some(PropValue::Bool(x)) => Ok(*x),
        Some(_) => Err(InvalidArgs(owned(invalid))),
    }
}

/// Reads a required boolean field.
pub fn read_req_bool(d: &Dict, key: &str, missing: &str, invalid: &str) -> (r: Result<bool, InvalidArgs>)
    ensures
        r matches Ok(x) ==> req_bool_field(d.get_spec(key@), missing@, invalid@) == Ok::<bool, Seq<char>>(x),
        r matches Err(e) ==> req_bool_field(d.get_spec(key@), missing@, invalid@) == Err::<bool, Seq<char>>(
            e.0@,
        ),
{
    match d.get(key) {
        None => Err(InvalidArgs(owned(missing))),
        Some(PropValue::Unclonable) => Err(InvalidArgs(owned("clone failed"))),
        Some(PropValue::Bool(x)) => Ok(*x),
        Some(_) => Err(InvalidArgs(owned(invalid))),
    }
}

/// Reads an optional string field.
pub fn read_opt_str<'a>(d: &'a Dict, key: &str, invalid: &str) -> (r: Result<Option<&'a str>, InvalidArgs>)
    ensures
        r matches Ok(x) ==> opt_str_field(d.get_spec(key@), invalid@) == Ok::<Option<Seq<char>>, Seq<char>>(
            match x {
                Some(s) => Some(s@),
                None => None,
            },
        ),
        r matches Err(e) ==> opt_str_field(d.get_spec(key@), invalid@) == Err::<Option<Seq<char>>, Seq<char>>(
            e.0@,
        ),
{
    match d.get(key) {
        None => Ok(None),
        Some(PropValue::Unclonable) => Err(InvalidArgs(owned("clone failed"))),
        Some(PropValue::Str(s)) => Ok(Some(s.as_str())),
        Some(_) => Err(InvalidArgs(owned(invalid))),
    }
}

/// Reads a required object path field.
pub fn read_req_path<'a>(d: &'a Dict, key: &str, missing: &str, invalid: &str) -> (r: Result<&'a str, InvalidArgs>)
    ensures
        r matches Ok(x) ==> req_path_field(d.get_spec(key@), missing@, invalid@) == Ok::<Seq<char>, Seq<char>>(
            x@,
        ),
        r matches Err(e) ==> req_path_field(d.get_spec(key@), missing@, invalid@) == Err::<Seq<char>, Seq<char>>(
            e.0@,
        ),
{
    match d.get(key) {
        None => Err(InvalidArgs(owned(missing))),
        Some(PropValue::Unclonable) => Err(InvalidArgs(owned("clone failed"))),
        Some(PropValue::ObjectPath(p)) => Ok(p.as_str()),
        Some(_) => Err(InvalidArgs(owned(invalid))),
    }
}

/// The value of an optional unsigned 16-bit option.
pub fn opt_u16_value(o: Option<u16>) -> (r: Option<PropValue>)
    ensures
        r == match o {
            Some(x) => Some(PropValue::U16(x)),
            None => None::<PropValue>,
        },
{
    match o {
        Some(x) => Some(PropValue::U16(x)),
        None => None,
    }
}

/// The value of an optional boolean option.
pub fn opt_bool_value(o: Option<bool>) -> (r: Option<PropValue>)
    ensures
        r == match o {
            Some(x) => Some(PropValue::Bool(x)),
            None => None::<PropValue>,
        },
{
    match o {
        Some(x) => Some(PropValue::Bool(x)),
        None => None,
    }
}

/// The value of an optional string option.
pub fn opt_str_value(o: &Option<String>) -> (r: Option<PropValue>)
    ensures
        o is None ==> r is None,
        o matches Some(s) ==> (r matches Some(PropValue::Str(t)) && t@ == s@),
{
    match o {
        Some(s) => Some(PropValue::Str(owned(s.as_str()))),
        None => None,
    }
}


/// Copy of a byte vector.
pub fn copy_bytes(v: &Vec<u8>) -> (r: Vec<u8>)
    ensures
        r@ == v@,
{
    let mut r: Vec<u8> = Vec::new();
    let mut i: usize = 0;
    while i < v.len()
        invariant
            i <= v@.len(),
            r@ == v@.take(i as int),
        decreases v@.len() - i,
    {
        r.push(v[i]);
        assert(v@.take(i + 1) =~= v@.take(i as int).push(v@[i as int]));
        i = i + 1;
    }
    assert(v@.take(v@.len() as int) =~= v@);
    r
}

} // verus!
