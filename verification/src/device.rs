//! Bluetooth devices: the D-Bus object path of a device below its adapter,
//! `<adapter path>/dev_XX_XX_XX_XX_XX_XX`.
use vstd::prelude::*;
use crate::{Address, Error, address_parse, address_text, lemma_address_text_chars, lemma_address_text_roundtrip};
use crate::adapter::{adapter_path_prefix_parse, adapter_path_text, dbus_path, lemma_adapter_path_roundtrip, parse_dbus_path_prefix};
use crate::foreign::is_object_path;
use crate::text::{
    digit_value, find_char_or_len, find_or_len, free_of, has_prefix, lemma_find_or_len, lemma_find_or_len_at,
    lemma_replace_char_back, lemma_replace_free_of, owned, replace_char, replace_chars, strip_prefix,
};

verus! {

/// The last element of a device path: `dev_` and the address with `_` in
/// place of `:`.
pub open spec fn device_element(addr: Seq<u8>) -> Seq<char> {
    "/dev_"@ + replace_char(address_text(addr), ':', '_')
}

/// D-Bus object path of the device with the given address on the named
/// adapter.
pub open spec fn device_path_text(adapter_name: Seq<char>, addr: Seq<u8>) -> Seq<char> {
    adapter_path_text(adapter_name) + device_element(addr)
}

/// Splits a path below a device object into the adapter name, the device
/// address and the rest of the path.
pub open spec fn device_path_prefix_parse(p: Seq<char>) -> Option<(Seq<char>, Seq<u8>, Seq<char>)> {
    match adapter_path_prefix_parse(p) {
        None => None,
        Some((name, q)) => if has_prefix(q, "/dev_"@) {
            let r = q.skip("/dev_"@.len() as int);
            let k = find_or_len(r, '/');
            match address_parse(replace_char(r.take(k), '_', ':')) {
                Ok(a) => Some((name, a, r.skip(k))),
                Err(_) => None,
            }
        } else {
            None
        },
    }
}

/// The adapter name and device address of a device object path.
pub open spec fn device_path_parse(p: Seq<char>) -> Option<(Seq<char>, Seq<u8>)> {
    match device_path_prefix_parse(p) {
        Some((name, a, rest)) => if rest.len() == 0 {
            Some((name, a))
        } else {
            None
        },
        None => None,
    }
}

/// D-Bus object path of the device with the given address on the named
/// adapter; fails as the adapter path does.
pub fn device_dbus_path(adapter_name: &str, address: Address) -> (r: Result<String, Error>)
    ensures
        r matches Ok(p) ==> p@ == device_path_text(adapter_name@, address@),
        r is Err <==> !is_object_path(adapter_path_text(adapter_name@)),
{
    let mut p = dbus_path(adapter_name)?;
    p.append("/dev_");
    let a = address.to_string();
    let e = replace_chars(a.as_str(), ':', '_');
    p.append(e.as_str());
    Ok(p)
}

/// Splits a path below a device object into the adapter name, the device
/// address and the rest of the path.
pub fn parse_device_dbus_path_prefix(path: &str) -> (r: Option<(String, Address, String)>)
    ensures
        r matches Some((n, a, rest)) ==> device_path_prefix_parse(path@) == Some((n@, a@, rest@)),
        r is None ==> device_path_prefix_parse(path@) is None,
{
    let (name, q) = match parse_dbus_path_prefix(path) {
        Some(x) => x,
        None => return None,
    };
    let r = match strip_prefix(q.as_str(), "/dev_") {
        Some(r) => r,
        None => return None,
    };
    let sep = find_char_or_len(r, '/');
    proof {
        lemma_find_or_len(r@, '/');
    }
    let n = r.unicode_len();
    let head = r.substring_char(0, sep);
    let rest = r.substring_char(sep, n);
    assert(head@ =~= r@.take(sep as int));
    assert(rest@ =~= r@.skip(sep as int));
    let text = replace_chars(head, '_', ':');
    match Address::from_str(text.as_str()) {
        Ok(a) => Some((name, a, owned(rest))),
        Err(_) => None,
    }
}

/// The adapter name and device address of a device object path.
pub fn parse_device_dbus_path(path: &str) -> (r: Option<(String, Address)>)
    ensures
        r matches Some((n, a)) ==> device_path_parse(path@) == Some((n@, a@)),
        r is None ==> device_path_parse(path@) is None,
{
    match parse_device_dbus_path_prefix(path) {
        Some((name, a, rest)) => if rest.as_str().unicode_len() == 0 {
            Some((name, a))
        } else {
            None
        },
        None => None,
    }
}

/// The device element of a path parses back to the address, and the rest
/// after it is what follows it.
pub proof fn lemma_device_element_parse(addr: Seq<u8>, tail: Seq<char>)
    requires
        addr.len() == 6,
        tail.len() == 0 || tail[0] == '/',
    ensures
        ({
            let q = device_element(addr) + tail;
            let r = q.skip("/dev_"@.len() as int);
            let k = find_or_len(r, '/');
            &&& has_prefix(q, "/dev_"@)
            &&& address_parse(replace_char(r.take(k), '_', ':')) == Ok::<Seq<u8>, Seq<char>>(addr)
            &&& r.skip(k) == tail
        }),
        device_element(addr)[0] == '/',
{
    reveal_strlit("/dev_");
    let at = address_text(addr);
    let e = replace_char(at, ':', '_');
    let q = device_element(addr) + tail;
    assert(q.take(5) =~= "/dev_"@);
    let r = q.skip(5);
    assert(r =~= e + tail);
    assert(digit_value('/', 16) is None);
    assert(digit_value('_', 16) is None);
    lemma_address_text_chars(addr, '/');
    lemma_address_text_chars(addr, '_');
    lemma_replace_free_of(at, ':', '_', '/');
    assert forall|i: int| 0 <= i < e.len() implies r[i] != '/' by {
        assert(r[i] == e[i]);
    }
    lemma_find_or_len_at(r, '/', e.len() as int);
    assert(r.take(e.len() as int) =~= e);
    assert(r.skip(e.len() as int) =~= tail);
    lemma_replace_char_back(at, ':', '_');
    lemma_address_text_roundtrip(addr);
}

/// Parsing the object path of a device gives back the adapter name and the
/// address, for an adapter name without `/`.
pub proof fn lemma_device_path_roundtrip(adapter_name: Seq<char>, addr: Seq<u8>, tail: Seq<char>)
    requires
        free_of(adapter_name, '/'),
        addr.len() == 6,
        tail.len() == 0 || tail[0] == '/',
    ensures
        device_path_prefix_parse(device_path_text(adapter_name, addr) + tail) == Some((adapter_name, addr, tail)),
        device_path_parse(device_path_text(adapter_name, addr)) == Some((adapter_name, addr)),
{
    lemma_device_element_parse(addr, tail);
    lemma_device_element_parse(addr, Seq::<char>::empty());
    assert(device_element(addr) + Seq::<char>::empty() =~= device_element(addr));
    let pre = "/org/bluez/"@;
    let de = device_element(addr) + tail;
    let p = device_path_text(adapter_name, addr) + tail;
    assert(p =~= pre + (adapter_name + de));
    assert(p.take(pre.len() as int) =~= pre);
    let r = p.skip(pre.len() as int);
    assert(r =~= adapter_name + de);
    assert(de[0] == '/');
    assert forall|i: int| 0 <= i < adapter_name.len() implies r[i] != '/' by {
        assert(r[i] == adapter_name[i]);
    }
    lemma_find_or_len_at(r, '/', adapter_name.len() as int);
    assert(r.take(adapter_name.len() as int) =~= adapter_name);
    assert(r.skip(adapter_name.len() as int) =~= de);
    let p0 = device_path_text(adapter_name, addr);
    let de0 = device_element(addr);
    assert(p0 =~= pre + (adapter_name + de0));
    assert(p0.take(pre.len() as int) =~= pre);
    let r0 = p0.skip(pre.len() as int);
    assert(r0 =~= adapter_name + de0);
    assert forall|i: int| 0 <= i < adapter_name.len() implies r0[i] != '/' by {
        assert(r0[i] == adapter_name[i]);
    }
    lemma_find_or_len_at(r0, '/', adapter_name.len() as int);
    assert(r0.take(adapter_name.len() as int) =~= adapter_name);
    assert(r0.skip(adapter_name.len() as int) =~= de0);
}

} // verus!
