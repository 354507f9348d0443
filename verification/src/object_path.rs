//! The object paths under which the library publishes its objects
//! (advertisements, monitors, profiles, GATT applications), built from a
//! prefix and an id, and the proof that each is a valid D-Bus object path.
use vstd::prelude::*;
use crate::foreign::{is_object_path, object_path_char};
use crate::text::{
    dec_string, hex_char_lower, hex_lower_n, owned, uuid_simple_string, uuid_simple_text,
};

verus! {

/// `e` can be one element of an object path: not empty, and made of ASCII
/// letters, digits and `_` only.
pub open spec fn path_element(e: Seq<char>) -> bool {
    &&& e.len() > 0
    &&& forall|i: int| 0 <= i < e.len() ==> object_path_char(#[trigger] e[i]) && e[i] != '/'
}

/// Appending `/` and an element to an object path other than `/` gives an
/// object path.
pub proof fn lemma_object_path_child(p: Seq<char>, e: Seq<char>)
    requires
        is_object_path(p),
        p.len() > 1,
        path_element(e),
    ensures
        is_object_path(p + "/"@ + e),
{
    reveal_strlit("/");
    let q = p + "/"@ + e;
    assert(q.len() == p.len() + 1 + e.len());
    assert forall|i: int| 0 <= i < q.len() implies object_path_char(#[trigger] q[i]) by {
        if i < p.len() {
            assert(q[i] == p[i]);
        } else if i > p.len() {
            assert(q[i] == e[i - p.len() - 1]);
        }
    }
    assert forall|i: int| 0 < i < q.len() implies !(#[trigger] q[i] == '/' && q[i - 1] == '/') by {
        if i < p.len() {
            assert(q[i] == p[i] && q[i - 1] == p[i - 1]);
        } else if i == p.len() {
            assert(q[i - 1] == p.last());
        } else {
            assert(q[i] == e[i - p.len() - 1]);
        }
    }
    assert(q.last() == e.last());
}

/// The hexadecimal digits of a value are letters and digits.
proof fn lemma_hex_lower_n_element(v: nat, n: nat)
    ensures
        forall|i: int| 0 <= i < hex_lower_n(v, n).len() ==> object_path_char(#[trigger] hex_lower_n(v, n)[i])
            && hex_lower_n(v, n)[i] != '/',
        hex_lower_n(v, n).len() == n,
    decreases n,
{
    if n > 0 {
        lemma_hex_lower_n_element(v / 16, (n - 1) as nat);
        let d = v % 16;
        assert(object_path_char(hex_char_lower(d)) && hex_char_lower(d) != '/');
        let s = hex_lower_n(v, n);
        assert forall|i: int| 0 <= i < s.len() implies object_path_char(#[trigger] s[i]) && s[i] != '/' by {
            if i < n - 1 {
                assert(s[i] == hex_lower_n(v / 16, (n - 1) as nat)[i]);
            }
        }
    }
}

/// The 32 hexadecimal digits of an id form an object path element.
pub proof fn lemma_uuid_simple_element(id: u128)
    ensures
        path_element(uuid_simple_text(id)),
{
    lemma_hex_lower_n_element(id as nat, 32);
}

/// Root object path of the advertisement monitors of a session.
pub open spec fn monitor_root_text(id: u128) -> Seq<char> {
    "/org/bluez/bluer/monitor"@ + "/"@ + uuid_simple_text(id)
}

/// The root object path of the advertisement monitors of a session: the
/// monitor prefix, `/` and the id as 32 lower-case hex digits.
pub fn monitor_root_path(id: u128) -> (r: String)
    ensures
        r@ == monitor_root_text(id),
        is_object_path(r@),
{
    let mut p = owned("/org/bluez/bluer/monitor/");
    let s = uuid_simple_string(id);
    p.append(s.as_str());
    proof {
        reveal_strlit("/org/bluez/bluer/monitor/");
        reveal_strlit("/org/bluez/bluer/monitor");
        reveal_strlit("/");
        assert("/org/bluez/bluer/monitor/"@ =~= "/org/bluez/bluer/monitor"@ + "/"@);
        assert(plain_from("/org/bluez/bluer/monitor"@, 0)) by {
            reveal_with_fuel(plain_from, 30);
        }
        lemma_prefix_valid("/org/bluez/bluer/monitor"@);
        lemma_uuid_simple_element(id);
        lemma_object_path_child("/org/bluez/bluer/monitor"@, uuid_simple_text(id));
    }
    p
}

/// The object path of one monitor below the root: the root, `/` and the id
/// as 32 lower-case hex digits.
pub fn monitor_target_path(root: &str, id: u128) -> (r: String)
    requires
        is_object_path(root@),
        root@.len() > 1,
    ensures
        r@ == root@ + "/"@ + uuid_simple_text(id),
        is_object_path(r@),
{
    let mut p = owned(root);
    p.append("/");
    let s = uuid_simple_string(id);
    p.append(s.as_str());
    proof {
        lemma_uuid_simple_element(id);
        lemma_object_path_child(root@, uuid_simple_text(id));
    }
    p
}

/// Object path of an RFCOMM profile.
pub open spec fn profile_path_text(id: u128) -> Seq<char> {
    "/org/bluez/profile"@ + "/"@ + uuid_simple_text(id)
}

/// The object path under which an RFCOMM profile is published: the profile
/// prefix and the id as 32 lower-case hex digits.
pub fn profile_path(id: u128) -> (r: String)
    ensures
        r@ == profile_path_text(id),
        is_object_path(r@),
{
    let mut p = owned("/org/bluez/profile/");
    let s = uuid_simple_string(id);
    p.append(s.as_str());
    proof {
        reveal_strlit("/org/bluez/profile/");
        reveal_strlit("/org/bluez/profile");
        reveal_strlit("/");
        assert("/org/bluez/profile/"@ =~= "/org/bluez/profile"@ + "/"@);
        assert(plain_from("/org/bluez/profile"@, 0)) by {
            reveal_with_fuel(plain_from, 30);
        }
        lemma_prefix_valid("/org/bluez/profile"@);
        lemma_uuid_simple_element(id);
        lemma_object_path_child("/org/bluez/profile"@, uuid_simple_text(id));
    }
    p
}

/// Object path of a GATT client profile.
pub open spec fn gatt_profile_path_text(id: u128) -> Seq<char> {
    "/org/bluez/gatt/profile"@ + "/"@ + uuid_simple_text(id)
}

/// The object path under which a GATT client profile is published: the
/// GATT profile prefix and the id as 32 lower-case hex digits.
pub fn gatt_profile_path(id: u128) -> (r: String)
    ensures
        r@ == gatt_profile_path_text(id),
        is_object_path(r@),
{
    let mut p = owned("/org/bluez/gatt/profile/");
    let s = uuid_simple_string(id);
    p.append(s.as_str());
    proof {
        reveal_strlit("/org/bluez/gatt/profile/");
        reveal_strlit("/org/bluez/gatt/profile");
        reveal_strlit("/");
        assert("/org/bluez/gatt/profile/"@ =~= "/org/bluez/gatt/profile"@ + "/"@);
        assert(plain_from("/org/bluez/gatt/profile"@, 0)) by {
            reveal_with_fuel(plain_from, 30);
        }
        lemma_prefix_valid("/org/bluez/gatt/profile"@);
        lemma_uuid_simple_element(id);
        lemma_object_path_child("/org/bluez/gatt/profile"@, uuid_simple_text(id));
    }
    p
}

/// From index `i` on, `p` holds only `/` and lower-case letters, and no
/// `//`.
pub open spec fn plain_from(p: Seq<char>, i: nat) -> bool
    decreases p.len() - i,
{
    if i >= p.len() {
        true
    } else {
        &&& (p[i as int] == '/' || ('a' <= p[i as int] && p[i as int] <= 'z'))
        &&& (i > 0 ==> !(p[i as int] == '/' && p[i - 1] == '/'))
        &&& plain_from(p, i + 1)
    }
}

/// What `plain_from` says of each index.
proof fn lemma_plain_from(p: Seq<char>, i: nat)
    requires
        plain_from(p, i),
    ensures
        forall|j: int| i <= j < p.len() ==> (#[trigger] p[j] == '/' || ('a' <= p[j] && p[j] <= 'z')),
        forall|j: int| i <= j < p.len() && j > 0 ==> !(#[trigger] p[j] == '/' && p[j - 1] == '/'),
    decreases p.len() - i,
{
    if i < p.len() {
        lemma_plain_from(p, i + 1);
    }
}

/// A prefix made of `/` and lower-case letters, starting with `/`, without
/// `//` and not ending in `/`, is an object path.
pub proof fn lemma_prefix_valid(p: Seq<char>)
    requires
        p.len() > 1,
        p[0] == '/',
        p.last() != '/',
        plain_from(p, 0),
    ensures
        is_object_path(p),
{
    lemma_plain_from(p, 0);
}


/// From index `i` on, `e` holds only lower-case letters.
pub open spec fn letters_from(e: Seq<char>, i: nat) -> bool
    decreases e.len() - i,
{
    if i >= e.len() {
        true
    } else {
        'a' <= e[i as int] && e[i as int] <= 'z' && letters_from(e, i + 1)
    }
}

/// A non-empty word of lower-case letters is an object path element.
pub proof fn lemma_word_element(e: Seq<char>)
    requires
        e.len() > 0,
        letters_from(e, 0),
    ensures
        path_element(e),
{
    lemma_letters_from(e, 0);
}

/// What `letters_from` says of each index.
proof fn lemma_letters_from(e: Seq<char>, i: nat)
    requires
        letters_from(e, i),
    ensures
        forall|j: int| i <= j < e.len() ==> 'a' <= #[trigger] e[j] && e[j] <= 'z',
    decreases e.len() - i,
{
    if i < e.len() {
        lemma_letters_from(e, i + 1);
    }
}

/// The decimal digits of a number are an object path element.
proof fn lemma_dec_element(n: nat)
    ensures
        path_element(dec_string(n)),
    decreases n,
{
    if n >= 10 {
        lemma_dec_element(n / 10);
        let p = dec_string(n / 10);
        let c = ((n % 10) + 48) as char;
        assert(object_path_char(c) && c != '/');
        let s = dec_string(n);
        assert(s == p.push(c));
        assert forall|i: int| 0 <= i < s.len() implies object_path_char(#[trigger] s[i]) && s[i] != '/' by {
            if i < p.len() {
                assert(s[i] == p[i]);
            }
        }
    } else {
        let c = (n + 48) as char;
        assert(object_path_char(c) && c != '/');
        assert(dec_string(n)[0] == c);
    }
}

/// A word followed by the decimal digits of a number is an object path
/// element.
pub proof fn lemma_word_number_element(w: Seq<char>, n: nat)
    requires
        path_element(w),
    ensures
        path_element(w + dec_string(n)),
{
    lemma_dec_element(n);
    let d = dec_string(n);
    let e = w + d;
    assert forall|i: int| 0 <= i < e.len() implies object_path_char(#[trigger] e[i]) && e[i] != '/' by {
        if i < w.len() {
            assert(e[i] == w[i]);
        } else {
            assert(e[i] == d[i - w.len()]);
        }
    }
}

} // verus!

