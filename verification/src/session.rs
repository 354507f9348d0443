//! A Bluetooth session: the adapters it reports, and the routing of the
//! daemon's object and property signals to the subscriptions that the
//! library's objects hold.
use vstd::prelude::*;
use crate::{Error, ErrorKind};
use crate::foreign::is_object_path;
use vstd::hash_map::StringHashMap;
use crate::text::{
    free_of, lemma_rfind, lemma_rfind_at, lemma_rfind_none, lemma_split_append_plain, lemma_split_nonempty, owned,
    rfind, rfind_char, split_on, str_eq,
};

verus! {

/// Session event.
#[derive(Clone, Debug)]
pub enum SessionEvent {
    /// Adapter added.
    AdapterAdded(String),
    /// Adapter removed.
    AdapterRemoved(String),
}

/// The last element of an object path (`path.split('/').last()`): the text
/// after the last `/`, or the whole path without one.
pub open spec fn last_element(p: Seq<char>) -> Seq<char> {
    match rfind(p, '/') {
        Some(k) => p.skip(k + 1),
        None => p,
    }
}

/// The last element of an object path: the name of an adapter object.
pub fn last_path_element(path: &str) -> (r: String)
    ensures
        r@ == last_element(path@),
        r@ == split_on(path@, '/').last(),
{
    let n = path.unicode_len();
    proof {
        lemma_rfind(path@, '/');
        lemma_last_element_split(path@);
    }
    match rfind_char(path, '/') {
        Some(k) => {
            let tail = path.substring_char(k + 1, n);
            assert(tail@ =~= path@.skip(k + 1));
            owned(tail)
        },
        None => owned(path),
    }
}

/// `last_element` is the last field of the split at `/`.
pub proof fn lemma_last_element_split(p: Seq<char>)
    ensures
        last_element(p) == split_on(p, '/').last(),
{
    lemma_rfind(p, '/');
    match rfind(p, '/') {
        Some(k) => {
            let a = p.take(k + 1);
            let b = p.skip(k + 1);
            assert(p =~= a + b);
            assert(free_of(b, '/')) by {
                assert forall|i: int| 0 <= i < b.len() implies b[i] != '/' by {
                    assert(b[i] == p[k + 1 + i]);
                }
            }
            lemma_split_append_plain(a, b, '/');
            assert(a.drop_last() =~= p.take(k));
            assert(a.last() == '/');
            lemma_split_nonempty(a.drop_last(), '/');
            assert(split_on(a, '/').last() == Seq::<char>::empty());
            assert(Seq::<char>::empty() + b =~= b);
        },
        None => {
            lemma_split_append_plain(Seq::<char>::empty(), p, '/');
            assert(Seq::<char>::empty() + p =~= p);
            assert(split_on(Seq::<char>::empty(), '/') =~= seq![Seq::<char>::empty()]);
        },
    }
}

/// The session event for an object that appeared (or disappeared) with the
/// given interfaces: an adapter named by the last element of its path when
/// the adapter interface is among them.
pub fn session_event(added: bool, path: &str, has_adapter_interface: bool) -> (r: Option<SessionEvent>)
    ensures
        !has_adapter_interface ==> r is None,
        has_adapter_interface && added ==> (r matches Some(SessionEvent::AdapterAdded(n)) && n@ == last_element(
            path@,
        )),
        has_adapter_interface && !added ==> (r matches Some(SessionEvent::AdapterRemoved(n)) && n@
            == last_element(path@)),
{
    if !has_adapter_interface {
        return None;
    }
    let name = last_path_element(path);
    if added {
        Some(SessionEvent::AdapterAdded(name))
    } else {
        Some(SessionEvent::AdapterRemoved(name))
    }
}

/// The names of the adapters among D-Bus objects, each given by its path
/// and whether it has the adapter interface, in their order.
pub open spec fn adapter_names_of(objects: Seq<(Seq<char>, bool)>) -> Seq<Seq<char>>
    decreases objects.len(),
{
    if objects.len() == 0 {
        Seq::empty()
    } else {
        let rest = adapter_names_of(objects.drop_last());
        if objects.last().1 {
            rest.push(last_element(objects.last().0))
        } else {
            rest
        }
    }
}

/// The names of the available adapters.
pub fn adapter_names(objects: &Vec<(String, bool)>) -> (r: Vec<String>)
    ensures
        r@.map_values(|s: String| s@) == adapter_names_of(objects@.map_values(|o: (String, bool)| (o.0@, o.1))),
{
    let ghost objs = objects@.map_values(|o: (String, bool)| (o.0@, o.1));
    let mut names: Vec<String> = Vec::new();
    let mut i: usize = 0;
    while i < objects.len()
        invariant
            i <= objects@.len(),
            objs == objects@.map_values(|o: (String, bool)| (o.0@, o.1)),
            names@.map_values(|s: String| s@) == adapter_names_of(objs.take(i as int)),
        decreases objects@.len() - i,
    {
        assert(objs.take(i + 1).drop_last() =~= objs.take(i as int));
        assert(objs.take(i + 1).last() == (objects@[i as int].0@, objects@[i as int].1));
        if objects[i].1 {
            let ghost before = names@;
            let n = last_path_element(objects[i].0.as_str());
            names.push(n);
            assert(names@.map_values(|s: String| s@) =~= before.map_values(|s: String| s@).push(n@));
        }
        i = i + 1;
    }
    assert(objs.take(objects@.len() as int) =~= objs);
    names
}

/// The default adapter: the first one, or the error `NotFound` when there
/// is none.
pub fn default_adapter_name(names: &Vec<String>) -> (r: Result<String, Error>)
    ensures
        names@.len() > 0 ==> (r matches Ok(n) && n@ == names@[0]@),
        names@.len() == 0 ==> (r matches Err(e) && e.kind == ErrorKind::NotFound && e.message@.len() == 0),
{
    if names.len() > 0 {
        Ok(owned(names[0].as_str()))
    } else {
        Err(Error::new(ErrorKind::NotFound))
    }
}

/// The parent of an object path: the text before its last `/`, or `/`
/// for a path directly below the root (and for the root itself).
pub open spec fn parent_path_of(p: Seq<char>) -> Seq<char> {
    match rfind(p, '/') {
        Some(k) => if k == 0 {
            "/"@
        } else {
            p.take(k)
        },
        None => "/"@,
    }
}

/// The parent of an object path.
pub fn parent_path(path: &str) -> (r: String)
    requires
        is_object_path(path@),
    ensures
        r@ == parent_path_of(path@),
{
    proof {
        lemma_rfind(path@, '/');
    }
    match rfind_char(path, '/') {
        Some(k) => if k == 0 {
            owned("/")
        } else {
            let p = path.substring_char(0, k);
            assert(p@ =~= path@.take(k as int));
            owned(p)
        },
        None => owned("/"),
    }
}

/// The parent of a path extended by one element (a `/` and a text without
/// `/`) is the path: signals about the new object reach the subscriptions
/// of the path it was added below.
pub proof fn lemma_parent_of_child(p: Seq<char>, element: Seq<char>)
    requires
        p.len() > 0,
        element.len() > 0,
        element[0] == '/',
        free_of(element.drop_first(), '/'),
    ensures
        parent_path_of(p + element) == p,
{
    let s = p + element;
    assert(s[p.len() as int] == '/');
    assert forall|i: int| p.len() < i < s.len() implies s[i] != '/' by {
        assert(s[i] == element.drop_first()[i - p.len() - 1]);
    }
    lemma_rfind_at(s, '/', p.len() as int);
    assert(s.take(p.len() as int) =~= p);
}

/// The parent of a device object is its adapter's object.
pub proof fn lemma_device_parent(adapter_name: Seq<char>, addr: Seq<u8>)
    requires
        addr.len() == 6,
    ensures
        parent_path_of(crate::device::device_path_text(adapter_name, addr)) == crate::adapter::adapter_path_text(
            adapter_name,
        ),
{
    reveal_strlit("/dev_");
    reveal_strlit("dev_");
    let at = crate::address_text(addr);
    let e = crate::text::replace_char(at, ':', '_');
    let el = crate::device::device_element(addr);
    assert(crate::text::digit_value('/', 16) is None);
    crate::lemma_address_text_chars(addr, '/');
    crate::text::lemma_replace_free_of(at, ':', '_', '/');
    assert(el.drop_first() =~= "dev_"@ + e);
    assert(free_of(el.drop_first(), '/')) by {
        assert forall|i: int| 0 <= i < el.drop_first().len() implies el.drop_first()[i] != '/' by {
            if i >= 4 {
                assert(el.drop_first()[i] == e[i - 4]);
            }
        }
    }
    reveal_strlit("/org/bluez/");
    assert(crate::adapter::adapter_path_text(adapter_name).len() > 0);
    lemma_parent_of_child(crate::adapter::adapter_path_text(adapter_name), el);
}

/// A subscription to the signals about an object: an id of the receiver
/// and whether it also wants to hear of the object's children appearing
/// and disappearing.
#[derive(Clone, Copy, Debug, PartialEq, Eq, Structural)]
pub struct Subscription {
    /// Id of the receiver.
    pub id: u64,
    /// Also report children added and removed.
    pub child_objects: bool,
}

/// The subscriptions of a session, by object path.
pub struct Subscriptions {
    /// The subscriptions at each path, in the order of subscribing.
    pub entries: StringHashMap<Vec<Subscription>>,
}

/// The ids of the subscriptions that hear of a signal: all of them, or
/// only those that want children's signals.
pub open spec fn receivers(s: Seq<Subscription>, children_only: bool) -> Seq<u64>
    decreases s.len(),
{
    if s.len() == 0 {
        Seq::empty()
    } else {
        let rest = receivers(s.drop_last(), children_only);
        if !children_only || s.last().child_objects {
            rest.push(s.last().id)
        } else {
            rest
        }
    }
}

/// The subscriptions kept after a signal: those that did not hear of it,
/// and those whose receiver took it.
pub open spec fn kept(s: Seq<Subscription>, children_only: bool, failed: Seq<u64>) -> Seq<Subscription>
    decreases s.len(),
{
    if s.len() == 0 {
        Seq::empty()
    } else {
        let rest = kept(s.drop_last(), children_only, failed);
        if (!children_only || s.last().child_objects) && failed.contains(s.last().id) {
            rest
        } else {
            rest.push(s.last())
        }
    }
}

impl Subscriptions {
    /// No path is left without subscriptions.
    pub open spec fn wf(&self) -> bool {
        forall|p: Seq<char>| #[trigger] self.entries@.contains_key(p) ==> self.entries@[p]@.len() > 0
    }

    /// The subscriptions at a path.
    pub open spec fn at(&self, p: Seq<char>) -> Seq<Subscription> {
        if self.entries@.contains_key(p) {
            self.entries@[p]@
        } else {
            Seq::empty()
        }
    }

    /// No subscriptions.
    pub fn new() -> (r: Subscriptions)
        ensures
            r.wf(),
            forall|p: Seq<char>| #[trigger] r.at(p).len() == 0,
    {
        Subscriptions { entries: StringHashMap::new() }
    }

    /// A copy of the subscriptions at a path.
    fn copy_at(&self, path: &str) -> (r: Vec<Subscription>)
        ensures
            r@ == self.at(path@),
    {
        let mut r: Vec<Subscription> = Vec::new();
        match self.entries.get(path) {
            None => {},
            Some(subs) => {
                let mut j: usize = 0;
                while j < subs.len()
                    invariant
                        j <= subs@.len(),
                        r@ == subs@.take(j as int),
                    decreases subs@.len() - j,
                {
                    r.push(subs[j]);
                    assert(subs@.take(j + 1) =~= subs@.take(j as int).push(subs@[j as int]));
                    j = j + 1;
                }
                assert(subs@.take(subs@.len() as int) =~= subs@);
            },
        }
        r
    }

    /// Adds a subscription at a path, after those already there.
    pub fn subscribe(&mut self, path: &str, sub: Subscription)
        requires
            old(self).wf(),
        ensures
            final(self).wf(),
            final(self).at(path@) == old(self).at(path@).push(sub),
            forall|p: Seq<char>| p != path@ ==> #[trigger] final(self).at(p) == old(self).at(p),
    {
        let mut subs = self.copy_at(path);
        subs.push(sub);
        self.entries.insert(owned(path), subs);
    }

    /// The ids of the receivers of a signal about `path`: every
    /// subscription there, or (for a child added or removed) those that
    /// want children's signals, in the order of subscribing.
    pub fn targets(&self, path: &str, children_only: bool) -> (r: Vec<u64>)
        ensures
            r@ == receivers(self.at(path@), children_only),
    {
        let subs = self.copy_at(path);
        let mut r: Vec<u64> = Vec::new();
        let mut j: usize = 0;
        while j < subs.len()
            invariant
                j <= subs@.len(),
                r@ == receivers(subs@.take(j as int), children_only),
            decreases subs@.len() - j,
        {
            assert(subs@.take(j + 1).drop_last() =~= subs@.take(j as int));
            if !children_only || subs[j].child_objects {
                r.push(subs[j].id);
            }
            j = j + 1;
        }
        assert(subs@.take(subs@.len() as int) =~= subs@);
        r
    }

    /// After a signal about `path` was sent to its receivers, drops the
    /// subscriptions whose receiver failed to take it; a path left without
    /// subscriptions is dropped.
    pub fn drop_failed(&mut self, path: &str, children_only: bool, failed: &Vec<u64>)
        requires
            old(self).wf(),
        ensures
            final(self).wf(),
            final(self).at(path@) == kept(old(self).at(path@), children_only, failed@),
            forall|p: Seq<char>| p != path@ ==> #[trigger] final(self).at(p) == old(self).at(p),
    {
        let subs = self.copy_at(path);
        let mut kept_subs: Vec<Subscription> = Vec::new();
        let mut j: usize = 0;
        while j < subs.len()
            invariant
                j <= subs@.len(),
                kept_subs@ == kept(subs@.take(j as int), children_only, failed@),
            decreases subs@.len() - j,
        {
            assert(subs@.take(j + 1).drop_last() =~= subs@.take(j as int));
            let s = subs[j];
            let heard = !children_only || s.child_objects;
            let mut lost = false;
            if heard {
                let mut k: usize = 0;
                while k < failed.len()
                    invariant
                        k <= failed@.len(),
                        lost <==> exists|q: int| 0 <= q < k && failed@[q] == s.id,
                    decreases failed@.len() - k,
                {
                    if failed[k] == s.id {
                        lost = true;
                    }
                    k = k + 1;
                }
            }
            if !lost {
                kept_subs.push(s);
            }
            j = j + 1;
        }
        assert(subs@.take(subs@.len() as int) =~= subs@);
        if kept_subs.len() > 0 {
            self.entries.insert(owned(path), kept_subs);
        } else {
            self.entries.remove(path);
            assert(kept_subs@ =~= Seq::<Subscription>::empty());
        }
    }
}


/// A new subscription hears of the signals about its path: of every
/// signal, or of children's signals when it asked for them.
pub proof fn lemma_subscription_receives(s: Seq<Subscription>, sub: Subscription, children_only: bool)
    requires
        !children_only || sub.child_objects,
    ensures
        receivers(s.push(sub), children_only).contains(sub.id),
{
    let r = receivers(s.push(sub), children_only);
    assert(s.push(sub).drop_last() =~= s);
    assert(r.last() == sub.id);
    assert(r[r.len() - 1] == sub.id);
}

/// After a signal, a subscription stays exactly when it did not hear of
/// the signal or its receiver took it.
pub proof fn lemma_kept_exactly(s: Seq<Subscription>, children_only: bool, failed: Seq<u64>)
    ensures
        forall|x: Subscription| #[trigger] kept(s, children_only, failed).contains(x) ==> s.contains(x) && !((
        !children_only || x.child_objects) && failed.contains(x.id)),
        forall|x: Subscription| #[trigger] s.contains(x) && !((!children_only || x.child_objects) && failed.contains(
            x.id,
        )) ==> kept(s, children_only, failed).contains(x),
    decreases s.len(),
{
    if s.len() > 0 {
        lemma_kept_exactly(s.drop_last(), children_only, failed);
        let rest = kept(s.drop_last(), children_only, failed);
        let k = kept(s, children_only, failed);
        assert forall|x: Subscription| k.contains(x) implies s.contains(x) && !((!children_only || x.child_objects)
            && failed.contains(x.id)) by {
            let j = choose|j: int| 0 <= j < k.len() && k[j] == x;
            if j < rest.len() {
                assert(rest[j] == x);
                assert(rest.contains(x));
                let m = choose|m: int| 0 <= m < s.drop_last().len() && s.drop_last()[m] == x;
                assert(s[m] == x);
            } else {
                assert(x == s.last());
                assert(s[s.len() - 1] == x);
            }
        }
        assert forall|x: Subscription| s.contains(x) && !((!children_only || x.child_objects) && failed.contains(
            x.id,
        )) implies k.contains(x) by {
            let j = choose|j: int| 0 <= j < s.len() && s[j] == x;
            if j < s.len() - 1 {
                assert(s.drop_last()[j] == x);
                assert(s.drop_last().contains(x));
                let m = choose|m: int| 0 <= m < rest.len() && rest[m] == x;
                assert(k[m] == x);
            } else {
                assert(k[k.len() - 1] == x);
            }
        }
    }
}

} // verus!

verus! {

/// A session of which at most one runs per object (such as a device
/// discovery): the number of tokens held for it.
#[derive(Clone, Copy, Debug, PartialEq, Eq, Structural)]
pub struct SingleSession {
    /// Tokens held; the session runs while this is not 0.
    pub holders: u64,
}

/// How a token is obtained.
#[derive(Clone, Copy, Debug, PartialEq, Eq, Structural)]
pub enum SessionStart {
    /// The session runs: share it.
    Reuse,
    /// No session runs: start one (after the previous one has stopped).
    Start,
}

/// The tokens held after a token is asked for: one more when a session
/// runs; none when one has to be started.
pub open spec fn acquire_holders(h: int) -> int {
    if h > 0 {
        h + 1
    } else {
        h
    }
}

/// The tokens held after `k` of them are released.
pub open spec fn holders_after_releases(h: int, k: int) -> int {
    h - k
}

/// The life of a single shared session: a running session is shared (a
/// live token is reused); asking when none runs records nothing, so after
/// a start that failed (and so never called `started`) the next request
/// starts a session again; of `n` releases of the `n` tokens of a running
/// session exactly the last one leaves no holder, so the session is
/// stopped exactly once, after the last release.
pub proof fn lemma_single_session_life(h: int, n: int)
    requires
        h >= 0,
        n > 0,
    ensures
        h > 0 ==> acquire_holders(h) == h + 1,
        acquire_holders(0) == 0 && acquire_holders(acquire_holders(0)) == 0,
        forall|i: int| 0 <= i < n ==> (#[trigger] holders_after_releases(n, i + 1) == 0 <==> i == n - 1),
        forall|i: int| 0 <= i < n ==> #[trigger] holders_after_releases(n, i + 1) >= 0,
{
}

impl SingleSession {
    /// No session.
    pub fn new() -> (r: SingleSession)
        ensures
            r.holders == 0,
    {
        SingleSession { holders: 0 }
    }

    /// Asks for a token: a running session is shared (one more holder);
    /// otherwise one has to be started.
    pub fn acquire(&mut self) -> (r: SessionStart)
        requires
            old(self).holders < u64::MAX,
        ensures
            old(self).holders > 0 ==> r == SessionStart::Reuse && final(self).holders == old(self).holders + 1,
            old(self).holders == 0 ==> r == SessionStart::Start && final(self).holders == 0,
            final(self).holders == acquire_holders(old(self).holders as int),
    {
        if self.holders > 0 {
            self.holders = self.holders + 1;
            SessionStart::Reuse
        } else {
            SessionStart::Start
        }
    }

    /// The session was started: its first token is held.
    pub fn started(&mut self)
        requires
            old(self).holders == 0,
        ensures
            final(self).holders == 1,
    {
        self.holders = 1;
    }

    /// A token is dropped; returns whether the session is to be stopped
    /// now (the last token went).
    pub fn release(&mut self) -> (r: bool)
        requires
            old(self).holders > 0,
        ensures
            final(self).holders == old(self).holders - 1,
            final(self).holders == holders_after_releases(old(self).holders as int, 1),
            r == (final(self).holders == 0),
    {
        self.holders = self.holders - 1;
        self.holders == 0
    }

    /// Whether the session runs.
    pub fn is_active(&self) -> (r: bool)
        ensures
            r == (self.holders > 0),
    {
        self.holders > 0
    }
}

} // verus!

verus! {

/// A signal of the daemon that is routed to subscriptions.
#[derive(Clone, Copy, Debug, PartialEq, Eq, Structural)]
pub enum SignalKind {
    /// `InterfacesAdded` of the object manager: an object appeared.
    InterfacesAdded,
    /// `InterfacesRemoved` of the object manager: an object went away.
    InterfacesRemoved,
    /// `PropertiesChanged` of an object.
    PropertiesChanged,
}

/// Where a signal about `object` goes: an object added or removed goes to
/// the subscriptions of its parent path that want children's signals; a
/// property change goes to every subscription of the object's own path.
/// The result is the path and whether only children-subscribers hear it,
/// as `Subscriptions::targets` and `drop_failed` take them.
pub fn signal_route(kind: SignalKind, object: &str) -> (r: (String, bool))
    requires
        is_object_path(object@),
    ensures
        kind == SignalKind::PropertiesChanged ==> r.0@ == object@ && !r.1,
        kind != SignalKind::PropertiesChanged ==> r.0@ == parent_path_of(object@) && r.1,
{
    match kind {
        SignalKind::PropertiesChanged => (owned(object), false),
        _ => (parent_path(object), true),
    }
}

} // verus!
