//! Ordered sets of integers and byte arrays held in ordered maps by an
//! integer key, with the lists they are published as: the elements, or the
//! (key, bytes) pairs, in ascending order.
use vstd::prelude::*;
use std::collections::{BTreeMap, BTreeSet};
use vstd::std_specs::btree::{increasing_seq, key_obeys_cmp_spec};
use vstd::std_specs::iter::IteratorSpec;
use vstd::std_specs::cmp::OrdSpec;
use vstd::laws_cmp::obeys_cmp;
use crate::adv::ascending;
use crate::dict::copy_bytes;

verus! {

/// The map's arrays by view.
pub open spec fn bytes_map<K>(m: Map<K, Vec<u8>>) -> Map<K, Seq<u8>> {
    m.map_values(|b: Vec<u8>| b@)
}

/// The map that a list of (key, bytes) pairs makes when collected into a
/// map: a later pair with the same key replaces an earlier one.
pub open spec fn pairs_map<K>(s: Seq<(K, Vec<u8>)>) -> Map<K, Seq<u8>>
    decreases s.len(),
{
    if s.len() == 0 {
        Map::empty()
    } else {
        pairs_map(s.drop_last()).insert(s.last().0, s.last().1@)
    }
}

/// No key occurs twice.
pub open spec fn unique_keys<K>(s: Seq<(K, Vec<u8>)>) -> bool {
    forall|i: int, j: int| 0 <= i < j < s.len() ==> s[i].0 != s[j].0
}

/// The keys of the map are those of the pairs.
proof fn lemma_pairs_map_dom<K>(s: Seq<(K, Vec<u8>)>, k: K)
    ensures
        pairs_map(s).dom().contains(k) <==> exists|i: int| 0 <= i < s.len() && s[i].0 == k,
    decreases s.len(),
{
    if s.len() > 0 {
        lemma_pairs_map_dom(s.drop_last(), k);
        if pairs_map(s.drop_last()).dom().contains(k) {
            let i = choose|i: int| 0 <= i < s.drop_last().len() && s.drop_last()[i].0 == k;
            assert(s[i].0 == k);
        }
        if exists|i: int| 0 <= i < s.len() && s[i].0 == k {
            let i = choose|i: int| 0 <= i < s.len() && s[i].0 == k;
            if i < s.len() - 1 {
                assert(s.drop_last()[i].0 == k);
            }
        }
    }
}

/// With each key once, the map holds each pair's bytes under its key.
proof fn lemma_pairs_map_value<K>(s: Seq<(K, Vec<u8>)>, i: int)
    requires
        unique_keys(s),
        0 <= i < s.len(),
    ensures
        pairs_map(s).dom().contains(s[i].0),
        pairs_map(s)[s[i].0] == s[i].1@,
    decreases s.len(),
{
    if i < s.len() - 1 {
        let t = s.drop_last();
        assert(unique_keys(t));
        assert(t[i] == s[i]);
        lemma_pairs_map_value(t, i);
        assert(s.last().0 != s[i].0);
    }
}

/// A list with each key once, holding exactly the map's keys with their
/// arrays, collects into the map.
proof fn lemma_pairs_of_map<K>(r: Seq<(K, Vec<u8>)>, m: Map<K, Vec<u8>>)
    requires
        unique_keys(r),
        forall|i: int| 0 <= i < r.len() ==> m.contains_key(#[trigger] r[i].0) && m[r[i].0]@ == r[i].1@,
        forall|k: K| m.contains_key(k) ==> exists|i: int| 0 <= i < r.len() && #[trigger] r[i].0 == k,
    ensures
        pairs_map(r) == bytes_map(m),
{
    assert forall|k: K| #[trigger] pairs_map(r).dom().contains(k) <==> bytes_map(m).dom().contains(k) by {
        lemma_pairs_map_dom(r, k);
    }
    assert forall|k: K| #[trigger] pairs_map(r).dom().contains(k) implies pairs_map(r)[k] == bytes_map(m)[k] by {
        lemma_pairs_map_dom(r, k);
        let i = choose|i: int| 0 <= i < r.len() && r[i].0 == k;
        lemma_pairs_map_value(r, i);
    }
    assert(pairs_map(r) =~= bytes_map(m));
}

/// The map's pairs in the order the map walks them: its keys in increasing
/// order, each with a copy of its array.
fn walked_pairs<K: Copy>(m: &BTreeMap<K, Vec<u8>>) -> (r: Vec<(K, Vec<u8>)>)
    requires
        key_obeys_cmp_spec::<K>(),
    ensures
        increasing_seq(r@.map_values(|p: (K, Vec<u8>)| p.0)),
        forall|i: int| 0 <= i < r@.len() ==> m@.contains_key(#[trigger] r@[i].0) && m@[r@[i].0]@ == r@[i].1@,
        forall|k: K| m@.contains_key(k) ==> exists|i: int| 0 <= i < r@.len() && #[trigger] r@[i].0 == k,
{
    let mut r: Vec<(K, Vec<u8>)> = Vec::new();
    let it0 = m.iter();
    let ghost keys = it0.remaining().map_values(|kv: (&K, &Vec<u8>)| *kv.0);
    for p in it: it0
        invariant
            keys == it.seq().map_values(|kv: (&K, &Vec<u8>)| *kv.0),
            r@.len() == it.index(),
            r@.len() <= keys.len(),
            forall|i: int| 0 <= i < r@.len() ==> #[trigger] r@[i].0 == keys[i],
            forall|i: int| 0 <= i < r@.len() ==> r@[i].0 == *it.seq()[i].0 && r@[i].1@ == it.seq()[i].1@,
    {
        r.push((*p.0, copy_bytes(p.1)));
    }
    assert(r@.map_values(|p: (K, Vec<u8>)| p.0) =~= keys);
    r
}

/// Maps keyed by `u8` obey the ordering model of the map, and an
/// increasing sequence of `u8` is strictly ascending.
proof fn lemma_u8_order(s: Seq<u8>)
    ensures
        key_obeys_cmp_spec::<u8>(),
        increasing_seq(s) ==> forall|i: int, j: int| 0 <= i < j < s.len() ==> s[i] < s[j],
{
    broadcast use vstd::std_specs::btree::group_btree_axioms;
    if increasing_seq(s) {
        assert forall|i: int, j: int| 0 <= i < j < s.len() implies s[i] < s[j] by {
            assert(s[i].cmp_spec(&s[j]) is Less);
        }
    }
}

/// Maps keyed by `u16` obey the ordering model of the map, and an
/// increasing sequence of `u16` is strictly ascending.
proof fn lemma_u16_order(s: Seq<u16>)
    ensures
        key_obeys_cmp_spec::<u16>(),
        increasing_seq(s) ==> forall|i: int, j: int| 0 <= i < j < s.len() ==> s[i] < s[j],
{
    broadcast use vstd::std_specs::btree::group_btree_axioms;
    if increasing_seq(s) {
        assert forall|i: int, j: int| 0 <= i < j < s.len() implies s[i] < s[j] by {
            assert(s[i].cmp_spec(&s[j]) is Less);
        }
    }
}

/// Maps keyed by `u128` obey the ordering model of the map, and an
/// increasing sequence of `u128` is strictly ascending.
proof fn lemma_u128_order(s: Seq<u128>)
    ensures
        key_obeys_cmp_spec::<u128>(),
        increasing_seq(s) ==> forall|i: int, j: int| 0 <= i < j < s.len() ==> s[i] < s[j],
{
    broadcast use vstd::std_specs::btree::group_btree_axioms;
    if increasing_seq(s) {
        assert forall|i: int, j: int| 0 <= i < j < s.len() implies s[i] < s[j] by {
            assert(s[i].cmp_spec(&s[j]) is Less);
        }
    }
}

/// Sets of `u128` obey the ordering model of the set, and an increasing
/// sequence of references to `u128` is strictly ascending.
proof fn lemma_u128_ref_order(s: Seq<&u128>)
    ensures
        key_obeys_cmp_spec::<u128>(),
        increasing_seq(s) ==> forall|i: int, j: int| 0 <= i < j < s.len() ==> *s[i] < *s[j],
{
    broadcast use vstd::std_specs::btree::group_btree_axioms;
    assert(obeys_cmp::<u128>());
    assert(obeys_cmp::<&u128>());
    if increasing_seq(s) {
        assert forall|i: int, j: int| 0 <= i < j < s.len() implies *s[i] < *s[j] by {
            assert(OrdSpec::cmp_spec(&s[i], &s[j]) is Less);
        }
    }
}

/// The elements of a set of `u128`, in ascending order.
pub fn u128_elements(s: &BTreeSet<u128>) -> (r: Vec<u128>)
    ensures
        ascending(r@, |u: u128| u as int),
        r@.to_set() == s@,
{
    broadcast use vstd::std_specs::btree::group_btree_axioms;
    proof {
        lemma_u128_ref_order(Seq::empty());
    }
    let mut r: Vec<u128> = Vec::new();
    let it0 = s.iter();
    let ghost elems = it0.remaining();
    proof {
        lemma_u128_ref_order(elems);
    }
    for x in it: it0
        invariant
            elems == it.seq(),
            r@.len() == it.index(),
            r@.len() <= elems.len(),
            forall|i: int| 0 <= i < r@.len() ==> #[trigger] r@[i] == *elems[i],
    {
        r.push(*x);
    }
    assert(r@ =~= elems.unref());
    r
}

/// The pairs of a map keyed by `u8`, in ascending key order.
pub fn u8_keyed_pairs(m: &BTreeMap<u8, Vec<u8>>) -> (r: Vec<(u8, Vec<u8>)>)
    ensures
        ascending(r@, |p: (u8, Vec<u8>)| p.0 as int),
        pairs_map(r@) == bytes_map(m@),
{
    proof {
        lemma_u8_order(Seq::empty());
    }
    let r = walked_pairs(m);
    proof {
        let keys = r@.map_values(|p: (u8, Vec<u8>)| p.0);
        lemma_u8_order(keys);
        assert forall|i: int, j: int| 0 <= i < j < r@.len() implies r@[i].0 < r@[j].0 by {
            assert(keys[i] < keys[j]);
        }
        lemma_pairs_of_map(r@, m@);
    }
    r
}

/// The pairs of a map keyed by `u16`, in ascending key order.
pub fn u16_keyed_pairs(m: &BTreeMap<u16, Vec<u8>>) -> (r: Vec<(u16, Vec<u8>)>)
    ensures
        ascending(r@, |p: (u16, Vec<u8>)| p.0 as int),
        pairs_map(r@) == bytes_map(m@),
{
    proof {
        lemma_u16_order(Seq::empty());
    }
    let r = walked_pairs(m);
    proof {
        let keys = r@.map_values(|p: (u16, Vec<u8>)| p.0);
        lemma_u16_order(keys);
        assert forall|i: int, j: int| 0 <= i < j < r@.len() implies r@[i].0 < r@[j].0 by {
            assert(keys[i] < keys[j]);
        }
        lemma_pairs_of_map(r@, m@);
    }
    r
}

/// The pairs of a map keyed by `u128`, in ascending key order.
pub fn u128_keyed_pairs(m: &BTreeMap<u128, Vec<u8>>) -> (r: Vec<(u128, Vec<u8>)>)
    ensures
        ascending(r@, |p: (u128, Vec<u8>)| p.0 as int),
        pairs_map(r@) == bytes_map(m@),
{
    proof {
        lemma_u128_order(Seq::empty());
    }
    let r = walked_pairs(m);
    proof {
        let keys = r@.map_values(|p: (u128, Vec<u8>)| p.0);
        lemma_u128_order(keys);
        assert forall|i: int, j: int| 0 <= i < j < r@.len() implies r@[i].0 < r@[j].0 by {
            assert(keys[i] < keys[j]);
        }
        lemma_pairs_of_map(r@, m@);
    }
    r
}

} // verus!
