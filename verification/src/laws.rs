//! The laws of the store, proved over its model: the map from key to value
//! that a `SettingsStore`'s view gives and that every contract of
//! [`crate::store::SettingsStore`] speaks of. A save that returns `Ok`
//! turns a view `m` into `m.insert(k, v)`, a fresh in-memory store's view
//! is the empty map, and a load returns the view's value at the key; these
//! laws carry those contracts through to what a caller observes.

use vstd::prelude::*;

verus! {

/// Round trip: once a value is saved under a key, the store maps that key
/// to exactly that value, so a load of the key that returns `Ok` returns
/// `Some` of it.
pub proof fn lemma_round_trip(m: Map<Seq<char>, Seq<char>>, k: Seq<char>, v: Seq<char>)
    ensures
        m.insert(k, v).contains_key(k),
        m.insert(k, v)[k] == v,
{
}

/// Overwrite: two saves to one key leave the store exactly as a single
/// save of the second value would, so the last write wins and the key is
/// still bound only once (a view binds each key at most once).
pub proof fn lemma_overwrite(
    m: Map<Seq<char>, Seq<char>>,
    k: Seq<char>,
    v1: Seq<char>,
    v2: Seq<char>,
)
    ensures
        m.insert(k, v1).insert(k, v2) == m.insert(k, v2),
        m.insert(k, v1).insert(k, v2)[k] == v2,
{
    assert(m.insert(k, v1).insert(k, v2) =~= m.insert(k, v2));
}

/// Absence: a fresh store holds no key at all, so a load of any key that
/// returns `Ok` returns `None`.
pub proof fn lemma_fresh_store_holds_nothing(k: Seq<char>)
    ensures
        !Map::<Seq<char>, Seq<char>>::empty().contains_key(k),
{
}

/// Isolation: saving under one key binds no other key and changes no other
/// key's value.
pub proof fn lemma_isolation(
    m: Map<Seq<char>, Seq<char>>,
    saved: Seq<char>,
    other: Seq<char>,
    v: Seq<char>,
)
    requires
        saved != other,
    ensures
        m.insert(saved, v).contains_key(other) == m.contains_key(other),
        m.contains_key(other) ==> m.insert(saved, v)[other] == m[other],
{
}

} // verus!
