//! The insertion-ordered hash map that the keyed collections of this crate are built on.
//!
//! Everything in this file is trusted: it declares the outside type, names its contents
//! and states what its methods do to them.

use crate::assoc::{put_last, value_of};
use linked_hash_map::LinkedHashMap;
use vstd::prelude::*;

verus! {

#[verifier::external_type_specification]
#[verifier::external_body]
#[verifier::reject_recursive_types(K)]
#[verifier::reject_recursive_types(V)]
#[verifier::reject_recursive_types(S)]
pub struct ExLinkedHashMap<K, V, S>(LinkedHashMap<K, V, S>);

/// The entries of a linked map in iteration order: front first, back last.
pub uninterp spec fn linked_entries(m: LinkedHashMap<String, usize>) -> Seq<(Seq<char>, usize)>;

/// Calls `LinkedHashMap::new`. Trusted: the new map has no entries.
#[verifier::external_body]
pub(crate) fn linked_new() -> (m: LinkedHashMap<String, usize>)
    ensures
        linked_entries(m) == Seq::<(Seq<char>, usize)>::empty(),
{
    LinkedHashMap::new()
}

/// Calls `LinkedHashMap::len`. Trusted: the result is the number of entries.
#[verifier::external_body]
pub(crate) fn linked_len(m: &LinkedHashMap<String, usize>) -> (n: usize)
    ensures
        n == linked_entries(*m).len(),
{
    m.len()
}

/// Calls `LinkedHashMap::insert`. Trusted: the entry becomes the back of the map; an
/// entry that had the same key is gone from its old place; the other entries keep their order.
#[verifier::external_body]
pub(crate) fn linked_insert(m: &mut LinkedHashMap<String, usize>, key: String, value: usize)
    ensures
        linked_entries(*final(m)) == put_last(linked_entries(*old(m)), key@, value),
{
    m.insert(key, value);
}

/// Calls `LinkedHashMap::get`. Trusted: the result is the value stored under `key`, if any.
#[verifier::external_body]
pub(crate) fn linked_get(m: &LinkedHashMap<String, usize>, key: &str) -> (r: Option<usize>)
    ensures
        r == value_of(linked_entries(*m), key@),
{
    m.get(key).copied()
}

/// Calls `LinkedHashMap::back`. Trusted: the result is the last entry, or `None` for an
/// empty map.
#[verifier::external_body]
pub(crate) fn linked_back(m: &LinkedHashMap<String, usize>) -> (r: Option<(String, usize)>)
    ensures
        match r {
            Some(e) => linked_entries(*m).len() > 0 && (e.0@, e.1) == linked_entries(*m).last(),
            None => linked_entries(*m).len() == 0,
        },
{
    m.back().map(|e| (e.0.clone(), *e.1))
}

/// Calls `LinkedHashMap::pop_back`. Trusted: the last entry is removed and returned; an
/// empty map stays empty and gives `None`.
#[verifier::external_body]
pub(crate) fn linked_pop_back(m: &mut LinkedHashMap<String, usize>) -> (r: Option<(String, usize)>)
    ensures
        match r {
            Some(e) => linked_entries(*old(m)).len() > 0 && (e.0@, e.1) == linked_entries(
                *old(m),
            ).last() && linked_entries(*final(m)) == linked_entries(*old(m)).drop_last(),
            None => linked_entries(*old(m)).len() == 0 && linked_entries(*final(m))
                == linked_entries(*old(m)),
        },
{
    m.pop_back()
}

/// Calls `LinkedHashMap::values` and collects what it yields. Trusted: the result holds
/// the value of each entry, front first.
#[verifier::external_body]
pub(crate) fn linked_values(m: &LinkedHashMap<String, usize>) -> (r: Vec<usize>)
    ensures
        r@.len() == linked_entries(*m).len(),
        forall|i: int| 0 <= i < r@.len() ==> r@[i] == (#[trigger] linked_entries(*m)[i]).1,
{
    m.values().copied().collect()
}

} // verus!
