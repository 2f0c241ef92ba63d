//! Insertion-ordered tables: the reaction table of a message and the emoji
//! whitelist of an interaction policy.

use indexmap::IndexMap;
use indexmap::IndexSet;
use vstd::prelude::*;

verus! {

/// `indexmap::IndexMap`, taken as it is: what a value of it holds is
/// known only through `table_entries`.
#[verifier::external_type_specification]
#[verifier::external_body]
#[verifier::reject_recursive_types(K)]
#[verifier::reject_recursive_types(V)]
#[verifier::reject_recursive_types(S)]
pub struct ExIndexMap<K, V, S>(IndexMap<K, V, S>);

/// `indexmap::IndexSet`, taken as it is: what a value of it holds is
/// known only through `set_items`.
#[verifier::external_type_specification]
#[verifier::external_body]
#[verifier::reject_recursive_types(T)]
#[verifier::reject_recursive_types(S)]
pub struct ExIndexSet<T, S>(IndexSet<T, S>);

/// `IndexMap::clone`, which the derived `Clone` of a message calls.
/// Nothing is claimed of the copy.
pub assume_specification<K, V, S>[ <IndexMap<K, V, S> as Clone>::clone ](m: &IndexMap<K, V, S>) -> (r: IndexMap<K, V, S>)
    where
        K: Clone,
        V: Clone,
        S: Clone,
;

/// `IndexSet::clone`, which the derived `Clone` of an interaction policy
/// calls. Nothing is claimed of the copy.
pub assume_specification<T, S>[ <IndexSet<T, S> as Clone>::clone ](s: &IndexSet<T, S>) -> (r: IndexSet<T, S>)
    where
        T: Clone,
        S: Clone,
;

/// The items of an `IndexSet` of strings, in insertion order.
pub uninterp spec fn set_items(s: IndexSet<String>) -> Seq<Seq<char>>;

/// The entries of an `IndexMap` from strings to sets of strings: each key
/// with the items of its set, in their insertion order. The order of the
/// keys is not part of it.
pub uninterp spec fn table_entries(m: IndexMap<String, IndexSet<String>>) -> Map<Seq<char>, Seq<Seq<char>>>;

/// The table without entries.
pub open spec fn no_entries() -> Map<Seq<char>, Seq<Seq<char>>> {
    Map::empty()
}

/// `IndexMap::new`: a table without entries.
#[verifier::external_body]
pub(crate) fn table_new() -> (r: IndexMap<String, IndexSet<String>>)
    ensures
        table_entries(r) == no_entries(),
{
    IndexMap::new()
}

/// `IndexMap::len`: the number of keys, which are distinct.
#[verifier::external_body]
pub(crate) fn table_len(m: &IndexMap<String, IndexSet<String>>) -> (r: usize)
    ensures
        r == table_entries(*m).dom().len(),
{
    m.len()
}

/// `IndexMap::contains_key`: whether `key` is among the keys.
#[verifier::external_body]
pub(crate) fn table_contains_key(m: &IndexMap<String, IndexSet<String>>, key: &str) -> (r: bool)
    ensures
        r == table_entries(*m).contains_key(key@),
{
    m.contains_key(key)
}

/// `IndexMap::get`: the value stored under `key`, if `key` is among the keys.
#[verifier::external_body]
pub(crate) fn table_get<'a>(m: &'a IndexMap<String, IndexSet<String>>, key: &str) -> (r: Option<&'a IndexSet<String>>)
    ensures
        r is Some <==> table_entries(*m).contains_key(key@),
        r matches Some(s) ==> set_items(*s) == table_entries(*m)[key@],
{
    m.get(key)
}

/// `IndexSet::len`: the number of items.
#[verifier::external_body]
pub(crate) fn set_len(s: &IndexSet<String>) -> (r: usize)
    ensures
        r == set_items(*s).len(),
{
    s.len()
}

/// `IndexSet::contains`: whether `item` is among the items.
#[verifier::external_body]
pub(crate) fn set_contains(s: &IndexSet<String>, item: &str) -> (r: bool)
    ensures
        r == set_items(*s).contains(item@),
{
    s.contains(item)
}

/// `IndexSet::iter` with each item cloned: the items in insertion order.
#[verifier::external_body]
pub(crate) fn set_to_vec(s: &IndexSet<String>) -> (r: Vec<String>)
    ensures
        r.deep_view() == set_items(*s),
{
    s.iter().cloned().collect()
}

} // verus!
