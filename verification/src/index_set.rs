//! The insertion-ordered hash sets that intern nodes and triples: indexmap's
//! `IndexSet` hashed with ahash, behind the trusted items below.
//!
//! The contents of a set are named (`node_set_items`, `key_set_items`,
//! `iri_set_items`) as the
//! sequence of its items in insertion order; every wrapper states its effect
//! on that sequence as indexmap's source shows it.
use std::hash::BuildHasherDefault;

use ahash::AHasher;
use indexmap::IndexSet;
use vstd::prelude::*;

use crate::nodes::{node_values, Node};

verus! {

#[verifier::external_type_specification]
#[verifier::external_body]
pub struct ExAHasher(ahash::AHasher);

#[verifier::external_type_specification]
#[verifier::external_body]
#[verifier::reject_recursive_types(H)]
pub struct ExBuildHasherDefault<H>(std::hash::BuildHasherDefault<H>);

#[verifier::external_type_specification]
#[verifier::external_body]
#[verifier::reject_recursive_types(T)]
#[verifier::reject_recursive_types(S)]
pub struct ExIndexSet<T, S>(indexmap::IndexSet<T, S>);

/// The items of a set of nodes, in insertion order.
pub uninterp spec fn node_set_items(set: IndexSet<Node, BuildHasherDefault<AHasher>>) -> Seq<Node>;

/// The items of a set of interned triple keys, in insertion order.
pub uninterp spec fn key_set_items(
    set: IndexSet<(Option<u32>, u32, u32, u32), BuildHasherDefault<AHasher>>,
) -> Seq<(Option<u32>, u32, u32, u32)>;

/// `IndexSet::default()` for nodes: an empty set.
#[verifier::external_body]
pub(crate) fn node_set_new() -> (set: IndexSet<Node, BuildHasherDefault<AHasher>>)
    ensures
        node_set_items(set) == Seq::<Node>::empty(),
{
    IndexSet::default()
}

/// `IndexSet::insert_full` for nodes. When an item equal to `node` is present,
/// its index is returned with `false` and the set is unchanged; otherwise
/// `node` is appended and its index is returned with `true`. Equality is the
/// derived `Eq` of `Node`, which compares the characters of every string, the
/// booleans and the integers: two nodes are equal exactly when their values
/// (`@`) are.
#[verifier::external_body]
pub(crate) fn node_set_insert(set: &mut IndexSet<Node, BuildHasherDefault<AHasher>>, node: Node) -> (r: (
    usize,
    bool,
))
    ensures
        node_values(node_set_items(*old(set))).contains(node@) ==> {
            &&& !r.1
            &&& r.0 < node_set_items(*old(set)).len()
            &&& node_set_items(*old(set))[r.0 as int]@ == node@
            &&& node_set_items(*final(set)) == node_set_items(*old(set))
        },
        !node_values(node_set_items(*old(set))).contains(node@) ==> {
            &&& r.1
            &&& r.0 == node_set_items(*old(set)).len()
            &&& node_set_items(*final(set)) == node_set_items(*old(set)).push(node)
        },
{
    set.insert_full(node)
}

/// `IndexSet::len` for nodes.
#[verifier::external_body]
pub(crate) fn node_set_len(set: &IndexSet<Node, BuildHasherDefault<AHasher>>) -> (n: usize)
    ensures
        n == node_set_items(*set).len(),
{
    set.len()
}

/// `IndexSet::get_index` for nodes: the item at `index`, if there is one.
#[verifier::external_body]
pub(crate) fn node_set_get(set: &IndexSet<Node, BuildHasherDefault<AHasher>>, index: usize) -> (r: Option<
    &Node,
>)
    ensures
        index < node_set_items(*set).len() ==> r == Some(&node_set_items(*set)[index as int]),
        index >= node_set_items(*set).len() ==> r is None,
{
    set.get_index(index)
}

/// `IndexSet::default()` for triple keys: an empty set.
#[verifier::external_body]
pub(crate) fn key_set_new() -> (set: IndexSet<(Option<u32>, u32, u32, u32), BuildHasherDefault<AHasher>>)
    ensures
        key_set_items(set) == Seq::<(Option<u32>, u32, u32, u32)>::empty(),
{
    IndexSet::default()
}

/// `IndexSet::insert_full` for triple keys, with the same behaviour as
/// `node_set_insert`; equality of keys is that of tuples of integers.
#[verifier::external_body]
pub(crate) fn key_set_insert(
    set: &mut IndexSet<(Option<u32>, u32, u32, u32), BuildHasherDefault<AHasher>>,
    key: (Option<u32>, u32, u32, u32),
) -> (r: (usize, bool))
    ensures
        key_set_items(*old(set)).contains(key) ==> {
            &&& !r.1
            &&& r.0 < key_set_items(*old(set)).len()
            &&& key_set_items(*old(set))[r.0 as int] == key
            &&& key_set_items(*final(set)) == key_set_items(*old(set))
        },
        !key_set_items(*old(set)).contains(key) ==> {
            &&& r.1
            &&& r.0 == key_set_items(*old(set)).len()
            &&& key_set_items(*final(set)) == key_set_items(*old(set)).push(key)
        },
{
    set.insert_full(key)
}

/// `IndexSet::len` for triple keys.
#[verifier::external_body]
pub(crate) fn key_set_len(set: &IndexSet<(Option<u32>, u32, u32, u32), BuildHasherDefault<AHasher>>) -> (n:
    usize)
    ensures
        n == key_set_items(*set).len(),
{
    set.len()
}

/// `IndexSet::get_index` for triple keys: the item at `index`, if there is
/// one.
#[verifier::external_body]
pub(crate) fn key_set_get(
    set: &IndexSet<(Option<u32>, u32, u32, u32), BuildHasherDefault<AHasher>>,
    index: usize,
) -> (r: Option<&(Option<u32>, u32, u32, u32)>)
    ensures
        index < key_set_items(*set).len() ==> r == Some(&key_set_items(*set)[index as int]),
        index >= key_set_items(*set).len() ==> r is None,
{
    set.get_index(index)
}

/// The items of a set of namespace IRIs, in insertion order, each taken by
/// its characters.
pub uninterp spec fn iri_set_items(set: IndexSet<String, BuildHasherDefault<AHasher>>) -> Seq<
    Seq<char>,
>;

/// `IndexSet::default()` for namespace IRIs: an empty set.
#[verifier::external_body]
pub(crate) fn iri_set_new() -> (set: IndexSet<String, BuildHasherDefault<AHasher>>)
    ensures
        iri_set_items(set) == Seq::<Seq<char>>::empty(),
{
    IndexSet::default()
}

/// `IndexSet::insert_full` for namespace IRIs, with the same behaviour as
/// `node_set_insert`; two strings are equal when their characters are.
#[verifier::external_body]
pub(crate) fn iri_set_insert(set: &mut IndexSet<String, BuildHasherDefault<AHasher>>, iri: String) -> (r: (
    usize,
    bool,
))
    ensures
        iri_set_items(*old(set)).contains(iri@) ==> {
            &&& !r.1
            &&& r.0 < iri_set_items(*old(set)).len()
            &&& iri_set_items(*old(set))[r.0 as int] == iri@
            &&& iri_set_items(*final(set)) == iri_set_items(*old(set))
        },
        !iri_set_items(*old(set)).contains(iri@) ==> {
            &&& r.1
            &&& r.0 == iri_set_items(*old(set)).len()
            &&& iri_set_items(*final(set)) == iri_set_items(*old(set)).push(iri@)
        },
{
    set.insert_full(iri)
}

/// `IndexSet::get_index_of` for namespace IRIs: the index of the item equal
/// to `iri`, if there is one.
#[verifier::external_body]
pub(crate) fn iri_set_index_of(set: &IndexSet<String, BuildHasherDefault<AHasher>>, iri: &str) -> (r:
    Option<usize>)
    ensures
        match r {
            Some(i) => i < iri_set_items(*set).len() && iri_set_items(*set)[i as int] == iri@,
            None => !iri_set_items(*set).contains(iri@),
        },
{
    set.get_index_of(iri)
}

} // verus!
