//! The interning store of triples: every distinct triple of node ids is kept
//! once, in insertion order.
use std::hash::BuildHasherDefault;

use ahash::AHasher;
use indexmap::IndexSet;
use vstd::prelude::*;

use crate::index_set::{key_set_get, key_set_insert, key_set_items, key_set_len, key_set_new};
use crate::triples::{InternedTriple, TripleKey};

verus! {

/// The index of an interned triple, held as a `u32`.
#[derive(Clone, Copy, Debug, PartialEq, Eq, Hash)]
pub struct InternedTripleId(pub u32);

impl InternedTripleId {
    /// The id for index `ix`. The store never holds more than `u32::MAX`
    /// triples, so `ix` always fits.
    pub fn from(ix: usize) -> (id: InternedTripleId)
        requires
            ix <= u32::MAX,
        ensures
            id.0 == ix,
    {
        InternedTripleId(ix as u32)
    }
}

/// A set of unique interned triples in insertion order.
#[derive(Debug)]
pub struct InternedTripleStore(IndexSet<TripleKey, BuildHasherDefault<AHasher>>);

impl InternedTripleStore {
    /// The keys of the interned triples, in insertion order.
    pub closed spec fn items(&self) -> Seq<TripleKey> {
        key_set_items(self.0)
    }

    /// Create an empty `InternedTripleStore`.
    pub fn new() -> (s: InternedTripleStore)
        ensures
            s.items() == Seq::<TripleKey>::empty(),
    {
        InternedTripleStore(key_set_new())
    }

    /// The number of interned triples.
    pub fn len(&self) -> (n: usize)
        ensures
            n == self.items().len(),
    {
        key_set_len(&self.0)
    }

    /// Intern `triple`, returning its id: the id of the equal triple already
    /// interned, or the id of `triple` appended at the end.
    pub fn intern_triple(&mut self, triple: InternedTriple) -> (id: InternedTripleId)
        requires
            old(self).items().len() < u32::MAX,
        ensures
            old(self).items().contains(triple@) ==> final(self).items() == old(self).items(),
            !old(self).items().contains(triple@) ==> final(self).items() == old(self).items().push(
                triple@,
            ),
            id.0 < final(self).items().len(),
            final(self).items()[id.0 as int] == triple@,
    {
        let (ix, _) = key_set_insert(&mut self.0, triple.key());
        InternedTripleId::from(ix)
    }

    /// The triple interned at `index`.
    pub fn get(&self, index: usize) -> (t: InternedTriple)
        requires
            index < self.items().len(),
        ensures
            t@ == self.items()[index as int],
    {
        let key = key_set_get(&self.0, index).unwrap();
        InternedTriple::from_key(*key)
    }
}

} // verus!
