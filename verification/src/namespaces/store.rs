//! The interning store of namespaces: every IRI is stored once, under one
//! prefix, and no prefix stands for two IRIs.
use std::hash::BuildHasherDefault;

use ahash::AHasher;
use indexmap::IndexSet;
use vstd::prelude::*;

use crate::index_set::{iri_set_index_of, iri_set_insert, iri_set_items, iri_set_new};
use crate::namespaces::Namespace;
use crate::traits::WriteTriG;
use crate::utils::{
    decimal_chars, escape_local, push_decimal, str_equals, write_escaped_local_name, write_str,
};
use vstd::utf8::encode_utf8;

verus! {

/// A namespace as plain values: its prefix and its IRI.
pub type NamespaceEntry = (Seq<char>, Seq<char>);

/// A `NamespaceId` is the index of a namespace interned in a
/// `NamespaceStore`.
#[derive(Clone, Copy, Debug, PartialEq, Eq, Hash)]
pub struct NamespaceId(pub u32);

impl NamespaceId {
    /// The id for index `ix`, which a store never lets exceed `u32::MAX`.
    pub fn from(ix: usize) -> (id: NamespaceId)
        requires
            ix <= u32::MAX,
        ensures
            id.0 == ix,
    {
        NamespaceId(ix as u32)
    }
}

/// Whether some stored namespace uses the prefix `p`.
pub open spec fn prefix_taken(entries: Seq<NamespaceEntry>, p: Seq<char>) -> bool {
    exists|i: int| #![trigger entries[i]] 0 <= i < entries.len() && entries[i].0 == p
}

/// Whether some stored namespace has the IRI `iri`.
pub open spec fn iri_known(entries: Seq<NamespaceEntry>, iri: Seq<char>) -> bool {
    exists|i: int| #![trigger entries[i]] 0 <= i < entries.len() && entries[i].1 == iri
}

/// The prefix `base` followed by the decimal digits of `k`.
pub open spec fn suffixed(base: Seq<char>, k: nat) -> Seq<char> {
    base + decimal_chars(k)
}

/// The first suffix from `k` on whose prefix is free, stopping at `255`, the
/// largest suffix that is tried.
pub open spec fn first_free_suffix(entries: Seq<NamespaceEntry>, base: Seq<char>, k: nat) -> nat
    decreases 255 - k,
{
    if k >= 255 || !prefix_taken(entries, suffixed(base, k)) {
        k
    } else {
        first_free_suffix(entries, base, k + 1)
    }
}

/// The prefix given to a new IRI whose prefix `base` is taken: `base` with the
/// least suffix `0, 1, ..., 255` that makes it free.
pub open spec fn new_prefix(entries: Seq<NamespaceEntry>, base: Seq<char>) -> Seq<char> {
    suffixed(base, first_free_suffix(entries, base, 0))
}

/// Whether one of the suffixes `0` to `255` makes `base` a free prefix.
pub open spec fn has_free_suffix(entries: Seq<NamespaceEntry>, base: Seq<char>) -> bool {
    exists|k: nat| k <= 255 && !prefix_taken(entries, #[trigger] suffixed(base, k))
}

/// What interning `ns` does to the stored namespaces: nothing if its IRI is
/// known; otherwise it is appended, under a new prefix if its own is taken.
pub open spec fn interned(entries: Seq<NamespaceEntry>, ns: NamespaceEntry) -> Seq<NamespaceEntry> {
    if iri_known(entries, ns.1) {
        entries
    } else if prefix_taken(entries, ns.0) {
        entries.push((new_prefix(entries, ns.0), ns.1))
    } else {
        entries.push(ns)
    }
}

/// Interning `ns` is possible unless it would need a new prefix and all 256
/// suffixed prefixes are taken.
pub open spec fn can_intern(entries: Seq<NamespaceEntry>, ns: NamespaceEntry) -> bool {
    !iri_known(entries, ns.1) && prefix_taken(entries, ns.0) ==> has_free_suffix(entries, ns.0)
}

/// No two stored namespaces share a prefix or an IRI.
pub open spec fn entries_distinct(entries: Seq<NamespaceEntry>) -> bool {
    forall|i: int, j: int|
        #![trigger entries[i], entries[j]]
        0 <= i < j < entries.len() ==> entries[i].0 != entries[j].0 && entries[i].1 != entries[j].1
}

/// The least free suffix from `k` on is found before any free suffix `k0`.
proof fn lemma_first_free_suffix(entries: Seq<NamespaceEntry>, base: Seq<char>, k: nat, k0: nat)
    requires
        k <= k0 <= 255,
        !prefix_taken(entries, suffixed(base, k0)),
    ensures
        first_free_suffix(entries, base, k) <= k0,
        !prefix_taken(entries, suffixed(base, first_free_suffix(entries, base, k))),
    decreases k0 - k,
{
    if k < k0 && prefix_taken(entries, suffixed(base, k)) {
        lemma_first_free_suffix(entries, base, k + 1, k0);
    }
}

/// When some suffix frees `base`, the new prefix is free.
pub proof fn lemma_new_prefix_free(entries: Seq<NamespaceEntry>, base: Seq<char>)
    requires
        has_free_suffix(entries, base),
    ensures
        !prefix_taken(entries, new_prefix(entries, base)),
        first_free_suffix(entries, base, 0) <= 255,
{
    let k0 = choose|k: nat| k <= 255 && !prefix_taken(entries, #[trigger] suffixed(base, k));
    lemma_first_free_suffix(entries, base, 0, k0);
}

/// Interning keeps the stored prefixes and IRIs distinct.
pub proof fn lemma_interned_distinct(entries: Seq<NamespaceEntry>, ns: NamespaceEntry)
    requires
        entries_distinct(entries),
        can_intern(entries, ns),
    ensures
        entries_distinct(interned(entries, ns)),
{
    let r = interned(entries, ns);
    if !iri_known(entries, ns.1) {
        if prefix_taken(entries, ns.0) {
            lemma_new_prefix_free(entries, ns.0);
        }
        assert forall|i: int, j: int|
            #![trigger r[i], r[j]]
            0 <= i < j < r.len() implies r[i].0 != r[j].0 && r[i].1 != r[j].1 by {
            if j == entries.len() {
                assert(r[i] == entries[i]);
            }
        }
    }
}

/// Interning a namespace a second time, under any prefix, changes nothing:
/// its IRI is already stored, with the prefix it was first given.
pub proof fn lemma_intern_twice(entries: Seq<NamespaceEntry>, ns: NamespaceEntry, again: NamespaceEntry)
    requires
        again.1 == ns.1,
    ensures
        interned(interned(entries, ns), again) == interned(entries, ns),
        iri_known(interned(entries, ns), again.1),
{
    let r = interned(entries, ns);
    if !iri_known(entries, ns.1) {
        assert(r[entries.len() as int].1 == ns.1);
    }
}

/// The TriG declaration of one namespace: `@prefix prefix: <iri> .` and a
/// line break, the prefix escaped as a local name and the IRI as it is.
pub open spec fn prefix_declaration(ns: NamespaceEntry) -> Seq<u8> {
    encode_utf8("@prefix "@) + escape_local(encode_utf8(ns.0)) + encode_utf8(": <"@) + encode_utf8(
        ns.1,
    ) + encode_utf8("> .\n"@)
}

/// The declarations of a sequence of namespaces, in order.
pub open spec fn prefix_declarations(entries: Seq<NamespaceEntry>) -> Seq<u8>
    decreases entries.len(),
{
    if entries.len() == 0 {
        Seq::empty()
    } else {
        prefix_declarations(entries.drop_last()) + prefix_declaration(entries.last())
    }
}

/// A store of namespaces in insertion order: the namespaces themselves, and
/// indexmap's set of their IRIs, which finds an IRI's index.
#[derive(Debug)]
pub struct NamespaceStore {
    namespaces: Vec<Namespace>,
    iris: IndexSet<String, BuildHasherDefault<AHasher>>,
}

impl NamespaceStore {
    /// The stored namespaces, as (prefix, IRI); a namespace's id is its index
    /// here.
    pub closed spec fn entries(&self) -> Seq<NamespaceEntry> {
        self.namespaces@.map_values(|ns: Namespace| ns@)
    }

    #[verifier::type_invariant]
    closed spec fn wf(&self) -> bool {
        &&& iri_set_items(self.iris).len() == self.namespaces@.len()
        &&& forall|i: int|
            0 <= i < self.namespaces@.len() ==> iri_set_items(self.iris)[i]
                == #[trigger] self.namespaces@[i]@.1
        &&& entries_distinct(self.entries())
        &&& self.namespaces@.len() <= u32::MAX
    }

    /// Create an empty `NamespaceStore`.
    pub fn new() -> (s: NamespaceStore)
        ensures
            s.entries() == Seq::<NamespaceEntry>::empty(),
            entries_distinct(s.entries()),
    {
        let s = NamespaceStore { namespaces: Vec::new(), iris: iri_set_new() };
        assert(s.entries() =~= Seq::<NamespaceEntry>::empty());
        s
    }

    /// Add `ns` to this store and return its id. A known IRI keeps its id and
    /// the prefix it was first stored under; a new IRI is appended, and if its
    /// prefix is taken by another IRI it gets the least free suffix from `0`
    /// to `255`.
    pub fn intern_namespace(&mut self, ns: Namespace) -> (id: NamespaceId)
        requires
            old(self).entries().len() < u32::MAX,
            can_intern(old(self).entries(), ns@),
        ensures
            final(self).entries() == interned(old(self).entries(), ns@),
            id.0 < final(self).entries().len(),
            final(self).entries()[id.0 as int].1 == ns@.1,
            entries_distinct(final(self).entries()),
    {
        proof {
            use_type_invariant(&*self);
        }
        match iri_set_index_of(&self.iris, ns.iri()) {
            Some(ix) => {
                assert(self.entries()[ix as int] == self.namespaces@[ix as int]@);
                NamespaceId::from(ix)
            },
            None => {
                let ghost e = self.entries();
                assert(!iri_known(e, ns@.1)) by {
                    if iri_known(e, ns@.1) {
                        let i = choose|i: int| #![trigger e[i]] 0 <= i < e.len() && e[i].1 == ns@.1;
                        assert(iri_set_items(self.iris)[i] == ns@.1);
                    }
                };
                let to_store = match self.query_existing_prefix(&ns) {
                    Some(_) => self.find_new_prefix(ns),
                    None => ns,
                };
                proof {
                    lemma_interned_distinct(e, ns@);
                }
                let ix = self.namespaces.len();
                let iri = to_store.iri().to_owned();
                self.push(to_store, iri);
                NamespaceId::from(ix)
            },
        }
    }

    /// Appends `ns`, whose IRI is `iri` and new to this store.
    fn push(&mut self, ns: Namespace, iri: String)
        requires
            iri@ == ns@.1,
            !iri_known(old(self).entries(), ns@.1),
            entries_distinct(old(self).entries().push(ns@)),
            old(self).entries().len() < u32::MAX,
        ensures
            final(self).entries() == old(self).entries().push(ns@),
    {
        proof {
            use_type_invariant(&*self);
        }
        let ghost e = self.entries();
        let mut taken = NamespaceStore::new();
        std::mem::swap(&mut taken, self);
        let NamespaceStore { mut namespaces, mut iris } = taken;
        assert(!iri_set_items(iris).contains(iri@)) by {
            if iri_set_items(iris).contains(iri@) {
                let i = choose|i: int|
                    0 <= i < iri_set_items(iris).len() && iri_set_items(iris)[i] == iri@;
                assert(e[i].1 == namespaces@[i]@.1);
            }
        };
        iri_set_insert(&mut iris, iri);
        namespaces.push(ns);
        assert(namespaces@.map_values(|n: Namespace| n@) =~= e.push(ns@));
        *self = NamespaceStore { namespaces, iris };
    }

    /// The namespace interned under `namespace_id`.
    pub fn query_namespace(&self, namespace_id: NamespaceId) -> (ns: &Namespace)
        requires
            namespace_id.0 < self.entries().len(),
        ensures
            ns@ == self.entries()[namespace_id.0 as int],
    {
        &self.namespaces[namespace_id.0 as usize]
    }

    /// The stored namespace whose prefix is that of `ns`, if there is one.
    /// Its IRI may differ from that of `ns`.
    pub fn query_existing_prefix(&self, ns: &Namespace) -> (r: Option<&Namespace>)
        ensures
            r is Some <==> prefix_taken(self.entries(), ns@.0),
            r matches Some(found) ==> found@.0 == ns@.0 && self.entries().contains(found@),
    {
        let n = self.namespaces.len();
        let mut i: usize = 0;
        while i < n
            invariant
                n == self.namespaces@.len(),
                i <= n,
                forall|k: int| 0 <= k < i ==> #[trigger] self.entries()[k].0 != ns@.0,
            decreases n - i,
        {
            let candidate = &self.namespaces[i];
            if str_equals(candidate.prefix(), ns.prefix()) {
                assert(self.entries()[i as int] == candidate@);
                return Some(candidate);
            }
            assert(self.entries()[i as int] == candidate@);
            i = i + 1;
        }
        None
    }

    /// `ns` with its prefix replaced by the least of `prefix0`, `prefix1`,
    /// ..., `prefix255` that no stored namespace uses. Calls with all of
    /// these taken are refused (the count of suffixes is bounded by a `u8`).
    pub fn find_new_prefix(&self, ns: Namespace) -> (r: Namespace)
        requires
            has_free_suffix(self.entries(), ns@.0),
        ensures
            r@ == (new_prefix(self.entries(), ns@.0), ns@.1),
    {
        let ghost e = self.entries();
        let ghost base = ns@.0;
        let ghost iri = ns@.1;
        proof {
            lemma_new_prefix_free(e, base);
        }
        let prefix_base: String = ns.prefix().to_owned();
        let mut out = ns;
        let mut suffix: u8 = 0;
        loop
            invariant
                e == self.entries(),
                prefix_base@ == base,
                base == ns@.0,
                iri == ns@.1,
                out@.1 == iri,
                suffix <= first_free_suffix(e, base, 0),
                first_free_suffix(e, base, suffix as nat) == first_free_suffix(e, base, 0),
                first_free_suffix(e, base, 0) <= 255,
                !prefix_taken(e, new_prefix(e, base)),
            decreases 255 - suffix,
        {
            let mut candidate: String = prefix_base.as_str().to_owned();
            push_decimal(&mut candidate, suffix as u64);
            out.set_prefix(candidate);
            if self.query_existing_prefix(&out).is_none() {
                assert(first_free_suffix(e, base, suffix as nat) == suffix as nat);
                return out;
            }
            suffix = suffix + 1;
        }
    }
}

impl WriteTriG for NamespaceStore {
    /// One prefix declaration per stored namespace, in insertion order.
    open spec fn trig(&self) -> Seq<u8> {
        prefix_declarations(self.entries())
    }

    fn write_trig(&self, writer: &mut Vec<u8>) {
        let n = self.namespaces.len();
        let mut i: usize = 0;
        while i < n
            invariant
                n == self.entries().len(),
                i <= n,
                writer@ == old(writer)@ + prefix_declarations(self.entries().take(i as int)),
            decreases n - i,
        {
            let ns = &self.namespaces[i];
            assert(self.entries()[i as int] == ns@);
            write_str(writer, "@prefix ");
            write_escaped_local_name(writer, ns.prefix());
            write_str(writer, ": <");
            write_str(writer, ns.iri());
            write_str(writer, "> .\n");
            assert(self.entries().take(i + 1).drop_last() =~= self.entries().take(i as int));
            i = i + 1;
        }
        assert(self.entries().take(n as int) =~= self.entries());
    }
}

} // verus!
