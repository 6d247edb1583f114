//! The `TripleStore`: the entry point of this crate, which interns triples
//! and writes them as N-Quads or TriG.
pub mod trig_impl;

use vstd::prelude::*;

use vstd::utf8::encode_utf8;

use crate::nodes::literals::xsd_namespace;
use crate::nodes::{node_values, Node, NodeId, NodeStore, NodeValue};
use crate::traits::{WriteNQuads, WriteTriG};
use trig_impl::{
    concat_range, graph_blocks, grouped, grouping_merged, key_ids_below, lemma_trig_grouping_holds_keys,
    lemma_trig_grouping_merged, lemma_trig_grouping_wf, trig_document, trig_grouping, TriGStore,
};
use crate::triples::view::quad_line;
use crate::triples::{
    triple_keys, InternedTriple, InternedTripleStore, QuadValue, Triple, TripleKey, TripleView,
};

verus! {

/// The values of the nodes that an interned key refers to.
pub open spec fn resolve(nodes: Seq<NodeValue>, k: TripleKey) -> QuadValue {
    (
        match k.0 {
            Some(g) => Some(nodes[g as int]),
            None => None,
        },
        nodes[k.1 as int],
        nodes[k.2 as int],
        nodes[k.3 as int],
    )
}

/// The values of interned nodes after interning a node of value `x`:
/// unchanged when `x` is there, otherwise with `x` appended.
pub open spec fn node_added(nodes: Seq<NodeValue>, x: NodeValue) -> Seq<NodeValue> {
    if nodes.contains(x) {
        nodes
    } else {
        nodes.push(x)
    }
}

/// The values of interned nodes after interning the nodes of `q` in the order
/// graph, subject, predicate, object: each new value gets the next id.
pub open spec fn quad_nodes_added(nodes: Seq<NodeValue>, q: QuadValue) -> Seq<NodeValue> {
    let with_graph = match q.0 {
        Some(g) => node_added(nodes, g),
        None => nodes,
    };
    node_added(node_added(node_added(with_graph, q.1), q.2), q.3)
}

/// Whether the value of every node of `q` is among `nodes`.
pub open spec fn quad_nodes_in(nodes: Seq<NodeValue>, q: QuadValue) -> bool {
    &&& (q.0 matches Some(g) ==> nodes.contains(g))
    &&& nodes.contains(q.1)
    &&& nodes.contains(q.2)
    &&& nodes.contains(q.3)
}

/// Whether every id of a key refers to one of `n` nodes.
pub open spec fn key_in_range(n: nat, k: TripleKey) -> bool {
    &&& (k.0 matches Some(g) ==> g < n)
    &&& k.1 < n
    &&& k.2 < n
    &&& k.3 < n
}

/// The N-Quads document of a sequence of quads: one line per quad, in order.
pub open spec fn quads_nquads(qs: Seq<QuadValue>) -> Seq<u8>
    decreases qs.len(),
{
    if qs.len() == 0 {
        Seq::empty()
    } else {
        quads_nquads(qs.drop_last()) + quad_line(qs.last())
    }
}

/// The triples of a store after adding `q`: unchanged when `q` is already
/// there, otherwise with `q` appended.
pub open spec fn added(qs: Seq<QuadValue>, q: QuadValue) -> Seq<QuadValue> {
    if qs.contains(q) {
        qs
    } else {
        qs.push(q)
    }
}

/// Adding a triple twice is the same as adding it once, and adding keeps the
/// triples already held, in their order, followed by the new one.
pub proof fn lemma_add_twice(qs: Seq<QuadValue>, q: QuadValue)
    ensures
        added(added(qs, q), q) == added(qs, q),
        added(qs, q).take(qs.len() as int) == qs,
        added(qs, q).contains(q),
        qs.no_duplicates() ==> added(qs, q).no_duplicates(),
{
    assert(qs.push(q).take(qs.len() as int) =~= qs);
    assert(qs.take(qs.len() as int) =~= qs);
    assert(qs.push(q)[qs.len() as int] == q);
}

/// Two keys in range of distinct values that resolve to the same values are
/// the same key.
proof fn lemma_resolve_injective(nodes: Seq<NodeValue>, a: TripleKey, b: TripleKey)
    requires
        nodes.no_duplicates(),
        key_in_range(nodes.len(), a),
        key_in_range(nodes.len(), b),
        resolve(nodes, a) == resolve(nodes, b),
    ensures
        a == b,
{
    match (a.0, b.0) {
        (Some(x), Some(y)) => {
            assert(nodes[x as int] == nodes[y as int]);
        },
        _ => {},
    }
}

/// The store that triples are added to and written from.
///
/// Every node of every triple is interned once, in a `NodeStore`; every
/// distinct triple is interned once, as the ids of its nodes, in insertion
/// order.
#[derive(Debug)]
pub struct TripleStore {
    nodes: NodeStore,
    triples: InternedTripleStore,
}

impl TripleStore {
    /// The interned nodes, in insertion order.
    pub closed spec fn nodes(&self) -> Seq<Node> {
        self.nodes.items()
    }

    /// The values of the interned nodes, in insertion order: the ids of a
    /// triple's key index here.
    pub open spec fn values(&self) -> Seq<NodeValue> {
        node_values(self.nodes())
    }

    /// The interned triples as keys of node ids, in insertion order.
    pub closed spec fn keys(&self) -> Seq<TripleKey> {
        self.triples.items()
    }

    /// The distinct triples of the store, as the values of the nodes they are
    /// made of, in the order in which each was first added.
    pub open spec fn quads(&self) -> Seq<QuadValue> {
        self.keys().map_values(|k: TripleKey| resolve(self.values(), k))
    }

    /// Node values and triples are each interned once, and every id of a
    /// triple refers to an interned node.
    #[verifier::type_invariant]
    closed spec fn wf(&self) -> bool {
        &&& self.values().no_duplicates()
        &&& self.keys().no_duplicates()
        &&& self.keys().len() < u32::MAX
        &&& forall|i: int|
            0 <= i < self.keys().len() ==> key_in_range(self.nodes().len(), #[trigger] self.keys()[i])
    }

    /// Create an empty `TripleStore`.
    pub fn new() -> (s: TripleStore)
        ensures
            s.quads() == Seq::<QuadValue>::empty(),
            s.nodes().len() == 0,
            s.quads().no_duplicates(),
            s.values().no_duplicates(),
    {
        let s = TripleStore { nodes: NodeStore::new(), triples: InternedTripleStore::new() };
        assert(s.quads() =~= Seq::<QuadValue>::empty());
        s
    }

    /// The number of distinct triples in the store.
    pub fn len(&self) -> (n: usize)
        ensures
            n == self.quads().len(),
    {
        self.triples.len()
    }

    /// The number of distinct nodes in the store.
    pub fn node_count(&self) -> (n: usize)
        ensures
            n == self.nodes().len(),
    {
        self.nodes.len()
    }

    /// Add `triple` to this store. A triple that the store already holds is
    /// not added again: triples, like nodes, are told apart by their values,
    /// so a triple built anew from equal parts is the same triple.
    pub fn add_triple(&mut self, triple: Triple)
        requires
            old(self).nodes().len() + 4 <= u32::MAX,
            old(self).quads().len() + 1 < u32::MAX,
        ensures
            final(self).quads() == added(old(self).quads(), triple.value()),
            final(self).quads().no_duplicates(),
            final(self).values().no_duplicates(),
            final(self).values() == quad_nodes_added(old(self).values(), triple.value()),
            old(self).quads().contains(triple.value()) ==> final(self).nodes() == old(self).nodes()
                && final(self).keys() == old(self).keys(),
            final(self).nodes().len() <= old(self).nodes().len() + 4,
    {
        proof {
            use_type_invariant(&*self);
        }
        let ghost q = triple.value();
        let ghost old_quads = self.quads();
        let mut store = TripleStore::new();
        std::mem::swap(&mut store, self);
        let TripleStore { mut nodes, mut triples } = store;
        let ghost old_nodes = nodes.values();
        let ghost keys = triples.items();
        assert(old_quads =~= keys.map_values(|k: TripleKey| resolve(old_nodes, k)));

        let interned = Self::intern_triple(&mut nodes, triple);
        let ghost new_nodes = nodes.values();
        let ghost k = interned@;
        assert forall|i: int| 0 <= i < keys.len() implies resolve(new_nodes, #[trigger] keys[i])
            == resolve(old_nodes, keys[i]) && key_in_range(new_nodes.len(), keys[i]) by {
            assert(key_in_range(old_nodes.len(), keys[i]));
        }
        proof {
            if old_quads.contains(q) {
                let i = choose|i: int| 0 <= i < old_quads.len() && old_quads[i] == q;
                assert(key_in_range(old_nodes.len(), keys[i]));
                match keys[i].0 {
                    Some(g) => {
                        assert(old_nodes.contains(old_nodes[g as int]));
                    },
                    None => {},
                }
                assert(old_nodes.contains(old_nodes[keys[i].1 as int]));
                assert(old_nodes.contains(old_nodes[keys[i].2 as int]));
                assert(old_nodes.contains(old_nodes[keys[i].3 as int]));
                assert(quad_nodes_in(old_nodes, q));
                assert(new_nodes == old_nodes);
                assert(resolve(new_nodes, keys[i]) == q);
                lemma_resolve_injective(new_nodes, keys[i], k);
                assert(keys.contains(k));
            }
            if keys.contains(k) {
                let i = choose|i: int| 0 <= i < keys.len() && keys[i] == k;
                assert(old_quads[i] == q);
            }
        }
        triples.intern_triple(interned);
        *self = TripleStore { nodes, triples };
        assert(old_quads.contains(q) ==> self.quads() =~= old_quads);
        assert(!old_quads.contains(q) ==> self.quads() =~= old_quads.push(q));
        proof {
            use_type_invariant(&*self);
            self.lemma_quads_distinct();
        }
    }

    /// Distinct keys of distinct nodes resolve to distinct triples.
    proof fn lemma_quads_distinct(&self)
        requires
            self.values().no_duplicates(),
            self.keys().no_duplicates(),
            forall|i: int|
                0 <= i < self.keys().len() ==> key_in_range(
                    self.nodes().len(),
                    #[trigger] self.keys()[i],
                ),
        ensures
            self.quads().no_duplicates(),
    {
        assert forall|i: int, j: int|
            0 <= i < self.quads().len() && 0 <= j < self.quads().len() && i != j implies self.quads()[i]
            != self.quads()[j] by {
            if self.quads()[i] == self.quads()[j] {
                lemma_resolve_injective(self.values(), self.keys()[i], self.keys()[j]);
            }
        }
    }

    /// The TriG document of a store writes each of its triples exactly once,
    /// and no other triple: its grouping holds a key resolving to `q` exactly
    /// when the store holds `q`, and has one object per triple.
    pub proof fn lemma_trig_writes_the_triples(&self, q: QuadValue)
        requires
            self.quads().len() < usize::MAX,
        ensures
            (exists|k: TripleKey| #[trigger] grouped(trig_grouping(self.keys()), k) && resolve(
                self.values(),
                k,
            ) == q) <==> self.quads().contains(q),
            trig_grouping(self.keys()).object_nodes.len() == self.quads().len(),
    {
        let keys = self.keys();
        lemma_trig_grouping_holds_keys(keys, arbitrary());
        if exists|k: TripleKey| #[trigger] grouped(trig_grouping(keys), k) && resolve(self.values(), k) == q {
            let k = choose|k: TripleKey| #[trigger] grouped(trig_grouping(keys), k) && resolve(self.values(), k) == q;
            lemma_trig_grouping_holds_keys(keys, k);
            let i = choose|i: int| 0 <= i < keys.len() && keys[i] == k;
            assert(self.quads()[i] == q);
        }
        if self.quads().contains(q) {
            let i = choose|i: int| 0 <= i < self.quads().len() && self.quads()[i] == q;
            lemma_trig_grouping_holds_keys(keys, keys[i]);
            assert(grouped(trig_grouping(keys), keys[i]));
        }
    }

    /// In the TriG document of a store every graph is written once, and
    /// within its graph, subject and predicate every subject, predicate and
    /// object is written once.
    pub proof fn lemma_trig_merges(&self)
        requires
            self.quads().len() < usize::MAX,
            self.quads().no_duplicates(),
        ensures
            grouping_merged(trig_grouping(self.keys())),
    {
        let keys = self.keys();
        assert(keys.no_duplicates()) by {
            assert forall|i: int, j: int| 0 <= i < keys.len() && 0 <= j < keys.len() && i != j implies keys[i]
                != keys[j] by {
                assert(self.quads()[i] != self.quads()[j]);
            }
        }
        lemma_trig_grouping_merged(keys);
    }

    /// Every TriG document of a store opens by binding the `xsd:` prefix,
    /// which typed literals use, to the XML Schema namespace that N-Quads
    /// writes in full.
    pub proof fn lemma_trig_declares_xsd(&self)
        ensures
            self.trig().take(encode_utf8("@prefix xsd: <"@ + xsd_namespace() + "> . "@).len() as int)
                == encode_utf8("@prefix xsd: <"@ + xsd_namespace() + "> . "@),
    {
        reveal_strlit("@prefix xsd: <http://www.w3.org/2001/XMLSchema#> . ");
        reveal_strlit("@prefix xsd: <");
        reveal_strlit("http://www.w3.org/2001/XMLSchema#");
        reveal_strlit("> . ");
        let head = "@prefix xsd: <"@ + xsd_namespace() + "> . "@;
        assert("@prefix xsd: <http://www.w3.org/2001/XMLSchema#> . "@ =~= head);
        let m = trig_grouping(self.keys());
        let rest = concat_range(0, m.graph_nodes.len() as int, graph_blocks(m, self.values()));
        assert((encode_utf8(head) + rest).take(encode_utf8(head).len() as int) =~= encode_utf8(head));
    }

    /// The node interned under `node_id`.
    fn resolve_node(&self, node_id: NodeId) -> (n: &Node)
        requires
            node_id.0 < self.nodes().len(),
        ensures
            *n == self.nodes()[node_id.0 as int],
    {
        self.nodes.query_node(node_id)
    }

    /// A view of the nodes that `interned` refers to.
    fn resolve_triple_view_from_interned<'a>(&'a self, interned: &InternedTriple) -> (v: TripleView<'a>)
        requires
            key_in_range(self.nodes().len(), interned@),
        ensures
            v@ == resolve(self.values(), interned@),
    {
        let graph = match interned.graph() {
            Some(g) => Some(self.resolve_node(g)),
            None => None,
        };
        TripleView::new(
            graph,
            self.resolve_node(interned.subject()),
            self.resolve_node(interned.predicate()),
            self.resolve_node(interned.object()),
        )
    }

    /// Collect the interned triples and group them for TriG. Sorting them is
    /// an O(n log n) cost paid only when writing TriG, for a smaller output.
    fn to_trig_store(&self) -> (s: TriGStore)
        ensures
            s.model() == trig_grouping(self.keys()),
    {
        proof {
            use_type_invariant(self);
        }
        let n = self.triples.len();
        let mut collected: Vec<InternedTriple> = Vec::with_capacity(n);
        let mut i: usize = 0;
        while i < n
            invariant
                n == self.keys().len(),
                i <= n,
                collected@.len() == i,
                triple_keys(collected@) == self.keys().take(i as int),
            decreases n - i,
        {
            let t = self.triples.get(i);
            let ghost before = collected@;
            collected.push(t);
            assert(triple_keys(collected@) =~= self.keys().take(i + 1)) by {
                assert(collected@ == before.push(t));
                assert(triple_keys(before) == self.keys().take(i as int));
                assert forall|k: int| 0 <= k < i implies #[trigger] triple_keys(collected@)[k] == self.keys().take(i + 1)[k] by {
                    assert(collected@[k] == before[k]);
                    assert(triple_keys(before)[k] == self.keys()[k]);
                }
            }
            i = i + 1;
        }
        assert(self.keys().take(n as int) =~= self.keys());
        TriGStore::new(collected)
    }

    /// Intern every node of `triple`, returning the triple of their ids.
    fn intern_triple(nodes: &mut NodeStore, triple: Triple) -> (t: InternedTriple)
        requires
            old(nodes).items().len() + 4 <= u32::MAX,
            old(nodes).values().no_duplicates(),
        ensures
            final(nodes).values().no_duplicates(),
            old(nodes).items().len() <= final(nodes).items().len() <= old(nodes).items().len() + 4,
            final(nodes).items().subrange(0, old(nodes).items().len() as int) == old(nodes).items(),
            key_in_range(final(nodes).items().len(), t@),
            resolve(final(nodes).values(), t@) == triple.value(),
            quad_nodes_in(old(nodes).values(), triple.value()) ==> final(nodes).items() == old(
                nodes,
            ).items(),
            final(nodes).values() == quad_nodes_added(old(nodes).values(), triple.value()),
    {
        let ghost n0 = nodes.items();
        let (graph, subject, predicate, object) = triple.into_parts();
        let graph_id = match graph {
            Some(g) => Some(Self::intern_node(nodes, Node::from(g))),
            None => None,
        };
        let ghost n1 = nodes.items();
        let subject_id = Self::intern_node(nodes, Node::from(subject));
        let ghost n2 = nodes.items();
        let predicate_id = Self::intern_node(nodes, Node::from(predicate));
        let ghost n3 = nodes.items();
        let object_id = Self::intern_node(nodes, Node::from(object));
        let ghost n4 = nodes.items();
        proof {
            assert(n4.subrange(0, n3.len() as int) == n3);
            assert(n4.subrange(0, n2.len() as int) =~= n2) by {
                assert(n3.subrange(0, n2.len() as int) == n2);
            }
            assert(n4.subrange(0, n1.len() as int) =~= n1) by {
                assert(n3.subrange(0, n2.len() as int) == n2);
                assert(n2.subrange(0, n1.len() as int) == n1);
            }
            assert(n4.subrange(0, n0.len() as int) =~= n0) by {
                assert(n3.subrange(0, n2.len() as int) == n2);
                assert(n2.subrange(0, n1.len() as int) == n1);
                assert(n1.subrange(0, n0.len() as int) == n0);
            }
            assert(n4[subject_id.0 as int] == n2[subject_id.0 as int]);
            assert(n4[predicate_id.0 as int] == n3[predicate_id.0 as int]);
            match graph_id {
                Some(g) => {
                    assert(n4[g.0 as int] == n1[g.0 as int]);
                },
                None => {},
            }
        }
        InternedTriple::new(graph_id, subject_id, predicate_id, object_id)
    }

    /// Intern `node`, keeping the values distinct.
    fn intern_node(nodes: &mut NodeStore, node: Node) -> (id: NodeId)
        requires
            old(nodes).items().len() < u32::MAX,
            old(nodes).values().no_duplicates(),
        ensures
            final(nodes).values().no_duplicates(),
            old(nodes).items().len() <= final(nodes).items().len() <= old(nodes).items().len() + 1,
            final(nodes).items().subrange(0, old(nodes).items().len() as int) == old(nodes).items(),
            id.0 < final(nodes).items().len(),
            final(nodes).values()[id.0 as int] == node@,
            old(nodes).values().contains(node@) ==> final(nodes).items() == old(nodes).items(),
            final(nodes).values() == node_added(old(nodes).values(), node@),
    {
        let ghost before = nodes.items();
        let id = nodes.intern_node(node);
        assert(nodes.items().subrange(0, before.len() as int) =~= before);
        assert(!node_values(before).contains(node@) ==> nodes.values() =~= node_values(before).push(
            node@,
        ));
        id
    }
}

impl WriteNQuads for TripleStore {
    /// One line per distinct triple, in the order in which the triples were
    /// first added; graphs in any order.
    open spec fn nquads(&self) -> Seq<u8> {
        quads_nquads(self.quads())
    }

    fn write_nquads(&self, writer: &mut Vec<u8>) {
        let n = self.triples.len();
        let mut i: usize = 0;
        while i < n
            invariant
                n == self.quads().len(),
                i <= n,
                writer@ == old(writer)@ + quads_nquads(self.quads().take(i as int)),
            decreases n - i,
        {
            proof {
                use_type_invariant(self);
            }
            let interned = self.triples.get(i);
            assert(key_in_range(self.nodes().len(), self.keys()[i as int]));
            let view = self.resolve_triple_view_from_interned(&interned);
            view.write_nquads(writer);
            assert(self.quads().take(i + 1).drop_last() =~= self.quads().take(i as int));
            i = i + 1;
        }
        assert(self.quads().take(n as int) =~= self.quads());
    }
}

impl WriteTriG for TripleStore {
    /// The TriG document of the store's triples sorted by graph, subject,
    /// predicate and object ids, grouped so that each graph, and each subject
    /// within it, is written once.
    open spec fn trig(&self) -> Seq<u8> {
        trig_document(trig_grouping(self.keys()), self.values())
    }

    fn write_trig(&self, writer: &mut Vec<u8>) {
        proof {
            use_type_invariant(self);
            assert forall|i: int| 0 <= i < self.keys().len() implies key_ids_below(
                #[trigger] self.keys()[i],
                self.nodes().len() as int,
            ) by {
                assert(key_in_range(self.nodes().len(), self.keys()[i]));
            }
            lemma_trig_grouping_wf(self.keys(), self.nodes().len() as int);
        }
        self.to_trig_store().write_store_trig(writer, &self.nodes);
    }
}

} // verus!
