//! The grouping of a store's triples for TriG, in the "compressed sparse row"
//! layout: the distinct graphs, subjects, predicates and objects of the sorted
//! triples, each level with offsets into the next.
use vstd::prelude::*;
use vstd::relations::sorted_by;
use vstd::utf8::encode_utf8;

use crate::nodes::{value_trig, NodeId, NodeStore, NodeValue};
use crate::traits::WriteTriG;
use crate::triples::{triple_keys, InternedTriple, TripleKey};
use crate::utils::write_str;

verus! {

/// The order of TriG output: graph (the default graph first, then by id),
/// then subject, predicate and object ids. This is the order of `Option` and
/// of tuples of integers.
pub open spec fn key_le(a: TripleKey, b: TripleKey) -> bool {
    let graph_lt = match (a.0, b.0) {
        (None, Some(_)) => true,
        (Some(x), Some(y)) => x < y,
        _ => false,
    };
    ||| graph_lt
    ||| a.0 == b.0 && a.1 < b.1
    ||| a.0 == b.0 && a.1 == b.1 && a.2 < b.2
    ||| a.0 == b.0 && a.1 == b.1 && a.2 == b.2 && a.3 <= b.3
}

/// `key_le` as a function value, the form `sorted_by` and `sort_by` take.
pub open spec fn key_order() -> spec_fn(TripleKey, TripleKey) -> bool {
    |a: TripleKey, b: TripleKey| key_le(a, b)
}

/// Sorts `keys` with std's `slice::sort_unstable`: the result is a
/// permutation of the input, ordered by the `Ord` of
/// `(Option<u32>, u32, u32, u32)`, which is `key_le`.
#[verifier::external_body]
fn sort_keys(keys: &mut Vec<TripleKey>)
    ensures
        sorted_by(final(keys)@, key_order()),
        final(keys)@.to_multiset() == old(keys)@.to_multiset(),
{
    keys.sort_unstable();
}

/// The contents of a `TriGStore`, by field.
pub struct TrigModel {
    pub graph_nodes: Seq<Option<NodeId>>,
    pub subject_offsets: Seq<usize>,
    pub subject_nodes: Seq<NodeId>,
    pub predicate_offsets: Seq<usize>,
    pub predicate_nodes: Seq<NodeId>,
    pub object_offsets: Seq<usize>,
    pub object_nodes: Seq<NodeId>,
}

/// The graph id of a key.
pub open spec fn key_graph(k: TripleKey) -> Option<NodeId> {
    match k.0 {
        Some(g) => Some(NodeId(g)),
        None => None,
    }
}

/// A grouping with no triple.
pub open spec fn empty_model() -> TrigModel {
    TrigModel {
        graph_nodes: Seq::empty(),
        subject_offsets: Seq::empty(),
        subject_nodes: Seq::empty(),
        predicate_offsets: Seq::empty(),
        predicate_nodes: Seq::empty(),
        object_offsets: Seq::empty(),
        object_nodes: Seq::empty(),
    }
}

/// Adds one triple, which comes after every triple already grouped, to a
/// grouping whose closing offsets are not yet written. A new graph starts when
/// the graph differs from the last one; a new subject when the graph is new or
/// the subject differs; a new predicate when the subject is new or the
/// predicate differs. Every triple adds its object.
pub open spec fn push_triple(m: TrigModel, k: TripleKey) -> TrigModel {
    let g = key_graph(k);
    let new_graph = m.graph_nodes.len() == 0 || m.graph_nodes.last() != g;
    let new_subject = new_graph || m.subject_nodes.last() != NodeId(k.1);
    let new_predicate = new_subject || m.predicate_nodes.last() != NodeId(k.2);
    TrigModel {
        graph_nodes: if new_graph {
            m.graph_nodes.push(g)
        } else {
            m.graph_nodes
        },
        subject_offsets: if new_graph {
            m.subject_offsets.push(m.subject_nodes.len() as usize)
        } else {
            m.subject_offsets
        },
        subject_nodes: if new_subject {
            m.subject_nodes.push(NodeId(k.1))
        } else {
            m.subject_nodes
        },
        predicate_offsets: if new_subject {
            m.predicate_offsets.push(m.predicate_nodes.len() as usize)
        } else {
            m.predicate_offsets
        },
        predicate_nodes: if new_predicate {
            m.predicate_nodes.push(NodeId(k.2))
        } else {
            m.predicate_nodes
        },
        object_offsets: if new_predicate {
            m.object_offsets.push(m.object_nodes.len() as usize)
        } else {
            m.object_offsets
        },
        object_nodes: m.object_nodes.push(NodeId(k.3)),
    }
}

/// The grouping of a sequence of sorted triples, without closing offsets.
pub open spec fn group_keys(keys: Seq<TripleKey>) -> TrigModel
    decreases keys.len(),
{
    if keys.len() == 0 {
        empty_model()
    } else {
        push_triple(group_keys(keys.drop_last()), keys.last())
    }
}

/// A grouping closed by its final offsets: the length of each next level.
pub open spec fn close_model(m: TrigModel) -> TrigModel {
    TrigModel {
        subject_offsets: m.subject_offsets.push(m.subject_nodes.len() as usize),
        predicate_offsets: m.predicate_offsets.push(m.predicate_nodes.len() as usize),
        object_offsets: m.object_offsets.push(m.object_nodes.len() as usize),
        ..m
    }
}

/// The TriG grouping of a set of triple keys: the keys sorted, then grouped.
pub open spec fn trig_grouping(keys: Seq<TripleKey>) -> TrigModel {
    close_model(group_keys(keys.sort_by(key_order())))
}


/// The concatenation of `f(lo)`, `f(lo + 1)`, ..., `f(hi - 1)`.
pub open spec fn concat_range<A>(lo: int, hi: int, f: spec_fn(int) -> Seq<A>) -> Seq<A>
    decreases hi - lo,
{
    if hi <= lo {
        Seq::empty()
    } else {
        concat_range(lo, hi - 1, f) + f(hi - 1)
    }
}

/// Offsets of `groups` non-empty groups over `items` items: one offset per
/// group and a closing one, strictly increasing from `0` to `items`.
pub open spec fn offsets_ok(offsets: Seq<usize>, groups: int, items: int) -> bool {
    &&& offsets.len() == groups + 1
    &&& offsets[0] == 0
    &&& offsets[groups] == items
    &&& forall|i: int, j: int| 0 <= i < j <= groups ==> offsets[i] < offsets[j]
}

/// Every level's offsets are well formed over the next level.
pub open spec fn model_wf(m: TrigModel) -> bool {
    &&& offsets_ok(m.subject_offsets, m.graph_nodes.len() as int, m.subject_nodes.len() as int)
    &&& offsets_ok(m.predicate_offsets, m.subject_nodes.len() as int, m.predicate_nodes.len() as int)
    &&& offsets_ok(m.object_offsets, m.predicate_nodes.len() as int, m.object_nodes.len() as int)
}

/// Every node id of the grouping refers to one of `n` nodes.
pub open spec fn model_ids_below(m: TrigModel, n: int) -> bool {
    &&& forall|i: int| 0 <= i < m.graph_nodes.len() ==> (#[trigger] m.graph_nodes[i] matches Some(
        g,
    ) ==> g.0 < n)
    &&& forall|i: int| 0 <= i < m.subject_nodes.len() ==> #[trigger] m.subject_nodes[i].0 < n
    &&& forall|i: int| 0 <= i < m.predicate_nodes.len() ==> #[trigger] m.predicate_nodes[i].0 < n
    &&& forall|i: int| 0 <= i < m.object_nodes.len() ==> #[trigger] m.object_nodes[i].0 < n
}

/// The TriG bytes of the node with id `id`, given the values of the nodes.
pub open spec fn node_trig(nodes: Seq<NodeValue>, id: NodeId) -> Seq<u8> {
    value_trig(nodes[id.0 as int])
}

/// Object `o` of predicate group `p`: the object, then ` , ` unless it is the
/// last object of the group.
pub open spec fn object_piece(m: TrigModel, nodes: Seq<NodeValue>, p: int, o: int) -> Seq<u8> {
    node_trig(nodes, m.object_nodes[o]) + if o + 1 < m.object_offsets[p + 1] {
        encode_utf8(" , "@)
    } else {
        Seq::empty()
    }
}

/// `object_piece` for each object of predicate group `p`.
pub open spec fn object_pieces(m: TrigModel, nodes: Seq<NodeValue>, p: int) -> spec_fn(int) -> Seq<u8> {
    |o: int| object_piece(m, nodes, p, o)
}

/// Predicate group `p` of subject group `s`: the predicate, a space, its
/// objects, then ` ; ` when another predicate of the subject follows and ` . `
/// after the last one.
pub open spec fn predicate_block(m: TrigModel, nodes: Seq<NodeValue>, s: int, p: int) -> Seq<u8> {
    node_trig(nodes, m.predicate_nodes[p]) + encode_utf8(" "@) + concat_range(
        m.object_offsets[p] as int,
        m.object_offsets[p + 1] as int,
        object_pieces(m, nodes, p),
    ) + if p + 1 < m.predicate_offsets[s + 1] {
        encode_utf8(" ; "@)
    } else {
        encode_utf8(" . "@)
    }
}

/// `predicate_block` for each predicate group of subject group `s`.
pub open spec fn predicate_blocks(m: TrigModel, nodes: Seq<NodeValue>, s: int) -> spec_fn(int) -> Seq<
    u8,
> {
    |p: int| predicate_block(m, nodes, s, p)
}

/// Subject group `s`: the subject, a space, then its predicate groups.
pub open spec fn subject_block(m: TrigModel, nodes: Seq<NodeValue>, s: int) -> Seq<u8> {
    node_trig(nodes, m.subject_nodes[s]) + encode_utf8(" "@) + concat_range(
        m.predicate_offsets[s] as int,
        m.predicate_offsets[s + 1] as int,
        predicate_blocks(m, nodes, s),
    )
}

/// `subject_block` for each subject group.
pub open spec fn subject_blocks(m: TrigModel, nodes: Seq<NodeValue>) -> spec_fn(int) -> Seq<u8> {
    |s: int| subject_block(m, nodes, s)
}

/// What opens graph group `g`: a named graph's node and ` { `; nothing for
/// the default graph.
pub open spec fn graph_open(m: TrigModel, nodes: Seq<NodeValue>, g: int) -> Seq<u8> {
    match m.graph_nodes[g] {
        Some(id) => node_trig(nodes, id) + encode_utf8(" { "@),
        None => Seq::empty(),
    }
}

/// What closes graph group `g`: `} ` for a named graph.
pub open spec fn graph_close(m: TrigModel, g: int) -> Seq<u8> {
    match m.graph_nodes[g] {
        Some(_) => encode_utf8("} "@),
        None => Seq::empty(),
    }
}

/// Graph group `g`: its opening, its subject groups and its closing.
pub open spec fn graph_block(m: TrigModel, nodes: Seq<NodeValue>, g: int) -> Seq<u8> {
    graph_open(m, nodes, g) + concat_range(
        m.subject_offsets[g] as int,
        m.subject_offsets[g + 1] as int,
        subject_blocks(m, nodes),
    ) + graph_close(m, g)
}

/// `graph_block` for each graph group.
pub open spec fn graph_blocks(m: TrigModel, nodes: Seq<NodeValue>) -> spec_fn(int) -> Seq<u8> {
    |g: int| graph_block(m, nodes, g)
}

/// The TriG document of a grouping: the `xsd` prefix declaration, then every
/// graph group in order.
pub open spec fn trig_document(m: TrigModel, nodes: Seq<NodeValue>) -> Seq<u8> {
    encode_utf8("@prefix xsd: <http://www.w3.org/2001/XMLSchema#> . "@) + concat_range(
        0,
        m.graph_nodes.len() as int,
        graph_blocks(m, nodes),
    )
}

/// The triples of a `TripleStore`, grouped for TriG by graph, subject and
/// predicate.
#[derive(Debug)]
pub struct TriGStore {
    graph_nodes: Vec<Option<NodeId>>,
    subject_offsets: Vec<usize>,
    subject_nodes: Vec<NodeId>,
    predicate_offsets: Vec<usize>,
    predicate_nodes: Vec<NodeId>,
    object_offsets: Vec<usize>,
    object_nodes: Vec<NodeId>,
}

fn same_id(a: NodeId, b: NodeId) -> (r: bool)
    ensures
        r == (a == b),
{
    a.0 == b.0
}

fn same_graph(a: Option<NodeId>, b: Option<NodeId>) -> (r: bool)
    ensures
        r == (a == b),
{
    match (a, b) {
        (Some(x), Some(y)) => x.0 == y.0,
        (None, None) => true,
        _ => false,
    }
}

impl TriGStore {
    /// The contents of this store.
    pub closed spec fn model(&self) -> TrigModel {
        TrigModel {
            graph_nodes: self.graph_nodes@,
            subject_offsets: self.subject_offsets@,
            subject_nodes: self.subject_nodes@,
            predicate_offsets: self.predicate_offsets@,
            predicate_nodes: self.predicate_nodes@,
            object_offsets: self.object_offsets@,
            object_nodes: self.object_nodes@,
        }
    }

    /// Sort `triples` and group them by graph, subject and predicate. Every
    /// level's offsets start at `0`, strictly increase and end at the length
    /// of the next level, and expanding the ranges gives back the triples in
    /// sorted order.
    pub fn new(triples: Vec<InternedTriple>) -> (s: TriGStore)
        requires
            triples@.len() < usize::MAX,
        ensures
            s.model() == trig_grouping(triple_keys(triples@)),
            model_wf(s.model()),
            s.model().object_nodes.len() == triples@.len(),
            forall|o: int|
                0 <= o < triples@.len() ==> #[trigger] held_at(
                    s.model(),
                    triple_keys(triples@).sort_by(key_order())[o],
                    o,
                ),
            grouping_ascends(s.model()),
            triple_keys(triples@).no_duplicates() ==> grouping_merged(s.model()),
    {
        let n = triples.len();
        let ghost input = triple_keys(triples@);
        let mut keys: Vec<TripleKey> = Vec::with_capacity(n);
        let mut i: usize = 0;
        while i < n
            invariant
                n == triples@.len(),
                input == triple_keys(triples@),
                i <= n,
                keys@ == input.take(i as int),
            decreases n - i,
        {
            keys.push(triples[i].key());
            assert(keys@ =~= input.take(i + 1));
            i = i + 1;
        }
        assert(keys@ =~= input);
        sort_keys(&mut keys);
        proof {
            broadcast use vstd::seq_lib::group_to_multiset_ensures;

            assert(keys@.len() == keys@.to_multiset().len());
            assert(input.len() == input.to_multiset().len());
            lemma_sorted_unique_keys(keys@, input);
        }
        let ghost sorted = keys@;

        let mut graph_nodes: Vec<Option<NodeId>> = Vec::new();
        let mut subject_offsets: Vec<usize> = Vec::new();
        let mut subject_nodes: Vec<NodeId> = Vec::new();
        let mut predicate_offsets: Vec<usize> = Vec::new();
        let mut predicate_nodes: Vec<NodeId> = Vec::new();
        let mut object_offsets: Vec<usize> = Vec::new();
        let mut object_nodes: Vec<NodeId> = Vec::with_capacity(n);

        let mut prev_graph: Option<Option<NodeId>> = None;
        let mut prev_subject: Option<NodeId> = None;
        let mut prev_predicate: Option<NodeId> = None;

        let mut j: usize = 0;
        while j < n
            invariant
                n == keys@.len(),
                n < usize::MAX,
                sorted == keys@,
                j <= n,
                group_keys(sorted.take(j as int)) == (TrigModel {
                    graph_nodes: graph_nodes@,
                    subject_offsets: subject_offsets@,
                    subject_nodes: subject_nodes@,
                    predicate_offsets: predicate_offsets@,
                    predicate_nodes: predicate_nodes@,
                    object_offsets: object_offsets@,
                    object_nodes: object_nodes@,
                }),
                object_nodes@.len() == j,
                subject_nodes@.len() <= j,
                predicate_nodes@.len() <= j,
                j == 0 ==> prev_graph is None && graph_nodes@.len() == 0,
                j > 0 ==> prev_graph == Some(graph_nodes@.last()) && graph_nodes@.len() > 0,
                j > 0 ==> prev_subject == Some(subject_nodes@.last()) && subject_nodes@.len() > 0,
                j > 0 ==> prev_predicate == Some(predicate_nodes@.last())
                    && predicate_nodes@.len() > 0,
            decreases n - j,
        {
            let key = keys[j];
            let graph = match key.0 {
                Some(g) => Some(NodeId(g)),
                None => None,
            };
            let subject = NodeId(key.1);
            let predicate = NodeId(key.2);
            let object = NodeId(key.3);
            proof {
                let t = sorted.take(j + 1);
                assert(t.drop_last() =~= sorted.take(j as int));
                assert(t.last() == key);
            }

            let new_graph = match prev_graph {
                Some(pg) => !same_graph(graph, pg),
                None => true,
            };
            if graph_nodes.len() == 0 || new_graph {
                subject_offsets.push(subject_nodes.len());
                graph_nodes.push(graph);
                prev_graph = Some(graph);
                prev_subject = None;
                prev_predicate = None;
            }
            let new_subject = match prev_subject {
                Some(ps) => !same_id(subject, ps),
                None => true,
            };
            if new_subject {
                predicate_offsets.push(predicate_nodes.len());
                subject_nodes.push(subject);
                prev_subject = Some(subject);
                prev_predicate = None;
            }
            let new_predicate = match prev_predicate {
                Some(pp) => !same_id(predicate, pp),
                None => true,
            };
            if new_predicate {
                object_offsets.push(object_nodes.len());
                predicate_nodes.push(predicate);
                prev_predicate = Some(predicate);
            }
            object_nodes.push(object);
            j = j + 1;
        }
        assert(sorted.take(n as int) =~= sorted);

        subject_offsets.push(subject_nodes.len());
        predicate_offsets.push(predicate_nodes.len());
        object_offsets.push(object_nodes.len());

        proof {
            let bound: int = 0x1_0000_0000;
            assert forall|i: int| 0 <= i < input.len() implies key_ids_below(#[trigger] input[i], bound) by {}
            assert(input.len() == triples@.len());
            lemma_trig_grouping_wf(input, bound);
            lemma_trig_grouping_expands(input);
            lemma_trig_grouping_merged(input);
        }
        TriGStore {
            graph_nodes,
            subject_offsets,
            subject_nodes,
            predicate_offsets,
            predicate_nodes,
            object_offsets,
            object_nodes,
        }
    }

    /// Write the grouped triples in TriG, resolving node ids with
    /// `node_store`: the `xsd` prefix, then for every graph (the default graph
    /// bare, a named graph as `graph { ... }`) every subject once, each with
    /// its predicates separated by ` ; ` and each predicate's objects
    /// separated by ` , `.
    #[verifier::spinoff_prover]
    #[verifier::rlimit(40)]
    pub fn write_store_trig(&self, writer: &mut Vec<u8>, node_store: &NodeStore)
        requires
            model_wf(self.model()),
            model_ids_below(self.model(), node_store.items().len() as int),
        ensures
            final(writer)@ == old(writer)@ + trig_document(self.model(), node_store.values()),
    {
        let ghost m = self.model();
        let ghost nodes = node_store.values();
        write_str(writer, "@prefix xsd: <http://www.w3.org/2001/XMLSchema#> . ");
        let ghost w_doc = writer@;
        let graph_count = self.graph_nodes.len();
        let mut graph_ix: usize = 0;
        while graph_ix < graph_count
            invariant
                m == self.model(),
                nodes == node_store.values(),
                model_wf(m),
                model_ids_below(m, nodes.len() as int),
                graph_count == m.graph_nodes.len(),
                graph_ix <= graph_count,
                writer@ == w_doc + concat_range(0, graph_ix as int, graph_blocks(m, nodes)),
            decreases graph_count - graph_ix,
        {
            let ghost w_graph = writer@;
            let graph_id = self.graph_nodes[graph_ix];
            let subjects_start = self.subject_offsets[graph_ix];
            let subjects_end = self.subject_offsets[graph_ix + 1];
            assert(subjects_start < subjects_end <= m.subject_nodes.len());
            match graph_id {
                Some(id) => {
                    assert(m.graph_nodes[graph_ix as int] matches Some(g) && g.0 < nodes.len());
                    node_store.query_node(id).write_trig(writer);
                    write_str(writer, " { ");
                },
                None => {},
            }
            assert(writer@ =~= w_graph + graph_open(m, nodes, graph_ix as int));
            let ghost w_subjects = writer@;
            let mut sub_ix: usize = subjects_start;
            while sub_ix < subjects_end
                invariant
                    m == self.model(),
                    nodes == node_store.values(),
                    model_wf(m),
                    model_ids_below(m, nodes.len() as int),
                    subjects_start <= sub_ix <= subjects_end <= m.subject_nodes.len(),
                    writer@ == w_subjects + concat_range(
                        subjects_start as int,
                        sub_ix as int,
                        subject_blocks(m, nodes),
                    ),
                decreases subjects_end - sub_ix,
            {
                let ghost w_subject = writer@;
                let preds_start = self.predicate_offsets[sub_ix];
                let preds_end = self.predicate_offsets[sub_ix + 1];
                assert(preds_start < preds_end <= m.predicate_nodes.len());
                let sub_id = self.subject_nodes[sub_ix];
                node_store.query_node(sub_id).write_trig(writer);
                write_str(writer, " ");
                let ghost w_preds = writer@;
                let mut pred_ix: usize = preds_start;
                while pred_ix < preds_end
                    invariant
                        m == self.model(),
                        nodes == node_store.values(),
                        model_wf(m),
                        model_ids_below(m, nodes.len() as int),
                        sub_ix < m.subject_nodes.len(),
                        preds_end == m.predicate_offsets[sub_ix + 1],
                        preds_start <= pred_ix <= preds_end <= m.predicate_nodes.len(),
                        writer@ == w_preds + concat_range(
                            preds_start as int,
                            pred_ix as int,
                            predicate_blocks(m, nodes, sub_ix as int),
                        ),
                    decreases preds_end - pred_ix,
                {
                    let ghost w_pred = writer@;
                    let objs_start = self.object_offsets[pred_ix];
                    let objs_end = self.object_offsets[pred_ix + 1];
                    assert(objs_start < objs_end <= m.object_nodes.len());
                    let pred_id = self.predicate_nodes[pred_ix];
                    node_store.query_node(pred_id).write_trig(writer);
                    write_str(writer, " ");
                    let ghost w_objs = writer@;
                    let mut obj_ix: usize = objs_start;
                    while obj_ix < objs_end
                        invariant
                            m == self.model(),
                            nodes == node_store.values(),
                            model_wf(m),
                            model_ids_below(m, nodes.len() as int),
                            pred_ix < m.predicate_nodes.len(),
                            objs_end == m.object_offsets[pred_ix + 1],
                            objs_start <= obj_ix <= objs_end <= m.object_nodes.len(),
                            writer@ == w_objs + concat_range(
                                objs_start as int,
                                obj_ix as int,
                                object_pieces(m, nodes, pred_ix as int),
                            ),
                        decreases objs_end - obj_ix,
                    {
                        let ghost w_obj = writer@;
                        let obj_id = self.object_nodes[obj_ix];
                        node_store.query_node(obj_id).write_trig(writer);
                        // Not finished with this predicate yet, so a comma.
                        if obj_ix + 1 < objs_end {
                            write_str(writer, " , ");
                        }
                        assert(writer@ =~= w_obj + object_piece(
                            m,
                            nodes,
                            pred_ix as int,
                            obj_ix as int,
                        ));
                        obj_ix = obj_ix + 1;
                    }
                    if pred_ix + 1 < preds_end {
                        // Not finished with this subject yet, so a semicolon.
                        write_str(writer, " ; ");
                    } else {
                        write_str(writer, " . ");
                    }
                    assert(writer@ =~= w_pred + predicate_block(
                        m,
                        nodes,
                        sub_ix as int,
                        pred_ix as int,
                    ));
                    pred_ix = pred_ix + 1;
                }
                assert(writer@ =~= w_subject + subject_block(m, nodes, sub_ix as int));
                sub_ix = sub_ix + 1;
            }
            if graph_id.is_some() {
                write_str(writer, "} ");
            }
            assert(writer@ =~= w_graph + graph_block(m, nodes, graph_ix as int));
            graph_ix = graph_ix + 1;
        }
    }
}


/// Offsets of groups not yet closed: strictly increasing, starting at `0`,
/// each below the number of items.
pub open spec fn open_offsets_ok(offsets: Seq<usize>, groups: int, items: int) -> bool {
    &&& offsets.len() == groups
    &&& groups > 0 ==> offsets[0] == 0
    &&& forall|i: int| 0 <= i < groups ==> #[trigger] offsets[i] < items
    &&& forall|i: int, j: int| 0 <= i < j < groups ==> offsets[i] < offsets[j]
}

/// A grouping whose closing offsets are not yet written.
pub open spec fn open_model_wf(m: TrigModel) -> bool {
    &&& open_offsets_ok(m.subject_offsets, m.graph_nodes.len() as int, m.subject_nodes.len() as int)
    &&& open_offsets_ok(
        m.predicate_offsets,
        m.subject_nodes.len() as int,
        m.predicate_nodes.len() as int,
    )
    &&& open_offsets_ok(
        m.object_offsets,
        m.predicate_nodes.len() as int,
        m.object_nodes.len() as int,
    )
    &&& m.graph_nodes.len() == 0 ==> m.subject_nodes.len() == 0
    &&& m.subject_nodes.len() == 0 ==> m.predicate_nodes.len() == 0
    &&& m.predicate_nodes.len() == 0 ==> m.object_nodes.len() == 0
}

/// Every id of a key refers to one of `n` nodes.
pub open spec fn key_ids_below(k: TripleKey, n: int) -> bool {
    &&& (k.0 matches Some(g) ==> g < n)
    &&& k.1 < n
    &&& k.2 < n
    &&& k.3 < n
}

proof fn lemma_push_triple_wf(m: TrigModel, k: TripleKey, n: int)
    requires
        open_model_wf(m),
        model_ids_below(m, n),
        key_ids_below(k, n),
        m.object_nodes.len() < usize::MAX,
    ensures
        open_model_wf(push_triple(m, k)),
        model_ids_below(push_triple(m, k), n),
        push_triple(m, k).object_nodes.len() == m.object_nodes.len() + 1,
{
    let r = push_triple(m, k);
    assert(m.predicate_nodes.len() <= m.object_nodes.len()) by {
        lemma_strict_offsets_bound(m.object_offsets, m.predicate_nodes.len() as int, m.object_nodes.len() as int);
    }
    assert(m.subject_nodes.len() <= m.predicate_nodes.len()) by {
        lemma_strict_offsets_bound(m.predicate_offsets, m.subject_nodes.len() as int, m.predicate_nodes.len() as int);
    }
    assert(m.graph_nodes.len() <= m.subject_nodes.len()) by {
        lemma_strict_offsets_bound(m.subject_offsets, m.graph_nodes.len() as int, m.subject_nodes.len() as int);
    }
    assert(open_model_wf(r));
    assert(model_ids_below(r, n));
}

/// Strictly increasing offsets below `items` are no more than `items`.
proof fn lemma_strict_offsets_bound(offsets: Seq<usize>, groups: int, items: int)
    requires
        open_offsets_ok(offsets, groups, items),
        items >= 0,
    ensures
        groups <= items,
    decreases groups,
{
    if groups > 0 {
        assert(offsets[groups - 1] < items);
        assert(open_offsets_ok(offsets.drop_last(), groups - 1, offsets[groups - 1] as int));
        lemma_strict_offsets_bound(offsets.drop_last(), groups - 1, offsets[groups - 1] as int);
    }
}

/// The grouping of any keys is well formed, with every group non-empty, and
/// refers only to nodes that the keys refer to.
pub proof fn lemma_group_keys_wf(keys: Seq<TripleKey>, n: int)
    requires
        keys.len() < usize::MAX,
        forall|i: int| 0 <= i < keys.len() ==> key_ids_below(#[trigger] keys[i], n),
    ensures
        open_model_wf(group_keys(keys)),
        model_ids_below(group_keys(keys), n),
        group_keys(keys).object_nodes.len() == keys.len(),
    decreases keys.len(),
{
    if keys.len() > 0 {
        let prefix = keys.drop_last();
        assert forall|i: int| 0 <= i < prefix.len() implies key_ids_below(#[trigger] prefix[i], n) by {
            assert(prefix[i] == keys[i]);
        }
        lemma_group_keys_wf(prefix, n);
        lemma_push_triple_wf(group_keys(prefix), keys.last(), n);
    }
}

/// Closing a well-formed grouping gives well-formed offsets.
pub proof fn lemma_close_model_wf(m: TrigModel)
    requires
        open_model_wf(m),
        m.object_nodes.len() < usize::MAX,
    ensures
        model_wf(close_model(m)),
{
    lemma_strict_offsets_bound(m.object_offsets, m.predicate_nodes.len() as int, m.object_nodes.len() as int);
    lemma_strict_offsets_bound(m.predicate_offsets, m.subject_nodes.len() as int, m.predicate_nodes.len() as int);
    let c = close_model(m);
    assert forall|i: int, j: int| 0 <= i < j <= m.graph_nodes.len() implies c.subject_offsets[i]
        < c.subject_offsets[j] by {
        assert(c.subject_offsets[i] == m.subject_offsets[i]);
        if j < m.graph_nodes.len() {
            assert(c.subject_offsets[j] == m.subject_offsets[j]);
        }
    }
    assert forall|i: int, j: int| 0 <= i < j <= m.subject_nodes.len() implies c.predicate_offsets[i]
        < c.predicate_offsets[j] by {
        assert(c.predicate_offsets[i] == m.predicate_offsets[i]);
        if j < m.subject_nodes.len() {
            assert(c.predicate_offsets[j] == m.predicate_offsets[j]);
        }
    }
    assert forall|i: int, j: int| 0 <= i < j <= m.predicate_nodes.len() implies c.object_offsets[i]
        < c.object_offsets[j] by {
        assert(c.object_offsets[i] == m.object_offsets[i]);
        if j < m.predicate_nodes.len() {
            assert(c.object_offsets[j] == m.object_offsets[j]);
        }
    }
}

/// The TriG grouping of keys that refer to `n` nodes is well formed and
/// refers to those nodes only.
pub proof fn lemma_trig_grouping_wf(keys: Seq<TripleKey>, n: int)
    requires
        keys.len() < usize::MAX,
        forall|i: int| 0 <= i < keys.len() ==> key_ids_below(#[trigger] keys[i], n),
    ensures
        model_wf(trig_grouping(keys)),
        model_ids_below(trig_grouping(keys), n),
{
    broadcast use vstd::seq_lib::group_to_multiset_ensures;

    let sorted = keys.sort_by(key_order());
    keys.lemma_sort_by_ensures(key_order());
    assert(sorted.len() == sorted.to_multiset().len());
    assert(keys.len() == keys.to_multiset().len());
    assert forall|i: int| 0 <= i < sorted.len() implies key_ids_below(#[trigger] sorted[i], n) by {
        assert(sorted.contains(sorted[i]));
        assert(sorted.to_multiset().count(sorted[i]) > 0);
        assert(keys.contains(sorted[i]));
    }
    lemma_group_keys_wf(sorted, n);
    lemma_close_model_wf(group_keys(sorted));
}

/// `key_le` orders keys totally.
proof fn lemma_key_le_total_order()
    ensures
        forall|a: TripleKey| #[trigger] key_le(a, a),
        forall|a: TripleKey, b: TripleKey| #[trigger] key_le(a, b) && #[trigger] key_le(b, a) ==> a == b,
        forall|a: TripleKey, b: TripleKey, c: TripleKey|
            #[trigger] key_le(a, b) && #[trigger] key_le(b, c) ==> key_le(a, c),
        forall|a: TripleKey, b: TripleKey| #[trigger] key_le(a, b) || key_le(b, a),
{
}

/// A sorted permutation of `keys` is `keys.sort_by(key_le)`: under a total
/// order the sorted permutation is unique.
proof fn lemma_sorted_unique_keys(sorted: Seq<TripleKey>, keys: Seq<TripleKey>)
    requires
        sorted_by(sorted, key_order()),
        sorted.to_multiset() == keys.to_multiset(),
    ensures
        sorted == keys.sort_by(key_order()),
{
    keys.lemma_sort_by_ensures(key_order());
    lemma_sorted_permutations_equal(sorted, keys.sort_by(key_order()));
}

/// Two sequences sorted by `key_le` with the same elements are equal.
proof fn lemma_sorted_permutations_equal(a: Seq<TripleKey>, b: Seq<TripleKey>)
    requires
        sorted_by(a, key_order()),
        sorted_by(b, key_order()),
        a.to_multiset() == b.to_multiset(),
    ensures
        a == b,
    decreases a.len(),
{
    broadcast use vstd::seq_lib::group_to_multiset_ensures;

    lemma_key_le_total_order();
    assert(a.len() == a.to_multiset().len());
    assert(b.len() == b.to_multiset().len());
    if a.len() == 0 {
        assert(b.len() == 0);
        assert(a =~= b);
    } else {
        assert(b.len() == a.len());
        let x = a[0];
        let y = b[0];
        assert(a.contains(x));
        assert(b.to_multiset().count(x) > 0);
        assert(b.contains(x));
        let j = choose|j: int| 0 <= j < b.len() && b[j] == x;
        if j > 0 {
            assert(key_order()(b[0], b[j]));
        }
        assert(key_le(y, x));
        assert(b.contains(y));
        assert(a.to_multiset().count(y) > 0);
        assert(a.contains(y));
        let i = choose|i: int| 0 <= i < a.len() && a[i] == y;
        if i > 0 {
            assert(key_order()(a[0], a[i]));
        }
        assert(key_le(x, y));
        assert(x == y);
        assert(a.remove(0).to_multiset() == a.to_multiset().remove(x));
        assert(b.remove(0).to_multiset() == b.to_multiset().remove(y));
        assert(a.remove(0) =~= a.drop_first());
        assert(b.remove(0) =~= b.drop_first());
        let a1 = a.drop_first();
        let b1 = b.drop_first();
        assert(sorted_by(a1, key_order())) by {
            assert forall|p: int, q: int| 0 <= p < q < a1.len() implies #[trigger] key_order()(
                a1[p],
                a1[q],
            ) by {
                assert(key_order()(a[p + 1], a[q + 1]));
            }
        }
        assert(sorted_by(b1, key_order())) by {
            assert forall|p: int, q: int| 0 <= p < q < b1.len() implies #[trigger] key_order()(
                b1[p],
                b1[q],
            ) by {
                assert(key_order()(b[p + 1], b[q + 1]));
            }
        }
        lemma_sorted_permutations_equal(a1, b1);
        assert(a =~= b) by {
            assert forall|k: int| 0 <= k < a.len() implies a[k] == b[k] by {
                if k > 0 {
                    assert(a[k] == a1[k - 1]);
                    assert(b[k] == b1[k - 1]);
                }
            }
        }
    }
}


/// Where group `i` of a level ends among the `items` of the next level: at
/// the next group's offset, or at the end for the last group (whose closing
/// offset may not be written yet).
pub open spec fn group_end(offsets: Seq<usize>, i: int, items: int) -> int {
    if i + 1 < offsets.len() {
        offsets[i + 1] as int
    } else {
        items
    }
}

/// Object `o` of the grouping lies in predicate group `p`, which lies in
/// subject group `s`, which lies in graph group `g`, and together they spell
/// the triple `k`.
pub open spec fn grouped_at(m: TrigModel, k: TripleKey, g: int, s: int, p: int, o: int) -> bool {
    &&& 0 <= g < m.graph_nodes.len()
    &&& m.graph_nodes[g] == key_graph(k)
    &&& m.subject_offsets[g] <= s < group_end(m.subject_offsets, g, m.subject_nodes.len() as int)
    &&& s < m.subject_nodes.len()
    &&& m.subject_nodes[s] == NodeId(k.1)
    &&& m.predicate_offsets[s] <= p < group_end(
        m.predicate_offsets,
        s,
        m.predicate_nodes.len() as int,
    )
    &&& p < m.predicate_nodes.len()
    &&& m.predicate_nodes[p] == NodeId(k.2)
    &&& m.object_offsets[p] <= o < group_end(m.object_offsets, p, m.object_nodes.len() as int)
    &&& o < m.object_nodes.len()
    &&& m.object_nodes[o] == NodeId(k.3)
}

/// Whether the grouping holds the triple `k` somewhere.
pub open spec fn grouped(m: TrigModel, k: TripleKey) -> bool {
    exists|g: int, s: int, p: int, o: int| #[trigger] grouped_at(m, k, g, s, p, o)
}

/// A group of an extended level keeps its offset, and ends no earlier.
proof fn lemma_level_kept(off: Seq<usize>, off2: Seq<usize>, n: int, n2: int, i: int)
    requires
        off2 == off || off2 == off.push(n as usize),
        0 <= n <= n2,
        n <= usize::MAX,
        0 <= i < off.len(),
    ensures
        off2[i] == off[i],
        group_end(off2, i, n2) >= group_end(off, i, n),
{
}

/// An old item of an extended level lies in an old group, and within it
/// before the extension.
proof fn lemma_level_back(off: Seq<usize>, off2: Seq<usize>, n: int, n2: int, i: int, j: int)
    requires
        off2 == off || off2 == off.push(n as usize),
        0 <= n <= n2,
        n <= usize::MAX,
        0 <= i < off2.len(),
        off2[i] <= j < group_end(off2, i, n2),
        j < n,
    ensures
        i < off.len(),
        off[i] <= j < group_end(off, i, n),
{
    if off2 != off {
        assert(off2[off.len() as int] == n);
    }
}

/// With well-formed open offsets, the last item lies in the last group.
proof fn lemma_level_last(off: Seq<usize>, n: int, i: int)
    requires
        open_offsets_ok(off, off.len() as int, n),
        0 <= i < off.len(),
        off[i] <= n - 1 < group_end(off, i, n),
    ensures
        i == off.len() - 1,
{
    if i + 1 < off.len() {
        assert(off[i + 1] < n);
    }
}

/// A triple held at an object position keeps that position, in the same
/// groups, when a triple is added.
proof fn lemma_push_triple_keeps_at(
    m: TrigModel,
    k: TripleKey,
    k2: TripleKey,
    g: int,
    s: int,
    p: int,
    o: int,
)
    requires
        open_model_wf(m),
        m.object_nodes.len() < usize::MAX,
        grouped_at(m, k2, g, s, p, o),
    ensures
        grouped_at(push_triple(m, k), k2, g, s, p, o),
{
    let r = push_triple(m, k);
    lemma_strict_offsets_bound(m.object_offsets, m.predicate_nodes.len() as int, m.object_nodes.len() as int);
    lemma_strict_offsets_bound(m.predicate_offsets, m.subject_nodes.len() as int, m.predicate_nodes.len() as int);
    lemma_strict_offsets_bound(m.subject_offsets, m.graph_nodes.len() as int, m.subject_nodes.len() as int);
    lemma_level_kept(m.subject_offsets, r.subject_offsets, m.subject_nodes.len() as int, r.subject_nodes.len() as int, g);
    lemma_level_kept(m.predicate_offsets, r.predicate_offsets, m.predicate_nodes.len() as int, r.predicate_nodes.len() as int, s);
    lemma_level_kept(m.object_offsets, r.object_offsets, m.object_nodes.len() as int, r.object_nodes.len() as int, p);
}

/// The added triple is held at the last object position, in the last
/// predicate, subject and graph groups.
proof fn lemma_push_triple_last_at(m: TrigModel, k: TripleKey)
    requires
        open_model_wf(m),
        m.object_nodes.len() < usize::MAX,
    ensures
        push_triple(m, k).object_nodes.len() == m.object_nodes.len() + 1,
        grouped_at(
            push_triple(m, k),
            k,
            push_triple(m, k).graph_nodes.len() - 1,
            push_triple(m, k).subject_nodes.len() - 1,
            push_triple(m, k).predicate_nodes.len() - 1,
            m.object_nodes.len() as int,
        ),
{
    let n: int = 0x1_0000_0000;
    assert(model_ids_below(m, n) && key_ids_below(k, n)) by {
        assert forall|i: int| 0 <= i < m.graph_nodes.len() implies (#[trigger] m.graph_nodes[i] matches Some(g) ==> g.0 < n) by {}
    }
    lemma_push_triple_wf(m, k, n);
    lemma_strict_offsets_bound(m.object_offsets, m.predicate_nodes.len() as int, m.object_nodes.len() as int);
    lemma_strict_offsets_bound(m.predicate_offsets, m.subject_nodes.len() as int, m.predicate_nodes.len() as int);
    lemma_strict_offsets_bound(m.subject_offsets, m.graph_nodes.len() as int, m.subject_nodes.len() as int);
    let r = push_triple(m, k);
    assert(grouped_at(r, k, r.graph_nodes.len() - 1, r.subject_nodes.len() - 1, r.predicate_nodes.len() - 1, r.object_nodes.len() - 1));
}

/// Adding a triple to a grouping adds exactly that triple to what it holds.
proof fn lemma_push_triple_grouped(m: TrigModel, k: TripleKey, k2: TripleKey)
    requires
        open_model_wf(m),
        m.object_nodes.len() < usize::MAX,
    ensures
        grouped(push_triple(m, k), k2) <==> (grouped(m, k2) || k2 == k),
{
    let r = push_triple(m, k);
    let n: int = 0x1_0000_0000;
    assert(model_ids_below(m, n) && key_ids_below(k, n)) by {
        assert forall|i: int| 0 <= i < m.graph_nodes.len() implies (#[trigger] m.graph_nodes[i] matches Some(g) ==> g.0 < n) by {}
    }
    lemma_push_triple_wf(m, k, n);
    lemma_strict_offsets_bound(m.object_offsets, m.predicate_nodes.len() as int, m.object_nodes.len() as int);
    lemma_strict_offsets_bound(m.predicate_offsets, m.subject_nodes.len() as int, m.predicate_nodes.len() as int);
    lemma_strict_offsets_bound(m.subject_offsets, m.graph_nodes.len() as int, m.subject_nodes.len() as int);
    if grouped(m, k2) {
        let (g, s, p, o) = choose|g: int, s: int, p: int, o: int| #[trigger] grouped_at(m, k2, g, s, p, o);
        lemma_push_triple_keeps_at(m, k, k2, g, s, p, o);
    }
    if k2 == k {
        lemma_push_triple_last_at(m, k);
    }
    if grouped(r, k2) {
        let (g, s, p, o) = choose|g: int, s: int, p: int, o: int| #[trigger] grouped_at(r, k2, g, s, p, o);
        if o < m.object_nodes.len() {
            lemma_level_back(m.object_offsets, r.object_offsets, m.object_nodes.len() as int, r.object_nodes.len() as int, p, o);
            lemma_level_back(m.predicate_offsets, r.predicate_offsets, m.predicate_nodes.len() as int, r.predicate_nodes.len() as int, s, p);
            lemma_level_back(m.subject_offsets, r.subject_offsets, m.subject_nodes.len() as int, r.subject_nodes.len() as int, g, s);
            assert(grouped_at(m, k2, g, s, p, o));
        } else {
            lemma_level_last(r.object_offsets, r.object_nodes.len() as int, p);
            lemma_level_last(r.predicate_offsets, r.predicate_nodes.len() as int, s);
            lemma_level_last(r.subject_offsets, r.subject_nodes.len() as int, g);
            assert(k2 == k);
        }
    }
}

/// The grouping of a sequence of keys holds exactly its keys.
proof fn lemma_group_keys_grouped(keys: Seq<TripleKey>, k: TripleKey)
    requires
        keys.len() < usize::MAX,
    ensures
        grouped(group_keys(keys), k) <==> keys.contains(k),
    decreases keys.len(),
{
    let n: int = 0x1_0000_0000;
    if keys.len() == 0 {
        if grouped(group_keys(keys), k) {
            let (g, s, p, o) = choose|g: int, s: int, p: int, o: int| #[trigger] grouped_at(group_keys(keys), k, g, s, p, o);
        }
    } else {
        let prefix = keys.drop_last();
        assert forall|i: int| 0 <= i < prefix.len() implies key_ids_below(#[trigger] prefix[i], n) by {}
        lemma_group_keys_wf(prefix, n);
        lemma_group_keys_grouped(prefix, k);
        lemma_push_triple_grouped(group_keys(prefix), keys.last(), k);
        assert(keys == prefix.push(keys.last()));
        if keys.contains(k) && k != keys.last() {
            let i = choose|i: int| 0 <= i < keys.len() && keys[i] == k;
            assert(prefix[i] == k);
        }
    }
}

/// Closing a grouping keeps every triple at its position, in its groups.
proof fn lemma_close_model_keeps_at(m: TrigModel, k: TripleKey, g: int, s: int, p: int, o: int)
    requires
        open_model_wf(m),
        m.object_nodes.len() < usize::MAX,
        grouped_at(m, k, g, s, p, o),
    ensures
        grouped_at(close_model(m), k, g, s, p, o),
{
    lemma_strict_offsets_bound(m.object_offsets, m.predicate_nodes.len() as int, m.object_nodes.len() as int);
    lemma_strict_offsets_bound(m.predicate_offsets, m.subject_nodes.len() as int, m.predicate_nodes.len() as int);
}

/// Closing a grouping changes nothing of what it holds.
proof fn lemma_close_model_grouped(m: TrigModel, k: TripleKey)
    requires
        open_model_wf(m),
        m.object_nodes.len() < usize::MAX,
    ensures
        grouped(close_model(m), k) <==> grouped(m, k),
{
    lemma_strict_offsets_bound(m.object_offsets, m.predicate_nodes.len() as int, m.object_nodes.len() as int);
    lemma_strict_offsets_bound(m.predicate_offsets, m.subject_nodes.len() as int, m.predicate_nodes.len() as int);
    let c = close_model(m);
    if grouped(m, k) {
        let (g, s, p, o) = choose|g: int, s: int, p: int, o: int| #[trigger] grouped_at(m, k, g, s, p, o);
        lemma_close_model_keeps_at(m, k, g, s, p, o);
    }
    if grouped(c, k) {
        let (g, s, p, o) = choose|g: int, s: int, p: int, o: int| #[trigger] grouped_at(c, k, g, s, p, o);
        assert(grouped_at(m, k, g, s, p, o));
    }
}

/// Whether the triple `k` is held at object position `o` of the grouping.
pub open spec fn held_at(m: TrigModel, k: TripleKey, o: int) -> bool {
    exists|g: int, s: int, p: int| #[trigger] grouped_at(m, k, g, s, p, o)
}

/// The grouping of a sequence of keys holds each key at its own position.
proof fn lemma_group_keys_positions(keys: Seq<TripleKey>)
    requires
        keys.len() < usize::MAX,
    ensures
        group_keys(keys).object_nodes.len() == keys.len(),
        forall|o: int| 0 <= o < keys.len() ==> #[trigger] held_at(group_keys(keys), keys[o], o),
    decreases keys.len(),
{
    let n: int = 0x1_0000_0000;
    assert forall|i: int| 0 <= i < keys.len() implies key_ids_below(#[trigger] keys[i], n) by {}
    lemma_group_keys_wf(keys, n);
    if keys.len() > 0 {
        let prefix = keys.drop_last();
        let m = group_keys(prefix);
        assert forall|i: int| 0 <= i < prefix.len() implies key_ids_below(#[trigger] prefix[i], n) by {}
        lemma_group_keys_wf(prefix, n);
        lemma_group_keys_positions(prefix);
        lemma_push_triple_last_at(m, keys.last());
        assert forall|o: int| 0 <= o < keys.len() implies #[trigger] held_at(group_keys(keys), keys[o], o) by {
            if o < prefix.len() {
                assert(prefix[o] == keys[o]);
                assert(held_at(m, prefix[o], o));
                let (g, s, p) = choose|g: int, s: int, p: int| #[trigger] grouped_at(m, prefix[o], g, s, p, o);
                lemma_push_triple_keeps_at(m, keys.last(), keys[o], g, s, p, o);
                assert(grouped_at(group_keys(keys), keys[o], g, s, p, o));
            } else {
                let r = group_keys(keys);
                assert(grouped_at(r, keys[o], r.graph_nodes.len() - 1, r.subject_nodes.len() - 1, r.predicate_nodes.len() - 1, o));
            }
        }
    }
}

/// Expanding the ranges of the TriG grouping gives back the keys in sorted
/// order: object position `o`, with the predicate, subject and graph groups
/// whose ranges hold it, spells the `o`-th key of the sorted keys, and there
/// is one object position per key.
pub proof fn lemma_trig_grouping_expands(keys: Seq<TripleKey>)
    requires
        keys.len() < usize::MAX,
    ensures
        trig_grouping(keys).object_nodes.len() == keys.len(),
        forall|o: int|
            0 <= o < keys.len() ==> #[trigger] held_at(
                trig_grouping(keys),
                keys.sort_by(key_order())[o],
                o,
            ),
{
    broadcast use vstd::seq_lib::group_to_multiset_ensures;

    let sorted = keys.sort_by(key_order());
    keys.lemma_sort_by_ensures(key_order());
    assert(sorted.len() == sorted.to_multiset().len());
    assert(keys.len() == keys.to_multiset().len());
    let n: int = 0x1_0000_0000;
    assert forall|i: int| 0 <= i < sorted.len() implies key_ids_below(#[trigger] sorted[i], n) by {}
    lemma_group_keys_wf(sorted, n);
    lemma_group_keys_positions(sorted);
    let m = group_keys(sorted);
    assert forall|o: int| 0 <= o < keys.len() implies #[trigger] held_at(trig_grouping(keys), sorted[o], o) by {
        assert(held_at(m, sorted[o], o));
        let (g, s, p) = choose|g: int, s: int, p: int| #[trigger] grouped_at(m, sorted[o], g, s, p, o);
        lemma_close_model_keeps_at(m, sorted[o], g, s, p, o);
        assert(grouped_at(trig_grouping(keys), sorted[o], g, s, p, o));
    }
}

/// The TriG grouping of a set of keys holds each of them, once, and nothing
/// else: every triple of a store is written in its TriG document exactly
/// once.
pub proof fn lemma_trig_grouping_holds_keys(keys: Seq<TripleKey>, k: TripleKey)
    requires
        keys.len() < usize::MAX,
    ensures
        grouped(trig_grouping(keys), k) <==> keys.contains(k),
        trig_grouping(keys).object_nodes.len() == keys.len(),
{
    broadcast use vstd::seq_lib::group_to_multiset_ensures;

    let n: int = 0x1_0000_0000;
    let sorted = keys.sort_by(key_order());
    keys.lemma_sort_by_ensures(key_order());
    assert(sorted.len() == sorted.to_multiset().len());
    assert(keys.len() == keys.to_multiset().len());
    assert forall|i: int| 0 <= i < sorted.len() implies key_ids_below(#[trigger] sorted[i], n) by {}
    lemma_group_keys_wf(sorted, n);
    lemma_group_keys_grouped(sorted, k);
    lemma_close_model_grouped(group_keys(sorted), k);
    assert(sorted.contains(k) <==> sorted.to_multiset().count(k) > 0);
    assert(keys.contains(k) <==> keys.to_multiset().count(k) > 0);
}


/// The order of graphs in TriG output: the default graph first, then named
/// graphs by id.
pub open spec fn graph_lt(a: Option<NodeId>, b: Option<NodeId>) -> bool {
    match (a, b) {
        (None, Some(_)) => true,
        (Some(x), Some(y)) => x.0 < y.0,
        _ => false,
    }
}

/// Within every group of a level, the ids of the next level strictly
/// increase.
pub open spec fn increasing_within(offsets: Seq<usize>, ids: Seq<NodeId>) -> bool {
    forall|g: int, a: int, b: int|
        #![trigger offsets[g], ids[a], ids[b]]
        0 <= g < offsets.len() && offsets[g] <= a < b < group_end(offsets, g, ids.len() as int)
            ==> ids[a].0 < ids[b].0
}

/// No graph is written twice, and within its enclosing group no subject,
/// predicate or object is written twice: graphs, the subjects of a graph,
/// the predicates of a subject and the objects of a predicate strictly
/// increase.
pub open spec fn grouping_merged(m: TrigModel) -> bool {
    &&& grouping_ascends(m)
    &&& increasing_within(m.object_offsets, m.object_nodes)
}

/// Graphs strictly increase, and so do the subjects of each graph and the
/// predicates of each subject: no graph, and within its group no subject or
/// predicate, is written twice.
pub open spec fn grouping_ascends(m: TrigModel) -> bool {
    &&& forall|a: int, b: int|
        0 <= a < b < m.graph_nodes.len() ==> graph_lt(
            #[trigger] m.graph_nodes[a],
            #[trigger] m.graph_nodes[b],
        )
    &&& increasing_within(m.subject_offsets, m.subject_nodes)
    &&& increasing_within(m.predicate_offsets, m.predicate_nodes)
}

/// The last graph, subject, predicate and object of a grouping are those of
/// the key `k`.
pub open spec fn ends_with(m: TrigModel, k: TripleKey) -> bool {
    &&& m.graph_nodes.len() > 0
    &&& m.graph_nodes.last() == key_graph(k)
    &&& m.subject_nodes.last() == NodeId(k.1)
    &&& m.predicate_nodes.last() == NodeId(k.2)
    &&& m.object_nodes.last() == NodeId(k.3)
}

/// Extending a level by a new group, by an item larger than the last in the
/// last group, or not at all, keeps the ids increasing within groups.
proof fn lemma_level_increasing(
    off: Seq<usize>,
    ids: Seq<NodeId>,
    off2: Seq<usize>,
    ids2: Seq<NodeId>,
    x: NodeId,
)
    requires
        open_offsets_ok(off, off.len() as int, ids.len() as int),
        ids.len() < usize::MAX,
        increasing_within(off, ids),
        (off2 == off.push(ids.len() as usize) && ids2 == ids.push(x)) || (off2 == off && off.len()
            > 0 && ids.len() > 0 && ids2 == ids.push(x) && ids.last().0 < x.0) || (off2 == off
            && ids2 == ids),
    ensures
        increasing_within(off2, ids2),
{
    let n = ids.len() as int;
    assert forall|g: int, a: int, b: int|
        #![trigger off2[g], ids2[a], ids2[b]]
        0 <= g < off2.len() && off2[g] <= a < b < group_end(off2, g, ids2.len() as int) implies ids2[a].0
        < ids2[b].0 by {
        if off2 == off.push(n as usize) && ids2 == ids.push(x) {
            if g < off.len() {
                assert(group_end(off2, g, ids2.len() as int) == group_end(off, g, n));
                assert(ids2[a] == ids[a] && ids2[b] == ids[b]);
            }
        } else if off2 == off && ids2 == ids.push(x) {
            if g + 1 < off.len() {
                assert(off[g + 1] < n);
                assert(ids2[a] == ids[a] && ids2[b] == ids[b]);
            } else if b < n {
                assert(ids2[a] == ids[a] && ids2[b] == ids[b]);
            } else {
                assert(off[g] < n);
                assert(ids2[a] == ids[a]);
                if a < n - 1 {
                    assert(ids[a].0 < ids[n - 1].0);
                }
            }
        }
    }
}

/// Adding a key that follows the last key of a merged grouping keeps it
/// merged.
proof fn lemma_push_triple_merged(m: TrigModel, last: TripleKey, k: TripleKey, distinct: bool)
    requires
        open_model_wf(m),
        m.object_nodes.len() < usize::MAX,
        grouping_ascends(m),
        distinct ==> increasing_within(m.object_offsets, m.object_nodes),
        m.graph_nodes.len() == 0 || (ends_with(m, last) && key_le(last, k) && (distinct ==> last
            != k)),
    ensures
        grouping_ascends(push_triple(m, k)),
        distinct ==> increasing_within(push_triple(m, k).object_offsets, push_triple(m, k).object_nodes),
        ends_with(push_triple(m, k), k),
{
    let r = push_triple(m, k);
    lemma_strict_offsets_bound(m.object_offsets, m.predicate_nodes.len() as int, m.object_nodes.len() as int);
    lemma_strict_offsets_bound(m.predicate_offsets, m.subject_nodes.len() as int, m.predicate_nodes.len() as int);
    lemma_strict_offsets_bound(m.subject_offsets, m.graph_nodes.len() as int, m.subject_nodes.len() as int);
    let g = key_graph(k);
    let new_graph = m.graph_nodes.len() == 0 || m.graph_nodes.last() != g;
    let new_subject = new_graph || m.subject_nodes.last() != NodeId(k.1);
    let new_predicate = new_subject || m.predicate_nodes.last() != NodeId(k.2);
    assert forall|a: int, b: int|
        0 <= a < b < r.graph_nodes.len() implies graph_lt(
        #[trigger] r.graph_nodes[a],
        #[trigger] r.graph_nodes[b],
    ) by {
        if new_graph && b == m.graph_nodes.len() {
            let l = m.graph_nodes.len() - 1;
            assert(graph_lt(m.graph_nodes[l], g));
            if a < l {
                assert(graph_lt(m.graph_nodes[a], m.graph_nodes[l]));
            }
        }
    }
    if !new_subject {
        assert(m.subject_nodes.len() > 0);
    }
    if !new_graph && new_subject {
        assert(m.subject_nodes.last().0 < k.1);
    }
    if !new_subject && new_predicate {
        assert(m.predicate_nodes.last().0 < k.2);
    }
    lemma_level_increasing(m.subject_offsets, m.subject_nodes, r.subject_offsets, r.subject_nodes, NodeId(k.1));
    lemma_level_increasing(m.predicate_offsets, m.predicate_nodes, r.predicate_offsets, r.predicate_nodes, NodeId(k.2));
    if distinct {
        if !new_predicate {
            assert(m.object_nodes.last().0 < k.3);
        }
        lemma_level_increasing(m.object_offsets, m.object_nodes, r.object_offsets, r.object_nodes, NodeId(k.3));
    }
}

/// The grouping of sorted distinct keys is merged, and ends with the last
/// key.
proof fn lemma_group_keys_merged(keys: Seq<TripleKey>, distinct: bool)
    requires
        keys.len() < usize::MAX,
        sorted_by(keys, key_order()),
        distinct ==> keys.no_duplicates(),
    ensures
        grouping_ascends(group_keys(keys)),
        distinct ==> increasing_within(group_keys(keys).object_offsets, group_keys(keys).object_nodes),
        keys.len() > 0 ==> ends_with(group_keys(keys), keys.last()),
        keys.len() == 0 ==> group_keys(keys).graph_nodes.len() == 0,
    decreases keys.len(),
{
    let n: int = 0x1_0000_0000;
    if keys.len() > 0 {
        let prefix = keys.drop_last();
        assert(sorted_by(prefix, key_order())) by {
            assert forall|p: int, q: int| 0 <= p < q < prefix.len() implies #[trigger] key_order()(
                prefix[p],
                prefix[q],
            ) by {
                assert(key_order()(keys[p], keys[q]));
            }
        }
        assert forall|i: int| 0 <= i < prefix.len() implies key_ids_below(#[trigger] prefix[i], n) by {}
        lemma_group_keys_wf(prefix, n);
        lemma_group_keys_merged(prefix, distinct);
        if prefix.len() > 0 {
            assert(key_order()(keys[prefix.len() - 1], keys[prefix.len() as int]));
            if distinct {
                assert(keys[prefix.len() - 1] != keys[prefix.len() as int]);
            }
        }
        lemma_push_triple_merged(group_keys(prefix), if prefix.len() > 0 { prefix.last() } else { keys.last() }, keys.last(), distinct);
    }
}

/// In the TriG document of any keys each graph is written once, and within
/// its graph and subject each subject and predicate is written once: the
/// grouping ascends. For distinct keys, each object of a predicate is also
/// written once: the grouping is merged.
pub proof fn lemma_trig_grouping_merged(keys: Seq<TripleKey>)
    requires
        keys.len() < usize::MAX,
    ensures
        grouping_ascends(trig_grouping(keys)),
        keys.no_duplicates() ==> grouping_merged(trig_grouping(keys)),
{
    broadcast use vstd::seq_lib::group_to_multiset_ensures;

    let sorted = keys.sort_by(key_order());
    keys.lemma_sort_by_ensures(key_order());
    assert(sorted.len() == sorted.to_multiset().len());
    assert(keys.len() == keys.to_multiset().len());
    let distinct = keys.no_duplicates();
    if distinct {
        keys.lemma_multiset_has_no_duplicates();
        sorted.lemma_multiset_has_no_duplicates_conv();
    }
    lemma_group_keys_merged(sorted, distinct);
    let m = group_keys(sorted);
    let c = close_model(m);
    let n: int = 0x1_0000_0000;
    assert forall|i: int| 0 <= i < sorted.len() implies key_ids_below(#[trigger] sorted[i], n) by {}
    lemma_group_keys_wf(sorted, n);
    lemma_strict_offsets_bound(m.object_offsets, m.predicate_nodes.len() as int, m.object_nodes.len() as int);
    lemma_strict_offsets_bound(m.predicate_offsets, m.subject_nodes.len() as int, m.predicate_nodes.len() as int);
    assert forall|g: int| 0 <= g < m.subject_offsets.len() implies #[trigger] group_end(c.subject_offsets, g, c.subject_nodes.len() as int)
        == group_end(m.subject_offsets, g, m.subject_nodes.len() as int) by {}
    assert forall|g: int| 0 <= g < m.predicate_offsets.len() implies #[trigger] group_end(c.predicate_offsets, g, c.predicate_nodes.len() as int)
        == group_end(m.predicate_offsets, g, m.predicate_nodes.len() as int) by {}
    assert forall|g: int| 0 <= g < m.object_offsets.len() implies #[trigger] group_end(c.object_offsets, g, c.object_nodes.len() as int)
        == group_end(m.object_offsets, g, m.object_nodes.len() as int) by {}
    assert(increasing_within(c.subject_offsets, c.subject_nodes)) by {
        assert forall|g: int, a: int, b: int|
            #![trigger c.subject_offsets[g], c.subject_nodes[a], c.subject_nodes[b]]
            0 <= g < c.subject_offsets.len() && c.subject_offsets[g] <= a < b < group_end(c.subject_offsets, g, c.subject_nodes.len() as int)
            implies c.subject_nodes[a].0 < c.subject_nodes[b].0 by {
            if g == m.subject_offsets.len() {
                assert(c.subject_offsets[g] == m.subject_nodes.len());
            }
        }
    }
    assert(increasing_within(c.predicate_offsets, c.predicate_nodes)) by {
        assert forall|g: int, a: int, b: int|
            #![trigger c.predicate_offsets[g], c.predicate_nodes[a], c.predicate_nodes[b]]
            0 <= g < c.predicate_offsets.len() && c.predicate_offsets[g] <= a < b < group_end(c.predicate_offsets, g, c.predicate_nodes.len() as int)
            implies c.predicate_nodes[a].0 < c.predicate_nodes[b].0 by {
            if g == m.predicate_offsets.len() {
                assert(c.predicate_offsets[g] == m.predicate_nodes.len());
            }
        }
    }
    assert(distinct ==> increasing_within(c.object_offsets, c.object_nodes)) by {
        if distinct {
            assert forall|g: int, a: int, b: int|
                #![trigger c.object_offsets[g], c.object_nodes[a], c.object_nodes[b]]
                0 <= g < c.object_offsets.len() && c.object_offsets[g] <= a < b < group_end(c.object_offsets, g, c.object_nodes.len() as int)
                implies c.object_nodes[a].0 < c.object_nodes[b].0 by {
                if g == m.object_offsets.len() {
                    assert(c.object_offsets[g] == m.object_nodes.len());
                }
            }
        }
    }
}

} // verus!
