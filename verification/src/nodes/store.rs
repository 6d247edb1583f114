//! The interning store of nodes: every distinct node is kept once and
//! referred to by its index.
use std::hash::BuildHasherDefault;

use ahash::AHasher;
use indexmap::IndexSet;
use vstd::prelude::*;

use crate::index_set::{node_set_get, node_set_insert, node_set_items, node_set_len, node_set_new};
use crate::nodes::{node_values, Node, NodeValue};

verus! {

/// The index of an interned node, held as a `u32` to be cache friendly.
#[derive(Clone, Copy, Debug, PartialEq, Eq, Hash, PartialOrd, Ord)]
pub struct NodeId(pub u32);

impl NodeId {
    /// The id for index `ix`. The store never holds more than `u32::MAX`
    /// nodes, so `ix` always fits.
    pub fn from(ix: usize) -> (id: NodeId)
        requires
            ix <= u32::MAX,
        ensures
            id.0 == ix,
    {
        NodeId(ix as u32)
    }
}

/// A set of unique nodes in insertion order, handing out `NodeId`s as
/// references to them.
#[derive(Debug)]
pub struct NodeStore(IndexSet<Node, BuildHasherDefault<AHasher>>);

impl NodeStore {
    /// The interned nodes; a node's id is its index here.
    pub closed spec fn items(&self) -> Seq<Node> {
        node_set_items(self.0)
    }

    /// The values of the interned nodes, in the same order.
    pub open spec fn values(&self) -> Seq<NodeValue> {
        node_values(self.items())
    }

    /// Every value is held once.
    #[verifier::type_invariant]
    closed spec fn wf(&self) -> bool {
        self.values().no_duplicates()
    }

    /// Create an empty `NodeStore`.
    pub fn new() -> (s: NodeStore)
        ensures
            s.items() == Seq::<Node>::empty(),
            s.values().no_duplicates(),
    {
        let s = NodeStore(node_set_new());
        assert(s.values() =~= Seq::<NodeValue>::empty());
        s
    }

    /// The number of interned nodes.
    pub fn len(&self) -> (n: usize)
        ensures
            n == self.items().len(),
            self.values().no_duplicates(),
    {
        proof {
            use_type_invariant(self);
        }
        node_set_len(&self.0)
    }

    /// Intern `node`, returning its id: the id of the interned node with the
    /// same value, or the id of `node` appended at the end. Every value is
    /// held once, so interning a node equal to one already interned, however
    /// it was built, returns the same id and adds nothing.
    pub fn intern_node(&mut self, node: Node) -> (id: NodeId)
        requires
            old(self).items().len() < u32::MAX,
        ensures
            old(self).values().contains(node@) ==> final(self).items() == old(self).items(),
            !old(self).values().contains(node@) ==> final(self).items() == old(self).items().push(
                node,
            ),
            id.0 < final(self).items().len(),
            final(self).items()[id.0 as int]@ == node@,
            final(self).values().no_duplicates(),
            forall|j: int|
                0 <= j < final(self).items().len() && #[trigger] final(self).values()[j] == node@
                    ==> j == id.0,
            !old(self).values().contains(node@) ==> id.0 == old(self).items().len(),
    {
        proof {
            use_type_invariant(&*self);
        }
        let ghost before = self.values();
        let mut taken = NodeStore::new();
        std::mem::swap(&mut taken, self);
        let NodeStore(mut set) = taken;
        let (ix, _) = node_set_insert(&mut set, node);
        let ghost after = node_values(node_set_items(set));
        proof {
            if !before.contains(node@) {
                assert(after =~= before.push(node@));
                assert forall|i: int, j: int|
                    0 <= i < after.len() && 0 <= j < after.len() && i != j implies after[i]
                    != after[j] by {
                    if i < before.len() && j < before.len() {
                    } else if i < before.len() {
                        assert(before.contains(before[i]));
                    } else {
                        assert(before.contains(before[j]));
                    }
                }
            }
            assert(after[ix as int] == node@);
            assert forall|j: int| 0 <= j < after.len() && #[trigger] after[j] == node@ implies j
                == ix by {
                assert(after.no_duplicates());
            }
        }
        *self = NodeStore(set);
        NodeId::from(ix)
    }

    /// The node interned under `node_id`.
    pub fn query_node(&self, node_id: NodeId) -> (n: &Node)
        requires
            node_id.0 < self.items().len(),
        ensures
            *n == self.items()[node_id.0 as int],
    {
        node_set_get(&self.0, node_id.0 as usize).unwrap()
    }
}

} // verus!
