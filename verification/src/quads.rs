//! Quads whose graph and nodes are already interned.
use vstd::prelude::*;

use crate::graphs::GraphId;
use crate::nodes::store::NodeId;

verus! {

/// An interned quad: the id of its graph and the ids of its subject,
/// predicate and object nodes.
#[derive(Clone, Copy, Debug, PartialEq, Eq, Hash)]
pub struct InternedQuad {
    pub graph: GraphId,
    pub subject: NodeId,
    pub predicate: NodeId,
    pub object: NodeId,
}

impl InternedQuad {
    /// Create a new `InternedQuad`.
    pub fn new(graph: GraphId, subject: NodeId, predicate: NodeId, object: NodeId) -> (q:
        InternedQuad)
        ensures
            q == (InternedQuad { graph, subject, predicate, object }),
    {
        InternedQuad { graph, subject, predicate, object }
    }

    /// The id of the `subject` node.
    pub fn subject_id(&self) -> (id: NodeId)
        ensures
            id == self.subject,
    {
        self.subject
    }

    /// The id of the `predicate` node.
    pub fn predicate_id(&self) -> (id: NodeId)
        ensures
            id == self.predicate,
    {
        self.predicate
    }

    /// The id of the `object` node.
    pub fn object_id(&self) -> (id: NodeId)
        ensures
            id == self.object,
    {
        self.object
    }
}

/// The index of an interned quad.
#[derive(Clone, Copy, Debug, PartialEq, Eq, Hash)]
pub struct QuadId(pub u32);

impl QuadId {
    /// The id for index `ix`, which a store never lets exceed `u32::MAX`.
    pub fn from(ix: usize) -> (id: QuadId)
        requires
            ix <= u32::MAX,
        ensures
            id.0 == ix,
    {
        QuadId(ix as u32)
    }
}

} // verus!
