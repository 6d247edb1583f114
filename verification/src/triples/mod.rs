//! Triples: a subject, a predicate and an object, in an optional named
//! graph.
pub mod store;
pub mod view;

pub use store::{InternedTripleId, InternedTripleStore};
pub use view::TripleView;

use vstd::prelude::*;

use crate::nodes::{
    graph_node, object_node, predicate_node, subject_node, Graph, Node, NodeId, NodeValue, Object,
    Predicate, Subject,
};

verus! {

/// The nodes of a triple by position: graph (none for the default graph),
/// subject, predicate and object.
pub type Quad = (Option<Node>, Node, Node, Node);

/// The values of the nodes of a triple by position: what identifies the
/// triple, whatever values of the node types it was built from.
pub type QuadValue = (Option<NodeValue>, NodeValue, NodeValue, NodeValue);

/// The values of the nodes of `q`.
pub open spec fn quad_value(q: Quad) -> QuadValue {
    (
        match q.0 {
            Some(g) => Some(g@),
            None => None,
        },
        q.1@,
        q.2@,
        q.3@,
    )
}

/// A triple of a [`Subject`], a [`Predicate`] and an [`Object`], with an
/// optional [`Graph`].
#[derive(Clone, Debug)]
pub struct Triple {
    graph: Option<Graph>,
    subject: Subject,
    predicate: Predicate,
    object: Object,
}

/// The nodes that the parts of a triple stand for.
pub open spec fn quad_of(parts: (Option<Graph>, Subject, Predicate, Object)) -> Quad {
    (
        match parts.0 {
            Some(g) => Some(graph_node(g)),
            None => None,
        },
        subject_node(parts.1),
        predicate_node(parts.2),
        object_node(parts.3),
    )
}

impl View for Triple {
    type V = (Option<Graph>, Subject, Predicate, Object);

    closed spec fn view(&self) -> (Option<Graph>, Subject, Predicate, Object) {
        (self.graph, self.subject, self.predicate, self.object)
    }
}

impl Triple {
    /// The nodes of this triple by position.
    pub open spec fn quad(&self) -> Quad {
        quad_of(self@)
    }

    /// The values of the nodes of this triple by position.
    pub open spec fn value(&self) -> QuadValue {
        quad_value(self.quad())
    }

    /// A copy of this triple.
    pub fn duplicate(&self) -> (t: Triple)
        ensures
            t == *self,
    {
        let graph = match &self.graph {
            Some(g) => Some(g.duplicate()),
            None => None,
        };
        Triple {
            graph,
            subject: self.subject.duplicate(),
            predicate: self.predicate.duplicate(),
            object: self.object.duplicate(),
        }
    }

    /// Create a new `Triple` from parts, in the default graph.
    pub fn new(subject: Subject, predicate: Predicate, object: Object) -> (t: Triple)
        ensures
            t@ == (None::<Graph>, subject, predicate, object),
    {
        Triple { graph: None, subject, predicate, object }
    }

    /// Create a new `Triple` from parts, in the named `graph`.
    pub fn new_with_graph(graph: Graph, subject: Subject, predicate: Predicate, object: Object) -> (t:
        Triple)
        ensures
            t@ == (Some(graph), subject, predicate, object),
    {
        Triple { graph: Some(graph), subject, predicate, object }
    }

    /// Consume this `Triple`, returning its graph, subject, predicate and
    /// object.
    pub fn into_parts(self) -> (parts: (Option<Graph>, Subject, Predicate, Object))
        ensures
            parts == self@,
    {
        (self.graph, self.subject, self.predicate, self.object)
    }
}

/// A triple whose nodes are interned: the id of each node, the graph being
/// `None` for the default graph.
///
/// Triples are ordered by their fields in order (graph, subject, predicate,
/// object), which is the order in which TriG groups them.
#[derive(Clone, Copy, Debug, PartialEq, Eq, Hash, PartialOrd, Ord)]
pub struct InternedTriple {
    graph: Option<NodeId>,
    subject: NodeId,
    predicate: NodeId,
    object: NodeId,
}

/// The ids of a triple as a tuple of integers: the key under which it is
/// interned and by which it is sorted.
pub type TripleKey = (Option<u32>, u32, u32, u32);

/// The keys of a sequence of interned triples.
pub open spec fn triple_keys(ts: Seq<InternedTriple>) -> Seq<TripleKey> {
    ts.map_values(|t: InternedTriple| t@)
}

impl View for InternedTriple {
    type V = TripleKey;

    closed spec fn view(&self) -> TripleKey {
        (
            match self.graph {
                Some(g) => Some(g.0),
                None => None,
            },
            self.subject.0,
            self.predicate.0,
            self.object.0,
        )
    }
}

impl InternedTriple {
    /// Create a new `InternedTriple` from the ids of its nodes.
    pub fn new(graph: Option<NodeId>, subject: NodeId, predicate: NodeId, object: NodeId) -> (t:
        InternedTriple)
        ensures
            t@ == (
                match graph {
                    Some(g) => Some(g.0),
                    None => None,
                },
                subject.0,
                predicate.0,
                object.0,
            ),
    {
        InternedTriple { graph, subject, predicate, object }
    }

    /// The triple for an interned key.
    pub fn from_key(key: TripleKey) -> (t: InternedTriple)
        ensures
            t@ == key,
    {
        let graph = match key.0 {
            Some(g) => Some(NodeId(g)),
            None => None,
        };
        InternedTriple { graph, subject: NodeId(key.1), predicate: NodeId(key.2), object: NodeId(key.3) }
    }

    /// The key of this triple.
    pub fn key(&self) -> (k: TripleKey)
        ensures
            k == self@,
    {
        let graph = match self.graph {
            Some(g) => Some(g.0),
            None => None,
        };
        (graph, self.subject.0, self.predicate.0, self.object.0)
    }

    /// The id of the graph, `None` for the default graph.
    pub fn graph(&self) -> (g: Option<NodeId>)
        ensures
            match g {
                Some(id) => self@.0 == Some(id.0),
                None => self@.0 is None,
            },
    {
        self.graph
    }

    /// The id of the subject.
    pub fn subject(&self) -> (id: NodeId)
        ensures
            id.0 == self@.1,
    {
        self.subject
    }

    /// The id of the predicate.
    pub fn predicate(&self) -> (id: NodeId)
        ensures
            id.0 == self@.2,
    {
        self.predicate
    }

    /// The id of the object.
    pub fn object(&self) -> (id: NodeId)
        ensures
            id.0 == self@.3,
    {
        self.object
    }
}

} // verus!
