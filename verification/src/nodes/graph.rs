//! The graph a triple belongs to, when it is not the default graph.
use vstd::prelude::*;
use vstd::std_specs::convert::FromSpecImpl;

use crate::nodes::{BlankNode, NamedNode};

verus! {

/// A named graph: a `BlankNode` or a `NamedNode`.
#[derive(Clone, Debug, PartialEq, Eq, Hash)]
pub enum Graph {
    Blank(BlankNode),
    Named(NamedNode),
}

impl Graph {
    /// A graph named by an IRI known to be valid; no validation is made.
    pub(crate) fn new_const_named(iri: &str) -> (g: Graph)
        ensures
            g matches Graph::Named(n) && n@ == iri@,
    {
        Graph::Named(NamedNode::new_const(iri))
    }

    /// A copy of this graph.
    pub fn duplicate(&self) -> (g: Graph)
        ensures
            g == *self,
    {
        match self {
            Graph::Blank(b) => Graph::Blank(b.duplicate()),
            Graph::Named(n) => Graph::Named(n.duplicate()),
        }
    }
}

impl<'a> From<&'a Graph> for Graph {
    fn from(value: &'a Graph) -> (r: Graph) {
        value.duplicate()
    }
}

impl<'a> FromSpecImpl<&'a Graph> for Graph {
    open spec fn obeys_from_spec() -> bool {
        true
    }

    open spec fn from_spec(v: &'a Graph) -> Graph {
        *v
    }
}

impl From<BlankNode> for Graph {
    fn from(value: BlankNode) -> (r: Graph) {
        Graph::Blank(value)
    }
}

impl FromSpecImpl<BlankNode> for Graph {
    open spec fn obeys_from_spec() -> bool {
        true
    }

    open spec fn from_spec(v: BlankNode) -> Graph {
        Graph::Blank(v)
    }
}

impl<'a> From<&'a BlankNode> for Graph {
    fn from(value: &'a BlankNode) -> (r: Graph) {
        Graph::Blank(value.duplicate())
    }
}

impl<'a> FromSpecImpl<&'a BlankNode> for Graph {
    open spec fn obeys_from_spec() -> bool {
        true
    }

    open spec fn from_spec(v: &'a BlankNode) -> Graph {
        Graph::Blank(*v)
    }
}

impl From<NamedNode> for Graph {
    fn from(value: NamedNode) -> (r: Graph) {
        Graph::Named(value)
    }
}

impl FromSpecImpl<NamedNode> for Graph {
    open spec fn obeys_from_spec() -> bool {
        true
    }

    open spec fn from_spec(v: NamedNode) -> Graph {
        Graph::Named(v)
    }
}

impl<'a> From<&'a NamedNode> for Graph {
    fn from(value: &'a NamedNode) -> (r: Graph) {
        Graph::Named(value.duplicate())
    }
}

impl<'a> FromSpecImpl<&'a NamedNode> for Graph {
    open spec fn obeys_from_spec() -> bool {
        true
    }

    open spec fn from_spec(v: &'a NamedNode) -> Graph {
        Graph::Named(*v)
    }
}

} // verus!
