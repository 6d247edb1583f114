//! The nodes of RDF: blank nodes, named (IRI) nodes and literals, and the
//! positions they can take in a triple.
pub mod blank;
pub mod graph;
pub mod iri;
pub mod literals;
pub mod named;
pub mod object;
pub mod predicate;
pub mod store;
pub mod subject;

pub use blank::BlankNode;
pub use graph::Graph;
pub use iri::{IriNode, IriNodeView};
pub use literals::{
    BooleanLiteral, DateTimeLiteral, DecimalLiteral, GYearLiteral, LiteralNode, StringLiteral,
};
pub use named::{NamedNode, statics};
pub use object::Object;
pub use predicate::Predicate;
pub use store::{NodeId, NodeStore};
pub use subject::Subject;

use vstd::prelude::*;
use vstd::std_specs::convert::FromSpecImpl;

use crate::traits::{WriteNQuads, WriteTriG};
use blank::blank_bytes;
use literals::{literal_value_nquads, literal_value_trig, LiteralValue};
use named::named_bytes;

verus! {

/// Any node, whatever position it takes in a triple: the unit that a
/// `TripleStore` interns.
#[derive(Clone, Debug, PartialEq, Eq, Hash)]
pub enum Node {
    Blank(BlankNode),
    Literal(LiteralNode),
    Named(NamedNode),
}

/// What a node holds, as plain values: a blank node's label, a literal's
/// value or a named node's IRI. Two nodes are equal, by the derived `Eq` that
/// interning uses, exactly when their values are.
pub enum NodeValue {
    Blank(Seq<char>),
    Literal(LiteralValue),
    Named(Seq<char>),
}

impl View for Node {
    type V = NodeValue;

    open spec fn view(&self) -> NodeValue {
        match self {
            Node::Blank(b) => NodeValue::Blank(b@),
            Node::Literal(l) => NodeValue::Literal(l@),
            Node::Named(n) => NodeValue::Named(n@),
        }
    }
}

/// The values of a sequence of nodes.
pub open spec fn node_values(nodes: Seq<Node>) -> Seq<NodeValue> {
    nodes.map_values(|n: Node| n@)
}

/// The N-Quads bytes of a node with value `v`.
pub open spec fn value_nquads(v: NodeValue) -> Seq<u8> {
    match v {
        NodeValue::Blank(label) => blank_bytes(label),
        NodeValue::Literal(l) => literal_value_nquads(l),
        NodeValue::Named(iri) => named_bytes(iri),
    }
}

/// The TriG bytes of a node with value `v`.
pub open spec fn value_trig(v: NodeValue) -> Seq<u8> {
    match v {
        NodeValue::Blank(label) => blank_bytes(label),
        NodeValue::Literal(l) => literal_value_trig(l),
        NodeValue::Named(iri) => named_bytes(iri),
    }
}

/// A node is written from its value alone: two nodes with the same value,
/// however each was built, are written as the same bytes in N-Quads and in
/// TriG.
pub proof fn lemma_node_written_by_value(a: Node, b: Node)
    requires
        a@ == b@,
    ensures
        a.nquads() == b.nquads(),
        a.trig() == b.trig(),
{
}

/// The node that stands in a graph position.
pub open spec fn graph_node(g: Graph) -> Node {
    match g {
        Graph::Blank(b) => Node::Blank(b),
        Graph::Named(n) => Node::Named(n),
    }
}

/// The node that stands in a subject position.
pub open spec fn subject_node(s: Subject) -> Node {
    match s {
        Subject::Blank(b) => Node::Blank(b),
        Subject::Named(n) => Node::Named(n),
    }
}

/// The node that stands in a predicate position.
pub open spec fn predicate_node(p: Predicate) -> Node {
    Node::Named(p.0)
}

/// The node that stands in an object position.
pub open spec fn object_node(o: Object) -> Node {
    match o {
        Object::Blank(b) => Node::Blank(b),
        Object::Literal(l) => Node::Literal(l),
        Object::Named(n) => Node::Named(n),
    }
}

impl Node {
    /// A copy of this node.
    pub fn duplicate(&self) -> (n: Node)
        ensures
            n == *self,
    {
        match self {
            Node::Blank(b) => Node::Blank(b.duplicate()),
            Node::Literal(l) => Node::Literal(l.duplicate()),
            Node::Named(n) => Node::Named(n.duplicate()),
        }
    }
}

impl From<LiteralNode> for Node {
    fn from(value: LiteralNode) -> (r: Node) {
        Node::Literal(value)
    }
}

impl FromSpecImpl<LiteralNode> for Node {
    open spec fn obeys_from_spec() -> bool {
        true
    }

    open spec fn from_spec(v: LiteralNode) -> Node {
        Node::Literal(v)
    }
}

impl<'a> From<&'a LiteralNode> for Node {
    fn from(value: &'a LiteralNode) -> (r: Node) {
        Node::Literal(value.duplicate())
    }
}

impl<'a> FromSpecImpl<&'a LiteralNode> for Node {
    open spec fn obeys_from_spec() -> bool {
        true
    }

    open spec fn from_spec(v: &'a LiteralNode) -> Node {
        Node::Literal(*v)
    }
}

impl From<NamedNode> for Node {
    fn from(value: NamedNode) -> (r: Node) {
        Node::Named(value)
    }
}

impl FromSpecImpl<NamedNode> for Node {
    open spec fn obeys_from_spec() -> bool {
        true
    }

    open spec fn from_spec(v: NamedNode) -> Node {
        Node::Named(v)
    }
}

impl<'a> From<&'a NamedNode> for Node {
    fn from(value: &'a NamedNode) -> (r: Node) {
        Node::Named(value.duplicate())
    }
}

impl<'a> FromSpecImpl<&'a NamedNode> for Node {
    open spec fn obeys_from_spec() -> bool {
        true
    }

    open spec fn from_spec(v: &'a NamedNode) -> Node {
        Node::Named(*v)
    }
}

impl From<BlankNode> for Node {
    fn from(value: BlankNode) -> (r: Node) {
        Node::Blank(value)
    }
}

impl FromSpecImpl<BlankNode> for Node {
    open spec fn obeys_from_spec() -> bool {
        true
    }

    open spec fn from_spec(v: BlankNode) -> Node {
        Node::Blank(v)
    }
}

impl<'a> From<&'a BlankNode> for Node {
    fn from(value: &'a BlankNode) -> (r: Node) {
        Node::Blank(value.duplicate())
    }
}

impl<'a> FromSpecImpl<&'a BlankNode> for Node {
    open spec fn obeys_from_spec() -> bool {
        true
    }

    open spec fn from_spec(v: &'a BlankNode) -> Node {
        Node::Blank(*v)
    }
}

impl From<Graph> for Node {
    fn from(value: Graph) -> (r: Node) {
        match value {
            Graph::Blank(b) => Node::Blank(b),
            Graph::Named(n) => Node::Named(n),
        }
    }
}

impl FromSpecImpl<Graph> for Node {
    open spec fn obeys_from_spec() -> bool {
        true
    }

    open spec fn from_spec(v: Graph) -> Node {
        graph_node(v)
    }
}

impl<'a> From<&'a Graph> for Node {
    fn from(value: &'a Graph) -> (r: Node) {
        match value {
            Graph::Blank(b) => Node::Blank(b.duplicate()),
            Graph::Named(n) => Node::Named(n.duplicate()),
        }
    }
}

impl<'a> FromSpecImpl<&'a Graph> for Node {
    open spec fn obeys_from_spec() -> bool {
        true
    }

    open spec fn from_spec(v: &'a Graph) -> Node {
        graph_node(*v)
    }
}

impl From<Subject> for Node {
    fn from(value: Subject) -> (r: Node) {
        match value {
            Subject::Blank(b) => Node::Blank(b),
            Subject::Named(n) => Node::Named(n),
        }
    }
}

impl FromSpecImpl<Subject> for Node {
    open spec fn obeys_from_spec() -> bool {
        true
    }

    open spec fn from_spec(v: Subject) -> Node {
        subject_node(v)
    }
}

impl<'a> From<&'a Subject> for Node {
    fn from(value: &'a Subject) -> (r: Node) {
        match value {
            Subject::Blank(b) => Node::Blank(b.duplicate()),
            Subject::Named(n) => Node::Named(n.duplicate()),
        }
    }
}

impl<'a> FromSpecImpl<&'a Subject> for Node {
    open spec fn obeys_from_spec() -> bool {
        true
    }

    open spec fn from_spec(v: &'a Subject) -> Node {
        subject_node(*v)
    }
}

impl From<Predicate> for Node {
    fn from(value: Predicate) -> (r: Node) {
        Node::Named(value.0)
    }
}

impl FromSpecImpl<Predicate> for Node {
    open spec fn obeys_from_spec() -> bool {
        true
    }

    open spec fn from_spec(v: Predicate) -> Node {
        predicate_node(v)
    }
}

impl<'a> From<&'a Predicate> for Node {
    fn from(value: &'a Predicate) -> (r: Node) {
        Node::Named(value.0.duplicate())
    }
}

impl<'a> FromSpecImpl<&'a Predicate> for Node {
    open spec fn obeys_from_spec() -> bool {
        true
    }

    open spec fn from_spec(v: &'a Predicate) -> Node {
        predicate_node(*v)
    }
}

impl From<Object> for Node {
    fn from(value: Object) -> (r: Node) {
        match value {
            Object::Blank(b) => Node::Blank(b),
            Object::Literal(l) => Node::Literal(l),
            Object::Named(n) => Node::Named(n),
        }
    }
}

impl FromSpecImpl<Object> for Node {
    open spec fn obeys_from_spec() -> bool {
        true
    }

    open spec fn from_spec(v: Object) -> Node {
        object_node(v)
    }
}

impl<'a> From<&'a Object> for Node {
    fn from(value: &'a Object) -> (r: Node) {
        match value {
            Object::Blank(b) => Node::Blank(b.duplicate()),
            Object::Literal(l) => Node::Literal(l.duplicate()),
            Object::Named(n) => Node::Named(n.duplicate()),
        }
    }
}

impl<'a> FromSpecImpl<&'a Object> for Node {
    open spec fn obeys_from_spec() -> bool {
        true
    }

    open spec fn from_spec(v: &'a Object) -> Node {
        object_node(*v)
    }
}

impl WriteNQuads for Node {
    open spec fn nquads(&self) -> Seq<u8> {
        value_nquads(self@)
    }

    fn write_nquads(&self, writer: &mut Vec<u8>) {
        match self {
            Node::Blank(b) => b.write_nquads(writer),
            Node::Literal(l) => l.write_nquads(writer),
            Node::Named(n) => n.write_nquads(writer),
        }
    }
}

impl WriteTriG for Node {
    open spec fn trig(&self) -> Seq<u8> {
        value_trig(self@)
    }

    fn write_trig(&self, writer: &mut Vec<u8>) {
        match self {
            Node::Blank(b) => b.write_trig(writer),
            Node::Literal(l) => l.write_trig(writer),
            Node::Named(n) => n.write_trig(writer),
        }
    }
}

} // verus!
