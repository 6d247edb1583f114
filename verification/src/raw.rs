//! Triples staged before their namespaces are interned: IRIs carry their full
//! `Namespace`.
use vstd::prelude::*;
use vstd::std_specs::convert::{FromSpecImpl, IntoSpec};

use crate::literal::Literal;
use crate::namespaces::store::NamespaceEntry;
use crate::namespaces::Namespace;

verus! {

/// A `RawIri` is an IRI which contains a full `Namespace`.
#[derive(Debug)]
pub struct RawIri {
    namespace: Namespace,
    endpoint: String,
}

impl View for RawIri {
    /// The namespace and the endpoint.
    type V = (NamespaceEntry, Seq<char>);

    closed spec fn view(&self) -> (NamespaceEntry, Seq<char>) {
        (self.namespace@, self.endpoint@)
    }
}

impl RawIri {
    /// Create a new `RawIri`.
    pub fn new(namespace: Namespace, endpoint: &str) -> (r: RawIri)
        ensures
            r@ == (namespace@, endpoint@),
    {
        RawIri { namespace, endpoint: endpoint.to_owned() }
    }
}

/// A node of a staged triple: a `RawIri` or a `Literal`.
#[derive(Debug)]
pub enum RawNode {
    RawIri(RawIri),
    Literal(Literal),
}

impl From<RawIri> for RawNode {
    fn from(value: RawIri) -> (r: RawNode) {
        RawNode::RawIri(value)
    }
}

impl FromSpecImpl<RawIri> for RawNode {
    open spec fn obeys_from_spec() -> bool {
        true
    }

    open spec fn from_spec(v: RawIri) -> RawNode {
        RawNode::RawIri(v)
    }
}

impl From<Literal> for RawNode {
    fn from(value: Literal) -> (r: RawNode) {
        RawNode::Literal(value)
    }
}

impl FromSpecImpl<Literal> for RawNode {
    open spec fn obeys_from_spec() -> bool {
        true
    }

    open spec fn from_spec(v: Literal) -> RawNode {
        RawNode::Literal(v)
    }
}

/// A `RawTriple` stages a triple whose subject and predicate are `RawIri`s
/// and whose object is a `RawNode`.
#[derive(Debug)]
pub struct RawTriple {
    subject: RawIri,
    predicate: RawIri,
    object: RawNode,
}

impl RawTriple {
    /// The subject, predicate and object of this triple.
    pub closed spec fn parts(self) -> (RawIri, RawIri, RawNode) {
        (self.subject, self.predicate, self.object)
    }

    /// Create a new `RawTriple`; the object is converted into a `RawNode`.
    pub fn new<N: Into<RawNode>>(subject: RawIri, predicate: RawIri, object: N) -> (t: RawTriple)
        ensures
            t.parts().0 == subject,
            t.parts().1 == predicate,
            N::obeys_into_spec() ==> t.parts().2 == object.into_spec(),
    {
        RawTriple { subject, predicate, object: object.into() }
    }
}

} // verus!
