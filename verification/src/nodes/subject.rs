//! The subject of a triple: the node the rest of the triple expands upon.
use vstd::prelude::*;
use vstd::std_specs::convert::FromSpecImpl;

use crate::nodes::{BlankNode, NamedNode};

verus! {

/// A `Subject` can only be a `BlankNode` or a `NamedNode`, and so is built
/// with the `From` implementations for these types.
#[derive(Clone, Debug, PartialEq, Eq, Hash)]
pub enum Subject {
    Blank(BlankNode),
    Named(NamedNode),
}

impl Subject {
    /// Create a new `Subject::Blank`, with `label` identifying the blank
    /// resource.
    pub fn blank(label: &str) -> (s: Subject)
        ensures
            s matches Subject::Blank(b) && b@ == label@,
    {
        Subject::Blank(BlankNode::new(label))
    }

    /// A subject named by an IRI known to be valid; no validation is made.
    pub(crate) fn new_const_named(iri: &str) -> (s: Subject)
        ensures
            s matches Subject::Named(n) && n@ == iri@,
    {
        Subject::Named(NamedNode::new_const(iri))
    }

    /// A copy of this subject.
    pub fn duplicate(&self) -> (s: Subject)
        ensures
            s == *self,
    {
        match self {
            Subject::Blank(b) => Subject::Blank(b.duplicate()),
            Subject::Named(n) => Subject::Named(n.duplicate()),
        }
    }
}

impl<'a> From<&'a Subject> for Subject {
    fn from(value: &'a Subject) -> (r: Subject) {
        value.duplicate()
    }
}

impl<'a> FromSpecImpl<&'a Subject> for Subject {
    open spec fn obeys_from_spec() -> bool {
        true
    }

    open spec fn from_spec(v: &'a Subject) -> Subject {
        *v
    }
}

impl From<NamedNode> for Subject {
    fn from(value: NamedNode) -> (r: Subject) {
        Subject::Named(value)
    }
}

impl FromSpecImpl<NamedNode> for Subject {
    open spec fn obeys_from_spec() -> bool {
        true
    }

    open spec fn from_spec(v: NamedNode) -> Subject {
        Subject::Named(v)
    }
}

impl<'a> From<&'a NamedNode> for Subject {
    fn from(value: &'a NamedNode) -> (r: Subject) {
        Subject::Named(value.duplicate())
    }
}

impl<'a> FromSpecImpl<&'a NamedNode> for Subject {
    open spec fn obeys_from_spec() -> bool {
        true
    }

    open spec fn from_spec(v: &'a NamedNode) -> Subject {
        Subject::Named(*v)
    }
}

impl From<BlankNode> for Subject {
    fn from(value: BlankNode) -> (r: Subject) {
        Subject::Blank(value)
    }
}

impl FromSpecImpl<BlankNode> for Subject {
    open spec fn obeys_from_spec() -> bool {
        true
    }

    open spec fn from_spec(v: BlankNode) -> Subject {
        Subject::Blank(v)
    }
}

impl<'a> From<&'a BlankNode> for Subject {
    fn from(value: &'a BlankNode) -> (r: Subject) {
        Subject::Blank(value.duplicate())
    }
}

impl<'a> FromSpecImpl<&'a BlankNode> for Subject {
    open spec fn obeys_from_spec() -> bool {
        true
    }

    open spec fn from_spec(v: &'a BlankNode) -> Subject {
        Subject::Blank(*v)
    }
}

} // verus!
