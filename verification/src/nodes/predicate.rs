//! The predicate of a triple: the relationship between its subject and its
//! object.
use vstd::prelude::*;
use vstd::std_specs::convert::FromSpecImpl;

use crate::nodes::NamedNode;

verus! {

/// A `Predicate` can only be a `NamedNode`, and so is built with `From` from a
/// `NamedNode`. Many widely used predicates are in [`crate::statics`].
#[derive(Clone, Debug, PartialEq, Eq, Hash)]
pub struct Predicate(pub NamedNode);

impl Predicate {
    /// A predicate for an IRI known to be valid; no validation is made.
    pub(crate) fn new_const(iri: &str) -> (p: Predicate)
        ensures
            p.0@ == iri@,
    {
        Predicate(NamedNode::new_const(iri))
    }

    /// A copy of this predicate.
    pub fn duplicate(&self) -> (p: Predicate)
        ensures
            p == *self,
    {
        Predicate(self.0.duplicate())
    }
}

impl<'a> From<&'a Predicate> for Predicate {
    fn from(value: &'a Predicate) -> (r: Predicate) {
        value.duplicate()
    }
}

impl<'a> FromSpecImpl<&'a Predicate> for Predicate {
    open spec fn obeys_from_spec() -> bool {
        true
    }

    open spec fn from_spec(v: &'a Predicate) -> Predicate {
        *v
    }
}

impl From<NamedNode> for Predicate {
    fn from(value: NamedNode) -> (r: Predicate) {
        Predicate(value)
    }
}

impl FromSpecImpl<NamedNode> for Predicate {
    open spec fn obeys_from_spec() -> bool {
        true
    }

    open spec fn from_spec(v: NamedNode) -> Predicate {
        Predicate(v)
    }
}

impl<'a> From<&'a NamedNode> for Predicate {
    fn from(value: &'a NamedNode) -> (r: Predicate) {
        Predicate(value.duplicate())
    }
}

impl<'a> FromSpecImpl<&'a NamedNode> for Predicate {
    open spec fn obeys_from_spec() -> bool {
        true
    }

    open spec fn from_spec(v: &'a NamedNode) -> Predicate {
        Predicate(*v)
    }
}

} // verus!
