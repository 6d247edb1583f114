//! The object of a triple: the value of its predicate for its subject.
use vstd::prelude::*;
use vstd::std_specs::convert::FromSpecImpl;

use crate::nodes::literals::LiteralNode;
use crate::nodes::{
    BlankNode, BooleanLiteral, DateTimeLiteral, DecimalLiteral, GYearLiteral, NamedNode,
    StringLiteral,
};

verus! {

/// An `Object` is any of a `BlankNode`, a `NamedNode` or a literal node, and
/// is built with the `From` implementations of those types.
#[derive(Clone, Debug, PartialEq, Eq, Hash)]
pub enum Object {
    Blank(BlankNode),
    Literal(LiteralNode),
    Named(NamedNode),
}

impl Object {
    /// An object named by an IRI known to be valid; no validation is made.
    pub(crate) fn new_const_named(iri: &str) -> (o: Object)
        ensures
            o matches Object::Named(n) && n@ == iri@,
    {
        Object::Named(NamedNode::new_const(iri))
    }

    /// A copy of this object.
    pub fn duplicate(&self) -> (o: Object)
        ensures
            o == *self,
    {
        match self {
            Object::Blank(b) => Object::Blank(b.duplicate()),
            Object::Literal(l) => Object::Literal(l.duplicate()),
            Object::Named(n) => Object::Named(n.duplicate()),
        }
    }
}

impl<'a> From<&'a Object> for Object {
    fn from(value: &'a Object) -> (r: Object) {
        value.duplicate()
    }
}

impl<'a> FromSpecImpl<&'a Object> for Object {
    open spec fn obeys_from_spec() -> bool {
        true
    }

    open spec fn from_spec(v: &'a Object) -> Object {
        *v
    }
}

impl From<BooleanLiteral> for Object {
    fn from(value: BooleanLiteral) -> (r: Object) {
        Object::Literal(LiteralNode::Boolean(value))
    }
}

impl FromSpecImpl<BooleanLiteral> for Object {
    open spec fn obeys_from_spec() -> bool {
        true
    }

    open spec fn from_spec(v: BooleanLiteral) -> Object {
        Object::Literal(LiteralNode::Boolean(v))
    }
}

impl From<DateTimeLiteral> for Object {
    fn from(value: DateTimeLiteral) -> (r: Object) {
        Object::Literal(LiteralNode::DateTime(value))
    }
}

impl FromSpecImpl<DateTimeLiteral> for Object {
    open spec fn obeys_from_spec() -> bool {
        true
    }

    open spec fn from_spec(v: DateTimeLiteral) -> Object {
        Object::Literal(LiteralNode::DateTime(v))
    }
}

impl From<DecimalLiteral> for Object {
    fn from(value: DecimalLiteral) -> (r: Object) {
        Object::Literal(LiteralNode::Decimal(value))
    }
}

impl FromSpecImpl<DecimalLiteral> for Object {
    open spec fn obeys_from_spec() -> bool {
        true
    }

    open spec fn from_spec(v: DecimalLiteral) -> Object {
        Object::Literal(LiteralNode::Decimal(v))
    }
}

impl From<GYearLiteral> for Object {
    fn from(value: GYearLiteral) -> (r: Object) {
        Object::Literal(LiteralNode::GYear(value))
    }
}

impl FromSpecImpl<GYearLiteral> for Object {
    open spec fn obeys_from_spec() -> bool {
        true
    }

    open spec fn from_spec(v: GYearLiteral) -> Object {
        Object::Literal(LiteralNode::GYear(v))
    }
}

impl From<StringLiteral> for Object {
    fn from(value: StringLiteral) -> (r: Object) {
        Object::Literal(LiteralNode::String(value))
    }
}

impl FromSpecImpl<StringLiteral> for Object {
    open spec fn obeys_from_spec() -> bool {
        true
    }

    open spec fn from_spec(v: StringLiteral) -> Object {
        Object::Literal(LiteralNode::String(v))
    }
}

impl From<LiteralNode> for Object {
    fn from(value: LiteralNode) -> (r: Object) {
        Object::Literal(value)
    }
}

impl FromSpecImpl<LiteralNode> for Object {
    open spec fn obeys_from_spec() -> bool {
        true
    }

    open spec fn from_spec(v: LiteralNode) -> Object {
        Object::Literal(v)
    }
}

impl From<NamedNode> for Object {
    fn from(value: NamedNode) -> (r: Object) {
        Object::Named(value)
    }
}

impl FromSpecImpl<NamedNode> for Object {
    open spec fn obeys_from_spec() -> bool {
        true
    }

    open spec fn from_spec(v: NamedNode) -> Object {
        Object::Named(v)
    }
}

impl<'a> From<&'a NamedNode> for Object {
    fn from(value: &'a NamedNode) -> (r: Object) {
        Object::Named(value.duplicate())
    }
}

impl<'a> FromSpecImpl<&'a NamedNode> for Object {
    open spec fn obeys_from_spec() -> bool {
        true
    }

    open spec fn from_spec(v: &'a NamedNode) -> Object {
        Object::Named(*v)
    }
}

impl From<BlankNode> for Object {
    fn from(value: BlankNode) -> (r: Object) {
        Object::Blank(value)
    }
}

impl FromSpecImpl<BlankNode> for Object {
    open spec fn obeys_from_spec() -> bool {
        true
    }

    open spec fn from_spec(v: BlankNode) -> Object {
        Object::Blank(v)
    }
}

impl<'a> From<&'a BlankNode> for Object {
    fn from(value: &'a BlankNode) -> (r: Object) {
        Object::Blank(value.duplicate())
    }
}

impl<'a> FromSpecImpl<&'a BlankNode> for Object {
    open spec fn obeys_from_spec() -> bool {
        true
    }

    open spec fn from_spec(v: &'a BlankNode) -> Object {
        Object::Blank(*v)
    }
}

} // verus!
