//! The RDF Schema vocabulary.
//!
//! Every term converts into a `Subject`, `Predicate`, `Object` or
//! `NamedNode` for its full IRI, under `http://www.w3.org/2000/01/rdf-schema#`.
use vstd::prelude::*;
use vstd::std_specs::convert::FromSpecImpl;

use crate::nodes::{NamedNode, Object, Predicate, Subject};

verus! {

/// The properties of this vocabulary.
#[derive(Debug, PartialEq, Eq, Clone, Copy)]
pub enum Property {
    Comment,
    Domain,
    IsDefinedBy,
    Label,
    Member,
    Range,
    SeeAlso,
    SubClassOf,
    SubPropertyOf,
}

impl Property {
    /// The full IRI of this term.
    pub open spec fn spec_iri(self) -> Seq<char> {
        match self {
            Property::Comment => "http://www.w3.org/2000/01/rdf-schema#comment"@,
            Property::Domain => "http://www.w3.org/2000/01/rdf-schema#domain"@,
            Property::IsDefinedBy => "http://www.w3.org/2000/01/rdf-schema#isDefinedBy"@,
            Property::Label => "http://www.w3.org/2000/01/rdf-schema#label"@,
            Property::Member => "http://www.w3.org/2000/01/rdf-schema#member"@,
            Property::Range => "http://www.w3.org/2000/01/rdf-schema#range"@,
            Property::SeeAlso => "http://www.w3.org/2000/01/rdf-schema#seeAlso"@,
            Property::SubClassOf => "http://www.w3.org/2000/01/rdf-schema#subClassOf"@,
            Property::SubPropertyOf => "http://www.w3.org/2000/01/rdf-schema#subPropertyOf"@,
        }
    }

    /// The full IRI of this term.
    pub fn iri(self) -> (s: &'static str)
        ensures
            s@ == self.spec_iri(),
    {
        match self {
            Property::Comment => "http://www.w3.org/2000/01/rdf-schema#comment",
            Property::Domain => "http://www.w3.org/2000/01/rdf-schema#domain",
            Property::IsDefinedBy => "http://www.w3.org/2000/01/rdf-schema#isDefinedBy",
            Property::Label => "http://www.w3.org/2000/01/rdf-schema#label",
            Property::Member => "http://www.w3.org/2000/01/rdf-schema#member",
            Property::Range => "http://www.w3.org/2000/01/rdf-schema#range",
            Property::SeeAlso => "http://www.w3.org/2000/01/rdf-schema#seeAlso",
            Property::SubClassOf => "http://www.w3.org/2000/01/rdf-schema#subClassOf",
            Property::SubPropertyOf => "http://www.w3.org/2000/01/rdf-schema#subPropertyOf",
        }
    }
}

impl From<Property> for Subject {
    fn from(value: Property) -> (r: Subject)
        ensures
            r matches Subject::Named(n) && n@ == value.spec_iri(),
    {
        Subject::new_const_named(value.iri())
    }
}

impl FromSpecImpl<Property> for Subject {
    /// The node holds a freshly built `String`; `from` states its IRI.
    open spec fn obeys_from_spec() -> bool {
        false
    }

    open spec fn from_spec(v: Property) -> Subject {
        arbitrary()
    }
}

impl From<Property> for Predicate {
    fn from(value: Property) -> (r: Predicate)
        ensures
            r.0@ == value.spec_iri(),
    {
        Predicate::new_const(value.iri())
    }
}

impl FromSpecImpl<Property> for Predicate {
    /// The node holds a freshly built `String`; `from` states its IRI.
    open spec fn obeys_from_spec() -> bool {
        false
    }

    open spec fn from_spec(v: Property) -> Predicate {
        arbitrary()
    }
}

impl From<Property> for Object {
    fn from(value: Property) -> (r: Object)
        ensures
            r matches Object::Named(n) && n@ == value.spec_iri(),
    {
        Object::new_const_named(value.iri())
    }
}

impl FromSpecImpl<Property> for Object {
    /// The node holds a freshly built `String`; `from` states its IRI.
    open spec fn obeys_from_spec() -> bool {
        false
    }

    open spec fn from_spec(v: Property) -> Object {
        arbitrary()
    }
}

impl From<Property> for NamedNode {
    fn from(value: Property) -> (r: NamedNode)
        ensures
            r@ == value.spec_iri(),
    {
        NamedNode::new_const(value.iri())
    }
}

impl FromSpecImpl<Property> for NamedNode {
    /// The node holds a freshly built `String`; `from` states its IRI.
    open spec fn obeys_from_spec() -> bool {
        false
    }

    open spec fn from_spec(v: Property) -> NamedNode {
        arbitrary()
    }
}

/// The classes of this vocabulary.
#[derive(Debug, PartialEq, Eq, Clone, Copy)]
pub enum Class {
    Class,
    Container,
    ContainerMembershipProperty,
    Datatype,
    Literal,
    Resource,
}

impl Class {
    /// The full IRI of this term.
    pub open spec fn spec_iri(self) -> Seq<char> {
        match self {
            Class::Class => "http://www.w3.org/2000/01/rdf-schema#Class"@,
            Class::Container => "http://www.w3.org/2000/01/rdf-schema#Container"@,
            Class::ContainerMembershipProperty => "http://www.w3.org/2000/01/rdf-schema#ContainerMembershipProperty"@,
            Class::Datatype => "http://www.w3.org/2000/01/rdf-schema#Datatype"@,
            Class::Literal => "http://www.w3.org/2000/01/rdf-schema#Literal"@,
            Class::Resource => "http://www.w3.org/2000/01/rdf-schema#Resource"@,
        }
    }

    /// The full IRI of this term.
    pub fn iri(self) -> (s: &'static str)
        ensures
            s@ == self.spec_iri(),
    {
        match self {
            Class::Class => "http://www.w3.org/2000/01/rdf-schema#Class",
            Class::Container => "http://www.w3.org/2000/01/rdf-schema#Container",
            Class::ContainerMembershipProperty => "http://www.w3.org/2000/01/rdf-schema#ContainerMembershipProperty",
            Class::Datatype => "http://www.w3.org/2000/01/rdf-schema#Datatype",
            Class::Literal => "http://www.w3.org/2000/01/rdf-schema#Literal",
            Class::Resource => "http://www.w3.org/2000/01/rdf-schema#Resource",
        }
    }
}

impl From<Class> for Subject {
    fn from(value: Class) -> (r: Subject)
        ensures
            r matches Subject::Named(n) && n@ == value.spec_iri(),
    {
        Subject::new_const_named(value.iri())
    }
}

impl FromSpecImpl<Class> for Subject {
    /// The node holds a freshly built `String`; `from` states its IRI.
    open spec fn obeys_from_spec() -> bool {
        false
    }

    open spec fn from_spec(v: Class) -> Subject {
        arbitrary()
    }
}

impl From<Class> for Predicate {
    fn from(value: Class) -> (r: Predicate)
        ensures
            r.0@ == value.spec_iri(),
    {
        Predicate::new_const(value.iri())
    }
}

impl FromSpecImpl<Class> for Predicate {
    /// The node holds a freshly built `String`; `from` states its IRI.
    open spec fn obeys_from_spec() -> bool {
        false
    }

    open spec fn from_spec(v: Class) -> Predicate {
        arbitrary()
    }
}

impl From<Class> for Object {
    fn from(value: Class) -> (r: Object)
        ensures
            r matches Object::Named(n) && n@ == value.spec_iri(),
    {
        Object::new_const_named(value.iri())
    }
}

impl FromSpecImpl<Class> for Object {
    /// The node holds a freshly built `String`; `from` states its IRI.
    open spec fn obeys_from_spec() -> bool {
        false
    }

    open spec fn from_spec(v: Class) -> Object {
        arbitrary()
    }
}

impl From<Class> for NamedNode {
    fn from(value: Class) -> (r: NamedNode)
        ensures
            r@ == value.spec_iri(),
    {
        NamedNode::new_const(value.iri())
    }
}

impl FromSpecImpl<Class> for NamedNode {
    /// The node holds a freshly built `String`; `from` states its IRI.
    open spec fn obeys_from_spec() -> bool {
        false
    }

    open spec fn from_spec(v: Class) -> NamedNode {
        arbitrary()
    }
}

/// The base IRI of this vocabulary, which every term's IRI extends.
pub open spec fn vocabulary_base() -> Seq<char> {
    "http://www.w3.org/2000/01/rdf-schema#"@
}

/// Every term of `Property` has an IRI made of this vocabulary's base IRI
/// followed by a non-empty local name, and two distinct properties never
/// share an IRI.
pub proof fn lemma_property_iris(a: Property, b: Property)
    ensures
        a.spec_iri().len() > vocabulary_base().len(),
        a.spec_iri().subrange(0, vocabulary_base().len() as int) == vocabulary_base(),
        a != b ==> a.spec_iri() != b.spec_iri(),
{
    reveal_strlit("http://www.w3.org/2000/01/rdf-schema#");
    reveal_strlit("http://www.w3.org/2000/01/rdf-schema#comment");
    reveal_strlit("http://www.w3.org/2000/01/rdf-schema#domain");
    reveal_strlit("http://www.w3.org/2000/01/rdf-schema#isDefinedBy");
    reveal_strlit("http://www.w3.org/2000/01/rdf-schema#label");
    reveal_strlit("http://www.w3.org/2000/01/rdf-schema#member");
    reveal_strlit("http://www.w3.org/2000/01/rdf-schema#range");
    reveal_strlit("http://www.w3.org/2000/01/rdf-schema#seeAlso");
    reveal_strlit("http://www.w3.org/2000/01/rdf-schema#subClassOf");
    reveal_strlit("http://www.w3.org/2000/01/rdf-schema#subPropertyOf");
    reveal_strlit("http://www.w3.org/2000/01/rdf-schema#Class");
    reveal_strlit("http://www.w3.org/2000/01/rdf-schema#Container");
    reveal_strlit("http://www.w3.org/2000/01/rdf-schema#ContainerMembershipProperty");
    reveal_strlit("http://www.w3.org/2000/01/rdf-schema#Datatype");
    reveal_strlit("http://www.w3.org/2000/01/rdf-schema#Literal");
    reveal_strlit("http://www.w3.org/2000/01/rdf-schema#Resource");
    let sa = a.spec_iri();
    let sb = b.spec_iri();
    if sa == sb {
        assert(sa.len() == sb.len());
        assert(sa[sa.len() - 1] == sb[sb.len() - 1]);
    }
    assert(sa.subrange(0, vocabulary_base().len() as int) =~= vocabulary_base());
}

/// Every term of `Class` has an IRI made of this vocabulary's base IRI
/// followed by a non-empty local name, and two distinct classes never
/// share an IRI.
pub proof fn lemma_class_iris(a: Class, b: Class)
    ensures
        a.spec_iri().len() > vocabulary_base().len(),
        a.spec_iri().subrange(0, vocabulary_base().len() as int) == vocabulary_base(),
        a != b ==> a.spec_iri() != b.spec_iri(),
{
    reveal_strlit("http://www.w3.org/2000/01/rdf-schema#");
    reveal_strlit("http://www.w3.org/2000/01/rdf-schema#comment");
    reveal_strlit("http://www.w3.org/2000/01/rdf-schema#domain");
    reveal_strlit("http://www.w3.org/2000/01/rdf-schema#isDefinedBy");
    reveal_strlit("http://www.w3.org/2000/01/rdf-schema#label");
    reveal_strlit("http://www.w3.org/2000/01/rdf-schema#member");
    reveal_strlit("http://www.w3.org/2000/01/rdf-schema#range");
    reveal_strlit("http://www.w3.org/2000/01/rdf-schema#seeAlso");
    reveal_strlit("http://www.w3.org/2000/01/rdf-schema#subClassOf");
    reveal_strlit("http://www.w3.org/2000/01/rdf-schema#subPropertyOf");
    reveal_strlit("http://www.w3.org/2000/01/rdf-schema#Class");
    reveal_strlit("http://www.w3.org/2000/01/rdf-schema#Container");
    reveal_strlit("http://www.w3.org/2000/01/rdf-schema#ContainerMembershipProperty");
    reveal_strlit("http://www.w3.org/2000/01/rdf-schema#Datatype");
    reveal_strlit("http://www.w3.org/2000/01/rdf-schema#Literal");
    reveal_strlit("http://www.w3.org/2000/01/rdf-schema#Resource");
    let sa = a.spec_iri();
    let sb = b.spec_iri();
    if sa == sb {
        assert(sa.len() == sb.len());
        assert(sa[sa.len() - 2] == sb[sb.len() - 2]);
    }
    assert(sa.subrange(0, vocabulary_base().len() as int) =~= vocabulary_base());
}

/// No property of this vocabulary shares its IRI with a class.
pub proof fn lemma_property_and_class_iris_differ(p: Property, c: Class)
    ensures
        p.spec_iri() != c.spec_iri(),
{
    reveal_strlit("http://www.w3.org/2000/01/rdf-schema#");
    reveal_strlit("http://www.w3.org/2000/01/rdf-schema#comment");
    reveal_strlit("http://www.w3.org/2000/01/rdf-schema#domain");
    reveal_strlit("http://www.w3.org/2000/01/rdf-schema#isDefinedBy");
    reveal_strlit("http://www.w3.org/2000/01/rdf-schema#label");
    reveal_strlit("http://www.w3.org/2000/01/rdf-schema#member");
    reveal_strlit("http://www.w3.org/2000/01/rdf-schema#range");
    reveal_strlit("http://www.w3.org/2000/01/rdf-schema#seeAlso");
    reveal_strlit("http://www.w3.org/2000/01/rdf-schema#subClassOf");
    reveal_strlit("http://www.w3.org/2000/01/rdf-schema#subPropertyOf");
    reveal_strlit("http://www.w3.org/2000/01/rdf-schema#Class");
    reveal_strlit("http://www.w3.org/2000/01/rdf-schema#Container");
    reveal_strlit("http://www.w3.org/2000/01/rdf-schema#ContainerMembershipProperty");
    reveal_strlit("http://www.w3.org/2000/01/rdf-schema#Datatype");
    reveal_strlit("http://www.w3.org/2000/01/rdf-schema#Literal");
    reveal_strlit("http://www.w3.org/2000/01/rdf-schema#Resource");
    let sp = p.spec_iri();
    let sc = c.spec_iri();
    if sp == sc {
        assert(sp.len() == sc.len());
        assert(sp[sp.len() - 2] == sc[sc.len() - 2]);
    }
}

} // verus!
