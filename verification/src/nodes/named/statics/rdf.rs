//! The RDF vocabulary.
//!
//! Every term converts into a `Subject`, `Predicate`, `Object` or
//! `NamedNode` for its full IRI, under `http://www.w3.org/1999/02/22-rdf-syntax-ns#`.
use vstd::prelude::*;
use vstd::std_specs::convert::FromSpecImpl;

use crate::nodes::{NamedNode, Object, Predicate, Subject};

verus! {

/// The properties of this vocabulary.
#[derive(Debug, PartialEq, Eq, Clone, Copy)]
pub enum Property {
    First,
    Object,
    Predicate,
    Rest,
    Subject,
    Type,
    Value,
}

impl Property {
    /// The full IRI of this term.
    pub open spec fn spec_iri(self) -> Seq<char> {
        match self {
            Property::First => "http://www.w3.org/1999/02/22-rdf-syntax-ns#first"@,
            Property::Object => "http://www.w3.org/1999/02/22-rdf-syntax-ns#object"@,
            Property::Predicate => "http://www.w3.org/1999/02/22-rdf-syntax-ns#predicate"@,
            Property::Rest => "http://www.w3.org/1999/02/22-rdf-syntax-ns#rest"@,
            Property::Subject => "http://www.w3.org/1999/02/22-rdf-syntax-ns#subject"@,
            Property::Type => "http://www.w3.org/1999/02/22-rdf-syntax-ns#type"@,
            Property::Value => "http://www.w3.org/1999/02/22-rdf-syntax-ns#value"@,
        }
    }

    /// The full IRI of this term.
    pub fn iri(self) -> (s: &'static str)
        ensures
            s@ == self.spec_iri(),
    {
        match self {
            Property::First => "http://www.w3.org/1999/02/22-rdf-syntax-ns#first",
            Property::Object => "http://www.w3.org/1999/02/22-rdf-syntax-ns#object",
            Property::Predicate => "http://www.w3.org/1999/02/22-rdf-syntax-ns#predicate",
            Property::Rest => "http://www.w3.org/1999/02/22-rdf-syntax-ns#rest",
            Property::Subject => "http://www.w3.org/1999/02/22-rdf-syntax-ns#subject",
            Property::Type => "http://www.w3.org/1999/02/22-rdf-syntax-ns#type",
            Property::Value => "http://www.w3.org/1999/02/22-rdf-syntax-ns#value",
        }
    }
}

impl From<Property> for Subject {
    fn from(value: Property) -> (r: Subject)
        ensures
            r matches Subject::Named(n) && n@ == value.spec_iri(),
    {
        Subject::new_const_named(value.iri())
    }
}

impl FromSpecImpl<Property> for Subject {
    /// The node holds a freshly built `String`; `from` states its IRI.
    open spec fn obeys_from_spec() -> bool {
        false
    }

    open spec fn from_spec(v: Property) -> Subject {
        arbitrary()
    }
}

impl From<Property> for Predicate {
    fn from(value: Property) -> (r: Predicate)
        ensures
            r.0@ == value.spec_iri(),
    {
        Predicate::new_const(value.iri())
    }
}

impl FromSpecImpl<Property> for Predicate {
    /// The node holds a freshly built `String`; `from` states its IRI.
    open spec fn obeys_from_spec() -> bool {
        false
    }

    open spec fn from_spec(v: Property) -> Predicate {
        arbitrary()
    }
}

impl From<Property> for Object {
    fn from(value: Property) -> (r: Object)
        ensures
            r matches Object::Named(n) && n@ == value.spec_iri(),
    {
        Object::new_const_named(value.iri())
    }
}

impl FromSpecImpl<Property> for Object {
    /// The node holds a freshly built `String`; `from` states its IRI.
    open spec fn obeys_from_spec() -> bool {
        false
    }

    open spec fn from_spec(v: Property) -> Object {
        arbitrary()
    }
}

impl From<Property> for NamedNode {
    fn from(value: Property) -> (r: NamedNode)
        ensures
            r@ == value.spec_iri(),
    {
        NamedNode::new_const(value.iri())
    }
}

impl FromSpecImpl<Property> for NamedNode {
    /// The node holds a freshly built `String`; `from` states its IRI.
    open spec fn obeys_from_spec() -> bool {
        false
    }

    open spec fn from_spec(v: Property) -> NamedNode {
        arbitrary()
    }
}

/// The classes of this vocabulary.
#[derive(Debug, PartialEq, Eq, Clone, Copy)]
pub enum Class {
    Alt,
    Bag,
    Html,
    LangString,
    List,
    Property,
    Sequence,
    Statement,
    XmlLiteral,
}

impl Class {
    /// The full IRI of this term.
    pub open spec fn spec_iri(self) -> Seq<char> {
        match self {
            Class::Alt => "http://www.w3.org/1999/02/22-rdf-syntax-ns#Alt"@,
            Class::Bag => "http://www.w3.org/1999/02/22-rdf-syntax-ns#Bag"@,
            Class::Html => "http://www.w3.org/1999/02/22-rdf-syntax-ns#HTML"@,
            Class::LangString => "http://www.w3.org/1999/02/22-rdf-syntax-ns#langString"@,
            Class::List => "http://www.w3.org/1999/02/22-rdf-syntax-ns#List"@,
            Class::Property => "http://www.w3.org/1999/02/22-rdf-syntax-ns#Property"@,
            Class::Sequence => "http://www.w3.org/1999/02/22-rdf-syntax-ns#Seq"@,
            Class::Statement => "http://www.w3.org/1999/02/22-rdf-syntax-ns#Statement"@,
            Class::XmlLiteral => "http://www.w3.org/1999/02/22-rdf-syntax-ns#XMLLiteral"@,
        }
    }

    /// The full IRI of this term.
    pub fn iri(self) -> (s: &'static str)
        ensures
            s@ == self.spec_iri(),
    {
        match self {
            Class::Alt => "http://www.w3.org/1999/02/22-rdf-syntax-ns#Alt",
            Class::Bag => "http://www.w3.org/1999/02/22-rdf-syntax-ns#Bag",
            Class::Html => "http://www.w3.org/1999/02/22-rdf-syntax-ns#HTML",
            Class::LangString => "http://www.w3.org/1999/02/22-rdf-syntax-ns#langString",
            Class::List => "http://www.w3.org/1999/02/22-rdf-syntax-ns#List",
            Class::Property => "http://www.w3.org/1999/02/22-rdf-syntax-ns#Property",
            Class::Sequence => "http://www.w3.org/1999/02/22-rdf-syntax-ns#Seq",
            Class::Statement => "http://www.w3.org/1999/02/22-rdf-syntax-ns#Statement",
            Class::XmlLiteral => "http://www.w3.org/1999/02/22-rdf-syntax-ns#XMLLiteral",
        }
    }
}

impl From<Class> for Subject {
    fn from(value: Class) -> (r: Subject)
        ensures
            r matches Subject::Named(n) && n@ == value.spec_iri(),
    {
        Subject::new_const_named(value.iri())
    }
}

impl FromSpecImpl<Class> for Subject {
    /// The node holds a freshly built `String`; `from` states its IRI.
    open spec fn obeys_from_spec() -> bool {
        false
    }

    open spec fn from_spec(v: Class) -> Subject {
        arbitrary()
    }
}

impl From<Class> for Predicate {
    fn from(value: Class) -> (r: Predicate)
        ensures
            r.0@ == value.spec_iri(),
    {
        Predicate::new_const(value.iri())
    }
}

impl FromSpecImpl<Class> for Predicate {
    /// The node holds a freshly built `String`; `from` states its IRI.
    open spec fn obeys_from_spec() -> bool {
        false
    }

    open spec fn from_spec(v: Class) -> Predicate {
        arbitrary()
    }
}

impl From<Class> for Object {
    fn from(value: Class) -> (r: Object)
        ensures
            r matches Object::Named(n) && n@ == value.spec_iri(),
    {
        Object::new_const_named(value.iri())
    }
}

impl FromSpecImpl<Class> for Object {
    /// The node holds a freshly built `String`; `from` states its IRI.
    open spec fn obeys_from_spec() -> bool {
        false
    }

    open spec fn from_spec(v: Class) -> Object {
        arbitrary()
    }
}

impl From<Class> for NamedNode {
    fn from(value: Class) -> (r: NamedNode)
        ensures
            r@ == value.spec_iri(),
    {
        NamedNode::new_const(value.iri())
    }
}

impl FromSpecImpl<Class> for NamedNode {
    /// The node holds a freshly built `String`; `from` states its IRI.
    open spec fn obeys_from_spec() -> bool {
        false
    }

    open spec fn from_spec(v: Class) -> NamedNode {
        arbitrary()
    }
}

/// The base IRI of this vocabulary, which every term's IRI extends.
pub open spec fn vocabulary_base() -> Seq<char> {
    "http://www.w3.org/1999/02/22-rdf-syntax-ns#"@
}

/// Every term of `Property` has an IRI made of this vocabulary's base IRI
/// followed by a non-empty local name, and two distinct properties never
/// share an IRI.
pub proof fn lemma_property_iris(a: Property, b: Property)
    ensures
        a.spec_iri().len() > vocabulary_base().len(),
        a.spec_iri().subrange(0, vocabulary_base().len() as int) == vocabulary_base(),
        a != b ==> a.spec_iri() != b.spec_iri(),
{
    reveal_strlit("http://www.w3.org/1999/02/22-rdf-syntax-ns#");
    reveal_strlit("http://www.w3.org/1999/02/22-rdf-syntax-ns#first");
    reveal_strlit("http://www.w3.org/1999/02/22-rdf-syntax-ns#object");
    reveal_strlit("http://www.w3.org/1999/02/22-rdf-syntax-ns#predicate");
    reveal_strlit("http://www.w3.org/1999/02/22-rdf-syntax-ns#rest");
    reveal_strlit("http://www.w3.org/1999/02/22-rdf-syntax-ns#subject");
    reveal_strlit("http://www.w3.org/1999/02/22-rdf-syntax-ns#type");
    reveal_strlit("http://www.w3.org/1999/02/22-rdf-syntax-ns#value");
    reveal_strlit("http://www.w3.org/1999/02/22-rdf-syntax-ns#Alt");
    reveal_strlit("http://www.w3.org/1999/02/22-rdf-syntax-ns#Bag");
    reveal_strlit("http://www.w3.org/1999/02/22-rdf-syntax-ns#HTML");
    reveal_strlit("http://www.w3.org/1999/02/22-rdf-syntax-ns#langString");
    reveal_strlit("http://www.w3.org/1999/02/22-rdf-syntax-ns#List");
    reveal_strlit("http://www.w3.org/1999/02/22-rdf-syntax-ns#Property");
    reveal_strlit("http://www.w3.org/1999/02/22-rdf-syntax-ns#Seq");
    reveal_strlit("http://www.w3.org/1999/02/22-rdf-syntax-ns#Statement");
    reveal_strlit("http://www.w3.org/1999/02/22-rdf-syntax-ns#XMLLiteral");
    let sa = a.spec_iri();
    let sb = b.spec_iri();
    if sa == sb {
        assert(sa.len() == sb.len());
        assert(sa[sa.len() - 1] == sb[sb.len() - 1]);
    }
    assert(sa.subrange(0, vocabulary_base().len() as int) =~= vocabulary_base());
}

/// Every term of `Class` has an IRI made of this vocabulary's base IRI
/// followed by a non-empty local name, and two distinct classes never
/// share an IRI.
pub proof fn lemma_class_iris(a: Class, b: Class)
    ensures
        a.spec_iri().len() > vocabulary_base().len(),
        a.spec_iri().subrange(0, vocabulary_base().len() as int) == vocabulary_base(),
        a != b ==> a.spec_iri() != b.spec_iri(),
{
    reveal_strlit("http://www.w3.org/1999/02/22-rdf-syntax-ns#");
    reveal_strlit("http://www.w3.org/1999/02/22-rdf-syntax-ns#first");
    reveal_strlit("http://www.w3.org/1999/02/22-rdf-syntax-ns#object");
    reveal_strlit("http://www.w3.org/1999/02/22-rdf-syntax-ns#predicate");
    reveal_strlit("http://www.w3.org/1999/02/22-rdf-syntax-ns#rest");
    reveal_strlit("http://www.w3.org/1999/02/22-rdf-syntax-ns#subject");
    reveal_strlit("http://www.w3.org/1999/02/22-rdf-syntax-ns#type");
    reveal_strlit("http://www.w3.org/1999/02/22-rdf-syntax-ns#value");
    reveal_strlit("http://www.w3.org/1999/02/22-rdf-syntax-ns#Alt");
    reveal_strlit("http://www.w3.org/1999/02/22-rdf-syntax-ns#Bag");
    reveal_strlit("http://www.w3.org/1999/02/22-rdf-syntax-ns#HTML");
    reveal_strlit("http://www.w3.org/1999/02/22-rdf-syntax-ns#langString");
    reveal_strlit("http://www.w3.org/1999/02/22-rdf-syntax-ns#List");
    reveal_strlit("http://www.w3.org/1999/02/22-rdf-syntax-ns#Property");
    reveal_strlit("http://www.w3.org/1999/02/22-rdf-syntax-ns#Seq");
    reveal_strlit("http://www.w3.org/1999/02/22-rdf-syntax-ns#Statement");
    reveal_strlit("http://www.w3.org/1999/02/22-rdf-syntax-ns#XMLLiteral");
    let sa = a.spec_iri();
    let sb = b.spec_iri();
    if sa == sb {
        assert(sa.len() == sb.len());
        assert(sa[sa.len() - 1] == sb[sb.len() - 1]);
    }
    assert(sa.subrange(0, vocabulary_base().len() as int) =~= vocabulary_base());
}

/// No property of this vocabulary shares its IRI with a class.
pub proof fn lemma_property_and_class_iris_differ(p: Property, c: Class)
    ensures
        p.spec_iri() != c.spec_iri(),
{
    reveal_strlit("http://www.w3.org/1999/02/22-rdf-syntax-ns#");
    reveal_strlit("http://www.w3.org/1999/02/22-rdf-syntax-ns#first");
    reveal_strlit("http://www.w3.org/1999/02/22-rdf-syntax-ns#object");
    reveal_strlit("http://www.w3.org/1999/02/22-rdf-syntax-ns#predicate");
    reveal_strlit("http://www.w3.org/1999/02/22-rdf-syntax-ns#rest");
    reveal_strlit("http://www.w3.org/1999/02/22-rdf-syntax-ns#subject");
    reveal_strlit("http://www.w3.org/1999/02/22-rdf-syntax-ns#type");
    reveal_strlit("http://www.w3.org/1999/02/22-rdf-syntax-ns#value");
    reveal_strlit("http://www.w3.org/1999/02/22-rdf-syntax-ns#Alt");
    reveal_strlit("http://www.w3.org/1999/02/22-rdf-syntax-ns#Bag");
    reveal_strlit("http://www.w3.org/1999/02/22-rdf-syntax-ns#HTML");
    reveal_strlit("http://www.w3.org/1999/02/22-rdf-syntax-ns#langString");
    reveal_strlit("http://www.w3.org/1999/02/22-rdf-syntax-ns#List");
    reveal_strlit("http://www.w3.org/1999/02/22-rdf-syntax-ns#Property");
    reveal_strlit("http://www.w3.org/1999/02/22-rdf-syntax-ns#Seq");
    reveal_strlit("http://www.w3.org/1999/02/22-rdf-syntax-ns#Statement");
    reveal_strlit("http://www.w3.org/1999/02/22-rdf-syntax-ns#XMLLiteral");
    let sp = p.spec_iri();
    let sc = c.spec_iri();
    if sp == sc {
        assert(sp.len() == sc.len());
        assert(sp[sp.len() - 3] == sc[sc.len() - 3]);
    }
}

} // verus!
