//! The Web Ontology Language (OWL).
//!
//! Every term converts into a `Subject`, `Predicate`, `Object` or
//! `NamedNode` for its full IRI, under `http://www.w3.org/2002/07/owl#`.
use vstd::prelude::*;
use vstd::std_specs::convert::FromSpecImpl;

use crate::nodes::{NamedNode, Object, Predicate, Subject};

verus! {

/// The properties of this vocabulary.
#[derive(Debug, PartialEq, Eq, Clone, Copy)]
pub enum Property {
    AllValuesFrom,
    BackwardCompatibleWith,
    Cardinality,
    ComplementOf,
    DifferentFrom,
    DisjointWith,
    DistinctMembers,
    EquivalentClass,
    EquivalentProperty,
    HasValue,
    Imports,
    IncompatibleWith,
    IntersectionOf,
    InverseOf,
    MaxCardinality,
    MinCardinality,
    OneOf,
    OnProperty,
    PriorVersion,
    SameAs,
    SomeValuesFrom,
    UnionOf,
    VersionInfo,
}

impl Property {
    /// The full IRI of this term.
    pub open spec fn spec_iri(self) -> Seq<char> {
        match self {
            Property::AllValuesFrom => "http://www.w3.org/2002/07/owl#allValuesFrom"@,
            Property::BackwardCompatibleWith => "http://www.w3.org/2002/07/owl#backwardCompatibleWith"@,
            Property::Cardinality => "http://www.w3.org/2002/07/owl#cardinality"@,
            Property::ComplementOf => "http://www.w3.org/2002/07/owl#complementOf"@,
            Property::DifferentFrom => "http://www.w3.org/2002/07/owl#differentFrom"@,
            Property::DisjointWith => "http://www.w3.org/2002/07/owl#disjointWith"@,
            Property::DistinctMembers => "http://www.w3.org/2002/07/owl#distinctMembers"@,
            Property::EquivalentClass => "http://www.w3.org/2002/07/owl#equivalentClass"@,
            Property::EquivalentProperty => "http://www.w3.org/2002/07/owl#equivalentProperty"@,
            Property::HasValue => "http://www.w3.org/2002/07/owl#hasValue"@,
            Property::Imports => "http://www.w3.org/2002/07/owl#imports"@,
            Property::IncompatibleWith => "http://www.w3.org/2002/07/owl#incompatibleWith"@,
            Property::IntersectionOf => "http://www.w3.org/2002/07/owl#intersectionOf"@,
            Property::InverseOf => "http://www.w3.org/2002/07/owl#inverseOf"@,
            Property::MaxCardinality => "http://www.w3.org/2002/07/owl#maxCardinality"@,
            Property::MinCardinality => "http://www.w3.org/2002/07/owl#minCardinality"@,
            Property::OneOf => "http://www.w3.org/2002/07/owl#oneOf"@,
            Property::OnProperty => "http://www.w3.org/2002/07/owl#onProperty"@,
            Property::PriorVersion => "http://www.w3.org/2002/07/owl#priorVersion"@,
            Property::SameAs => "http://www.w3.org/2002/07/owl#sameAs"@,
            Property::SomeValuesFrom => "http://www.w3.org/2002/07/owl#someValuesFrom"@,
            Property::UnionOf => "http://www.w3.org/2002/07/owl#unionOf"@,
            Property::VersionInfo => "http://www.w3.org/2002/07/owl#versionInfo"@,
        }
    }

    /// The full IRI of this term.
    pub fn iri(self) -> (s: &'static str)
        ensures
            s@ == self.spec_iri(),
    {
        match self {
            Property::AllValuesFrom => "http://www.w3.org/2002/07/owl#allValuesFrom",
            Property::BackwardCompatibleWith => "http://www.w3.org/2002/07/owl#backwardCompatibleWith",
            Property::Cardinality => "http://www.w3.org/2002/07/owl#cardinality",
            Property::ComplementOf => "http://www.w3.org/2002/07/owl#complementOf",
            Property::DifferentFrom => "http://www.w3.org/2002/07/owl#differentFrom",
            Property::DisjointWith => "http://www.w3.org/2002/07/owl#disjointWith",
            Property::DistinctMembers => "http://www.w3.org/2002/07/owl#distinctMembers",
            Property::EquivalentClass => "http://www.w3.org/2002/07/owl#equivalentClass",
            Property::EquivalentProperty => "http://www.w3.org/2002/07/owl#equivalentProperty",
            Property::HasValue => "http://www.w3.org/2002/07/owl#hasValue",
            Property::Imports => "http://www.w3.org/2002/07/owl#imports",
            Property::IncompatibleWith => "http://www.w3.org/2002/07/owl#incompatibleWith",
            Property::IntersectionOf => "http://www.w3.org/2002/07/owl#intersectionOf",
            Property::InverseOf => "http://www.w3.org/2002/07/owl#inverseOf",
            Property::MaxCardinality => "http://www.w3.org/2002/07/owl#maxCardinality",
            Property::MinCardinality => "http://www.w3.org/2002/07/owl#minCardinality",
            Property::OneOf => "http://www.w3.org/2002/07/owl#oneOf",
            Property::OnProperty => "http://www.w3.org/2002/07/owl#onProperty",
            Property::PriorVersion => "http://www.w3.org/2002/07/owl#priorVersion",
            Property::SameAs => "http://www.w3.org/2002/07/owl#sameAs",
            Property::SomeValuesFrom => "http://www.w3.org/2002/07/owl#someValuesFrom",
            Property::UnionOf => "http://www.w3.org/2002/07/owl#unionOf",
            Property::VersionInfo => "http://www.w3.org/2002/07/owl#versionInfo",
        }
    }
}

impl From<Property> for Subject {
    fn from(value: Property) -> (r: Subject)
        ensures
            r matches Subject::Named(n) && n@ == value.spec_iri(),
    {
        Subject::new_const_named(value.iri())
    }
}

impl FromSpecImpl<Property> for Subject {
    /// The node holds a freshly built `String`; `from` states its IRI.
    open spec fn obeys_from_spec() -> bool {
        false
    }

    open spec fn from_spec(v: Property) -> Subject {
        arbitrary()
    }
}

impl From<Property> for Predicate {
    fn from(value: Property) -> (r: Predicate)
        ensures
            r.0@ == value.spec_iri(),
    {
        Predicate::new_const(value.iri())
    }
}

impl FromSpecImpl<Property> for Predicate {
    /// The node holds a freshly built `String`; `from` states its IRI.
    open spec fn obeys_from_spec() -> bool {
        false
    }

    open spec fn from_spec(v: Property) -> Predicate {
        arbitrary()
    }
}

impl From<Property> for Object {
    fn from(value: Property) -> (r: Object)
        ensures
            r matches Object::Named(n) && n@ == value.spec_iri(),
    {
        Object::new_const_named(value.iri())
    }
}

impl FromSpecImpl<Property> for Object {
    /// The node holds a freshly built `String`; `from` states its IRI.
    open spec fn obeys_from_spec() -> bool {
        false
    }

    open spec fn from_spec(v: Property) -> Object {
        arbitrary()
    }
}

impl From<Property> for NamedNode {
    fn from(value: Property) -> (r: NamedNode)
        ensures
            r@ == value.spec_iri(),
    {
        NamedNode::new_const(value.iri())
    }
}

impl FromSpecImpl<Property> for NamedNode {
    /// The node holds a freshly built `String`; `from` states its IRI.
    open spec fn obeys_from_spec() -> bool {
        false
    }

    open spec fn from_spec(v: Property) -> NamedNode {
        arbitrary()
    }
}

/// The classes of this vocabulary.
#[derive(Debug, PartialEq, Eq, Clone, Copy)]
pub enum Class {
    AllDifferent,
    AnnotationProperty,
    Class,
    DatatypeProperty,
    DeprecatedClass,
    DeprecatedProperty,
    DataRange,
    FunctionalProperty,
    InverseFunctionalProperty,
    Nothing,
    ObjectProperty,
    Ontology,
    OntologyProperty,
    Restriction,
    SymmetricProperty,
    Thing,
    TransitiveProperty,
}

impl Class {
    /// The full IRI of this term.
    pub open spec fn spec_iri(self) -> Seq<char> {
        match self {
            Class::AllDifferent => "http://www.w3.org/2002/07/owl#AllDifferent"@,
            Class::AnnotationProperty => "http://www.w3.org/2002/07/owl#AnnotationProperty"@,
            Class::Class => "http://www.w3.org/2002/07/owl#Class"@,
            Class::DatatypeProperty => "http://www.w3.org/2002/07/owl#DatatypeProperty"@,
            Class::DeprecatedClass => "http://www.w3.org/2002/07/owl#DeprecatedClass"@,
            Class::DeprecatedProperty => "http://www.w3.org/2002/07/owl#DeprecatedProperty"@,
            Class::DataRange => "http://www.w3.org/2002/07/owl#DataRange"@,
            Class::FunctionalProperty => "http://www.w3.org/2002/07/owl#FunctionalProperty"@,
            Class::InverseFunctionalProperty => "http://www.w3.org/2002/07/owl#InverseFunctionalProperty"@,
            Class::Nothing => "http://www.w3.org/2002/07/owl#Nothing"@,
            Class::ObjectProperty => "http://www.w3.org/2002/07/owl#ObjectProperty"@,
            Class::Ontology => "http://www.w3.org/2002/07/owl#Ontology"@,
            Class::OntologyProperty => "http://www.w3.org/2002/07/owl#OntologyProperty"@,
            Class::Restriction => "http://www.w3.org/2002/07/owl#Restriction"@,
            Class::SymmetricProperty => "http://www.w3.org/2002/07/owl#SymmetricProperty"@,
            Class::Thing => "http://www.w3.org/2002/07/owl#Thing"@,
            Class::TransitiveProperty => "http://www.w3.org/2002/07/owl#TransitiveProperty"@,
        }
    }

    /// The full IRI of this term.
    pub fn iri(self) -> (s: &'static str)
        ensures
            s@ == self.spec_iri(),
    {
        match self {
            Class::AllDifferent => "http://www.w3.org/2002/07/owl#AllDifferent",
            Class::AnnotationProperty => "http://www.w3.org/2002/07/owl#AnnotationProperty",
            Class::Class => "http://www.w3.org/2002/07/owl#Class",
            Class::DatatypeProperty => "http://www.w3.org/2002/07/owl#DatatypeProperty",
            Class::DeprecatedClass => "http://www.w3.org/2002/07/owl#DeprecatedClass",
            Class::DeprecatedProperty => "http://www.w3.org/2002/07/owl#DeprecatedProperty",
            Class::DataRange => "http://www.w3.org/2002/07/owl#DataRange",
            Class::FunctionalProperty => "http://www.w3.org/2002/07/owl#FunctionalProperty",
            Class::InverseFunctionalProperty => "http://www.w3.org/2002/07/owl#InverseFunctionalProperty",
            Class::Nothing => "http://www.w3.org/2002/07/owl#Nothing",
            Class::ObjectProperty => "http://www.w3.org/2002/07/owl#ObjectProperty",
            Class::Ontology => "http://www.w3.org/2002/07/owl#Ontology",
            Class::OntologyProperty => "http://www.w3.org/2002/07/owl#OntologyProperty",
            Class::Restriction => "http://www.w3.org/2002/07/owl#Restriction",
            Class::SymmetricProperty => "http://www.w3.org/2002/07/owl#SymmetricProperty",
            Class::Thing => "http://www.w3.org/2002/07/owl#Thing",
            Class::TransitiveProperty => "http://www.w3.org/2002/07/owl#TransitiveProperty",
        }
    }
}

impl From<Class> for Subject {
    fn from(value: Class) -> (r: Subject)
        ensures
            r matches Subject::Named(n) && n@ == value.spec_iri(),
    {
        Subject::new_const_named(value.iri())
    }
}

impl FromSpecImpl<Class> for Subject {
    /// The node holds a freshly built `String`; `from` states its IRI.
    open spec fn obeys_from_spec() -> bool {
        false
    }

    open spec fn from_spec(v: Class) -> Subject {
        arbitrary()
    }
}

impl From<Class> for Predicate {
    fn from(value: Class) -> (r: Predicate)
        ensures
            r.0@ == value.spec_iri(),
    {
        Predicate::new_const(value.iri())
    }
}

impl FromSpecImpl<Class> for Predicate {
    /// The node holds a freshly built `String`; `from` states its IRI.
    open spec fn obeys_from_spec() -> bool {
        false
    }

    open spec fn from_spec(v: Class) -> Predicate {
        arbitrary()
    }
}

impl From<Class> for Object {
    fn from(value: Class) -> (r: Object)
        ensures
            r matches Object::Named(n) && n@ == value.spec_iri(),
    {
        Object::new_const_named(value.iri())
    }
}

impl FromSpecImpl<Class> for Object {
    /// The node holds a freshly built `String`; `from` states its IRI.
    open spec fn obeys_from_spec() -> bool {
        false
    }

    open spec fn from_spec(v: Class) -> Object {
        arbitrary()
    }
}

impl From<Class> for NamedNode {
    fn from(value: Class) -> (r: NamedNode)
        ensures
            r@ == value.spec_iri(),
    {
        NamedNode::new_const(value.iri())
    }
}

impl FromSpecImpl<Class> for NamedNode {
    /// The node holds a freshly built `String`; `from` states its IRI.
    open spec fn obeys_from_spec() -> bool {
        false
    }

    open spec fn from_spec(v: Class) -> NamedNode {
        arbitrary()
    }
}

/// The base IRI of this vocabulary, which every term's IRI extends.
pub open spec fn vocabulary_base() -> Seq<char> {
    "http://www.w3.org/2002/07/owl#"@
}

/// Every term of `Property` has an IRI made of this vocabulary's base IRI
/// followed by a non-empty local name, and two distinct properties never
/// share an IRI.
pub proof fn lemma_property_iris(a: Property, b: Property)
    ensures
        a.spec_iri().len() > vocabulary_base().len(),
        a.spec_iri().subrange(0, vocabulary_base().len() as int) == vocabulary_base(),
        a != b ==> a.spec_iri() != b.spec_iri(),
{
    reveal_strlit("http://www.w3.org/2002/07/owl#");
    reveal_strlit("http://www.w3.org/2002/07/owl#allValuesFrom");
    reveal_strlit("http://www.w3.org/2002/07/owl#backwardCompatibleWith");
    reveal_strlit("http://www.w3.org/2002/07/owl#cardinality");
    reveal_strlit("http://www.w3.org/2002/07/owl#complementOf");
    reveal_strlit("http://www.w3.org/2002/07/owl#differentFrom");
    reveal_strlit("http://www.w3.org/2002/07/owl#disjointWith");
    reveal_strlit("http://www.w3.org/2002/07/owl#distinctMembers");
    reveal_strlit("http://www.w3.org/2002/07/owl#equivalentClass");
    reveal_strlit("http://www.w3.org/2002/07/owl#equivalentProperty");
    reveal_strlit("http://www.w3.org/2002/07/owl#hasValue");
    reveal_strlit("http://www.w3.org/2002/07/owl#imports");
    reveal_strlit("http://www.w3.org/2002/07/owl#incompatibleWith");
    reveal_strlit("http://www.w3.org/2002/07/owl#intersectionOf");
    reveal_strlit("http://www.w3.org/2002/07/owl#inverseOf");
    reveal_strlit("http://www.w3.org/2002/07/owl#maxCardinality");
    reveal_strlit("http://www.w3.org/2002/07/owl#minCardinality");
    reveal_strlit("http://www.w3.org/2002/07/owl#oneOf");
    reveal_strlit("http://www.w3.org/2002/07/owl#onProperty");
    reveal_strlit("http://www.w3.org/2002/07/owl#priorVersion");
    reveal_strlit("http://www.w3.org/2002/07/owl#sameAs");
    reveal_strlit("http://www.w3.org/2002/07/owl#someValuesFrom");
    reveal_strlit("http://www.w3.org/2002/07/owl#unionOf");
    reveal_strlit("http://www.w3.org/2002/07/owl#versionInfo");
    reveal_strlit("http://www.w3.org/2002/07/owl#AllDifferent");
    reveal_strlit("http://www.w3.org/2002/07/owl#AnnotationProperty");
    reveal_strlit("http://www.w3.org/2002/07/owl#Class");
    reveal_strlit("http://www.w3.org/2002/07/owl#DatatypeProperty");
    reveal_strlit("http://www.w3.org/2002/07/owl#DeprecatedClass");
    reveal_strlit("http://www.w3.org/2002/07/owl#DeprecatedProperty");
    reveal_strlit("http://www.w3.org/2002/07/owl#DataRange");
    reveal_strlit("http://www.w3.org/2002/07/owl#FunctionalProperty");
    reveal_strlit("http://www.w3.org/2002/07/owl#InverseFunctionalProperty");
    reveal_strlit("http://www.w3.org/2002/07/owl#Nothing");
    reveal_strlit("http://www.w3.org/2002/07/owl#ObjectProperty");
    reveal_strlit("http://www.w3.org/2002/07/owl#Ontology");
    reveal_strlit("http://www.w3.org/2002/07/owl#OntologyProperty");
    reveal_strlit("http://www.w3.org/2002/07/owl#Restriction");
    reveal_strlit("http://www.w3.org/2002/07/owl#SymmetricProperty");
    reveal_strlit("http://www.w3.org/2002/07/owl#Thing");
    reveal_strlit("http://www.w3.org/2002/07/owl#TransitiveProperty");
    let sa = a.spec_iri();
    let sb = b.spec_iri();
    if sa == sb {
        assert(sa.len() == sb.len());
        assert(sa[sa.len() - 5] == sb[sb.len() - 5]);
        assert(sa[sa.len() - 12] == sb[sb.len() - 12]);
    }
    assert(sa.subrange(0, vocabulary_base().len() as int) =~= vocabulary_base());
}

/// Every term of `Class` has an IRI made of this vocabulary's base IRI
/// followed by a non-empty local name, and two distinct classes never
/// share an IRI.
pub proof fn lemma_class_iris(a: Class, b: Class)
    ensures
        a.spec_iri().len() > vocabulary_base().len(),
        a.spec_iri().subrange(0, vocabulary_base().len() as int) == vocabulary_base(),
        a != b ==> a.spec_iri() != b.spec_iri(),
{
    reveal_strlit("http://www.w3.org/2002/07/owl#");
    reveal_strlit("http://www.w3.org/2002/07/owl#allValuesFrom");
    reveal_strlit("http://www.w3.org/2002/07/owl#backwardCompatibleWith");
    reveal_strlit("http://www.w3.org/2002/07/owl#cardinality");
    reveal_strlit("http://www.w3.org/2002/07/owl#complementOf");
    reveal_strlit("http://www.w3.org/2002/07/owl#differentFrom");
    reveal_strlit("http://www.w3.org/2002/07/owl#disjointWith");
    reveal_strlit("http://www.w3.org/2002/07/owl#distinctMembers");
    reveal_strlit("http://www.w3.org/2002/07/owl#equivalentClass");
    reveal_strlit("http://www.w3.org/2002/07/owl#equivalentProperty");
    reveal_strlit("http://www.w3.org/2002/07/owl#hasValue");
    reveal_strlit("http://www.w3.org/2002/07/owl#imports");
    reveal_strlit("http://www.w3.org/2002/07/owl#incompatibleWith");
    reveal_strlit("http://www.w3.org/2002/07/owl#intersectionOf");
    reveal_strlit("http://www.w3.org/2002/07/owl#inverseOf");
    reveal_strlit("http://www.w3.org/2002/07/owl#maxCardinality");
    reveal_strlit("http://www.w3.org/2002/07/owl#minCardinality");
    reveal_strlit("http://www.w3.org/2002/07/owl#oneOf");
    reveal_strlit("http://www.w3.org/2002/07/owl#onProperty");
    reveal_strlit("http://www.w3.org/2002/07/owl#priorVersion");
    reveal_strlit("http://www.w3.org/2002/07/owl#sameAs");
    reveal_strlit("http://www.w3.org/2002/07/owl#someValuesFrom");
    reveal_strlit("http://www.w3.org/2002/07/owl#unionOf");
    reveal_strlit("http://www.w3.org/2002/07/owl#versionInfo");
    reveal_strlit("http://www.w3.org/2002/07/owl#AllDifferent");
    reveal_strlit("http://www.w3.org/2002/07/owl#AnnotationProperty");
    reveal_strlit("http://www.w3.org/2002/07/owl#Class");
    reveal_strlit("http://www.w3.org/2002/07/owl#DatatypeProperty");
    reveal_strlit("http://www.w3.org/2002/07/owl#DeprecatedClass");
    reveal_strlit("http://www.w3.org/2002/07/owl#DeprecatedProperty");
    reveal_strlit("http://www.w3.org/2002/07/owl#DataRange");
    reveal_strlit("http://www.w3.org/2002/07/owl#FunctionalProperty");
    reveal_strlit("http://www.w3.org/2002/07/owl#InverseFunctionalProperty");
    reveal_strlit("http://www.w3.org/2002/07/owl#Nothing");
    reveal_strlit("http://www.w3.org/2002/07/owl#ObjectProperty");
    reveal_strlit("http://www.w3.org/2002/07/owl#Ontology");
    reveal_strlit("http://www.w3.org/2002/07/owl#OntologyProperty");
    reveal_strlit("http://www.w3.org/2002/07/owl#Restriction");
    reveal_strlit("http://www.w3.org/2002/07/owl#SymmetricProperty");
    reveal_strlit("http://www.w3.org/2002/07/owl#Thing");
    reveal_strlit("http://www.w3.org/2002/07/owl#TransitiveProperty");
    let sa = a.spec_iri();
    let sb = b.spec_iri();
    if sa == sb {
        assert(sa.len() == sb.len());
        assert(sa[sa.len() - 9] == sb[sb.len() - 9]);
        assert(sa[sa.len() - 1] == sb[sb.len() - 1]);
    }
    assert(sa.subrange(0, vocabulary_base().len() as int) =~= vocabulary_base());
}

/// No property of this vocabulary shares its IRI with a class.
pub proof fn lemma_property_and_class_iris_differ(p: Property, c: Class)
    ensures
        p.spec_iri() != c.spec_iri(),
{
    reveal_strlit("http://www.w3.org/2002/07/owl#");
    reveal_strlit("http://www.w3.org/2002/07/owl#allValuesFrom");
    reveal_strlit("http://www.w3.org/2002/07/owl#backwardCompatibleWith");
    reveal_strlit("http://www.w3.org/2002/07/owl#cardinality");
    reveal_strlit("http://www.w3.org/2002/07/owl#complementOf");
    reveal_strlit("http://www.w3.org/2002/07/owl#differentFrom");
    reveal_strlit("http://www.w3.org/2002/07/owl#disjointWith");
    reveal_strlit("http://www.w3.org/2002/07/owl#distinctMembers");
    reveal_strlit("http://www.w3.org/2002/07/owl#equivalentClass");
    reveal_strlit("http://www.w3.org/2002/07/owl#equivalentProperty");
    reveal_strlit("http://www.w3.org/2002/07/owl#hasValue");
    reveal_strlit("http://www.w3.org/2002/07/owl#imports");
    reveal_strlit("http://www.w3.org/2002/07/owl#incompatibleWith");
    reveal_strlit("http://www.w3.org/2002/07/owl#intersectionOf");
    reveal_strlit("http://www.w3.org/2002/07/owl#inverseOf");
    reveal_strlit("http://www.w3.org/2002/07/owl#maxCardinality");
    reveal_strlit("http://www.w3.org/2002/07/owl#minCardinality");
    reveal_strlit("http://www.w3.org/2002/07/owl#oneOf");
    reveal_strlit("http://www.w3.org/2002/07/owl#onProperty");
    reveal_strlit("http://www.w3.org/2002/07/owl#priorVersion");
    reveal_strlit("http://www.w3.org/2002/07/owl#sameAs");
    reveal_strlit("http://www.w3.org/2002/07/owl#someValuesFrom");
    reveal_strlit("http://www.w3.org/2002/07/owl#unionOf");
    reveal_strlit("http://www.w3.org/2002/07/owl#versionInfo");
    reveal_strlit("http://www.w3.org/2002/07/owl#AllDifferent");
    reveal_strlit("http://www.w3.org/2002/07/owl#AnnotationProperty");
    reveal_strlit("http://www.w3.org/2002/07/owl#Class");
    reveal_strlit("http://www.w3.org/2002/07/owl#DatatypeProperty");
    reveal_strlit("http://www.w3.org/2002/07/owl#DeprecatedClass");
    reveal_strlit("http://www.w3.org/2002/07/owl#DeprecatedProperty");
    reveal_strlit("http://www.w3.org/2002/07/owl#DataRange");
    reveal_strlit("http://www.w3.org/2002/07/owl#FunctionalProperty");
    reveal_strlit("http://www.w3.org/2002/07/owl#InverseFunctionalProperty");
    reveal_strlit("http://www.w3.org/2002/07/owl#Nothing");
    reveal_strlit("http://www.w3.org/2002/07/owl#ObjectProperty");
    reveal_strlit("http://www.w3.org/2002/07/owl#Ontology");
    reveal_strlit("http://www.w3.org/2002/07/owl#OntologyProperty");
    reveal_strlit("http://www.w3.org/2002/07/owl#Restriction");
    reveal_strlit("http://www.w3.org/2002/07/owl#SymmetricProperty");
    reveal_strlit("http://www.w3.org/2002/07/owl#Thing");
    reveal_strlit("http://www.w3.org/2002/07/owl#TransitiveProperty");
    let sp = p.spec_iri();
    let sc = c.spec_iri();
    if sp == sc {
        assert(sp.len() == sc.len());
        assert(sp[sp.len() - 9] == sc[sc.len() - 9]);
        assert(sp[sp.len() - 1] == sc[sc.len() - 1]);
        assert(sp[sp.len() - 12] == sc[sc.len() - 12]);
    }
}

} // verus!
