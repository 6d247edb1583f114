use rdf_trig::nodes::statics::{owl, rdf, skos};
use rdf_trig::nodes::{NamedNode, Predicate, Subject};

#[test]
fn test_valid_iri() {
    let spl: Predicate = skos::Property::PrefLabel.into();
    assert_eq!(
        spl,
        Predicate(NamedNode::new("http://www.w3.org/2004/02/skos/core#prefLabel").unwrap())
    )
}

#[test]
fn statics_are_valid_iris() {
    let ty: Predicate = rdf::Property::Type.into();
    assert_eq!(ty.0.iri(), "http://www.w3.org/1999/02/22-rdf-syntax-ns#type");
    assert!(NamedNode::new(ty.0.iri()).is_ok());
    let thing: Subject = owl::Class::Thing.into();
    assert_eq!(thing, Subject::Named(NamedNode::new("http://www.w3.org/2002/07/owl#Thing").unwrap()));
}
