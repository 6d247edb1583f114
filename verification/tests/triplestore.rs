use rdf_trig::nodes::statics::{aocat, owl, rdf, rdfs, skos};
use rdf_trig::nodes::{BlankNode, DateTimeLiteral, LiteralNode, NamedNode, StringLiteral};
use rdf_trig::traits::{WriteNQuads, WriteTriG};
use rdf_trig::{Triple, TripleStore};

fn nquads(ts: &TripleStore) -> String {
    let mut buf = vec![];
    ts.write_nquads(&mut buf);
    String::from_utf8(buf).unwrap()
}

fn trig(ts: &TripleStore) -> String {
    let mut buf = vec![];
    ts.write_trig(&mut buf);
    String::from_utf8(buf).unwrap()
}

#[test]
fn test_write_nquads() {
    let mut ts = TripleStore::new();

    let owned_graph = "http://www.example.com/MyGraph".to_string();
    let owned_resource1 = "https://example.com/resources/MyResource".to_string();

    ts.add_triple(Triple::new_with_graph(
        NamedNode::new(&owned_graph).unwrap().into(),
        NamedNode::new(&owned_resource1).unwrap().into(),
        rdf::Property::Type.into(),
        owl::Class::Thing.into(),
    ));

    let resource2 = "http://www.example.com/MyOtherResource";

    ts.add_triple(Triple::new(
        NamedNode::new(resource2).unwrap().into(),
        rdf::Property::Type.into(),
        aocat::Class::AoIndividualDataResource.into(),
    ));

    assert_eq!(
        nquads(&ts),
        format!(
            "<{}> <http://www.w3.org/1999/02/22-rdf-syntax-ns#type> <http://www.w3.org/2002/07/owl#Thing> <{}> .\n\
            <{}> <http://www.w3.org/1999/02/22-rdf-syntax-ns#type> <https://www.ariadne-infrastructure.eu/resource/ao/cat/1.1/AO_Individual_Data_Resource> .\n",
            owned_resource1, owned_graph, resource2
        )
    );
}

#[test]
fn test_write_nquads_with_literals() {
    let mut ts = TripleStore::new();

    ts.add_triple(Triple::new(
        NamedNode::new("urn:uuid:29d82556-7fac-4ab8-b1a1-a652d4b1ee36").unwrap().into(),
        aocat::Property::WasCreatedOn.into(),
        DateTimeLiteral::try_from_str("1969-10-12T12:59:30Z").unwrap().into(),
    ));

    ts.add_triple(Triple::new(
        BlankNode::new("unknown~node").into(),
        rdfs::Property::Label.into(),
        StringLiteral::new("mon node", Some("fr")).unwrap().into(),
    ));

    assert_eq!(
        nquads(&ts),
        "<urn:uuid:29d82556-7fac-4ab8-b1a1-a652d4b1ee36> <https://www.ariadne-infrastructure.eu/resource/ao/cat/1.1/was_created_on> \"1969-10-12T12:59:30Z\"^^<http://www.w3.org/2001/XMLSchema#dateTime> .\n\
        _:unknown\\~node <http://www.w3.org/2000/01/rdf-schema#label> \"mon node\"@fr .\n"
    );
}

#[test]
fn test_write_trig() {
    let graph = "urn:uuid:29d82556-7fac-4ab8-b1a1-a652d4b1ee36";
    let graph_subject = "https://www.example.com/MyResource";

    let outer_subject = "https://www.example.com/MyOuterResource";

    let mut ts = TripleStore::new();

    ts.add_triple(Triple::new_with_graph(
        NamedNode::new(graph).unwrap().into(),
        NamedNode::new(graph_subject).unwrap().into(),
        rdf::Property::Type.into(),
        owl::Class::Thing.into(),
    ));

    ts.add_triple(Triple::new_with_graph(
        NamedNode::new(graph).unwrap().into(),
        NamedNode::new(graph_subject).unwrap().into(),
        owl::Property::OneOf.into(),
        LiteralNode::new("This Thing").into(),
    ));

    ts.add_triple(Triple::new_with_graph(
        NamedNode::new(graph).unwrap().into(),
        NamedNode::new(graph_subject).unwrap().into(),
        owl::Property::OneOf.into(),
        LiteralNode::new("This Other Thing").into(),
    ));

    ts.add_triple(Triple::new(
        NamedNode::new(outer_subject).unwrap().into(),
        aocat::Property::HasPart.into(),
        NamedNode::new(graph_subject).unwrap().into(),
    ));

    assert_eq!(
        trig(&ts),
        "@prefix xsd: <http://www.w3.org/2001/XMLSchema#> . \
        <https://www.example.com/MyOuterResource> <https://www.ariadne-infrastructure.eu/resource/ao/cat/1.1/has_part> <https://www.example.com/MyResource> . \
        <urn:uuid:29d82556-7fac-4ab8-b1a1-a652d4b1ee36> { \
        <https://www.example.com/MyResource> <http://www.w3.org/1999/02/22-rdf-syntax-ns#type> <http://www.w3.org/2002/07/owl#Thing> ; \
        <http://www.w3.org/2002/07/owl#oneOf> \"This Thing\" , \"This Other Thing\" . } "
    );
}

#[test]
fn readme_write_nquads() {
    let mut ts = TripleStore::new();

    let subject_iri = "urn:uuid:29d82556-7fac-4ab8-b1a1-a652d4b1ee36";

    ts.add_triple(Triple::new(
        NamedNode::new(subject_iri).unwrap().into(),
        rdf::Property::Type.into(),
        owl::Class::Thing.into(),
    ));

    ts.add_triple(Triple::new(
        NamedNode::new(subject_iri).unwrap().into(),
        rdfs::Property::Label.into(),
        StringLiteral::new("L'étiquette de ma ressource", Some("fr")).unwrap().into(),
    ));

    ts.add_triple(Triple::new_with_graph(
        NamedNode::new("https://www.example.com/MyGraph").unwrap().into(),
        NamedNode::new(subject_iri).unwrap().into(),
        aocat::Property::WasCreatedOn.into(),
        DateTimeLiteral::try_from_str("1969-12-13T12:59:30Z").unwrap().into(),
    ));

    assert_eq!(
        nquads(&ts),
        "<urn:uuid:29d82556-7fac-4ab8-b1a1-a652d4b1ee36> <http://www.w3.org/1999/02/22-rdf-syntax-ns#type> <http://www.w3.org/2002/07/owl#Thing> .\n\
        <urn:uuid:29d82556-7fac-4ab8-b1a1-a652d4b1ee36> <http://www.w3.org/2000/01/rdf-schema#label> \"L\\'étiquette de ma ressource\"@fr .\n\
        <urn:uuid:29d82556-7fac-4ab8-b1a1-a652d4b1ee36> <https://www.ariadne-infrastructure.eu/resource/ao/cat/1.1/was_created_on> \"1969-12-13T12:59:30Z\"^^<http://www.w3.org/2001/XMLSchema#dateTime> <https://www.example.com/MyGraph> .\n"
    );
    // The repeated subject is interned once.
    assert_eq!(ts.len(), 3);
    assert_eq!(ts.node_count(), 8);
}

#[test]
fn readme_write_trig() {
    let mut ts = TripleStore::new();

    let graph_iri = "https://www.example.com/MyGraph";
    let subject = NamedNode::new("urn:uuid:29d82556-7fac-4ab8-b1a1-a652d4b1ee36").unwrap();

    ts.add_triple(Triple::new_with_graph(
        NamedNode::new(graph_iri).unwrap().into(),
        (&subject).into(),
        rdf::Property::Type.into(),
        owl::Class::Thing.into(),
    ));

    ts.add_triple(Triple::new_with_graph(
        NamedNode::new(graph_iri).unwrap().into(),
        (&subject).into(),
        skos::Property::PrefLabel.into(),
        StringLiteral::new_en("My resource's label").into(),
    ));

    ts.add_triple(Triple::new(
        (&subject).into(),
        aocat::Property::WasCreatedOn.into(),
        DateTimeLiteral::try_from_str("1969-12-13T12:59:30Z").unwrap().into(),
    ));

    assert_eq!(
        trig(&ts),
        "@prefix xsd: <http://www.w3.org/2001/XMLSchema#> . <urn:uuid:29d82556-7fac-4ab8-b1a1-a652d4b1ee36> <https://www.ariadne-infrastructure.eu/resource/ao/cat/1.1/was_created_on> \"1969-12-13T12:59:30Z\"^^xsd:dateTime . <https://www.example.com/MyGraph> { <urn:uuid:29d82556-7fac-4ab8-b1a1-a652d4b1ee36> <http://www.w3.org/1999/02/22-rdf-syntax-ns#type> <http://www.w3.org/2002/07/owl#Thing> ; <http://www.w3.org/2004/02/skos/core#prefLabel> \"My resource\\'s label\"@en . } "
    );
}

#[test]
fn adding_a_triple_twice_keeps_one_copy() {
    let mut ts = TripleStore::new();
    for _ in 0..2 {
        ts.add_triple(Triple::new(
            BlankNode::new("b").into(),
            rdf::Property::Type.into(),
            owl::Class::Thing.into(),
        ));
    }
    assert_eq!(ts.len(), 1);
    assert_eq!(ts.node_count(), 3);
    assert_eq!(
        nquads(&ts),
        "_:b <http://www.w3.org/1999/02/22-rdf-syntax-ns#type> <http://www.w3.org/2002/07/owl#Thing> .\n"
    );
}

#[test]
fn empty_store_writes_only_the_prefix() {
    let ts = TripleStore::new();
    assert_eq!(nquads(&ts), "");
    assert_eq!(trig(&ts), "@prefix xsd: <http://www.w3.org/2001/XMLSchema#> . ");
}

#[test]
fn trig_groups_subjects_in_the_default_graph() {
    let mut ts = TripleStore::new();
    ts.add_triple(Triple::new(
        BlankNode::new("a").into(),
        rdf::Property::Type.into(),
        owl::Class::Thing.into(),
    ));
    ts.add_triple(Triple::new(
        BlankNode::new("b").into(),
        rdf::Property::Type.into(),
        owl::Class::Thing.into(),
    ));
    ts.add_triple(Triple::new(
        BlankNode::new("a").into(),
        rdfs::Property::Label.into(),
        LiteralNode::new("A").into(),
    ));
    assert_eq!(
        trig(&ts),
        "@prefix xsd: <http://www.w3.org/2001/XMLSchema#> . \
        _:a <http://www.w3.org/1999/02/22-rdf-syntax-ns#type> <http://www.w3.org/2002/07/owl#Thing> ; \
        <http://www.w3.org/2000/01/rdf-schema#label> \"A\" . \
        _:b <http://www.w3.org/1999/02/22-rdf-syntax-ns#type> <http://www.w3.org/2002/07/owl#Thing> . "
    );
}

#[test]
fn new_nodes_get_ids_in_graph_subject_predicate_object_order() {
    // `p` is first a predicate, then a subject: ids follow the order in which
    // nodes are met, so `a` (met first, as a subject) is written first.
    let a = NamedNode::new("http://example.com/a").unwrap();
    let p = NamedNode::new("http://example.com/p").unwrap();
    let b = NamedNode::new("http://example.com/b").unwrap();
    let q = NamedNode::new("http://example.com/q").unwrap();
    let c = NamedNode::new("http://example.com/c").unwrap();
    let mut ts = TripleStore::new();
    ts.add_triple(Triple::new((&a).into(), (&p).into(), (&b).into()));
    ts.add_triple(Triple::new((&p).into(), (&q).into(), (&c).into()));
    assert_eq!(ts.node_count(), 5);
    assert_eq!(
        trig(&ts),
        "@prefix xsd: <http://www.w3.org/2001/XMLSchema#> . \
        <http://example.com/a> <http://example.com/p> <http://example.com/b> . \
        <http://example.com/p> <http://example.com/q> <http://example.com/c> . "
    );
}

#[test]
fn equal_nodes_built_separately_are_interned_once() {
    let mut ts = TripleStore::new();
    for label in ["first", "second"] {
        let graph = NamedNode::new("http://example.com/g").unwrap();
        let subject = NamedNode::new("http://example.com/s").unwrap();
        ts.add_triple(Triple::new_with_graph(
            graph.into(),
            subject.into(),
            rdfs::Property::Label.into(),
            StringLiteral::new(label, Some("en")).unwrap().into(),
        ));
    }
    ts.add_triple(Triple::new_with_graph(
        NamedNode::new("http://example.com/g").unwrap().into(),
        NamedNode::new("http://example.com/s").unwrap().into(),
        rdfs::Property::Label.into(),
        StringLiteral::new("first", Some("en")).unwrap().into(),
    ));
    assert_eq!(ts.len(), 2);
    assert_eq!(ts.node_count(), 5);
    assert_eq!(
        trig(&ts),
        "@prefix xsd: <http://www.w3.org/2001/XMLSchema#> . \
        <http://example.com/g> { <http://example.com/s> <http://www.w3.org/2000/01/rdf-schema#label> \
        \"first\"@en , \"second\"@en . } "
    );
}

#[test]
fn a_duplicated_triple_adds_nothing() {
    let t = Triple::new(
        BlankNode::new("b").into(),
        rdf::Property::Type.into(),
        owl::Class::Thing.into(),
    );
    let mut ts = TripleStore::new();
    ts.add_triple(t.duplicate());
    let once = (nquads(&ts), trig(&ts));
    ts.add_triple(t);
    assert_eq!(ts.len(), 1);
    assert_eq!((nquads(&ts), trig(&ts)), once);
}
