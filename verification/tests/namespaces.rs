use rdf_trig::errors::RdfTrigError;
use rdf_trig::graphs::{Graph, GraphId, GraphView};
use rdf_trig::literal::{LangString, Literal};
use rdf_trig::namespaces::store::{NamespaceId, NamespaceStore};
use rdf_trig::namespaces::Namespace;
use rdf_trig::nodes::{IriNode, IriNodeView, NodeId, Subject};
use rdf_trig::quads::{InternedQuad, QuadId};
use rdf_trig::raw::{RawIri, RawNode, RawTriple};
use rdf_trig::traits::WriteTriG;

fn trig<T: WriteTriG>(value: &T) -> String {
    let mut buf = vec![];
    value.write_trig(&mut buf);
    String::from_utf8(buf).unwrap()
}

#[test]
fn namespace_new_valid_and_parts() {
    let ns = Namespace::new("ex", "http://example.com/").unwrap();
    assert_eq!(ns.prefix(), "ex");
    assert_eq!(ns.iri(), "http://example.com/");
    let (prefix, iri) = ns.into_parts();
    assert_eq!(prefix, "ex");
    assert_eq!(iri, "http://example.com/");
}

#[test]
fn namespace_new_invalid_iri() {
    let err = Namespace::new("ex", "not a url").unwrap_err();
    assert_eq!(err, RdfTrigError::InvalidIri("not a url".to_string()));
    assert_eq!(err.message(), "not a url is an IRI component");
}

#[test]
fn test_prefix_appends() {
    let mut store = NamespaceStore::new();

    let ns_one = store.intern_namespace(Namespace::new("test", "http://example1.com").unwrap());
    // Same prefix, different iri: a suffix is appended to the prefix.
    let ns_two = store.intern_namespace(Namespace::new("test", "http://example2.com").unwrap());
    let ns_three = store.intern_namespace(Namespace::new("test", "http://example3.com").unwrap());
    // Exactly the same as ns_two.
    let ns_four = store.intern_namespace(Namespace::new("test", "http://example2.com").unwrap());

    assert_eq!(store.query_namespace(ns_one).prefix(), "test");
    assert_eq!(store.query_namespace(ns_two).prefix(), "test0");
    assert_eq!(store.query_namespace(ns_three).prefix(), "test1");
    assert_eq!(store.query_namespace(ns_four).prefix(), "test0");
    assert_eq!(ns_two, ns_four);
    assert_eq!(ns_one, NamespaceId(0));
    assert_eq!(ns_three, NamespaceId(2));
}

#[test]
fn test_same_iri_different_prefix() {
    let mut store = NamespaceStore::new();

    let ns_one = store.intern_namespace(Namespace::new("one", "http://examples.com/").unwrap());
    let ns_two = store.intern_namespace(Namespace::new("two", "http://examples.com/").unwrap());

    assert_eq!(ns_one, ns_two);
    assert_eq!(store.query_namespace(ns_two).prefix(), "one");
}

#[test]
fn suffix_skips_prefixes_already_taken() {
    let mut store = NamespaceStore::new();
    store.intern_namespace(Namespace::new("p", "http://a.example/").unwrap());
    store.intern_namespace(Namespace::new("p0", "http://b.example/").unwrap());
    let id = store.intern_namespace(Namespace::new("p", "http://c.example/").unwrap());
    assert_eq!(store.query_namespace(id).prefix(), "p1");
    assert_eq!(store.query_namespace(id).iri(), "http://c.example/");
}

#[test]
fn query_existing_prefix_finds_by_prefix_only() {
    let mut store = NamespaceStore::new();
    store.intern_namespace(Namespace::new("ex", "http://example.com/").unwrap());
    let other = Namespace::new("ex", "http://other.example/").unwrap();
    let found = store.query_existing_prefix(&other).unwrap();
    assert_eq!(found.iri(), "http://example.com/");
    let fresh = Namespace::new("zz", "http://other.example/").unwrap();
    assert!(store.query_existing_prefix(&fresh).is_none());
    let renamed = store.find_new_prefix(other);
    assert_eq!(renamed.prefix(), "ex0");
    assert_eq!(renamed.iri(), "http://other.example/");
}

#[test]
fn iri_node_parts() {
    let ns = Namespace::new("ex", "http://example.com/").unwrap();
    let node = IriNode::new(ns, "thing");
    assert_eq!(node.local_name(), "thing");
    let (ns, local) = node.into_parts();
    assert_eq!(ns.prefix(), "ex");
    assert_eq!(local, "thing");
}

#[test]
fn iri_node_view_trig() {
    let rdf = Namespace::new("rdf", "http://www.w3.org/1999/02/22-rdf-syntax-ns#").unwrap();
    assert_eq!(
        trig(&IriNodeView::new(&rdf, "type")),
        "<http://www.w3.org/1999/02/22-rdf-syntax-ns#type>"
    );
    let ex = Namespace::new("ex", "http://example.com/").unwrap();
    assert_eq!(trig(&IriNodeView::new(&ex, "my-name_1")), "<http://example.com/my-name_1>");
    assert_eq!(trig(&IriNodeView::new(&ex, "a b")), "<http://example.com/a b>");
}

#[test]
fn graphs_and_views() {
    let ns = Namespace::new("ex", "http://example.com/").unwrap();
    let graph = Graph::new(ns.clone(), "MyGraph");
    let (gns, endpoint) = graph.into_parts();
    assert_eq!(gns.iri(), "http://example.com/");
    assert_eq!(endpoint, "MyGraph");

    let graph = Graph::new_with_new_namespace("ex", "http://example.com/", "G").unwrap();
    let (gns, endpoint) = graph.into_parts();
    assert_eq!(gns.prefix(), "ex");
    assert_eq!(endpoint, "G");
    assert_eq!(
        Graph::new_with_new_namespace("ex", "no scheme", "G").unwrap_err(),
        RdfTrigError::InvalidIri("no scheme".to_string())
    );

    let view = GraphView::new(&ns, "MyGraph");
    assert_eq!(view.namespace().prefix(), "ex");
    assert_eq!(view.endpoint(), "MyGraph");
    assert_eq!(GraphId::from(7), GraphId(7));
}

#[test]
fn literals() {
    let ls = LangString::new("chien", "fr");
    assert_eq!(ls.value(), "chien");
    assert_eq!(ls.language(), "fr");
    assert_eq!(LangString::new_en("dog").language(), "en");
    assert!(matches!(Literal::string("x"), Literal::String(s) if s == "x"));
    assert!(matches!(Literal::lang_string("x", "de"), Literal::LangString(l) if l.language() == "de"));
    assert!(matches!(Literal::lang_string_en("x"), Literal::LangString(l) if l.value() == "x" && l.language() == "en"));
}

#[test]
fn raw_triples() {
    let ns = Namespace::new("ex", "http://example.com/").unwrap();
    let subject = RawIri::new(ns.clone(), "s");
    let predicate = RawIri::new(ns.clone(), "p");
    let triple = RawTriple::new(subject, predicate, Literal::string("o"));
    let _ = triple;
    let node: RawNode = RawIri::new(ns, "o").into();
    assert!(matches!(node, RawNode::RawIri(_)));
}

#[test]
fn interned_quads() {
    let quad = InternedQuad::new(GraphId(1), NodeId(2), NodeId(3), NodeId(4));
    assert_eq!(quad.subject_id(), NodeId(2));
    assert_eq!(quad.predicate_id(), NodeId(3));
    assert_eq!(quad.object_id(), NodeId(4));
    assert_eq!(QuadId::from(9), QuadId(9));
}

#[test]
fn blank_subject() {
    match Subject::blank("node1") {
        Subject::Blank(b) => assert_eq!(b.label(), "node1"),
        _ => panic!("expected a blank subject"),
    }
}

#[test]
fn iri_node_with_new_namespace() {
    let node = IriNode::new_with_new_namespace("ex", "http://example.com/", "thing").unwrap();
    let (ns, local) = node.into_parts();
    assert_eq!((ns.prefix(), ns.iri(), local.as_str()), ("ex", "http://example.com/", "thing"));
    assert_eq!(
        IriNode::new_with_new_namespace("ex", "example", "thing").unwrap_err(),
        RdfTrigError::InvalidIri("example".to_string())
    );
}

#[test]
fn namespace_store_trig_declarations() {
    let mut store = NamespaceStore::new();
    assert_eq!(trig(&store), "");
    store.intern_namespace(Namespace::new("ex", "http://example.com/").unwrap());
    store.intern_namespace(Namespace::new("ex", "http://other.example/").unwrap());
    store.intern_namespace(Namespace::new("my_ns", "http://mine.example/#").unwrap());
    assert_eq!(
        trig(&store),
        "@prefix ex: <http://example.com/> .\n\
         @prefix ex0: <http://other.example/> .\n\
         @prefix my\\_ns: <http://mine.example/#> .\n"
    );
}
