# rdf_trig

Formatting of RDF triples in [N-Quads](https://www.w3.org/TR/n-quads/) and
[TriG](https://www.w3.org/TR/trig/), written in Verus: every writer states,
as a spec function, the exact bytes it appends, and Verus proves it.

## Layout

- `src/nodes`: blank nodes, named nodes (IRIs validated with `fluent_uri`),
  literals (`xsd:boolean`, `xsd:dateTime` validated with `time`,
  `xsd:decimal`, `xsd:gYear`, strings with optional language tags) and the
  positions a node can take in a triple; `nodes/store.rs` interns nodes.
- `src/triples`, `src/triplestore`: triples and the `TripleStore`, which
  interns nodes and triples once each (indexmap's `IndexSet` hashed with
  ahash) and writes them. TriG output sorts the triples and groups them by
  graph, subject and predicate.
- `src/namespaces`, `src/graphs.rs`, `src/literal.rs`, `src/raw.rs`,
  `src/quads.rs`, `src/nodes/iri.rs`: IRIs given as a namespace (a prefix for
  a base IRI, validated with `url`) and a local name, and the store that
  interns namespaces while keeping prefixes unique.
- `src/utils.rs`: byte-level writers and the TriG escaping rules.
- `app/`: writing onto `std::io::Write` and tokio's `AsyncWrite`, and
  building literals from floats and from chrono's time-zone aware
  date-times.
