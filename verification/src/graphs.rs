//! Graphs given as a namespace and an endpoint, their ids once stored, and
//! views of stored graphs.
use vstd::prelude::*;

use crate::errors::RdfTrigError;
use crate::namespaces::store::NamespaceEntry;
use crate::namespaces::{spec_is_url, Namespace};

verus! {

/// As with the IRIs of subjects, predicates and objects, a `Graph` is a
/// combination of a `Namespace` and an `endpoint`.
#[derive(Debug)]
pub struct Graph {
    namespace: Namespace,
    endpoint: String,
}

impl View for Graph {
    /// The namespace and the endpoint.
    type V = (NamespaceEntry, Seq<char>);

    closed spec fn view(&self) -> (NamespaceEntry, Seq<char>) {
        (self.namespace@, self.endpoint@)
    }
}

impl Graph {
    /// Create a new `Graph`.
    pub fn new(namespace: Namespace, endpoint: &str) -> (g: Graph)
        ensures
            g@ == (namespace@, endpoint@),
    {
        Graph { namespace, endpoint: endpoint.to_owned() }
    }

    /// Create a new `Graph`, declaring its `Namespace` from a `prefix` and an
    /// `iri`. Returns `RdfTrigError::InvalidIri` if the `iri` is not a URL.
    pub fn new_with_new_namespace(prefix: &str, iri: &str, endpoint: &str) -> (r: Result<
        Graph,
        RdfTrigError,
    >)
        ensures
            match r {
                Ok(g) => spec_is_url(iri@) && g@ == ((prefix@, iri@), endpoint@),
                Err(e) => !spec_is_url(iri@) && (e matches RdfTrigError::InvalidIri(s) && s@
                    == iri@),
            },
    {
        let namespace = Namespace::new(prefix, iri)?;
        Ok(Graph { namespace, endpoint: endpoint.to_owned() })
    }

    /// Consume this `Graph`, returning its `Namespace` and `endpoint`.
    pub fn into_parts(self) -> (r: (Namespace, String))
        ensures
            (r.0@, r.1@) == self@,
    {
        (self.namespace, self.endpoint)
    }
}

/// A `GraphId` is a handle to a stored graph: its index in the store.
#[derive(Clone, Copy, Debug, PartialEq, Eq, Hash)]
pub struct GraphId(pub u32);

impl GraphId {
    /// The id for index `ix`, which a store never lets exceed `u32::MAX`.
    pub fn from(ix: usize) -> (id: GraphId)
        requires
            ix <= u32::MAX,
        ensures
            id.0 == ix,
    {
        GraphId(ix as u32)
    }
}

/// A `GraphView` holds references to an interned `Namespace` and to the
/// endpoint of a stored graph.
#[derive(Debug)]
pub struct GraphView<'a> {
    namespace: &'a Namespace,
    endpoint: &'a str,
}

impl<'a> View for GraphView<'a> {
    /// The namespace and the endpoint.
    type V = (NamespaceEntry, Seq<char>);

    closed spec fn view(&self) -> (NamespaceEntry, Seq<char>) {
        (self.namespace@, self.endpoint@)
    }
}

impl<'a> GraphView<'a> {
    /// Create a `GraphView` from references to a `Namespace` and an
    /// `endpoint`.
    pub fn new(namespace: &'a Namespace, endpoint: &'a str) -> (v: GraphView<'a>)
        ensures
            v@ == (namespace@, endpoint@),
    {
        GraphView { namespace, endpoint }
    }

    /// The `Namespace` of this graph.
    pub fn namespace(&self) -> (ns: &Namespace)
        ensures
            ns@ == self@.0,
    {
        self.namespace
    }

    /// The `endpoint` of this graph.
    pub fn endpoint(&self) -> (e: &str)
        ensures
            e@ == self@.1,
    {
        self.endpoint
    }
}

} // verus!
