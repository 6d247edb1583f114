//! IRIs given as a namespace and a local name, and the view of such an IRI
//! that is written in TriG as a prefixed name.
use vstd::prelude::*;
use vstd::utf8::encode_utf8;

use crate::errors::RdfTrigError;
use crate::namespaces::store::NamespaceEntry;
use crate::namespaces::{spec_is_url, Namespace};
use crate::traits::WriteTriG;
use crate::utils::write_str;

verus! {

/// An `IriNode` is composed of a `Namespace` (to allow assigning the IRI to a
/// shared IRI using a prefix) and a `local_name`.
#[derive(Clone, Debug)]
pub struct IriNode {
    namespace: Namespace,
    local_name: String,
}

impl View for IriNode {
    /// The namespace and the local name.
    type V = (NamespaceEntry, Seq<char>);

    closed spec fn view(&self) -> (NamespaceEntry, Seq<char>) {
        (self.namespace@, self.local_name@)
    }
}

impl IriNode {
    /// Create a new `IriNode`.
    pub fn new(namespace: Namespace, local_name: &str) -> (n: IriNode)
        ensures
            n@ == (namespace@, local_name@),
    {
        IriNode { namespace, local_name: local_name.to_owned() }
    }

    /// Create a new `IriNode`, declaring its `Namespace` from a `prefix` and
    /// an `iri`. Returns `RdfTrigError::InvalidIri` if the `iri` is not a
    /// URL.
    pub fn new_with_new_namespace(prefix: &str, iri: &str, local_name: &str) -> (r: Result<
        IriNode,
        RdfTrigError,
    >)
        ensures
            match r {
                Ok(n) => spec_is_url(iri@) && n@ == ((prefix@, iri@), local_name@),
                Err(e) => !spec_is_url(iri@) && (e matches RdfTrigError::InvalidIri(s) && s@
                    == iri@),
            },
    {
        let namespace = Namespace::new(prefix, iri)?;
        Ok(IriNode { namespace, local_name: local_name.to_owned() })
    }

    /// This node's `local_name`.
    pub fn local_name(&self) -> (l: &str)
        ensures
            l@ == self@.1,
    {
        self.local_name.as_str()
    }

    /// Consume this `IriNode`, returning its `namespace` and `local_name`.
    pub fn into_parts(self) -> (r: (Namespace, String))
        ensures
            (r.0@, r.1@) == self@,
    {
        (self.namespace, self.local_name)
    }
}

/// A view of an IRI through an interned `Namespace` and an `endpoint`. As
/// every IRI but those of the XML Schema, it is written in TriG in full: the
/// namespace's IRI followed by the endpoint, between angle brackets.
#[derive(Debug)]
pub struct IriNodeView<'a> {
    namespace: &'a Namespace,
    endpoint: &'a str,
}

impl<'a> View for IriNodeView<'a> {
    /// The namespace and the endpoint.
    type V = (NamespaceEntry, Seq<char>);

    closed spec fn view(&self) -> (NamespaceEntry, Seq<char>) {
        (self.namespace@, self.endpoint@)
    }
}

impl<'a> IriNodeView<'a> {
    /// Create a new `IriNodeView`.
    pub fn new(namespace: &'a Namespace, endpoint: &'a str) -> (v: IriNodeView<'a>)
        ensures
            v@ == (namespace@, endpoint@),
    {
        IriNodeView { namespace, endpoint }
    }
}

impl<'a> WriteTriG for IriNodeView<'a> {
    open spec fn trig(&self) -> Seq<u8> {
        encode_utf8("<"@) + encode_utf8(self@.0.1) + encode_utf8(self@.1) + encode_utf8(">"@)
    }

    fn write_trig(&self, writer: &mut Vec<u8>) {
        write_str(writer, "<");
        write_str(writer, self.namespace.iri());
        write_str(writer, self.endpoint);
        write_str(writer, ">");
        assert(writer@ =~= old(writer)@ + self.trig());
    }
}

} // verus!
