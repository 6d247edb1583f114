//! Named nodes: nodes identified by an IRI.
pub mod statics;

use vstd::prelude::*;
use vstd::utf8::encode_utf8;

use crate::errors::RdfTrigError;
use crate::traits::{WriteNQuads, WriteTriG};
use crate::utils::write_str;

verus! {

/// Whether `s` matches the `IRI` rule of RFC 3987, as decided by
/// `fluent_uri::Iri::parse`.
pub uninterp spec fn spec_is_iri(s: Seq<char>) -> bool;

/// Calls `fluent_uri::Iri::parse` on `s` and reports whether it succeeded.
/// The contract claims only that the answer is a function of the characters of
/// `s` (named `spec_is_iri`); which strings are IRIs is left to fluent_uri.
#[verifier::external_body]
fn parses_as_iri(s: &str) -> (ok: bool)
    ensures
        ok == spec_is_iri(s@),
{
    fluent_uri::Iri::parse(s).is_ok()
}

/// A node identified by a full IRI.
#[derive(Clone, Debug, PartialEq, Eq, Hash)]
pub struct NamedNode(String);

impl View for NamedNode {
    type V = Seq<char>;

    /// The IRI.
    closed spec fn view(&self) -> Seq<char> {
        self.0@
    }
}

/// The bytes of a named node, identical in N-Quads and TriG: the IRI between
/// angle brackets.
pub open spec fn named_bytes(iri: Seq<char>) -> Seq<u8> {
    encode_utf8("<"@) + encode_utf8(iri) + encode_utf8(">"@)
}

impl NamedNode {
    /// Create a new `NamedNode`. Returns an error if `iri` is not a valid IRI.
    pub fn new(iri: &str) -> (r: Result<NamedNode, RdfTrigError>)
        ensures
            match r {
                Ok(n) => spec_is_iri(iri@) && n@ == iri@,
                Err(e) => !spec_is_iri(iri@) && (e matches RdfTrigError::InvalidIri(s) && s@
                    == iri@),
            },
    {
        if !parses_as_iri(iri) {
            return Err(RdfTrigError::InvalidIri(iri.to_owned()));
        }
        Ok(NamedNode(iri.to_owned()))
    }

    /// A named node for an IRI known to be valid (the vocabularies of this
    /// crate); no validation is made.
    pub(crate) fn new_const(iri: &str) -> (n: NamedNode)
        ensures
            n@ == iri@,
    {
        NamedNode(iri.to_owned())
    }

    /// The IRI of this node.
    pub fn iri(&self) -> (s: &str)
        ensures
            s@ == self@,
    {
        self.0.as_str()
    }

    /// A copy of this node.
    pub fn duplicate(&self) -> (n: NamedNode)
        ensures
            n == *self,
    {
        NamedNode(self.0.clone())
    }
}

impl WriteNQuads for NamedNode {
    open spec fn nquads(&self) -> Seq<u8> {
        named_bytes(self@)
    }

    fn write_nquads(&self, writer: &mut Vec<u8>) {
        write_str(writer, "<");
        write_str(writer, self.0.as_str());
        write_str(writer, ">");
        assert(writer@ =~= old(writer)@ + named_bytes(self@));
    }
}

impl WriteTriG for NamedNode {
    /// No prefixes are used for named nodes, so identical to N-Quads.
    open spec fn trig(&self) -> Seq<u8> {
        named_bytes(self@)
    }

    fn write_trig(&self, writer: &mut Vec<u8>) {
        self.write_nquads(writer);
    }
}

} // verus!
