//! Namespaces: a short `prefix` standing for a base `iri`, so that an IRI can
//! be given as a namespace and a local name.
pub mod store;

use vstd::prelude::*;

use crate::errors::RdfTrigError;

verus! {

/// Whether `s` parses as an absolute URL, as decided by `url::Url::parse`.
pub uninterp spec fn spec_is_url(s: Seq<char>) -> bool;

/// Calls `url::Url::parse` on `s` and reports whether it succeeded. The
/// contract claims only that the answer is a function of the characters of `s`
/// (named `spec_is_url`); which strings are URLs is left to the url crate.
#[verifier::external_body]
fn parses_as_url(s: &str) -> (ok: bool)
    ensures
        ok == spec_is_url(s@),
{
    url::Url::parse(s).is_ok()
}

/// A `Namespace` is a mapping between a `prefix` and an `iri`.
#[derive(Clone, Debug)]
pub struct Namespace {
    prefix: String,
    iri: String,
}

impl View for Namespace {
    /// The prefix and the IRI.
    type V = (Seq<char>, Seq<char>);

    closed spec fn view(&self) -> (Seq<char>, Seq<char>) {
        (self.prefix@, self.iri@)
    }
}

impl Namespace {
    /// Create a new `Namespace`. Returns `RdfTrigError::InvalidIri` if the
    /// `iri` cannot be parsed as a URL.
    pub fn new(prefix: &str, iri: &str) -> (r: Result<Namespace, RdfTrigError>)
        ensures
            match r {
                Ok(ns) => spec_is_url(iri@) && ns@ == (prefix@, iri@),
                Err(e) => !spec_is_url(iri@) && (e matches RdfTrigError::InvalidIri(s) && s@
                    == iri@),
            },
    {
        if !parses_as_url(iri) {
            return Err(RdfTrigError::InvalidIri(iri.to_owned()));
        }
        Ok(Namespace { prefix: prefix.to_owned(), iri: iri.to_owned() })
    }

    /// A namespace whose IRI is known to be valid; no validation is made.
    pub(crate) fn new_const(prefix: &str, iri: &str) -> (ns: Namespace)
        ensures
            ns@ == (prefix@, iri@),
    {
        Namespace { prefix: prefix.to_owned(), iri: iri.to_owned() }
    }

    /// Consume this `Namespace`, returning its `prefix` and `iri`.
    pub fn into_parts(self) -> (r: (String, String))
        ensures
            (r.0@, r.1@) == self@,
    {
        (self.prefix, self.iri)
    }

    /// This namespace's `prefix`.
    pub fn prefix(&self) -> (p: &str)
        ensures
            p@ == self@.0,
    {
        self.prefix.as_str()
    }

    /// This namespace's `iri`.
    pub fn iri(&self) -> (i: &str)
        ensures
            i@ == self@.1,
    {
        self.iri.as_str()
    }

    /// Replace this namespace's `prefix`, keeping its `iri`.
    pub(crate) fn set_prefix(&mut self, prefix: String)
        ensures
            final(self)@ == (prefix@, old(self)@.1),
    {
        self.prefix = prefix;
    }
}

} // verus!
