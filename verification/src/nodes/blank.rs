//! A `BlankNode` is a standard RDF blank node. It serves as a place to store
//! known facts about a resource within a graph, without knowing the
//! resource's specific IRI.
use vstd::prelude::*;
use vstd::utf8::encode_utf8;

use crate::traits::{WriteNQuads, WriteTriG};
use crate::utils::{escape_local, write_escaped_local_name, write_str};

verus! {

/// A `BlankNode` is simply a node with a `str` label.
///
/// No character escaping is done on the label before or during
/// construction; it is escaped when written.
#[derive(Clone, Debug, PartialEq, Eq, Hash)]
pub struct BlankNode(String);

impl View for BlankNode {
    type V = Seq<char>;

    /// The label.
    closed spec fn view(&self) -> Seq<char> {
        self.0@
    }
}

/// The bytes of a blank node with `label`, identical in N-Quads and TriG:
/// `_:` then the label with local-name escapes.
pub open spec fn blank_bytes(label: Seq<char>) -> Seq<u8> {
    encode_utf8("_:"@) + escape_local(encode_utf8(label))
}

impl BlankNode {
    /// Create a new `BlankNode` with the provided `id`.
    pub fn new(id: &str) -> (b: BlankNode)
        ensures
            b@ == id@,
    {
        BlankNode(id.to_owned())
    }

    /// Get a reference to the label for this `BlankNode`.
    pub fn label(&self) -> (l: &str)
        ensures
            l@ == self@,
    {
        self.0.as_str()
    }

    /// A copy of this node.
    pub fn duplicate(&self) -> (b: BlankNode)
        ensures
            b == *self,
    {
        let b = BlankNode(self.0.clone());
        assert(b@ == self@);
        b
    }
}

impl WriteNQuads for BlankNode {
    open spec fn nquads(&self) -> Seq<u8> {
        blank_bytes(self@)
    }

    fn write_nquads(&self, writer: &mut Vec<u8>) {
        write_str(writer, "_:");
        write_escaped_local_name(writer, self.0.as_str());
        assert(writer@ =~= old(writer)@ + blank_bytes(self@));
    }
}

impl WriteTriG for BlankNode {
    /// Identical to the N-Quads form.
    open spec fn trig(&self) -> Seq<u8> {
        blank_bytes(self@)
    }

    fn write_trig(&self, writer: &mut Vec<u8>) {
        self.write_nquads(writer);
    }
}

} // verus!
