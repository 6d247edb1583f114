//! The two output formats: every writable value states, as a spec function,
//! the exact bytes it writes, and its writer appends those bytes.
use vstd::prelude::*;

verus! {

/// A value that can be written in the [N-Quads](https://www.w3.org/TR/n-quads/)
/// format.
///
/// Prefer `WriteTriG` where output size matters more than the cost of
/// grouping.
pub trait WriteNQuads {
    /// The bytes that `write_nquads` appends.
    spec fn nquads(&self) -> Seq<u8>;

    /// Append self, in N-Quads format, to `writer`.
    fn write_nquads(&self, writer: &mut Vec<u8>)
        ensures
            final(writer)@ == old(writer)@ + self.nquads(),
    ;
}

/// A value that can be written in the [TriG](https://www.w3.org/TR/trig/)
/// format.
///
/// Only the XML Schema namespace is ever abbreviated (`xsd:`); every other IRI
/// is written in full.
pub trait WriteTriG {
    /// The bytes that `write_trig` appends.
    spec fn trig(&self) -> Seq<u8>;

    /// Append self, in TriG format, to `writer`.
    fn write_trig(&self, writer: &mut Vec<u8>)
        ensures
            final(writer)@ == old(writer)@ + self.trig(),
    ;
}

} // verus!
