//! A view of an interned triple as the nodes it refers to.
use vstd::prelude::*;
use vstd::utf8::encode_utf8;

use crate::nodes::{value_nquads, Node};
use crate::traits::WriteNQuads;
use crate::triples::QuadValue;
use crate::utils::write_str;

verus! {

/// References to the nodes of one triple, resolved from a `TripleStore`, so
/// that the triple can be written without rebuilding subjects, predicates and
/// objects.
pub struct TripleView<'a> {
    graph: Option<&'a Node>,
    subject: &'a Node,
    predicate: &'a Node,
    object: &'a Node,
}

/// One N-Quads line: subject, predicate, object and (if any) graph, separated
/// by spaces and ended by ` .` and a newline.
pub open spec fn quad_line(q: QuadValue) -> Seq<u8> {
    let spo = value_nquads(q.1) + encode_utf8(" "@) + value_nquads(q.2) + encode_utf8(" "@)
        + value_nquads(q.3);
    match q.0 {
        Some(g) => spo + encode_utf8(" "@) + value_nquads(g) + encode_utf8(" .\n"@),
        None => spo + encode_utf8(" .\n"@),
    }
}

impl<'a> View for TripleView<'a> {
    type V = QuadValue;

    /// The values of the nodes.
    closed spec fn view(&self) -> QuadValue {
        (
            match self.graph {
                Some(g) => Some(g@),
                None => None,
            },
            self.subject@,
            self.predicate@,
            self.object@,
        )
    }
}

impl<'a> TripleView<'a> {
    /// Create a new `TripleView` from parts.
    pub fn new(graph: Option<&'a Node>, subject: &'a Node, predicate: &'a Node, object: &'a Node) -> (v:
        TripleView<'a>)
        ensures
            v@ == (
                match graph {
                    Some(g) => Some(g@),
                    None => None,
                },
                subject@,
                predicate@,
                object@,
            ),
    {
        TripleView { graph, subject, predicate, object }
    }
}

impl<'a> WriteNQuads for TripleView<'a> {
    open spec fn nquads(&self) -> Seq<u8> {
        quad_line(self@)
    }

    fn write_nquads(&self, writer: &mut Vec<u8>) {
        self.subject.write_nquads(writer);
        write_str(writer, " ");
        self.predicate.write_nquads(writer);
        write_str(writer, " ");
        self.object.write_nquads(writer);
        match self.graph {
            Some(g) => {
                write_str(writer, " ");
                g.write_nquads(writer);
            },
            None => {},
        }
        write_str(writer, " .\n");
        assert(writer@ =~= old(writer)@ + quad_line(self@));
    }
}

} // verus!
