//! `xsd:decimal` literals.
//!
//! The number itself is a float, which the verified code cannot hold: a
//! `DecimalLiteral` keeps the two facts that its writers read, the shortest
//! decimal text of the float and whether the float is a whole number.
use vstd::prelude::*;
use vstd::utf8::{encode_utf8, is_ascii_chars, is_ascii_chars_encode_utf8};

use crate::traits::{WriteNQuads, WriteTriG};
use crate::utils::write_str;

verus! {

/// A decimal literal, held as the text of its float (`f64`'s `Display`) and
/// whether the float has no fractional part.
#[derive(Clone, Debug, PartialEq, Eq, Hash)]
pub struct DecimalLiteral {
    text: String,
    whole: bool,
}

impl View for DecimalLiteral {
    type V = (Seq<char>, bool);

    closed spec fn view(&self) -> (Seq<char>, bool) {
        (self.text@, self.whole)
    }
}

impl DecimalLiteral {
    /// A decimal literal for a float whose `Display` text is `text` and which
    /// is a whole number exactly when `whole` holds.
    pub fn from_float_text(text: &str, whole: bool) -> (d: DecimalLiteral)
        ensures
            d@ == (text@, whole),
    {
        DecimalLiteral { text: text.to_owned(), whole }
    }

    /// A copy of this literal.
    pub fn duplicate(&self) -> (d: DecimalLiteral)
        ensures
            d == *self,
    {
        DecimalLiteral { text: self.text.clone(), whole: self.whole }
    }
}

/// The lexical form written for a decimal: its text, with a trailing `.` when
/// it is whole so that TriG parsers read a decimal rather than an integer.
pub open spec fn decimal_lexical(d: (Seq<char>, bool)) -> Seq<u8> {
    if d.1 {
        encode_utf8(d.0) + encode_utf8("."@)
    } else {
        encode_utf8(d.0)
    }
}

fn write_decimal_lexical(d: &DecimalLiteral, writer: &mut Vec<u8>)
    ensures
        final(writer)@ == old(writer)@ + decimal_lexical(d@),
{
    write_str(writer, d.text.as_str());
    if d.whole {
        write_str(writer, ".");
    }
}

/// The N-Quads bytes of a decimal literal.
pub open spec fn decimal_nquads(d: (Seq<char>, bool)) -> Seq<u8> {
    encode_utf8("\""@) + decimal_lexical(d) + encode_utf8(
        "\"^^<http://www.w3.org/2001/XMLSchema#decimal>"@,
    )
}

impl WriteNQuads for DecimalLiteral {
    open spec fn nquads(&self) -> Seq<u8> {
        decimal_nquads(self@)
    }

    fn write_nquads(&self, writer: &mut Vec<u8>) {
        write_str(writer, "\"");
        write_decimal_lexical(self, writer);
        write_str(writer, "\"^^<http://www.w3.org/2001/XMLSchema#decimal>");
        assert(writer@ =~= old(writer)@ + decimal_nquads(self@));
    }
}

impl WriteTriG for DecimalLiteral {
    /// TriG reads a bare number with a `.` as an `xsd:decimal`.
    open spec fn trig(&self) -> Seq<u8> {
        decimal_lexical(self@)
    }

    fn write_trig(&self, writer: &mut Vec<u8>) {
        write_decimal_lexical(self, writer);
    }
}

/// How a decimal is written, over every decimal: in TriG, one with a
/// fractional part is exactly the text of its float, and a whole one is that
/// text followed by a single `.`; in N-Quads that same form stands between
/// double quotes, typed `xsd:decimal`.
pub proof fn lemma_decimal_written_form(d: DecimalLiteral)
    ensures
        !d@.1 ==> d.trig() == encode_utf8(d@.0),
        d@.1 ==> d.trig() == encode_utf8(d@.0).push(0x2Eu8),
        d.nquads() == seq![0x22u8] + d.trig() + encode_utf8(
            "\"^^<http://www.w3.org/2001/XMLSchema#decimal>"@,
        ),
{
    reveal_strlit(".");
    reveal_strlit("\"");
    assert(is_ascii_chars("."@));
    assert(is_ascii_chars("\""@));
    is_ascii_chars_encode_utf8("."@);
    is_ascii_chars_encode_utf8("\""@);
    assert(encode_utf8("."@) =~= seq![0x2Eu8]);
    assert(encode_utf8("\""@) =~= seq![0x22u8]);
    assert(encode_utf8(d@.0) + seq![0x2Eu8] =~= encode_utf8(d@.0).push(0x2Eu8));
}

} // verus!
