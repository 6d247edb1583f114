//! Literal nodes: booleans, dateTimes, decimals, gYears and strings.
pub mod boolean;
pub mod datetime;
pub mod decimal;
pub mod gyear;
pub mod string;

pub use boolean::BooleanLiteral;
pub use datetime::DateTimeLiteral;
pub use decimal::DecimalLiteral;
pub use gyear::GYearLiteral;
pub use string::StringLiteral;

use vstd::prelude::*;
use vstd::std_specs::convert::FromSpecImpl;

use crate::traits::{WriteNQuads, WriteTriG};
use boolean::{boolean_nquads, boolean_text};
use datetime::{datetime_nquads, datetime_trig};
use decimal::{decimal_lexical, decimal_nquads};
use gyear::{gyear_nquads, gyear_trig};
use string::string_bytes;
use vstd::utf8::encode_utf8;

use crate::utils::{lemma_encode_utf8_concat, signed_decimal_chars};

verus! {

/// The literal types of this crate. Each specific type converts into a
/// `LiteralNode` with `From`.
#[derive(Clone, Debug, PartialEq, Eq, Hash)]
pub enum LiteralNode {
    Boolean(BooleanLiteral),
    DateTime(DateTimeLiteral),
    Decimal(DecimalLiteral),
    GYear(GYearLiteral),
    String(StringLiteral),
}

/// What a literal holds, as plain values: the boolean, the dateTime's lexical
/// form, the decimal's text and whether it is whole, the year, or the string
/// and its language tag. Two literals are equal exactly when their values are.
pub enum LiteralValue {
    Boolean(bool),
    DateTime(Seq<char>),
    Decimal((Seq<char>, bool)),
    GYear(i32),
    String((Seq<char>, Option<Seq<char>>)),
}

impl View for LiteralNode {
    type V = LiteralValue;

    open spec fn view(&self) -> LiteralValue {
        match self {
            LiteralNode::Boolean(b) => LiteralValue::Boolean(b.0),
            LiteralNode::DateTime(d) => LiteralValue::DateTime(d@),
            LiteralNode::Decimal(d) => LiteralValue::Decimal(d@),
            LiteralNode::GYear(g) => LiteralValue::GYear(g@),
            LiteralNode::String(s) => LiteralValue::String(s@),
        }
    }
}

/// The N-Quads bytes of a literal with value `v`.
pub open spec fn literal_value_nquads(v: LiteralValue) -> Seq<u8> {
    match v {
        LiteralValue::Boolean(b) => boolean_nquads(b),
        LiteralValue::DateTime(d) => datetime_nquads(d),
        LiteralValue::Decimal(d) => decimal_nquads(d),
        LiteralValue::GYear(y) => gyear_nquads(y),
        LiteralValue::String(s) => string_bytes(s),
    }
}

/// The TriG bytes of a literal with value `v`.
pub open spec fn literal_value_trig(v: LiteralValue) -> Seq<u8> {
    match v {
        LiteralValue::Boolean(b) => encode_utf8(boolean_text(b)),
        LiteralValue::DateTime(d) => datetime_trig(d),
        LiteralValue::Decimal(d) => decimal_lexical(d),
        LiteralValue::GYear(y) => gyear_trig(y),
        LiteralValue::String(s) => string_bytes(s),
    }
}

impl LiteralNode {
    /// Create a new string literal node from `value`, without a language.
    ///
    /// Can stand for any literal whose type the receiving graph does not
    /// care about.
    pub fn new(value: &str) -> (l: LiteralNode)
        ensures
            l matches LiteralNode::String(s) && s@ == (value@, None::<Seq<char>>),
    {
        LiteralNode::String(StringLiteral::new_no_lang(value))
    }

    /// A copy of this literal.
    pub fn duplicate(&self) -> (l: LiteralNode)
        ensures
            l == *self,
    {
        match self {
            LiteralNode::Boolean(b) => LiteralNode::Boolean(*b),
            LiteralNode::DateTime(d) => LiteralNode::DateTime(d.duplicate()),
            LiteralNode::Decimal(d) => LiteralNode::Decimal(d.duplicate()),
            LiteralNode::GYear(g) => LiteralNode::GYear(*g),
            LiteralNode::String(s) => LiteralNode::String(s.duplicate()),
        }
    }
}

impl From<BooleanLiteral> for LiteralNode {
    fn from(value: BooleanLiteral) -> (l: LiteralNode) {
        LiteralNode::Boolean(value)
    }
}

impl FromSpecImpl<BooleanLiteral> for LiteralNode {
    open spec fn obeys_from_spec() -> bool {
        true
    }

    open spec fn from_spec(v: BooleanLiteral) -> LiteralNode {
        LiteralNode::Boolean(v)
    }
}

impl From<DateTimeLiteral> for LiteralNode {
    fn from(value: DateTimeLiteral) -> (l: LiteralNode) {
        LiteralNode::DateTime(value)
    }
}

impl FromSpecImpl<DateTimeLiteral> for LiteralNode {
    open spec fn obeys_from_spec() -> bool {
        true
    }

    open spec fn from_spec(v: DateTimeLiteral) -> LiteralNode {
        LiteralNode::DateTime(v)
    }
}

impl From<DecimalLiteral> for LiteralNode {
    fn from(value: DecimalLiteral) -> (l: LiteralNode) {
        LiteralNode::Decimal(value)
    }
}

impl FromSpecImpl<DecimalLiteral> for LiteralNode {
    open spec fn obeys_from_spec() -> bool {
        true
    }

    open spec fn from_spec(v: DecimalLiteral) -> LiteralNode {
        LiteralNode::Decimal(v)
    }
}

impl From<GYearLiteral> for LiteralNode {
    fn from(value: GYearLiteral) -> (l: LiteralNode) {
        LiteralNode::GYear(value)
    }
}

impl FromSpecImpl<GYearLiteral> for LiteralNode {
    open spec fn obeys_from_spec() -> bool {
        true
    }

    open spec fn from_spec(v: GYearLiteral) -> LiteralNode {
        LiteralNode::GYear(v)
    }
}

impl From<StringLiteral> for LiteralNode {
    fn from(value: StringLiteral) -> (l: LiteralNode) {
        LiteralNode::String(value)
    }
}

impl FromSpecImpl<StringLiteral> for LiteralNode {
    open spec fn obeys_from_spec() -> bool {
        true
    }

    open spec fn from_spec(v: StringLiteral) -> LiteralNode {
        LiteralNode::String(v)
    }
}

impl<'a> From<&'a str> for LiteralNode {
    /// A string literal without a language.
    fn from(value: &'a str) -> (l: LiteralNode)
        ensures
            l matches LiteralNode::String(s) && s@ == (value@, None::<Seq<char>>),
    {
        LiteralNode::new(value)
    }
}

impl<'a> FromSpecImpl<&'a str> for LiteralNode {
    /// The result holds a freshly built `String`; the implementation's own
    /// `ensures` states it.
    open spec fn obeys_from_spec() -> bool {
        false
    }

    open spec fn from_spec(v: &'a str) -> LiteralNode {
        arbitrary()
    }
}

impl WriteNQuads for LiteralNode {
    open spec fn nquads(&self) -> Seq<u8> {
        literal_value_nquads(self@)
    }

    fn write_nquads(&self, writer: &mut Vec<u8>) {
        match self {
            LiteralNode::Boolean(b) => b.write_nquads(writer),
            LiteralNode::DateTime(d) => d.write_nquads(writer),
            LiteralNode::Decimal(d) => d.write_nquads(writer),
            LiteralNode::GYear(g) => g.write_nquads(writer),
            LiteralNode::String(s) => s.write_nquads(writer),
        }
    }
}

impl WriteTriG for LiteralNode {
    open spec fn trig(&self) -> Seq<u8> {
        literal_value_trig(self@)
    }

    fn write_trig(&self, writer: &mut Vec<u8>) {
        match self {
            LiteralNode::Boolean(b) => b.write_trig(writer),
            LiteralNode::DateTime(d) => d.write_trig(writer),
            LiteralNode::Decimal(d) => d.write_trig(writer),
            LiteralNode::GYear(g) => g.write_trig(writer),
            LiteralNode::String(s) => s.write_trig(writer),
        }
    }
}

/// The XML Schema namespace, whose terms are the datatypes of typed
/// literals: written in full in N-Quads, and bound to the `xsd:` prefix at the
/// head of every TriG document.
pub open spec fn xsd_namespace() -> Seq<char> {
    "http://www.w3.org/2001/XMLSchema#"@
}

/// The bytes of `quoted` between double quotes, then `^^` and `datatype`.
proof fn lemma_typed_form(quoted: Seq<char>, suffix: Seq<char>, datatype: Seq<char>)
    requires
        suffix == "\"^^"@ + datatype,
    ensures
        encode_utf8("\""@) + encode_utf8(quoted) + encode_utf8(suffix) == encode_utf8(
            "\""@ + quoted + "\"^^"@ + datatype,
        ),
{
    lemma_encode_utf8_concat("\""@, quoted);
    lemma_encode_utf8_concat("\""@ + quoted, suffix);
    assert("\""@ + quoted + suffix =~= "\""@ + quoted + "\"^^"@ + datatype);
}

/// Every typed literal is written in N-Quads as its lexical form between
/// double quotes, then `^^` and the IRI of its XML Schema datatype in angle
/// brackets: `boolean`, `dateTime`, `decimal` or `gYear`. In TriG a dateTime
/// or a gYear is written in the same form with the same datatype, its IRI
/// shortened with the `xsd:` prefix.
pub proof fn lemma_typed_literal_forms(b: bool, dt: Seq<char>, d: (Seq<char>, bool), y: i32)
    ensures
        boolean_nquads(b) == encode_utf8(
            "\""@ + boolean_text(b) + "\"^^"@ + ("<"@ + xsd_namespace() + "boolean"@ + ">"@),
        ),
        datetime_nquads(dt) == encode_utf8(
            "\""@ + dt + "\"^^"@ + ("<"@ + xsd_namespace() + "dateTime"@ + ">"@),
        ),
        datetime_trig(dt) == encode_utf8("\""@ + dt + "\"^^"@ + ("xsd:"@ + "dateTime"@)),
        decimal_nquads(d) == encode_utf8("\""@) + decimal_lexical(d) + encode_utf8(
            "\"^^"@ + ("<"@ + xsd_namespace() + "decimal"@ + ">"@),
        ),
        gyear_nquads(y) == encode_utf8(
            "\""@ + signed_decimal_chars(y as int) + "\"^^"@ + ("<"@ + xsd_namespace()
                + "gYear"@ + ">"@),
        ),
        gyear_trig(y) == encode_utf8(
            "\""@ + signed_decimal_chars(y as int) + "\"^^"@ + ("xsd:"@ + "gYear"@),
        ),
{
    reveal_strlit("\"");
    reveal_strlit("\"^^");
    reveal_strlit("<");
    reveal_strlit(">");
    reveal_strlit("xsd:");
    reveal_strlit("http://www.w3.org/2001/XMLSchema#");
    reveal_strlit("boolean");
    reveal_strlit("dateTime");
    reveal_strlit("decimal");
    reveal_strlit("gYear");
    reveal_strlit("\"^^<http://www.w3.org/2001/XMLSchema#boolean>");
    reveal_strlit("\"^^<http://www.w3.org/2001/XMLSchema#dateTime>");
    reveal_strlit("\"^^<http://www.w3.org/2001/XMLSchema#decimal>");
    reveal_strlit("\"^^<http://www.w3.org/2001/XMLSchema#gYear>");
    reveal_strlit("\"^^xsd:dateTime");
    reveal_strlit("\"^^xsd:gYear");
    assert("\"^^<http://www.w3.org/2001/XMLSchema#boolean>"@ =~= "\"^^"@ + ("<"@
        + xsd_namespace() + "boolean"@ + ">"@));
    lemma_typed_form(boolean_text(b), "\"^^<http://www.w3.org/2001/XMLSchema#boolean>"@, "<"@
        + xsd_namespace() + "boolean"@ + ">"@);
    assert("\"^^<http://www.w3.org/2001/XMLSchema#dateTime>"@ =~= "\"^^"@ + ("<"@
        + xsd_namespace() + "dateTime"@ + ">"@));
    lemma_typed_form(dt, "\"^^<http://www.w3.org/2001/XMLSchema#dateTime>"@, "<"@
        + xsd_namespace() + "dateTime"@ + ">"@);
    assert("\"^^xsd:dateTime"@ =~= "\"^^"@ + ("xsd:"@ + "dateTime"@));
    lemma_typed_form(dt, "\"^^xsd:dateTime"@, "xsd:"@ + "dateTime"@);
    assert("\"^^<http://www.w3.org/2001/XMLSchema#decimal>"@ =~= "\"^^"@ + ("<"@
        + xsd_namespace() + "decimal"@ + ">"@));
    assert("\"^^<http://www.w3.org/2001/XMLSchema#gYear>"@ =~= "\"^^"@ + ("<"@
        + xsd_namespace() + "gYear"@ + ">"@));
    lemma_typed_form(signed_decimal_chars(y as int), "\"^^<http://www.w3.org/2001/XMLSchema#gYear>"@, "<"@
        + xsd_namespace() + "gYear"@ + ">"@);
    assert("\"^^xsd:gYear"@ =~= "\"^^"@ + ("xsd:"@ + "gYear"@));
    lemma_typed_form(signed_decimal_chars(y as int), "\"^^xsd:gYear"@, "xsd:"@ + "gYear"@);
}

} // verus!
