//! `xsd:boolean` literals.
use vstd::prelude::*;
use vstd::std_specs::convert::{FromSpecImpl, TryFromSpecImpl};
use vstd::utf8::encode_utf8;

use crate::errors::RdfTrigError;
use crate::traits::{WriteNQuads, WriteTriG};
use crate::utils::{decimal_chars, push_decimal, str_equals, write_str};

verus! {

/// A wrapper around a [`bool`], which can be constructed either with a native
/// `bool`, or with a string equal to "1"/"0" or "true"/"false".
///
/// Values are output as "true" or "false", regardless of the input text.
#[derive(Clone, Copy, Debug, PartialEq, Eq, Hash)]
pub struct BooleanLiteral(pub bool);

/// The lexical form written for `b`.
pub open spec fn boolean_text(b: bool) -> Seq<char> {
    if b {
        "true"@
    } else {
        "false"@
    }
}

/// The boolean that an accepted text stands for, or `None` when the text is
/// not one of "1", "true", "0", "false".
pub open spec fn boolean_of_text(s: Seq<char>) -> Option<bool> {
    if s == "1"@ || s == "true"@ {
        Some(true)
    } else if s == "0"@ || s == "false"@ {
        Some(false)
    } else {
        None
    }
}

/// The text written for a boolean is read back as that boolean.
pub proof fn lemma_boolean_text_read_back(b: bool)
    ensures
        boolean_of_text(boolean_text(b)) == Some(b),
{
    reveal_strlit("true");
    reveal_strlit("false");
    reveal_strlit("1");
    reveal_strlit("0");
    if !b {
        assert("false"@.len() != "1"@.len());
        assert("false"@.len() != "true"@.len());
    }
}

impl BooleanLiteral {
    /// Create a new `BooleanLiteral` from a `str` value.
    ///
    /// The given value must be either "true", "false", "1" or "0", or an
    /// `InvalidBoolean` error carrying the value is returned.
    pub fn try_from_str(value: &str) -> (r: Result<BooleanLiteral, RdfTrigError>)
        ensures
            match boolean_of_text(value@) {
                Some(b) => r == Ok::<BooleanLiteral, RdfTrigError>(BooleanLiteral(b)),
                None => r matches Err(RdfTrigError::InvalidBoolean(s)) && s@ == value@,
            },
    {
        if str_equals(value, "1") || str_equals(value, "true") {
            Ok(BooleanLiteral(true))
        } else if str_equals(value, "0") || str_equals(value, "false") {
            Ok(BooleanLiteral(false))
        } else {
            Err(RdfTrigError::InvalidBoolean(value.to_owned()))
        }
    }
}

impl From<bool> for BooleanLiteral {
    fn from(value: bool) -> (b: BooleanLiteral) {
        BooleanLiteral(value)
    }
}

impl FromSpecImpl<bool> for BooleanLiteral {
    open spec fn obeys_from_spec() -> bool {
        true
    }

    open spec fn from_spec(v: bool) -> BooleanLiteral {
        BooleanLiteral(v)
    }
}

impl TryFrom<u8> for BooleanLiteral {
    type Error = RdfTrigError;

    /// `0` is false and `1` is true; any other number is refused with its
    /// decimal text.
    fn try_from(value: u8) -> (r: Result<BooleanLiteral, RdfTrigError>)
        ensures
            value == 0 ==> r == Ok::<BooleanLiteral, RdfTrigError>(BooleanLiteral(false)),
            value == 1 ==> r == Ok::<BooleanLiteral, RdfTrigError>(BooleanLiteral(true)),
            value > 1 ==> (r matches Err(RdfTrigError::InvalidBoolean(s)) && s@ == decimal_chars(
                value as nat,
            )),
    {
        if value == 0 {
            Ok(BooleanLiteral(false))
        } else if value == 1 {
            Ok(BooleanLiteral(true))
        } else {
            let mut text = String::new();
            push_decimal(&mut text, value as u64);
            Err(RdfTrigError::InvalidBoolean(text))
        }
    }
}

impl TryFromSpecImpl<u8> for BooleanLiteral {
    /// The refused case carries a freshly built `String`, which no spec value
    /// can name; the implementation's own `ensures` states the behaviour.
    open spec fn obeys_try_from_spec() -> bool {
        false
    }

    open spec fn try_from_spec(v: u8) -> Result<BooleanLiteral, RdfTrigError> {
        arbitrary()
    }
}

/// The N-Quads bytes of a boolean literal: the quoted value typed as
/// `xsd:boolean`.
pub open spec fn boolean_nquads(b: bool) -> Seq<u8> {
    encode_utf8("\""@) + encode_utf8(boolean_text(b)) + encode_utf8(
        "\"^^<http://www.w3.org/2001/XMLSchema#boolean>"@,
    )
}

fn write_boolean_text(writer: &mut Vec<u8>, b: bool)
    ensures
        final(writer)@ == old(writer)@ + encode_utf8(boolean_text(b)),
{
    if b {
        write_str(writer, "true");
    } else {
        write_str(writer, "false");
    }
}

impl WriteNQuads for BooleanLiteral {
    open spec fn nquads(&self) -> Seq<u8> {
        boolean_nquads(self.0)
    }

    fn write_nquads(&self, writer: &mut Vec<u8>) {
        write_str(writer, "\"");
        write_boolean_text(writer, self.0);
        write_str(writer, "\"^^<http://www.w3.org/2001/XMLSchema#boolean>");
        assert(writer@ =~= old(writer)@ + boolean_nquads(self.0));
    }
}

impl WriteTriG for BooleanLiteral {
    /// TriG reads a bare `true` or `false` as an `xsd:boolean`.
    open spec fn trig(&self) -> Seq<u8> {
        encode_utf8(boolean_text(self.0))
    }

    fn write_trig(&self, writer: &mut Vec<u8>) {
        write_boolean_text(writer, self.0);
    }
}

} // verus!
