//! Plain and language-tagged string literals.
use vstd::prelude::*;
use vstd::string::*;
use vstd::utf8::encode_utf8;

use crate::errors::RdfTrigError;
use crate::traits::{WriteNQuads, WriteTriG};
use crate::utils::{escape_literal, write_escaped_literal, write_str};

verus! {

/// Whether `c` is an ASCII letter.
pub open spec fn is_ascii_letter(c: char) -> bool {
    ('a' <= c <= 'z') || ('A' <= c <= 'Z')
}

/// Whether a language tag is accepted: two or three ASCII letters.
pub open spec fn spec_valid_language(lang: Seq<char>) -> bool {
    (lang.len() == 2 || lang.len() == 3) && forall|i: int|
        0 <= i < lang.len() ==> is_ascii_letter(#[trigger] lang[i])
}

fn valid_language(lang: &str) -> (r: bool)
    ensures
        r == spec_valid_language(lang@),
{
    let n = lang.unicode_len();
    if !(n == 2 || n == 3) {
        return false;
    }
    let mut i: usize = 0;
    while i < n
        invariant
            n == lang@.len(),
            n == 2 || n == 3,
            i <= n,
            forall|k: int| 0 <= k < i ==> is_ascii_letter(#[trigger] lang@[k]),
        decreases n - i,
    {
        let c = lang.get_char(i);
        if !(('a' <= c && c <= 'z') || ('A' <= c && c <= 'Z')) {
            return false;
        }
        i = i + 1;
    }
    true
}

/// A string literal with an optional language tag.
#[derive(Clone, Debug, PartialEq, Eq, Hash)]
pub struct StringLiteral {
    value: String,
    language: Option<String>,
}

/// The characters of an optional string.
pub open spec fn option_view(o: Option<String>) -> Option<Seq<char>> {
    match o {
        Some(s) => Some(s@),
        None => None,
    }
}

impl View for StringLiteral {
    type V = (Seq<char>, Option<Seq<char>>);

    /// The value and the language tag.
    closed spec fn view(&self) -> (Seq<char>, Option<Seq<char>>) {
        (self.value@, option_view(self.language))
    }
}

impl StringLiteral {
    /// Create a new string literal from `value` and an optional `language`.
    ///
    /// The language must be two or three bytes of alphabetic characters (an
    /// ISO 639 code), or an `InvalidLanguage` error carrying it is returned.
    pub fn new(value: &str, language: Option<&str>) -> (r: Result<StringLiteral, RdfTrigError>)
        ensures
            match language {
                Some(l) => if spec_valid_language(l@) {
                    r matches Ok(s) && s@ == (value@, Some(l@))
                } else {
                    r matches Err(RdfTrigError::InvalidLanguage(e)) && e@ == l@
                },
                None => r matches Ok(s) && s@ == (value@, None::<Seq<char>>),
            },
    {
        match language {
            Some(l) => {
                if !valid_language(l) {
                    return Err(RdfTrigError::InvalidLanguage(l.to_owned()));
                }
                Ok(StringLiteral { value: value.to_owned(), language: Some(l.to_owned()) })
            },
            None => Ok(StringLiteral { value: value.to_owned(), language: None }),
        }
    }

    /// Create a new string literal from `value`, with the language set to
    /// "en" (English).
    pub fn new_en(value: &str) -> (s: StringLiteral)
        ensures
            s@ == (value@, Some("en"@)),
    {
        StringLiteral { value: value.to_owned(), language: Some("en".to_owned()) }
    }

    /// Create a new string literal from `value`, without a language.
    pub fn new_no_lang(value: &str) -> (s: StringLiteral)
        ensures
            s@ == (value@, None::<Seq<char>>),
    {
        StringLiteral { value: value.to_owned(), language: None }
    }

    /// A copy of this literal.
    pub fn duplicate(&self) -> (s: StringLiteral)
        ensures
            s == *self,
    {
        let language = match &self.language {
            Some(l) => Some(l.clone()),
            None => None,
        };
        StringLiteral { value: self.value.clone(), language }
    }

    /// The value of this literal.
    pub fn value(&self) -> (v: &str)
        ensures
            v@ == self@.0,
    {
        self.value.as_str()
    }

    /// The language tag of this literal, if any.
    pub fn language(&self) -> (l: Option<&str>)
        ensures
            match l {
                Some(s) => self@.1 == Some(s@),
                None => self@.1 is None,
            },
    {
        match &self.language {
            Some(s) => Some(s.as_str()),
            None => None,
        }
    }
}

/// The bytes of a string literal, identical in N-Quads and TriG: the escaped
/// value in double quotes, then `@` and the language when there is one.
pub open spec fn string_bytes(s: (Seq<char>, Option<Seq<char>>)) -> Seq<u8> {
    let quoted = encode_utf8("\""@) + escape_literal(encode_utf8(s.0)) + encode_utf8("\""@);
    match s.1 {
        Some(lang) => quoted + encode_utf8("@"@) + encode_utf8(lang),
        None => quoted,
    }
}

impl WriteNQuads for StringLiteral {
    open spec fn nquads(&self) -> Seq<u8> {
        string_bytes(self@)
    }

    fn write_nquads(&self, writer: &mut Vec<u8>) {
        write_str(writer, "\"");
        write_escaped_literal(writer, self.value.as_str());
        write_str(writer, "\"");
        match &self.language {
            Some(lang) => {
                write_str(writer, "@");
                write_str(writer, lang.as_str());
            },
            None => {},
        }
        assert(writer@ =~= old(writer)@ + string_bytes(self@));
    }
}

impl WriteTriG for StringLiteral {
    /// Identical to the N-Quads form.
    open spec fn trig(&self) -> Seq<u8> {
        string_bytes(self@)
    }

    fn write_trig(&self, writer: &mut Vec<u8>) {
        self.write_nquads(writer);
    }
}

/// A language tag is accepted exactly when it has two or three characters,
/// each an ASCII letter: a code point from 65 to 90 (`A` to `Z`) or from 97
/// to 122 (`a` to `z`), both ends included.
pub proof fn lemma_language_tags_are_ascii_letters(lang: Seq<char>)
    ensures
        spec_valid_language(lang) <==> ((lang.len() == 2 || lang.len() == 3) && forall|i: int|
            0 <= i < lang.len() ==> {
                let c = #[trigger] lang[i] as int;
                (65 <= c <= 90) || (97 <= c <= 122)
            }),
{
}

} // verus!
