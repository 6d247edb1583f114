//! Plain string literals, with or without a language tag.
use vstd::prelude::*;

verus! {

/// A `LangString` is an `xsd:string` with a language tag (written
/// `"Some Text"@en` in RDF formats).
#[derive(Debug)]
pub struct LangString {
    value: String,
    language: String,
}

impl View for LangString {
    /// The value and the language.
    type V = (Seq<char>, Seq<char>);

    closed spec fn view(&self) -> (Seq<char>, Seq<char>) {
        (self.value@, self.language@)
    }
}

impl LangString {
    /// Create a new `LangString`.
    pub fn new(value: &str, language: &str) -> (s: LangString)
        ensures
            s@ == (value@, language@),
    {
        LangString { value: value.to_owned(), language: language.to_owned() }
    }

    /// Create a new `LangString` with `language` set to "en".
    pub fn new_en(value: &str) -> (s: LangString)
        ensures
            s@ == (value@, "en"@),
    {
        LangString { value: value.to_owned(), language: "en".to_owned() }
    }

    /// The `value`.
    pub fn value(&self) -> (v: &str)
        ensures
            v@ == self@.0,
    {
        self.value.as_str()
    }

    /// The `language`.
    pub fn language(&self) -> (l: &str)
        ensures
            l@ == self@.1,
    {
        self.language.as_str()
    }
}

/// A `Literal` is one of the `xsd` types of this module.
#[derive(Debug)]
pub enum Literal {
    /// A string without a language tag.
    String(String),
    /// A string with a language tag.
    LangString(LangString),
}

impl Literal {
    /// Create a new `Literal::String`.
    pub fn string(value: &str) -> (l: Literal)
        ensures
            l matches Literal::String(s) && s@ == value@,
    {
        Literal::String(value.to_owned())
    }

    /// Create a new `Literal::LangString`.
    pub fn lang_string(value: &str, language: &str) -> (l: Literal)
        ensures
            l matches Literal::LangString(s) && s@ == (value@, language@),
    {
        Literal::LangString(LangString::new(value, language))
    }

    /// Create a new `Literal::LangString` with the language set to "en".
    pub fn lang_string_en(value: &str) -> (l: Literal)
        ensures
            l matches Literal::LangString(s) && s@ == (value@, "en"@),
    {
        Literal::LangString(LangString::new_en(value))
    }
}

} // verus!
