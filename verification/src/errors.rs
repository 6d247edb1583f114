//! The single error type of this crate: each variant carries the text of the
//! value that was refused.
use vstd::prelude::*;
use vstd::string::*;

verus! {

/// Why a value could not become a node.
#[derive(Clone, Debug, PartialEq, Eq)]
pub enum RdfTrigError {
    InvalidBoolean(String),
    InvalidDateTime(String),
    InvalidDecimal(String),
    InvalidGYear(String),
    InvalidIri(String),
    InvalidLanguage(String),
}

/// The human readable message of an error: the refused text followed by a
/// description of what it failed to be.
pub open spec fn error_message(e: RdfTrigError) -> Seq<char> {
    match e {
        RdfTrigError::InvalidBoolean(s) => s@ + " is an invalid boolean"@,
        RdfTrigError::InvalidDateTime(s) => s@ + " is an invalid dateTime"@,
        RdfTrigError::InvalidDecimal(s) => s@ + " is an invalid decimal"@,
        RdfTrigError::InvalidGYear(s) => s@ + " is an invalid gYear"@,
        RdfTrigError::InvalidIri(s) => s@ + " is an IRI component"@,
        RdfTrigError::InvalidLanguage(s) => s@ + " is an invalid language code"@,
    }
}

impl RdfTrigError {
    /// The message of this error (what `Display` prints).
    pub fn message(&self) -> (m: String)
        ensures
            m@ == error_message(*self),
    {
        match self {
            RdfTrigError::InvalidBoolean(s) => s.clone().concat(" is an invalid boolean"),
            RdfTrigError::InvalidDateTime(s) => s.clone().concat(" is an invalid dateTime"),
            RdfTrigError::InvalidDecimal(s) => s.clone().concat(" is an invalid decimal"),
            RdfTrigError::InvalidGYear(s) => s.clone().concat(" is an invalid gYear"),
            RdfTrigError::InvalidIri(s) => s.clone().concat(" is an IRI component"),
            RdfTrigError::InvalidLanguage(s) => s.clone().concat(" is an invalid language code"),
        }
    }
}

} // verus!
