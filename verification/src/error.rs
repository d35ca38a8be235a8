//! Why a document could not be loaded.

use crate::field::Field;
use vstd::prelude::*;
use vstd::string::StringExecFns;

verus! {

/// Why a value tree is not a record of the model.
#[derive(Clone, Copy, Debug, PartialEq, Eq, Structural)]
pub enum DecodeError {
    /// A record was expected, and the value is no object.
    NotAnObject,
    /// A member that the record requires is absent.
    MissingField(Field),
    /// A member is present with a value of the wrong type.
    InvalidField(Field),
}

impl DecodeError {
    /// The diagnostic, in words.
    pub open spec fn message_spec(self) -> Seq<char> {
        match self {
            DecodeError::NotAnObject => "expected an object"@,
            DecodeError::MissingField(f) => "missing field `"@ + f.key() + "`"@,
            DecodeError::InvalidField(f) => "invalid value of field `"@ + f.key() + "`"@,
        }
    }

    /// The diagnostic, in words.
    pub fn message(&self) -> (r: String)
        ensures
            r@ == self.message_spec(),
    {
        match self {
            DecodeError::NotAnObject => String::from_str("expected an object"),
            DecodeError::MissingField(f) => String::from_str("missing field `").concat(
                f.name(),
            ).concat("`"),
            DecodeError::InvalidField(f) => String::from_str("invalid value of field `").concat(
                f.name(),
            ).concat("`"),
        }
    }
}

/// Why a load failed.
#[derive(Clone, Debug, PartialEq, Eq)]
pub enum Error {
    /// The text is a document in neither format. The diagnostic is that of
    /// the second attempt, the JSON one.
    Parse(String),
    /// The contents could not be read; the diagnostic is the reader's.
    Io(String),
    /// A failure before any parsing, by its fixed name.
    Other(&'static str),
}

/// What a failure holds.
pub enum ErrorView {
    Parse(Seq<char>),
    Io(Seq<char>),
    Other(Seq<char>),
}

impl View for Error {
    type V = ErrorView;

    open spec fn view(&self) -> ErrorView {
        match self {
            Error::Parse(m) => ErrorView::Parse(m@),
            Error::Io(m) => ErrorView::Io(m@),
            Error::Other(m) => ErrorView::Other(m@),
        }
    }
}

impl Error {
    /// The heading under which the failure is reported.
    pub open spec fn message_spec(self) -> Seq<char> {
        match self {
            Error::Parse(_) => "Parsing error"@,
            Error::Io(_) => "Filesystem access error"@,
            Error::Other(_) => "Other error"@,
        }
    }

    /// The heading under which the failure is reported.
    pub fn message(&self) -> (r: String)
        ensures
            r@ == self.message_spec(),
    {
        match self {
            Error::Parse(_) => String::from_str("Parsing error"),
            Error::Io(_) => String::from_str("Filesystem access error"),
            Error::Other(_) => String::from_str("Other error"),
        }
    }
}

} // verus!
