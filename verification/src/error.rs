//! Errors of the request handlers.

use vstd::prelude::*;

verus! {

/// What went wrong.
#[derive(Clone, Copy, Debug, PartialEq, Eq, Structural)]
pub enum ErrorKind {
    InvalidHost,
    InvalidPath,
    InvalidNamespace,
    NamespaceDoesntExist,
    /// The SQL text is not a statement.
    Syntax,
    FailedToParse,
    QueryError,
    SharedSchemaUsageError,
    SharedSchemaCreationError,
    UrlParseError,
    DbValueError,
    MigrationJobNotFound,
    Internal,
}

/// An error: its kind, and a message where it has one.
#[derive(Debug)]
pub struct Error {
    pub kind: ErrorKind,
    pub message: String,
}

impl View for Error {
    type V = (ErrorKind, Seq<char>);

    open spec fn view(&self) -> (ErrorKind, Seq<char>) {
        (self.kind, self.message@)
    }
}

impl Error {
    /// The error of a kind with a message.
    pub fn new(kind: ErrorKind, message: &str) -> (r: Self)
        ensures
            r@ == (kind, message@),
    {
        Error { kind, message: message.to_owned() }
    }
}

} // verus!
