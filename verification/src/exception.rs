//! The errors that planning a scan can end in.

use crate::text::{frame, framed};
use vstd::prelude::*;

verus! {

/// What went wrong.
#[derive(Clone, Copy, Debug, PartialEq, Eq, Structural)]
pub enum ErrorKind {
    /// A table function that reads local paths was used without permission.
    SecurityDisabled,
    /// No argument, an argument that is no string, or no file matched.
    BadArguments,
    /// A pattern is malformed, or walking the file system failed.
    GlobExpansionFailed,
    /// A file could not be opened, or its footer could not be decoded.
    MetadataReadFailed,
    /// A file chosen for schema inference has no row group.
    EmptyFile,
    /// A partition was used as a kind that it is not.
    WrongPartitionKind,
    /// A partition could not be narrowed to the kind its reader requires.
    InternalDowncastFailure,
}

/// An error with the message for the user.
#[derive(Debug)]
pub struct ErrorCode {
    pub kind: ErrorKind,
    pub message: String,
}

/// An error as a value: its kind and the characters of its message.
pub ghost struct ErrorView {
    pub kind: ErrorKind,
    pub message: Seq<char>,
}

impl View for ErrorCode {
    type V = ErrorView;

    open spec fn view(&self) -> ErrorView {
        ErrorView { kind: self.kind, message: self.message@ }
    }
}

/// The error of `kind` whose message is `text` between `prefix` and `suffix`.
pub open spec fn framed_error(
    kind: ErrorKind,
    prefix: Seq<char>,
    text: Seq<char>,
    suffix: Seq<char>,
) -> ErrorView {
    ErrorView { kind, message: framed(prefix, text, suffix) }
}

impl ErrorCode {
    /// An error of `kind` with `message`.
    pub fn new(kind: ErrorKind, message: &str) -> (e: ErrorCode)
        ensures
            e@ == (ErrorView { kind, message: message@ }),
    {
        ErrorCode { kind, message: message.to_owned() }
    }

    /// An error of `kind` whose message is `text` between `prefix` and `suffix`.
    pub fn framed(kind: ErrorKind, prefix: &str, text: &str, suffix: &str) -> (e: ErrorCode)
        ensures
            e@ == framed_error(kind, prefix@, text@, suffix@),
    {
        ErrorCode { kind, message: frame(prefix, text, suffix) }
    }

    /// The kind of this error.
    pub fn kind(&self) -> (k: ErrorKind)
        ensures
            k == self@.kind,
    {
        self.kind
    }

    /// The message of this error.
    pub fn message(&self) -> (m: &str)
        ensures
            m@ == self@.message,
    {
        self.message.as_str()
    }
}

} // verus!
