//! The failures that a caller can meet.

use vstd::prelude::*;

verus! {

/// Why an operation failed. Each kind carries the text that is shown for it.
#[derive(Debug, Clone)]
pub enum Error {
    /// The daemon could not be reached.
    ConnectionFailed(String),
    /// A message could not be read or written.
    Io(String),
    /// The reference is not one that can be resolved.
    InvalidReference(String),
    /// The command that reads secrets failed.
    OpFailed(String),
    /// The other side sent what the protocol does not allow.
    Protocol(String),
    /// Something in this program's own surroundings failed.
    Internal(String),
}

/// What an `Error` says.
pub enum ErrorView {
    ConnectionFailed(Seq<char>),
    Io(Seq<char>),
    InvalidReference(Seq<char>),
    OpFailed(Seq<char>),
    Protocol(Seq<char>),
    Internal(Seq<char>),
}

impl View for Error {
    type V = ErrorView;

    open spec fn view(&self) -> ErrorView {
        match self {
            Error::ConnectionFailed(text) => ErrorView::ConnectionFailed(text@),
            Error::Io(text) => ErrorView::Io(text@),
            Error::InvalidReference(text) => ErrorView::InvalidReference(text@),
            Error::OpFailed(text) => ErrorView::OpFailed(text@),
            Error::Protocol(text) => ErrorView::Protocol(text@),
            Error::Internal(text) => ErrorView::Internal(text@),
        }
    }
}

} // verus!
