//! The error type shared by the codec and the stage handlers.

use vstd::prelude::*;

verus! {

/// What went wrong while decoding or handling a packet.
#[derive(Clone, Copy, Debug, PartialEq, Eq, Structural)]
pub enum ErrorKind {
    /// The buffer ends before the value does.
    Truncated,
    /// A variable-length integer goes on past its fourth byte.
    VarIntTooLong,
    /// The bytes of a string are not valid UTF-8.
    InvalidUtf8,
    /// The handshake asks for a next state that does not exist.
    InvalidClient,
    /// The socket could not be read.
    ReadFailed,
}

/// The library's error: a kind, with a fixed message for each.
#[derive(Clone, Copy, Debug, PartialEq, Eq, Structural)]
pub struct SimpleError {
    pub kind: ErrorKind,
}

pub type SResult<T> = Result<T, SimpleError>;

impl SimpleError {
    /// The text that goes with each kind of error.
    pub open spec fn message_text(kind: ErrorKind) -> Seq<char> {
        match kind {
            ErrorKind::Truncated => "Failed to read bytes"@,
            ErrorKind::VarIntTooLong => "Failed to read varint"@,
            ErrorKind::InvalidUtf8 => "Failed to parse chars"@,
            ErrorKind::InvalidClient => "Invalid client"@,
            ErrorKind::ReadFailed => "Failed to read packet"@,
        }
    }

    pub fn new(kind: ErrorKind) -> (e: SimpleError)
        ensures
            e.kind == kind,
    {
        SimpleError { kind }
    }

    /// The message of this error, as a log line shows it.
    pub fn message(&self) -> (text: String)
        ensures
            text@ == Self::message_text(self.kind),
    {
        match self.kind {
            ErrorKind::Truncated => "Failed to read bytes".to_string(),
            ErrorKind::VarIntTooLong => "Failed to read varint".to_string(),
            ErrorKind::InvalidUtf8 => "Failed to parse chars".to_string(),
            ErrorKind::InvalidClient => "Invalid client".to_string(),
            ErrorKind::ReadFailed => "Failed to read packet".to_string(),
        }
    }
}

} // verus!
