//! The failures an adapter reports, and the one I/O error shape they are
//! surfaced in.

use vstd::prelude::*;

verus! {

/// A method that a foreign file object may expose.
#[derive(Clone, Copy, Debug, PartialEq, Eq, Structural)]
pub enum Method {
    Read,
    ReadInto,
    Write,
    Seek,
    Flush,
}

impl Method {
    /// The name under which the method is looked up on the foreign object.
    pub open spec fn spec_name(self) -> Seq<char> {
        match self {
            Method::Read => "read"@,
            Method::ReadInto => "readinto"@,
            Method::Write => "write"@,
            Method::Seek => "seek"@,
            Method::Flush => "flush"@,
        }
    }

    pub fn name(self) -> (name: &'static str)
        ensures
            name@ == self.spec_name(),
    {
        match self {
            Method::Read => "read",
            Method::ReadInto => "readinto",
            Method::Write => "write",
            Method::Seek => "seek",
            Method::Flush => "flush",
        }
    }
}

/// An operation that an adapter offers to the codec.
#[derive(Clone, Copy, Debug, PartialEq, Eq, Structural)]
pub enum Operation {
    Read,
    Write,
    Flush,
    Seek,
}

impl Operation {
    pub open spec fn spec_name(self) -> Seq<char> {
        match self {
            Operation::Read => "read"@,
            Operation::Write => "write"@,
            Operation::Flush => "flush"@,
            Operation::Seek => "seek"@,
        }
    }

    pub fn name(self) -> (name: &'static str)
        ensures
            name@ == self.spec_name(),
    {
        match self {
            Operation::Read => "read",
            Operation::Write => "write",
            Operation::Flush => "flush",
            Operation::Seek => "seek",
        }
    }
}

/// Why an adapter could not be built or an operation did not succeed.
#[derive(Clone, Copy, Debug, PartialEq, Eq, Structural)]
pub enum AdapterError {
    /// The foreign object does not expose a method that is needed.
    MissingCapability { method: Method },
    /// The method was called and the foreign runtime reported a failure.
    ForeignCallFailed { op: Operation },
    /// The call succeeded, but what it returned is neither the number nor
    /// the byte sequence that was expected.
    UnexpectedReturnType,
}

impl AdapterError {
    /// The text that describes the failure; it names the method or the
    /// operation concerned.
    pub open spec fn spec_message(self) -> Seq<char> {
        match self {
            AdapterError::MissingCapability { method } => "No "@ + method.spec_name()
                + " method on file object"@,
            AdapterError::ForeignCallFailed { op } => "Failed to call "@ + op.spec_name(),
            AdapterError::UnexpectedReturnType => "Unexpected return type from file object"@,
        }
    }

    pub fn message(&self) -> (text: String)
        ensures
            text@ == self.spec_message(),
    {
        match self {
            AdapterError::MissingCapability { method } => String::from_str("No ").concat(
                method.name(),
            ).concat(" method on file object"),
            AdapterError::ForeignCallFailed { op } => String::from_str("Failed to call ").concat(
                op.name(),
            ),
            AdapterError::UnexpectedReturnType => String::from_str(
                "Unexpected return type from file object",
            ),
        }
    }

    /// The same failure in the uniform I/O error shape.
    pub fn to_io_error(&self) -> (error: IoError)
        ensures
            error.kind == IoErrorKind::Other,
            error.message@ == self.spec_message(),
    {
        to_other_io_error(self.message())
    }
}

/// The kind of an I/O error. Every failure of a foreign call is of one kind.
#[derive(Clone, Copy, Debug, PartialEq, Eq, Structural)]
pub enum IoErrorKind {
    Other,
}

/// The one error shape that callers of a stream see: a kind and a message
/// that names the operation that failed.
#[derive(Clone, Debug, PartialEq, Eq)]
pub struct IoError {
    pub kind: IoErrorKind,
    pub message: String,
}

/// An I/O error of kind `Other` that carries `message` unchanged.
pub fn to_other_io_error(message: String) -> (error: IoError)
    ensures
        error.kind == IoErrorKind::Other,
        error.message@ == message@,
{
    IoError { kind: IoErrorKind::Other, message }
}

} // verus!
