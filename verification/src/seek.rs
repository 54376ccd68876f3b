//! Seek requests and the two arguments they become for a foreign `seek`.

use vstd::prelude::*;
use crate::foreign::Whence;

verus! {

/// Where a stream is asked to move its cursor.
#[derive(Clone, Copy, Debug, PartialEq, Eq, Structural)]
pub enum SeekRequest {
    /// To this many bytes after the start.
    FromStart(u64),
    /// To this many bytes after the end; negative offsets lie before it.
    FromEnd(i64),
    /// To this many bytes after the current position.
    FromCurrent(i64),
}

/// The offset and the origin that a foreign `seek` is called with for
/// `request`.
pub open spec fn spec_seek_args(request: SeekRequest) -> (i128, Whence) {
    match request {
        SeekRequest::FromStart(n) => (n as i128, Whence::Start),
        SeekRequest::FromEnd(n) => (n as i128, Whence::End),
        SeekRequest::FromCurrent(n) => (n as i128, Whence::Current),
    }
}

/// Splits a seek request into the offset and the origin of the foreign
/// convention. The offset is passed on as it is, whatever the origin.
pub fn py_seek_args_from_rust_seek(seek: SeekRequest) -> (args: (i128, Whence))
    ensures
        args == spec_seek_args(seek),
        args.0 == match seek {
            SeekRequest::FromStart(n) => n as int,
            SeekRequest::FromEnd(n) => n as int,
            SeekRequest::FromCurrent(n) => n as int,
        },
{
    match seek {
        SeekRequest::FromStart(n) => (n as i128, Whence::Start),
        SeekRequest::FromEnd(n) => (n as i128, Whence::End),
        SeekRequest::FromCurrent(n) => (n as i128, Whence::Current),
    }
}

} // verus!
