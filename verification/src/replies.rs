//! What an adapter makes of the reply to each foreign call.

use vstd::prelude::*;
use crate::error::{AdapterError, Operation};
use crate::foreign::{ForeignReply, ReplyView};

verus! {

/// The smaller of two lengths.
pub open spec fn shorter(a: nat, b: nat) -> nat {
    if a <= b {
        a
    } else {
        b
    }
}

/// The reply to a bulk read or to a write, taken as a count of bytes moved
/// out of or into a region of `limit` bytes: a number from 0 to `limit` is
/// that count, a failure of the call is a failure of `op`, and anything else
/// cannot be a count.
pub open spec fn spec_transfer_count(reply: ReplyView, limit: nat, op: Operation) -> Result<
    usize,
    AdapterError,
> {
    match reply {
        ReplyView::Raised => Err(AdapterError::ForeignCallFailed { op }),
        ReplyView::Integer(n) => if 0 <= n <= limit && n <= usize::MAX {
            Ok(n as usize)
        } else {
            Err(AdapterError::UnexpectedReturnType)
        },
        _ => Err(AdapterError::UnexpectedReturnType),
    }
}

pub fn transfer_count(reply: &ForeignReply, limit: usize, op: Operation) -> (result: Result<
    usize,
    AdapterError,
>)
    ensures
        result == spec_transfer_count(reply@, limit as nat, op),
{
    match reply {
        ForeignReply::Raised => Err(AdapterError::ForeignCallFailed { op }),
        ForeignReply::Integer(n) => {
            if 0 <= *n && *n <= limit as i128 {
                Ok(*n as usize)
            } else {
                Err(AdapterError::UnexpectedReturnType)
            }
        },
        _ => Err(AdapterError::UnexpectedReturnType),
    }
}

/// The count that a plain read reports for `reply` when the destination holds
/// `capacity` bytes: the length of the returned byte sequence, or `capacity`
/// when more was returned than fits.
pub open spec fn spec_plain_read_count(reply: ReplyView, capacity: nat) -> Result<
    usize,
    AdapterError,
> {
    match reply {
        ReplyView::Raised => Err(AdapterError::ForeignCallFailed { op: Operation::Read }),
        ReplyView::Bytes(bytes) => Ok(shorter(capacity, bytes.len()) as usize),
        _ => Err(AdapterError::UnexpectedReturnType),
    }
}

/// The destination after a plain read answered `reply`: the returned bytes, as
/// many as fit, stand at its start; the rest of it is as before.
pub open spec fn spec_plain_read_fill(reply: ReplyView, buf: Seq<u8>) -> Seq<u8> {
    match reply {
        ReplyView::Bytes(bytes) => {
            let n = shorter(buf.len(), bytes.len()) as int;
            bytes.subrange(0, n) + buf.subrange(n, buf.len() as int)
        },
        _ => buf,
    }
}

/// Copies what a plain read returned into `buf` and reports how many bytes
/// were copied.
pub fn copy_plain_read(reply: &ForeignReply, buf: &mut [u8]) -> (result: Result<
    usize,
    AdapterError,
>)
    ensures
        result == spec_plain_read_count(reply@, old(buf)@.len()),
        final(buf)@ == spec_plain_read_fill(reply@, old(buf)@),
{
    match reply {
        ForeignReply::Raised => Err(AdapterError::ForeignCallFailed { op: Operation::Read }),
        ForeignReply::Bytes(bytes) => {
            let n: usize = if buf.len() <= bytes.len() {
                buf.len()
            } else {
                bytes.len()
            };
            let mut i: usize = 0;
            while i < n
                invariant
                    i <= n,
                    n <= bytes@.len(),
                    n <= buf@.len(),
                    buf@.len() == old(buf)@.len(),
                    buf@ =~= bytes@.subrange(0, i as int) + old(buf)@.subrange(
                        i as int,
                        old(buf)@.len() as int,
                    ),
                decreases n - i,
            {
                buf[i] = bytes[i];
                i += 1;
            }
            Ok(n)
        },
        _ => Err(AdapterError::UnexpectedReturnType),
    }
}

/// The reply to a seek, taken as the absolute position reached: a number that
/// fits `u64` is that position, a failure of the call is a failure of the
/// seek, and a negative number or a value of another kind is no position.
pub open spec fn spec_seek_position(reply: ReplyView) -> Result<u64, AdapterError> {
    match reply {
        ReplyView::Raised => Err(AdapterError::ForeignCallFailed { op: Operation::Seek }),
        ReplyView::Integer(n) => if 0 <= n <= u64::MAX {
            Ok(n as u64)
        } else {
            Err(AdapterError::UnexpectedReturnType)
        },
        _ => Err(AdapterError::UnexpectedReturnType),
    }
}

pub fn seek_position(reply: &ForeignReply) -> (result: Result<u64, AdapterError>)
    ensures
        result == spec_seek_position(reply@),
{
    match reply {
        ForeignReply::Raised => Err(AdapterError::ForeignCallFailed { op: Operation::Seek }),
        ForeignReply::Integer(n) => {
            if 0 <= *n && *n <= u64::MAX as i128 {
                Ok(*n as u64)
            } else {
                Err(AdapterError::UnexpectedReturnType)
            }
        },
        _ => Err(AdapterError::UnexpectedReturnType),
    }
}

/// The reply to a flush: only a failure of the call counts, whatever was
/// returned is discarded.
pub open spec fn spec_flush_outcome(reply: ReplyView) -> Result<(), AdapterError> {
    match reply {
        ReplyView::Raised => Err(AdapterError::ForeignCallFailed { op: Operation::Flush }),
        _ => Ok(()),
    }
}

pub fn flush_outcome(reply: &ForeignReply) -> (result: Result<(), AdapterError>)
    ensures
        result == spec_flush_outcome(reply@),
{
    match reply {
        ForeignReply::Raised => Err(AdapterError::ForeignCallFailed { op: Operation::Flush }),
        _ => Ok(()),
    }
}

} // verus!
