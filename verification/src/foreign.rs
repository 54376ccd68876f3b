//! The contract of a foreign file object: the few methods it may expose and
//! the shape of what a call hands back.
//!
//! Nothing is taken for granted about how such an object behaves. Each
//! implementation may say, in the predicates of [`ForeignFile`], which
//! answers and which changes of state its calls can produce. Left as they
//! are, the predicates hold of every outcome, and the implementation promises
//! nothing. The adapters' contracts are stated relative to these predicates.

use vstd::prelude::*;
use crate::error::Method;

verus! {

/// The origin that a seek offset is measured from.
#[derive(Clone, Copy, Debug, PartialEq, Eq, Structural)]
pub enum Whence {
    Start,
    Current,
    End,
}

/// What a call of a foreign method handed back, as plain values.
#[derive(Clone, Debug, PartialEq, Eq)]
pub enum ForeignReply {
    /// The foreign runtime reported a failure instead of returning.
    Raised,
    /// The call returned a whole number.
    Integer(i128),
    /// The call returned a byte sequence.
    Bytes(Vec<u8>),
    /// The call returned a value of any other kind.
    Other,
}

/// The mathematical content of a [`ForeignReply`].
pub enum ReplyView {
    Raised,
    Integer(int),
    Bytes(Seq<u8>),
    Other,
}

impl View for ForeignReply {
    type V = ReplyView;

    open spec fn view(&self) -> ReplyView {
        match self {
            ForeignReply::Raised => ReplyView::Raised,
            ForeignReply::Integer(n) => ReplyView::Integer(*n as int),
            ForeignReply::Bytes(bytes) => ReplyView::Bytes(bytes@),
            ForeignReply::Other => ReplyView::Other,
        }
    }
}

/// A file object of a foreign runtime.
///
/// The value stands for the object together with its state: its content, its
/// cursor, whatever else its answers depend on. A call through `&mut self`
/// may change all of that. A call of a method that the object does not expose
/// is to answer [`ForeignReply::Raised`].
pub trait ForeignFile: Sized {
    /// Whether a lookup of `method` on this object can come out as `found`.
    open spec fn finds(&self, method: Method, found: bool) -> bool {
        true
    }

    /// Whether `read(size)` on this object can answer `reply` and leave the
    /// object as `after`.
    open spec fn read_answers(&self, size: usize, reply: ReplyView, after: Self) -> bool {
        true
    }

    /// Whether `readinto` on this object, handed a writable view of `buf`, can
    /// answer `reply`, leave the viewed bytes as `filled` and the object as
    /// `after`.
    open spec fn readinto_answers(
        &self,
        buf: Seq<u8>,
        reply: ReplyView,
        after: Self,
        filled: Seq<u8>,
    ) -> bool {
        true
    }

    /// Whether `write` on this object, handed a read-only view of `bytes`, can
    /// answer `reply` and leave the object as `after`.
    open spec fn write_answers(&self, bytes: Seq<u8>, reply: ReplyView, after: Self) -> bool {
        true
    }

    /// Whether `seek(offset, whence)` on this object can answer `reply` and
    /// leave the object as `after`.
    open spec fn seek_answers(
        &self,
        offset: i128,
        whence: Whence,
        reply: ReplyView,
        after: Self,
    ) -> bool {
        true
    }

    /// Whether `flush()` on this object can answer `reply` and leave the
    /// object as `after`.
    open spec fn flush_answers(&self, reply: ReplyView, after: Self) -> bool {
        true
    }

    /// Looks `method` up on the object, without calling anything.
    fn has_method(&self, method: Method) -> (found: bool)
        ensures
            self.finds(method, found),
    ;

    /// Calls `read(size)`.
    fn call_read(&mut self, size: usize) -> (reply: ForeignReply)
        ensures
            old(self).read_answers(size, reply@, *final(self)),
    ;

    /// Calls `readinto` with a writable view of `buf`: the object writes
    /// straight into `buf`.
    fn call_readinto(&mut self, buf: &mut [u8]) -> (reply: ForeignReply)
        ensures
            final(buf)@.len() == old(buf)@.len(),
            old(self).readinto_answers(old(buf)@, reply@, *final(self), final(buf)@),
    ;

    /// Calls `write` with a read-only view of `bytes`.
    fn call_write(&mut self, bytes: &[u8]) -> (reply: ForeignReply)
        ensures
            old(self).write_answers(bytes@, reply@, *final(self)),
    ;

    /// Calls `seek(offset, whence)`, the origin given by the foreign runtime's
    /// own constant for `whence`.
    fn call_seek(&mut self, offset: i128, whence: Whence) -> (reply: ForeignReply)
        ensures
            old(self).seek_answers(offset, whence, reply@, *final(self)),
    ;

    /// Calls `flush()`.
    fn call_flush(&mut self) -> (reply: ForeignReply)
        ensures
            old(self).flush_answers(reply@, *final(self)),
    ;
}

} // verus!
