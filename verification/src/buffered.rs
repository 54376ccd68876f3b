//! The two buffers that stand between a codec and an adapter.
//!
//! A [`ReadBuffer`] fetches a block at a time and serves small reads from it;
//! a [`WriteBuffer`] collects small writes and hands them on in one piece.
//! Neither owns the adapter: each operation borrows it, so that one adapter,
//! and with it one foreign cursor, can stand behind both.

use vstd::prelude::*;
use vstd::slice::slice_subrange;
use crate::adapters::PyFileObject;
use crate::error::{AdapterError, Operation};
use crate::foreign::ForeignFile;
use crate::replies::shorter;
use crate::seek::SeekRequest;

verus! {

/// The size of a buffer that is made without a stated capacity.
pub const DEFAULT_CAPACITY: usize = 8192;

/// The state of a [`ReadBuffer`]: the block, how much of it holds fetched
/// bytes, and how much of that has been served.
pub struct ReadBufferView {
    pub storage: Seq<u8>,
    pub pos: nat,
    pub filled: nat,
}

impl ReadBufferView {
    /// Whether the marks lie within the block, the served one not beyond the
    /// fetched one, and the block is of a size that can be allocated.
    pub open spec fn wf(self) -> bool {
        self.pos <= self.filled <= self.storage.len() <= isize::MAX
    }

    /// The size of the block.
    pub open spec fn capacity(self) -> nat {
        self.storage.len()
    }

    /// An empty buffer whose block is `capacity` zero bytes.
    pub open spec fn fresh(capacity: nat) -> ReadBufferView {
        ReadBufferView { storage: Seq::new(capacity, |i: int| 0u8), pos: 0, filled: 0 }
    }

    /// The bytes that were fetched and not yet served.
    pub open spec fn unread(self) -> Seq<u8> {
        self.storage.subrange(self.pos as int, self.filled as int)
    }

    /// The same block with nothing left to serve.
    pub open spec fn discarded(self) -> ReadBufferView {
        ReadBufferView { storage: self.storage, pos: 0, filled: 0 }
    }
}

/// `buf` with the first `n` bytes replaced by the first `n` of `bytes`.
pub open spec fn with_prefix(buf: Seq<u8>, bytes: Seq<u8>, n: nat) -> Seq<u8> {
    bytes.subrange(0, n as int) + buf.subrange(n as int, buf.len() as int)
}

/// The read side of a buffered stream.
#[derive(Debug)]
pub struct ReadBuffer {
    storage: Vec<u8>,
    pos: usize,
    filled: usize,
}

impl View for ReadBuffer {
    type V = ReadBufferView;

    closed spec fn view(&self) -> ReadBufferView {
        ReadBufferView {
            storage: self.storage@,
            pos: self.pos as nat,
            filled: self.filled as nat,
        }
    }
}

impl ReadBuffer {
    /// An empty buffer with a block of [`DEFAULT_CAPACITY`] bytes.
    pub fn new() -> (buffer: ReadBuffer)
        ensures
            buffer@ == ReadBufferView::fresh(DEFAULT_CAPACITY as nat),
            buffer@.wf(),
    {
        ReadBuffer::with_capacity(DEFAULT_CAPACITY)
    }

    /// An empty buffer with a block of `capacity` bytes. A block larger than
    /// `isize::MAX` bytes cannot be allocated.
    pub fn with_capacity(capacity: usize) -> (buffer: ReadBuffer)
        requires
            capacity <= isize::MAX,
        ensures
            buffer@ == ReadBufferView::fresh(capacity as nat),
            buffer@.wf(),
    {
        let storage = vec![0u8; capacity];
        assert(storage@ =~= Seq::new(capacity as nat, |i: int| 0u8));
        ReadBuffer { storage, pos: 0, filled: 0 }
    }

    /// The size of the block.
    pub fn capacity(&self) -> (capacity: usize)
        ensures
            capacity == self@.capacity(),
    {
        self.storage.len()
    }

    /// How many fetched bytes are waiting to be served.
    pub fn buffered(&self) -> (n: usize)
        requires
            self@.wf(),
        ensures
            n == self@.unread().len(),
    {
        self.filled - self.pos
    }

    /// Forgets the fetched bytes that were not served.
    pub fn discard(&mut self)
        requires
            old(self)@.wf(),
        ensures
            final(self)@ == old(self)@.discarded(),
            final(self)@.wf(),
    {
        self.pos = 0;
        self.filled = 0;
    }

    /// How a buffered read relates the buffer, the adapter and the
    /// destination before the call to the result and to all three after it.
    ///
    /// While fetched bytes wait, they are served and the adapter is left
    /// alone. With none waiting, a destination at least as large as the block
    /// is read into directly; a smaller one makes the buffer fetch a block
    /// through the adapter and serve from that.
    pub open spec fn read_spec<F: ForeignFile>(
        pre: ReadBufferView,
        pre_file: PyFileObject<F>,
        buf: Seq<u8>,
        result: Result<usize, AdapterError>,
        post: ReadBufferView,
        post_file: PyFileObject<F>,
        filled: Seq<u8>,
    ) -> bool {
        if pre.pos < pre.filled {
            let n: nat = shorter((pre.filled - pre.pos) as nat, buf.len());
            &&& post_file == pre_file
            &&& post == (ReadBufferView { pos: pre.pos + n, ..pre })
            &&& result == Ok::<usize, AdapterError>(n as usize)
            &&& filled == with_prefix(buf, pre.unread(), n)
        } else if buf.len() >= pre.capacity() {
            &&& post == pre.discarded()
            &&& PyFileObject::read_spec(pre_file, buf, result, post_file, filled)
        } else {
            exists|fetched: Result<usize, AdapterError>|
                {
                    &&& #[trigger] PyFileObject::read_spec(
                        pre_file,
                        pre.storage,
                        fetched,
                        post_file,
                        post.storage,
                    )
                    &&& match fetched {
                        Ok(got) => {
                            let n: nat = shorter(got as nat, buf.len());
                            &&& post.pos == n
                            &&& post.filled == got
                            &&& result == Ok::<usize, AdapterError>(n as usize)
                            &&& filled == with_prefix(buf, post.storage, n)
                        },
                        Err(error) => {
                            &&& post.pos == pre.pos
                            &&& post.filled == pre.filled
                            &&& result == Err::<usize, AdapterError>(error)
                            &&& filled == buf
                        },
                    }
                }
        }
    }

    /// Reads into `buf` and returns how many bytes now stand at its start.
    pub fn read<F: ForeignFile>(&mut self, file: &mut PyFileObject<F>, buf: &mut [u8]) -> (result:
        Result<usize, AdapterError>)
        requires
            old(self)@.wf(),
        ensures
            final(self)@.wf(),
            final(self)@.capacity() == old(self)@.capacity(),
            final(buf)@.len() == old(buf)@.len(),
            result matches Ok(n) ==> n <= old(buf)@.len(),
            Self::read_spec(
                old(self)@,
                *old(file),
                old(buf)@,
                result,
                final(self)@,
                *final(file),
                final(buf)@,
            ),
    {
        if self.pos == self.filled {
            if buf.len() >= self.storage.len() {
                self.pos = 0;
                self.filled = 0;
                return file.read(buf);
            }
            let fetched = file.read(self.storage.as_mut_slice());
            assert(PyFileObject::read_spec(
                *old(file),
                old(self).storage@,
                fetched,
                *file,
                self.storage@,
            ));
            match fetched {
                Ok(got) => {
                    self.pos = 0;
                    self.filled = got;
                },
                Err(error) => {
                    return Err(error);
                },
            }
        }
        let rest: usize = self.filled - self.pos;
        let n: usize = if rest <= buf.len() {
            rest
        } else {
            buf.len()
        };
        let mut i: usize = 0;
        while i < n
            invariant
                i <= n,
                n <= buf@.len(),
                self.pos + n <= self.filled <= self.storage@.len(),
                buf@.len() == old(buf)@.len(),
                forall|j: int|
                    0 <= j < buf@.len() ==> #[trigger] buf@[j] == if j < i {
                        self.storage@[self.pos + j]
                    } else {
                        old(buf)@[j]
                    },
            decreases n - i,
        {
            buf[i] = self.storage[self.pos + i];
            i += 1;
        }
        assert(buf@ =~= with_prefix(
            old(buf)@,
            self.storage@.subrange(self.pos as int, self.filled as int),
            n as nat,
        ));
        proof {
            if old(self).pos == old(self).filled {
                assert(buf@ =~= with_prefix(old(buf)@, self.storage@, n as nat));
            }
        }
        self.pos = self.pos + n;
        Ok(n)
    }

    /// How a seek through the buffer relates the buffer and the adapter
    /// before the call to the result and to both after it.
    ///
    /// A request relative to the start or the end is passed on as it is. One
    /// relative to the current position is first corrected by the bytes that
    /// were fetched and not served, since the foreign cursor already stands
    /// behind them; where the corrected offset is not an `i64`, the cursor is
    /// moved back over those bytes first and then by the offset asked for.
    /// After a seek that succeeded nothing fetched is left to serve.
    pub open spec fn seek_spec<F: ForeignFile>(
        pre: ReadBufferView,
        pre_file: PyFileObject<F>,
        request: SeekRequest,
        result: Result<u64, AdapterError>,
        post: ReadBufferView,
        post_file: PyFileObject<F>,
    ) -> bool {
        let waiting: int = pre.filled - pre.pos;
        match request {
            SeekRequest::FromCurrent(n) if n - waiting < i64::MIN => {
                exists|first: Result<u64, AdapterError>, mid_file: PyFileObject<F>|
                    {
                        &&& #[trigger] PyFileObject::seek_spec(
                            pre_file,
                            SeekRequest::FromCurrent((-waiting) as i64),
                            first,
                            mid_file,
                        )
                        &&& match first {
                            Ok(_) => {
                                &&& post == pre.discarded()
                                &&& PyFileObject::seek_spec(mid_file, request, result, post_file)
                            },
                            Err(error) => {
                                &&& post == pre
                                &&& post_file == mid_file
                                &&& result == Err::<u64, AdapterError>(error)
                            },
                        }
                    }
            },
            _ => {
                let passed: SeekRequest = match request {
                    SeekRequest::FromCurrent(n) => SeekRequest::FromCurrent((n - waiting) as i64),
                    _ => request,
                };
                &&& PyFileObject::seek_spec(pre_file, passed, result, post_file)
                &&& post == if result is Ok {
                    pre.discarded()
                } else {
                    pre
                }
            },
        }
    }

    /// Moves the foreign cursor to where `pos` points for a reader of this
    /// buffer, and returns the absolute position reached.
    pub fn seek<F: ForeignFile>(&mut self, file: &mut PyFileObject<F>, pos: SeekRequest) -> (result:
        Result<u64, AdapterError>)
        requires
            old(self)@.wf(),
        ensures
            final(self)@.wf(),
            final(self)@.capacity() == old(self)@.capacity(),
            Self::seek_spec(old(self)@, *old(file), pos, result, final(self)@, *final(file)),
    {
        let waiting: i64 = (self.filled - self.pos) as i64;
        let passed: SeekRequest = match pos {
            SeekRequest::FromCurrent(n) => {
                if n < i64::MIN + waiting {
                    let first = file.seek(SeekRequest::FromCurrent(-waiting));
                    match first {
                        Ok(_) => {
                            self.discard();
                            return file.seek(pos);
                        },
                        Err(error) => {
                            return Err(error);
                        },
                    }
                }
                SeekRequest::FromCurrent(n - waiting)
            },
            _ => pos,
        };
        let result = file.seek(passed);
        if result.is_ok() {
            self.discard();
        }
        result
    }
}

/// The state of a [`WriteBuffer`]: the bytes that were taken and not yet
/// handed on, and how many it holds at most.
pub struct WriteBufferView {
    pub pending: Seq<u8>,
    pub capacity: nat,
}

impl WriteBufferView {
    /// Whether the waiting bytes are no more than the buffer holds.
    pub open spec fn wf(self) -> bool {
        self.pending.len() <= self.capacity
    }

    /// How many more bytes fit.
    pub open spec fn spare(self) -> nat {
        (self.capacity - self.pending.len()) as nat
    }

    /// The same buffer with `bytes` taken after what it holds.
    pub open spec fn extended(self, bytes: Seq<u8>) -> WriteBufferView {
        WriteBufferView { pending: self.pending + bytes, capacity: self.capacity }
    }

    /// The same buffer holding `pending`.
    pub open spec fn holding(self, pending: Seq<u8>) -> WriteBufferView {
        WriteBufferView { pending, capacity: self.capacity }
    }
}

/// The write side of a buffered stream.
#[derive(Debug)]
pub struct WriteBuffer {
    pending: Vec<u8>,
    capacity: usize,
}

impl View for WriteBuffer {
    type V = WriteBufferView;

    closed spec fn view(&self) -> WriteBufferView {
        WriteBufferView { pending: self.pending@, capacity: self.capacity as nat }
    }
}

/// How handing `pending` on through the adapter, piece by piece, relates the
/// adapter before to the result, the adapter after and the bytes that are
/// `left`.
///
/// Each write is offered all that remains. What the object took leaves the
/// front, and the rest is offered again, until nothing remains. A write
/// that fails ends it with that failure; a write that takes nothing ends it
/// as a failed write. Either way the bytes not taken so far are left.
pub open spec fn drains<F: ForeignFile>(
    pre_file: PyFileObject<F>,
    pending: Seq<u8>,
    result: Result<(), AdapterError>,
    post_file: PyFileObject<F>,
    left: Seq<u8>,
) -> bool
    decreases pending.len(),
{
    if pending.len() == 0 {
        &&& result == Ok::<(), AdapterError>(())
        &&& post_file == pre_file
        &&& left == pending
    } else {
        exists|taken: Result<usize, AdapterError>, mid_file: PyFileObject<F>|
            {
                &&& #[trigger] PyFileObject::write_spec(pre_file, pending, taken, mid_file)
                &&& match taken {
                    Ok(n) => if 0 < n <= pending.len() {
                        drains(mid_file, pending.skip(n as int), result, post_file, left)
                    } else {
                        &&& result == Err::<(), AdapterError>(
                            AdapterError::ForeignCallFailed { op: Operation::Write },
                        )
                        &&& post_file == mid_file
                        &&& left == pending
                    },
                    Err(error) => {
                        &&& result == Err::<(), AdapterError>(error)
                        &&& post_file == mid_file
                        &&& left == pending
                    },
                }
            }
    }
}

impl WriteBuffer {
    /// An empty buffer that holds up to [`DEFAULT_CAPACITY`] bytes.
    pub fn new() -> (buffer: WriteBuffer)
        ensures
            buffer@ == (WriteBufferView { pending: Seq::<u8>::empty(), capacity: DEFAULT_CAPACITY as nat }),
    {
        WriteBuffer::with_capacity(DEFAULT_CAPACITY)
    }

    /// An empty buffer that holds up to `capacity` bytes.
    pub fn with_capacity(capacity: usize) -> (buffer: WriteBuffer)
        ensures
            buffer@ == (WriteBufferView { pending: Seq::<u8>::empty(), capacity: capacity as nat }),
    {
        WriteBuffer { pending: Vec::new(), capacity }
    }

    /// How many bytes the buffer holds at most.
    pub fn capacity(&self) -> (capacity: usize)
        ensures
            capacity == self@.capacity,
    {
        self.capacity
    }

    /// How many bytes are waiting to be handed on.
    pub fn buffered(&self) -> (n: usize)
        ensures
            n == self@.pending.len(),
    {
        self.pending.len()
    }

    /// Takes `bytes` after what the buffer holds.
    fn take(&mut self, bytes: &[u8])
        requires
            old(self)@.pending.len() + bytes@.len() <= old(self)@.capacity,
        ensures
            final(self)@ == old(self)@.extended(bytes@),
    {
        let mut i: usize = 0;
        while i < bytes.len()
            invariant
                i <= bytes@.len(),
                self.capacity == old(self).capacity,
                self.pending@ =~= old(self).pending@ + bytes@.subrange(0, i as int),
            decreases bytes@.len() - i,
        {
            self.pending.push(bytes[i]);
            i += 1;
        }
        assert(bytes@.subrange(0, bytes@.len() as int) =~= bytes@);
    }

    /// Hands the waiting bytes on to the adapter until none is left or a
    /// write fails.
    pub fn flush_buf<F: ForeignFile>(&mut self, file: &mut PyFileObject<F>) -> (result: Result<
        (),
        AdapterError,
    >)
        requires
            old(self)@.wf(),
        ensures
            final(self)@.wf(),
            final(self)@.capacity == old(self)@.capacity,
            result is Ok ==> final(self)@.pending.len() == 0,
            drains(*old(file), old(self)@.pending, result, *final(file), final(self)@.pending),
    {
        let len: usize = self.pending.len();
        let mut written: usize = 0;
        let mut failure: Option<AdapterError> = None;
        assert(self.pending@.skip(0) =~= self.pending@);
        while written < len && failure.is_none()
            invariant
                written <= len,
                len == self.pending@.len(),
                self.pending@ == old(self).pending@,
                self.capacity == old(self).capacity,
                failure matches Some(error) ==> drains(
                    *old(file),
                    old(self).pending@,
                    Err::<(), AdapterError>(error),
                    *file,
                    self.pending@.skip(written as int),
                ),
                failure is None ==> forall|
                    result: Result<(), AdapterError>,
                    post_file: PyFileObject<F>,
                    left: Seq<u8>,
                |
                    drains(*file, self.pending@.skip(written as int), result, post_file, left)
                        ==> #[trigger] drains(
                        *old(file),
                        old(self).pending@,
                        result,
                        post_file,
                        left,
                    ),
            decreases len - written, (if failure is None { 1nat } else { 0nat }),
        {
            let ghost rest = self.pending@.skip(written as int);
            let taken = file.write(slice_subrange(self.pending.as_slice(), written, len));
            match taken {
                Ok(n) => {
                    if n == 0 {
                        failure = Some(AdapterError::ForeignCallFailed { op: Operation::Write });
                    } else {
                        assert(rest.skip(n as int) =~= self.pending@.skip(written + n));
                        written = written + n;
                    }
                },
                Err(error) => {
                    failure = Some(error);
                },
            }
        }
        let rest = self.pending.split_off(written);
        self.pending = rest;
        match failure {
            Some(error) => Err(error),
            None => Ok(()),
        }
    }

    /// How a buffered write relates the buffer and the adapter before the
    /// call to the result and to both after it.
    ///
    /// Bytes that fit beside the waiting ones are taken, and the adapter is
    /// left alone. Bytes that do not fit make the buffer hand the waiting ones
    /// on first; if that fails, the write fails with it and takes nothing.
    /// Once there is room, a piece at least as large as the whole buffer goes
    /// to the adapter in one write of its own, and a smaller one is taken.
    pub open spec fn write_spec<F: ForeignFile>(
        pre: WriteBufferView,
        pre_file: PyFileObject<F>,
        bytes: Seq<u8>,
        result: Result<usize, AdapterError>,
        post: WriteBufferView,
        post_file: PyFileObject<F>,
    ) -> bool {
        if bytes.len() <= pre.spare() {
            if bytes.len() < pre.capacity {
                &&& post_file == pre_file
                &&& post == pre.extended(bytes)
                &&& result == Ok::<usize, AdapterError>(bytes.len() as usize)
            } else {
                &&& post == pre
                &&& PyFileObject::write_spec(pre_file, bytes, result, post_file)
            }
        } else {
            exists|flushed: Result<(), AdapterError>, mid_file: PyFileObject<F>, left: Seq<u8>|
                {
                    &&& #[trigger] drains(pre_file, pre.pending, flushed, mid_file, left)
                    &&& match flushed {
                        Ok(_) => if bytes.len() < pre.capacity {
                            &&& post_file == mid_file
                            &&& post == pre.holding(left + bytes)
                            &&& result == Ok::<usize, AdapterError>(bytes.len() as usize)
                        } else {
                            &&& post == pre.holding(left)
                            &&& PyFileObject::write_spec(mid_file, bytes, result, post_file)
                        },
                        Err(error) => {
                            &&& post_file == mid_file
                            &&& post == pre.holding(left)
                            &&& result == Err::<usize, AdapterError>(error)
                        },
                    }
                }
        }
    }

    /// Writes from `buf` and returns how many of its bytes were taken, by the
    /// buffer or by the foreign object.
    pub fn write<F: ForeignFile>(&mut self, file: &mut PyFileObject<F>, buf: &[u8]) -> (result:
        Result<usize, AdapterError>)
        requires
            old(self)@.wf(),
        ensures
            final(self)@.wf(),
            result matches Ok(n) ==> n <= buf@.len(),
            Self::write_spec(old(self)@, *old(file), buf@, result, final(self)@, *final(file)),
    {
        if buf.len() > self.capacity - self.pending.len() {
            let flushed = self.flush_buf(file);
            match flushed {
                Ok(()) => {},
                Err(error) => {
                    return Err(error);
                },
            }
        }
        if buf.len() >= self.capacity {
            file.write(buf)
        } else {
            self.take(buf);
            Ok(buf.len())
        }
    }

    /// How a buffered flush relates the buffer and the adapter before the
    /// call to the result and to both after it: the waiting bytes are handed
    /// on, and only when all of them were taken is the object asked to flush.
    pub open spec fn flush_spec<F: ForeignFile>(
        pre: WriteBufferView,
        pre_file: PyFileObject<F>,
        result: Result<(), AdapterError>,
        post: WriteBufferView,
        post_file: PyFileObject<F>,
    ) -> bool {
        exists|flushed: Result<(), AdapterError>, mid_file: PyFileObject<F>, left: Seq<u8>|
            {
                &&& #[trigger] drains(pre_file, pre.pending, flushed, mid_file, left)
                &&& post == pre.holding(left)
                &&& match flushed {
                    Ok(_) => PyFileObject::flush_spec(mid_file, result, post_file),
                    Err(error) => {
                        &&& post_file == mid_file
                        &&& result == Err::<(), AdapterError>(error)
                    },
                }
            }
    }

    /// Hands the waiting bytes on and asks the object to flush.
    pub fn flush<F: ForeignFile>(&mut self, file: &mut PyFileObject<F>) -> (result: Result<
        (),
        AdapterError,
    >)
        requires
            old(self)@.wf(),
        ensures
            final(self)@.wf(),
            Self::flush_spec(old(self)@, *old(file), result, final(self)@, *final(file)),
    {
        let flushed = self.flush_buf(file);
        match flushed {
            Ok(()) => file.flush(),
            Err(error) => Err(error),
        }
    }

    /// How a seek through the buffer relates the buffer and the adapter
    /// before the call to the result and to both after it: the waiting bytes
    /// are handed on where they belong, and only when all of them were taken
    /// is the cursor moved, by the request as it was given.
    pub open spec fn seek_spec<F: ForeignFile>(
        pre: WriteBufferView,
        pre_file: PyFileObject<F>,
        request: SeekRequest,
        result: Result<u64, AdapterError>,
        post: WriteBufferView,
        post_file: PyFileObject<F>,
    ) -> bool {
        exists|flushed: Result<(), AdapterError>, mid_file: PyFileObject<F>, left: Seq<u8>|
            {
                &&& #[trigger] drains(pre_file, pre.pending, flushed, mid_file, left)
                &&& post == pre.holding(left)
                &&& match flushed {
                    Ok(_) => PyFileObject::seek_spec(mid_file, request, result, post_file),
                    Err(error) => {
                        &&& post_file == mid_file
                        &&& result == Err::<u64, AdapterError>(error)
                    },
                }
            }
    }

    /// Hands the waiting bytes on, then moves the foreign cursor and returns
    /// the absolute position reached.
    pub fn seek<F: ForeignFile>(&mut self, file: &mut PyFileObject<F>, pos: SeekRequest) -> (result:
        Result<u64, AdapterError>)
        requires
            old(self)@.wf(),
        ensures
            final(self)@.wf(),
            result is Ok ==> final(self)@.pending.len() == 0,
            Self::seek_spec(old(self)@, *old(file), pos, result, final(self)@, *final(file)),
    {
        let flushed = self.flush_buf(file);
        match flushed {
            Ok(()) => file.seek(pos),
            Err(error) => Err(error),
        }
    }
}

} // verus!
