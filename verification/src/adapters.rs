//! The adapter over one foreign file object: which of its methods were found
//! when the adapter was built, and the read, write, flush and seek operations
//! that call them.

use vstd::prelude::*;
use crate::buffered::{
    ReadBuffer, ReadBufferView, WriteBuffer, WriteBufferView, DEFAULT_CAPACITY,
};
use crate::error::{AdapterError, Method, Operation};
use crate::foreign::{ForeignFile, ReplyView};
use crate::replies::{
    copy_plain_read, flush_outcome, seek_position, spec_flush_outcome, spec_plain_read_count,
    spec_plain_read_fill, spec_seek_position, spec_transfer_count, transfer_count,
};
use crate::seek::{py_seek_args_from_rust_seek, spec_seek_args, SeekRequest};

verus! {

/// Which methods were found on a foreign object.
#[derive(Clone, Copy, Debug, PartialEq, Eq, Structural)]
pub struct Capabilities {
    pub read: bool,
    pub readinto: bool,
    pub write: bool,
    pub seek: bool,
    pub flush: bool,
}

/// What an adapter is built for.
#[derive(Clone, Copy, Debug, PartialEq, Eq, Structural)]
pub enum AccessMode {
    Read,
    Write,
    ReadWrite,
}

impl AccessMode {
    pub open spec fn reads(self) -> bool {
        self == AccessMode::Read || self == AccessMode::ReadWrite
    }

    pub open spec fn writes(self) -> bool {
        self == AccessMode::Write || self == AccessMode::ReadWrite
    }
}

impl Capabilities {
    pub open spec fn has(self, method: Method) -> bool {
        match method {
            Method::Read => self.read,
            Method::ReadInto => self.readinto,
            Method::Write => self.write,
            Method::Seek => self.seek,
            Method::Flush => self.flush,
        }
    }

    /// Whether a lookup of each method on `file` can come out as these
    /// flags say.
    pub open spec fn found_on<F: ForeignFile>(self, file: F) -> bool {
        &&& file.finds(Method::Read, self.read)
        &&& file.finds(Method::ReadInto, self.readinto)
        &&& file.finds(Method::Write, self.write)
        &&& file.finds(Method::Seek, self.seek)
        &&& file.finds(Method::Flush, self.flush)
    }

    /// Looks each method up on `file`, once, and calls none of them.
    pub fn probe<F: ForeignFile>(file: &F) -> (found: Capabilities)
        ensures
            found.found_on(*file),
    {
        Capabilities {
            read: file.has_method(Method::Read),
            readinto: file.has_method(Method::ReadInto),
            write: file.has_method(Method::Write),
            seek: file.has_method(Method::Seek),
            flush: file.has_method(Method::Flush),
        }
    }

    /// The first method that `mode` needs and that is absent: reading needs
    /// `read`, writing needs `write` and `flush`. Bulk reads and seeks are
    /// never needed.
    pub open spec fn missing_for(self, mode: AccessMode) -> Option<Method> {
        if mode.reads() && !self.read {
            Some(Method::Read)
        } else if mode.writes() && !self.write {
            Some(Method::Write)
        } else if mode.writes() && !self.flush {
            Some(Method::Flush)
        } else {
            None
        }
    }

    /// Succeeds exactly when every method that `mode` needs is present.
    pub fn require(&self, mode: AccessMode) -> (result: Result<(), AdapterError>)
        ensures
            result == match self.missing_for(mode) {
                Some(method) => Err::<(), AdapterError>(
                    AdapterError::MissingCapability { method },
                ),
                None => Ok::<(), AdapterError>(()),
            },
    {
        let reads = match mode {
            AccessMode::Read => true,
            AccessMode::Write => false,
            AccessMode::ReadWrite => true,
        };
        let writes = match mode {
            AccessMode::Read => false,
            AccessMode::Write => true,
            AccessMode::ReadWrite => true,
        };
        if reads && !self.read {
            Err(AdapterError::MissingCapability { method: Method::Read })
        } else if writes && !self.write {
            Err(AdapterError::MissingCapability { method: Method::Write })
        } else if writes && !self.flush {
            Err(AdapterError::MissingCapability { method: Method::Flush })
        } else {
            Ok(())
        }
    }
}

/// A foreign object that was refused as the base of an adapter, handed back
/// as it was given, with the reason.
#[derive(Debug)]
pub struct Rejected<F> {
    pub error: AdapterError,
    pub file: F,
}

/// A foreign file object with the methods that were found on it. The adapter
/// keeps no bytes and no position of its own: every operation is one call of
/// the foreign method, or none where the method is absent.
#[derive(Debug)]
pub struct PyFileObject<F: ForeignFile> {
    pub file: F,
    pub bindings: Capabilities,
}

impl<F: ForeignFile> PyFileObject<F> {
    /// How building an adapter relates the foreign object and the mode to
    /// the result. The methods are looked up and none is called, so the
    /// object is as it was whether it ends up inside the adapter or is handed
    /// back. It is handed back exactly when a method that `mode` needs was
    /// not found, with the name of the first such method.
    pub open spec fn new_spec(file: F, mode: AccessMode, result: Result<Self, Rejected<F>>) -> bool {
        exists|found: Capabilities|
            {
                &&& #[trigger] found.found_on(file)
                &&& match found.missing_for(mode) {
                    None => {
                        &&& result matches Ok(adapter)
                        &&& adapter.file == file
                        &&& adapter.bindings == found
                    },
                    Some(method) => {
                        &&& result matches Err(rejected)
                        &&& rejected.file == file
                        &&& rejected.error == (AdapterError::MissingCapability { method })
                    },
                }
            }
    }

    /// Builds the adapter over `file` for `mode`.
    pub fn new(file: F, mode: AccessMode) -> (result: Result<Self, Rejected<F>>)
        ensures
            Self::new_spec(file, mode, result),
            result matches Ok(adapter) ==> adapter.file == file && adapter.bindings.found_on(file),
            result matches Err(rejected) ==> rejected.file == file,
    {
        let bindings = Capabilities::probe(&file);
        match bindings.require(mode) {
            Ok(()) => Ok(PyFileObject { file, bindings }),
            Err(error) => Err(Rejected { error, file }),
        }
    }

    /// How a read relates the adapter and the destination before the call to
    /// the result, the adapter and the destination after it.
    ///
    /// With `readinto` bound, the object is handed a view of the destination
    /// and its reply is the count of bytes it wrote there. Otherwise, with
    /// `read` bound, the object is asked for as many bytes as the destination
    /// holds, and what it returns is copied, as far as it fits. With neither,
    /// nothing is called.
    pub open spec fn read_spec(
        pre: Self,
        buf: Seq<u8>,
        result: Result<usize, AdapterError>,
        post: Self,
        filled: Seq<u8>,
    ) -> bool {
        &&& post.bindings == pre.bindings
        &&& filled.len() == buf.len()
        &&& if pre.bindings.readinto {
            exists|reply: ReplyView|
                {
                    &&& #[trigger] pre.file.readinto_answers(buf, reply, post.file, filled)
                    &&& result == spec_transfer_count(reply, buf.len(), Operation::Read)
                }
        } else if pre.bindings.read {
            exists|reply: ReplyView|
                {
                    &&& #[trigger] pre.file.read_answers(buf.len() as usize, reply, post.file)
                    &&& result == spec_plain_read_count(reply, buf.len())
                    &&& filled == spec_plain_read_fill(reply, buf)
                }
        } else {
            &&& post.file == pre.file
            &&& filled == buf
            &&& result == Err::<usize, AdapterError>(
                AdapterError::MissingCapability { method: Method::Read },
            )
        }
    }

    /// Reads into `buf` and returns how many bytes now stand at its start.
    pub fn read(&mut self, buf: &mut [u8]) -> (result: Result<usize, AdapterError>)
        ensures
            Self::read_spec(*old(self), old(buf)@, result, *final(self), final(buf)@),
            result matches Ok(n) ==> n <= old(buf)@.len(),
    {
        if self.bindings.readinto {
            let reply = self.file.call_readinto(buf);
            assert(old(self).file.readinto_answers(old(buf)@, reply@, self.file, buf@));
            transfer_count(&reply, buf.len(), Operation::Read)
        } else if self.bindings.read {
            let reply = self.file.call_read(buf.len());
            assert(old(self).file.read_answers(old(buf)@.len() as usize, reply@, self.file));
            copy_plain_read(&reply, buf)
        } else {
            Err(AdapterError::MissingCapability { method: Method::Read })
        }
    }

    /// How a write relates the adapter before the call to the result and the
    /// adapter after it: with `write` bound, the object is handed a view of
    /// the bytes and its reply is the count it took; otherwise nothing is
    /// called.
    pub open spec fn write_spec(
        pre: Self,
        bytes: Seq<u8>,
        result: Result<usize, AdapterError>,
        post: Self,
    ) -> bool {
        &&& post.bindings == pre.bindings
        &&& if pre.bindings.write {
            exists|reply: ReplyView|
                {
                    &&& #[trigger] pre.file.write_answers(bytes, reply, post.file)
                    &&& result == spec_transfer_count(reply, bytes.len(), Operation::Write)
                }
        } else {
            &&& post.file == pre.file
            &&& result == Err::<usize, AdapterError>(
                AdapterError::MissingCapability { method: Method::Write },
            )
        }
    }

    /// Writes from `buf` and returns how many of its bytes the object took.
    pub fn write(&mut self, buf: &[u8]) -> (result: Result<usize, AdapterError>)
        ensures
            Self::write_spec(*old(self), buf@, result, *final(self)),
            result matches Ok(n) ==> n <= buf@.len(),
    {
        if self.bindings.write {
            let reply = self.file.call_write(buf);
            assert(old(self).file.write_answers(buf@, reply@, self.file));
            transfer_count(&reply, buf.len(), Operation::Write)
        } else {
            Err(AdapterError::MissingCapability { method: Method::Write })
        }
    }

    /// How a flush relates the adapter before the call to the result and the
    /// adapter after it: with `flush` bound it is called and only a failure
    /// counts; without, the flush fails and nothing is called.
    pub open spec fn flush_spec(pre: Self, result: Result<(), AdapterError>, post: Self) -> bool {
        &&& post.bindings == pre.bindings
        &&& if pre.bindings.flush {
            exists|reply: ReplyView|
                {
                    &&& #[trigger] pre.file.flush_answers(reply, post.file)
                    &&& result == spec_flush_outcome(reply)
                }
        } else {
            &&& post.file == pre.file
            &&& result == Err::<(), AdapterError>(
                AdapterError::ForeignCallFailed { op: Operation::Flush },
            )
        }
    }

    /// Asks the object to flush.
    pub fn flush(&mut self) -> (result: Result<(), AdapterError>)
        ensures
            Self::flush_spec(*old(self), result, *final(self)),
    {
        if self.bindings.flush {
            let reply = self.file.call_flush();
            assert(old(self).file.flush_answers(reply@, self.file));
            flush_outcome(&reply)
        } else {
            Err(AdapterError::ForeignCallFailed { op: Operation::Flush })
        }
    }

    /// How a seek relates the adapter before the call to the result and the
    /// adapter after it: with `seek` bound it is called once, with the offset
    /// and the origin of the request, and its reply is the absolute position
    /// reached; without, the seek fails and nothing is called.
    pub open spec fn seek_spec(
        pre: Self,
        request: SeekRequest,
        result: Result<u64, AdapterError>,
        post: Self,
    ) -> bool {
        &&& post.bindings == pre.bindings
        &&& if pre.bindings.seek {
            exists|reply: ReplyView|
                {
                    &&& #[trigger] pre.file.seek_answers(
                        spec_seek_args(request).0,
                        spec_seek_args(request).1,
                        reply,
                        post.file,
                    )
                    &&& result == spec_seek_position(reply)
                }
        } else {
            &&& post.file == pre.file
            &&& result == Err::<u64, AdapterError>(
                AdapterError::ForeignCallFailed { op: Operation::Seek },
            )
        }
    }

    /// Moves the object's cursor and returns the absolute position reached.
    pub fn seek(&mut self, pos: SeekRequest) -> (result: Result<u64, AdapterError>)
        ensures
            Self::seek_spec(*old(self), pos, result, *final(self)),
    {
        if self.bindings.seek {
            let (offset, whence) = py_seek_args_from_rust_seek(pos);
            let reply = self.file.call_seek(offset, whence);
            assert(old(self).file.seek_answers(offset, whence, reply@, self.file));
            seek_position(&reply)
        } else {
            Err(AdapterError::ForeignCallFailed { op: Operation::Seek })
        }
    }
}

/// The state of a [`BufReadWritePyFileObject`]: the one adapter and the two
/// buffers over it.
pub struct BufReadWriteView<F: ForeignFile> {
    pub file: PyFileObject<F>,
    pub input: ReadBufferView,
    pub output: WriteBufferView,
}

impl<F: ForeignFile> BufReadWriteView<F> {
    /// Two empty buffers of `capacity` bytes each over `file`.
    pub open spec fn fresh(file: PyFileObject<F>, capacity: nat) -> BufReadWriteView<F> {
        BufReadWriteView {
            file,
            input: ReadBufferView::fresh(capacity),
            output: WriteBufferView { pending: Seq::<u8>::empty(), capacity },
        }
    }

    /// Whether both buffers are well formed.
    pub open spec fn wf(self) -> bool {
        self.input.wf() && self.output.wf()
    }

    /// Whether neither buffer holds anything: nothing fetched waits to be
    /// served and nothing taken waits to be handed on.
    pub open spec fn is_synced(self) -> bool {
        self.input.pos == self.input.filled && self.output.pending.len() == 0
    }
}

/// One foreign file object behind a buffered reader and a buffered writer.
///
/// Both buffers work on the same adapter and so on the same foreign cursor,
/// and neither sees what the other holds. A seek brings them back in step:
/// it is resolved to an absolute position once, on the write side, and the
/// read side is then moved to that position.
#[derive(Debug)]
pub struct BufReadWritePyFileObject<F: ForeignFile> {
    file: PyFileObject<F>,
    input: ReadBuffer,
    output: WriteBuffer,
}

impl<F: ForeignFile> View for BufReadWritePyFileObject<F> {
    type V = BufReadWriteView<F>;

    closed spec fn view(&self) -> BufReadWriteView<F> {
        BufReadWriteView { file: self.file, input: self.input@, output: self.output@ }
    }
}

impl<F: ForeignFile> BufReadWritePyFileObject<F> {
    /// Puts two empty buffers of the default size over `file`.
    pub fn new(file: PyFileObject<F>) -> (stream: Self)
        ensures
            stream@ == BufReadWriteView::fresh(file, DEFAULT_CAPACITY as nat),
            stream@.is_synced(),
            stream@.wf(),
    {
        BufReadWritePyFileObject { file, input: ReadBuffer::new(), output: WriteBuffer::new() }
    }

    /// Puts two empty buffers of `capacity` bytes each over `file`. A buffer
    /// larger than `isize::MAX` bytes cannot be allocated.
    pub fn with_capacity(capacity: usize, file: PyFileObject<F>) -> (stream: Self)
        requires
            capacity <= isize::MAX,
        ensures
            stream@ == BufReadWriteView::fresh(file, capacity as nat),
            stream@.is_synced(),
            stream@.wf(),
    {
        BufReadWritePyFileObject {
            file,
            input: ReadBuffer::with_capacity(capacity),
            output: WriteBuffer::with_capacity(capacity),
        }
    }

    /// The adapter behind the buffers.
    pub fn get_ref(&self) -> (file: &PyFileObject<F>)
        ensures
            *file == self@.file,
    {
        &self.file
    }

    /// How a read relates the stream and the destination before the call to
    /// the result and to both after it: it is a read through the read buffer,
    /// and the write buffer is neither consulted nor changed.
    pub open spec fn read_spec(
        pre: BufReadWriteView<F>,
        buf: Seq<u8>,
        result: Result<usize, AdapterError>,
        post: BufReadWriteView<F>,
        filled: Seq<u8>,
    ) -> bool {
        &&& post.output == pre.output
        &&& ReadBuffer::read_spec(
            pre.input,
            pre.file,
            buf,
            result,
            post.input,
            post.file,
            filled,
        )
    }

    /// Reads into `buf` and returns how many bytes now stand at its start.
    pub fn read(&mut self, buf: &mut [u8]) -> (result: Result<usize, AdapterError>)
        requires
            old(self)@.wf(),
        ensures
            final(self)@.wf(),
            final(buf)@.len() == old(buf)@.len(),
            result matches Ok(n) ==> n <= old(buf)@.len(),
            Self::read_spec(old(self)@, old(buf)@, result, final(self)@, final(buf)@),
    {
        self.input.read(&mut self.file, buf)
    }

    /// How a write relates the stream before the call to the result and the
    /// stream after it: it is a write through the write buffer, and the read
    /// buffer is neither consulted nor changed.
    pub open spec fn write_spec(
        pre: BufReadWriteView<F>,
        bytes: Seq<u8>,
        result: Result<usize, AdapterError>,
        post: BufReadWriteView<F>,
    ) -> bool {
        &&& post.input == pre.input
        &&& WriteBuffer::write_spec(pre.output, pre.file, bytes, result, post.output, post.file)
    }

    /// Writes from `buf` and returns how many of its bytes were taken.
    pub fn write(&mut self, buf: &[u8]) -> (result: Result<usize, AdapterError>)
        requires
            old(self)@.wf(),
        ensures
            final(self)@.wf(),
            result matches Ok(n) ==> n <= buf@.len(),
            Self::write_spec(old(self)@, buf@, result, final(self)@),
    {
        self.output.write(&mut self.file, buf)
    }

    /// How a flush relates the stream before the call to the result and the
    /// stream after it: it is a flush of the write buffer, and the read
    /// buffer is neither consulted nor changed.
    pub open spec fn flush_spec(
        pre: BufReadWriteView<F>,
        result: Result<(), AdapterError>,
        post: BufReadWriteView<F>,
    ) -> bool {
        &&& post.input == pre.input
        &&& WriteBuffer::flush_spec(pre.output, pre.file, result, post.output, post.file)
    }

    /// Hands the waiting bytes on and asks the foreign object to flush.
    pub fn flush(&mut self) -> (result: Result<(), AdapterError>)
        requires
            old(self)@.wf(),
        ensures
            final(self)@.wf(),
            Self::flush_spec(old(self)@, result, final(self)@),
    {
        self.output.flush(&mut self.file)
    }

    /// How a seek relates the stream before the call to the result and the
    /// stream after it.
    ///
    /// The write side seeks first, by the request as it was given: that
    /// hands its waiting bytes on and yields the absolute position. The read
    /// side then seeks to that position from the start, whatever the origin
    /// of the request was, so that a relative offset is applied once. Where
    /// the write side fails the read side is left as it was.
    pub open spec fn seek_spec(
        pre: BufReadWriteView<F>,
        request: SeekRequest,
        result: Result<u64, AdapterError>,
        post: BufReadWriteView<F>,
    ) -> bool {
        exists|moved: Result<u64, AdapterError>, mid_file: PyFileObject<F>|
            {
                &&& #[trigger] WriteBuffer::seek_spec(
                    pre.output,
                    pre.file,
                    request,
                    moved,
                    post.output,
                    mid_file,
                )
                &&& match moved {
                    Ok(position) => ReadBuffer::seek_spec(
                        pre.input,
                        mid_file,
                        SeekRequest::FromStart(position),
                        result,
                        post.input,
                        post.file,
                    ),
                    Err(error) => {
                        &&& post.file == mid_file
                        &&& post.input == pre.input
                        &&& result == Err::<u64, AdapterError>(error)
                    },
                }
            }
    }

    /// Moves the one foreign cursor, and both buffers with it, and returns
    /// the absolute position reached.
    pub fn seek(&mut self, pos: SeekRequest) -> (result: Result<u64, AdapterError>)
        requires
            old(self)@.wf(),
        ensures
            final(self)@.wf(),
            Self::seek_spec(old(self)@, pos, result, final(self)@),
            result is Ok ==> final(self)@.is_synced(),
    {
        let moved = self.output.seek(&mut self.file, pos);
        let ghost mid_file = self.file;
        assert(WriteBuffer::seek_spec(
            old(self)@.output,
            old(self)@.file,
            pos,
            moved,
            self@.output,
            mid_file,
        ));
        match moved {
            Ok(position) => self.input.seek(&mut self.file, SeekRequest::FromStart(position)),
            Err(error) => Err(error),
        }
    }
}

} // verus!
