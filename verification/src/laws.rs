//! Laws of the adapters.
//!
//! An adapter promises of an arbitrary foreign object only what that object's
//! own answers allow; [`lemma_seek_resolves_once`] is a law of that kind.
//! Over a [`MemoryFile`], whose answers are known, the operations are
//! determined, and the other laws follow.

use vstd::prelude::*;
use crate::adapters::{
    AccessMode, BufReadWritePyFileObject, BufReadWriteView, Capabilities, PyFileObject, Rejected,
};
use crate::buffered::{drains, with_prefix, ReadBuffer, WriteBuffer};
use crate::error::{AdapterError, Method, Operation};
use crate::foreign::{ForeignFile, ReplyView, Whence};
use crate::memory::{FileModel, MemoryFile};
use crate::replies::{shorter, spec_seek_position};
use crate::seek::{spec_seek_args, SeekRequest};

verus! {

/// Whatever the foreign object: a seek through a stream whose write buffer is
/// empty reaches the object at most twice. The first foreign seek carries the
/// request as it was given. Only if that yields a position is there a second,
/// and it carries that position, measured from the start: an offset relative
/// to the current position or to the end is never applied a second time.
pub proof fn lemma_seek_resolves_once<F: ForeignFile>(
    pre: BufReadWriteView<F>,
    request: SeekRequest,
    result: Result<u64, AdapterError>,
    post: BufReadWriteView<F>,
)
    requires
        pre.output.pending.len() == 0,
        pre.file.bindings.seek,
        BufReadWritePyFileObject::<F>::seek_spec(pre, request, result, post),
    ensures
        exists|first: ReplyView, mid: F|
            {
                &&& #[trigger] pre.file.file.seek_answers(
                    spec_seek_args(request).0,
                    spec_seek_args(request).1,
                    first,
                    mid,
                )
                &&& match spec_seek_position(first) {
                    Ok(position) => exists|second: ReplyView|
                        {
                            &&& #[trigger] mid.seek_answers(
                                position as i128,
                                Whence::Start,
                                second,
                                post.file.file,
                            )
                            &&& result == spec_seek_position(second)
                        },
                    Err(error) => {
                        &&& post.file.file == mid
                        &&& result == Err::<u64, AdapterError>(error)
                    },
                }
            },
{
    let (moved, mid_file) = choose|moved: Result<u64, AdapterError>, mid_file: PyFileObject<F>|
        {
            &&& #[trigger] WriteBuffer::seek_spec(
                pre.output,
                pre.file,
                request,
                moved,
                post.output,
                mid_file,
            )
            &&& match moved {
                Ok(position) => ReadBuffer::seek_spec(
                    pre.input,
                    mid_file,
                    SeekRequest::FromStart(position),
                    result,
                    post.input,
                    post.file,
                ),
                Err(error) => {
                    &&& post.file == mid_file
                    &&& post.input == pre.input
                    &&& result == Err::<u64, AdapterError>(error)
                },
            }
        };
    let (flushed, drained_file, left) = choose|
        flushed: Result<(), AdapterError>,
        drained_file: PyFileObject<F>,
        left: Seq<u8>,
    |
        {
            &&& #[trigger] drains(pre.file, pre.output.pending, flushed, drained_file, left)
            &&& post.output == pre.output.holding(left)
            &&& match flushed {
                Ok(_) => PyFileObject::seek_spec(drained_file, request, moved, mid_file),
                Err(error) => {
                    &&& mid_file == drained_file
                    &&& moved == Err::<u64, AdapterError>(error)
                },
            }
        };
    let first = choose|first: ReplyView|
        {
            &&& #[trigger] pre.file.file.seek_answers(
                spec_seek_args(request).0,
                spec_seek_args(request).1,
                first,
                mid_file.file,
            )
            &&& moved == spec_seek_position(first)
        };
    match moved {
        Ok(position) => {
            let second = choose|second: ReplyView|
                {
                    &&& #[trigger] mid_file.file.seek_answers(
                        position as i128,
                        Whence::Start,
                        second,
                        post.file.file,
                    )
                    &&& result == spec_seek_position(second)
                };
        },
        Err(_) => {},
    }
}

/// Whether the adapter holds exactly the bindings that its file exposes, as
/// an adapter does that [`PyFileObject::new`] built.
pub open spec fn bound(adapter: PyFileObject<MemoryFile>) -> bool {
    adapter.bindings == adapter.file@.methods
}

/// Building an adapter over a file in memory succeeds exactly when the file
/// exposes every method that the mode needs. Then the adapter is bound to
/// what the file exposes. Otherwise the file comes back as it was, with the
/// name of the first method that is needed and not exposed: a file without
/// `write` is refused for writing with that name, whatever else it exposes.
pub proof fn lemma_new_in_memory(
    file: MemoryFile,
    mode: AccessMode,
    result: Result<PyFileObject<MemoryFile>, Rejected<MemoryFile>>,
)
    requires
        PyFileObject::new_spec(file, mode, result),
    ensures
        match file@.methods.missing_for(mode) {
            None => {
                &&& result matches Ok(adapter)
                &&& adapter.file == file
                &&& bound(adapter)
            },
            Some(method) => {
                &&& result matches Err(rejected)
                &&& rejected.file == file
                &&& rejected.error == (AdapterError::MissingCapability { method })
            },
        },
        mode == AccessMode::Write && !file@.methods.write ==> {
            &&& result matches Err(rejected)
            &&& rejected.error == (AdapterError::MissingCapability { method: Method::Write })
        },
{
    let found = choose|found: Capabilities|
        {
            &&& #[trigger] found.found_on(file)
            &&& match found.missing_for(mode) {
                None => {
                    &&& result matches Ok(adapter)
                    &&& adapter.file == file
                    &&& adapter.bindings == found
                },
                Some(method) => {
                    &&& result matches Err(rejected)
                    &&& rejected.file == file
                    &&& rejected.error == (AdapterError::MissingCapability { method })
                },
            }
        };
}

/// A write through an adapter over a file in memory takes all the bytes or
/// fails, and leaves the file as the model says.
pub proof fn lemma_write_in_memory(
    pre: PyFileObject<MemoryFile>,
    bytes: Seq<u8>,
    result: Result<usize, AdapterError>,
    post: PyFileObject<MemoryFile>,
)
    requires
        bound(pre),
        pre.bindings.write,
        PyFileObject::write_spec(pre, bytes, result, post),
    ensures
        bound(post),
        post.file@ == pre.file@.written(bytes),
        result == if pre.file@.takes(bytes) {
            Ok::<usize, AdapterError>(bytes.len() as usize)
        } else {
            Err::<usize, AdapterError>(AdapterError::ForeignCallFailed { op: Operation::Write })
        },
{
}

/// A flush through an adapter over a file in memory succeeds and changes
/// nothing.
pub proof fn lemma_flush_in_memory(
    pre: PyFileObject<MemoryFile>,
    result: Result<(), AdapterError>,
    post: PyFileObject<MemoryFile>,
)
    requires
        bound(pre),
        pre.bindings.flush,
        PyFileObject::flush_spec(pre, result, post),
    ensures
        bound(post),
        post.file@ == pre.file@,
        result == Ok::<(), AdapterError>(()),
{
}

/// A seek through an adapter over a file in memory reaches its target and
/// reports it, or fails and leaves the cursor where it was.
pub proof fn lemma_seek_in_memory(
    pre: PyFileObject<MemoryFile>,
    request: SeekRequest,
    result: Result<u64, AdapterError>,
    post: PyFileObject<MemoryFile>,
)
    requires
        bound(pre),
        pre.bindings.seek,
        PyFileObject::seek_spec(pre, request, result, post),
    ensures
        bound(post),
        post.file@ == pre.file@.sought(
            spec_seek_args(request).0 as int,
            spec_seek_args(request).1,
        ),
        result == if pre.file@.reaches(
            spec_seek_args(request).0 as int,
            spec_seek_args(request).1,
        ) {
            Ok::<u64, AdapterError>(
                pre.file@.target(spec_seek_args(request).0 as int, spec_seek_args(request).1) as u64,
            )
        } else {
            Err::<u64, AdapterError>(AdapterError::ForeignCallFailed { op: Operation::Seek })
        },
{
}

/// A read through an adapter over a file in memory, by either path, puts the
/// bytes at the cursor at the start of the destination, reports how many
/// they are, and moves the cursor behind them.
pub proof fn lemma_read_in_memory(
    pre: PyFileObject<MemoryFile>,
    buf: Seq<u8>,
    result: Result<usize, AdapterError>,
    post: PyFileObject<MemoryFile>,
    filled: Seq<u8>,
)
    requires
        pre.bindings.readinto ==> pre.file@.methods.readinto,
        !pre.bindings.readinto ==> pre.bindings.read && pre.file@.methods.read,
        buf.len() <= usize::MAX,
        PyFileObject::read_spec(pre, buf, result, post, filled),
    ensures
        post.bindings == pre.bindings,
        post.file@ == pre.file@.advanced(pre.file@.readable(buf.len()).len()),
        result == Ok::<usize, AdapterError>(pre.file@.readable(buf.len()).len() as usize),
        filled == pre.file@.readable(buf.len()) + buf.subrange(
            pre.file@.readable(buf.len()).len() as int,
            buf.len() as int,
        ),
{
}

/// Round trip through an adapter: bytes that are written at the cursor and
/// flushed are read back unchanged after a seek to where the cursor was, by
/// whichever path the adapter reads.
pub proof fn lemma_round_trip(
    start: PyFileObject<MemoryFile>,
    bytes: Seq<u8>,
    wrote: Result<usize, AdapterError>,
    after_write: PyFileObject<MemoryFile>,
    flushed: Result<(), AdapterError>,
    after_flush: PyFileObject<MemoryFile>,
    moved: Result<u64, AdapterError>,
    after_seek: PyFileObject<MemoryFile>,
    buf: Seq<u8>,
    read: Result<usize, AdapterError>,
    after_read: PyFileObject<MemoryFile>,
    filled: Seq<u8>,
)
    requires
        bound(start),
        start.bindings.write,
        start.bindings.flush,
        start.bindings.seek,
        start.bindings.read,
        start.file@.cursor + bytes.len() <= usize::MAX,
        buf.len() == bytes.len(),
        PyFileObject::write_spec(start, bytes, wrote, after_write),
        PyFileObject::flush_spec(after_write, flushed, after_flush),
        PyFileObject::seek_spec(
            after_flush,
            SeekRequest::FromStart(start.file@.cursor as u64),
            moved,
            after_seek,
        ),
        PyFileObject::read_spec(after_seek, buf, read, after_read, filled),
    ensures
        wrote == Ok::<usize, AdapterError>(bytes.len() as usize),
        flushed == Ok::<(), AdapterError>(()),
        moved == Ok::<u64, AdapterError>(start.file@.cursor as u64),
        read == Ok::<usize, AdapterError>(bytes.len() as usize),
        filled == bytes,
{
    lemma_write_in_memory(start, bytes, wrote, after_write);
    lemma_flush_in_memory(after_write, flushed, after_flush);
    lemma_seek_in_memory(
        after_flush,
        SeekRequest::FromStart(start.file@.cursor as u64),
        moved,
        after_seek,
    );
    lemma_read_in_memory(after_seek, buf, read, after_read, filled);
}

/// The bulk path and the plain path agree: on the same file in memory, with
/// destinations of the same content, a read through `readinto` and a read
/// through `read` report the same count, leave the same bytes in the
/// destination, and leave the same content with the cursor at the same place.
pub proof fn lemma_zero_copy_equivalence(
    bulk: PyFileObject<MemoryFile>,
    plain: PyFileObject<MemoryFile>,
    buf: Seq<u8>,
    bulk_result: Result<usize, AdapterError>,
    bulk_after: PyFileObject<MemoryFile>,
    bulk_filled: Seq<u8>,
    plain_result: Result<usize, AdapterError>,
    plain_after: PyFileObject<MemoryFile>,
    plain_filled: Seq<u8>,
)
    requires
        bulk.file@ == plain.file@,
        bulk.file@.methods.readinto,
        bulk.file@.methods.read,
        bulk.bindings.readinto,
        !plain.bindings.readinto,
        plain.bindings.read,
        buf.len() <= usize::MAX,
        PyFileObject::read_spec(bulk, buf, bulk_result, bulk_after, bulk_filled),
        PyFileObject::read_spec(plain, buf, plain_result, plain_after, plain_filled),
    ensures
        bulk_result == plain_result,
        bulk_result is Ok,
        bulk_filled == plain_filled,
        bulk_after.file@ == plain_after.file@,
{
    lemma_read_in_memory(bulk, buf, bulk_result, bulk_after, bulk_filled);
    lemma_read_in_memory(plain, buf, plain_result, plain_after, plain_filled);
}

/// A seek to a position from the start, made twice in a row through an
/// adapter, reports that position both times, and the second seek changes
/// neither the content nor the cursor.
pub proof fn lemma_seek_idempotent(
    start: PyFileObject<MemoryFile>,
    position: u64,
    first: Result<u64, AdapterError>,
    after_first: PyFileObject<MemoryFile>,
    second: Result<u64, AdapterError>,
    after_second: PyFileObject<MemoryFile>,
)
    requires
        bound(start),
        start.bindings.seek,
        position <= usize::MAX,
        PyFileObject::seek_spec(start, SeekRequest::FromStart(position), first, after_first),
        PyFileObject::seek_spec(
            after_first,
            SeekRequest::FromStart(position),
            second,
            after_second,
        ),
    ensures
        first == Ok::<u64, AdapterError>(position),
        second == Ok::<u64, AdapterError>(position),
        after_first.file@.cursor == position,
        after_first.file@.content == start.file@.content,
        after_second.file@ == after_first.file@,
{
    lemma_seek_in_memory(start, SeekRequest::FromStart(position), first, after_first);
    lemma_seek_in_memory(after_first, SeekRequest::FromStart(position), second, after_second);
}

/// Two writes in a row leave a file as one write of both pieces does.
pub proof fn lemma_written_twice(file: FileModel, first: Seq<u8>, second: Seq<u8>)
    requires
        file.methods.write,
        file.cursor + first.len() + second.len() <= usize::MAX,
    ensures
        file.written(first).written(second) == file.written(first + second),
{
    if first.len() > 0 && second.len() > 0 {
        assert(file.written(first).overwritten(second) =~= file.overwritten(first + second));
    }
}

/// Over a file in memory the waiting bytes are handed on in one write: none
/// is left, and the file is as after a write of all of them.
pub proof fn lemma_drains_in_memory(
    pre_file: PyFileObject<MemoryFile>,
    pending: Seq<u8>,
    result: Result<(), AdapterError>,
    post_file: PyFileObject<MemoryFile>,
    left: Seq<u8>,
)
    requires
        bound(pre_file),
        pre_file.bindings.write,
        pre_file.file@.cursor + pending.len() <= usize::MAX,
        drains(pre_file, pending, result, post_file, left),
    ensures
        bound(post_file),
        post_file.bindings == pre_file.bindings,
        post_file.file@ == pre_file.file@.written(pending),
        result == Ok::<(), AdapterError>(()),
        left.len() == 0,
    decreases pending.len(),
{
    if pending.len() > 0 {
        let (taken, mid_file) = choose|
            taken: Result<usize, AdapterError>,
            mid_file: PyFileObject<MemoryFile>,
        |
            {
                &&& #[trigger] PyFileObject::write_spec(pre_file, pending, taken, mid_file)
                &&& match taken {
                    Ok(n) => if 0 < n <= pending.len() {
                        drains(mid_file, pending.skip(n as int), result, post_file, left)
                    } else {
                        &&& result == Err::<(), AdapterError>(
                            AdapterError::ForeignCallFailed { op: Operation::Write },
                        )
                        &&& post_file == mid_file
                        &&& left == pending
                    },
                    Err(error) => {
                        &&& result == Err::<(), AdapterError>(error)
                        &&& post_file == mid_file
                        &&& left == pending
                    },
                }
            };
        lemma_write_in_memory(pre_file, pending, taken, mid_file);
        let rest = pending.skip(pending.len() as int);
        lemma_drains_in_memory(mid_file, rest, result, post_file, left);
    }
}

/// The file that a stream over a file in memory stands for: the foreign file
/// as it will be once the bytes that wait in the write buffer are handed on.
pub open spec fn logical(stream: BufReadWriteView<MemoryFile>) -> FileModel {
    stream.file.file@.written(stream.output.pending)
}

/// Whether a stream over a file in memory is in a state that writes, flushes
/// and seeks keep it in: the adapter is bound to what the file exposes, which
/// includes reading, writing, flushing and seeking; nothing fetched waits in
/// the read buffer; and the waiting bytes end at an address.
pub open spec fn coherent(stream: BufReadWriteView<MemoryFile>) -> bool {
    &&& stream.wf()
    &&& bound(stream.file)
    &&& stream.file.bindings.read
    &&& stream.file.bindings.write
    &&& stream.file.bindings.flush
    &&& stream.file.bindings.seek
    &&& stream.input.pos == stream.input.filled
    &&& stream.file.file@.cursor + stream.output.pending.len() <= usize::MAX
}

/// A write through the stream takes all the bytes and leaves the file that
/// the stream stands for as a write straight to that file would, whether the
/// bytes went into the buffer or to the foreign object.
pub proof fn lemma_stream_write(
    pre: BufReadWriteView<MemoryFile>,
    bytes: Seq<u8>,
    result: Result<usize, AdapterError>,
    post: BufReadWriteView<MemoryFile>,
)
    requires
        coherent(pre),
        logical(pre).cursor + bytes.len() <= usize::MAX,
        BufReadWritePyFileObject::write_spec(pre, bytes, result, post),
    ensures
        coherent(post),
        result == Ok::<usize, AdapterError>(bytes.len() as usize),
        logical(post) == logical(pre).written(bytes),
{
    let file = pre.file.file@;
    let pending = pre.output.pending;
    if bytes.len() <= pre.output.spare() {
        if bytes.len() < pre.output.capacity {
            lemma_written_twice(file, pending, bytes);
        } else {
            lemma_write_in_memory(pre.file, bytes, result, post.file);
        }
    } else {
        let (flushed, mid_file, left) = choose|
            flushed: Result<(), AdapterError>,
            mid_file: PyFileObject<MemoryFile>,
            left: Seq<u8>,
        |
            {
                &&& #[trigger] drains(pre.file, pending, flushed, mid_file, left)
                &&& match flushed {
                    Ok(_) => if bytes.len() < pre.output.capacity {
                        &&& post.file == mid_file
                        &&& post.output == pre.output.holding(left + bytes)
                        &&& result == Ok::<usize, AdapterError>(bytes.len() as usize)
                    } else {
                        &&& post.output == pre.output.holding(left)
                        &&& PyFileObject::write_spec(mid_file, bytes, result, post.file)
                    },
                    Err(error) => {
                        &&& post.file == mid_file
                        &&& post.output == pre.output.holding(left)
                        &&& result == Err::<usize, AdapterError>(error)
                    },
                }
            };
        lemma_drains_in_memory(pre.file, pending, flushed, mid_file, left);
        if bytes.len() >= pre.output.capacity {
            lemma_write_in_memory(mid_file, bytes, result, post.file);
        }
    }
}

/// A flush through the stream succeeds, empties the write buffer, and leaves
/// the file that the stream stands for as it was: what was only promised is
/// now in the foreign file.
pub proof fn lemma_stream_flush(
    pre: BufReadWriteView<MemoryFile>,
    result: Result<(), AdapterError>,
    post: BufReadWriteView<MemoryFile>,
)
    requires
        coherent(pre),
        BufReadWritePyFileObject::flush_spec(pre, result, post),
    ensures
        coherent(post),
        result == Ok::<(), AdapterError>(()),
        post.output.pending.len() == 0,
        post.file.file@ == logical(pre),
        logical(post) == logical(pre),
{
    let (flushed, mid_file, left) = choose|
        flushed: Result<(), AdapterError>,
        mid_file: PyFileObject<MemoryFile>,
        left: Seq<u8>,
    |
        {
            &&& #[trigger] drains(pre.file, pre.output.pending, flushed, mid_file, left)
            &&& post.output == pre.output.holding(left)
            &&& match flushed {
                Ok(_) => PyFileObject::flush_spec(mid_file, result, post.file),
                Err(error) => {
                    &&& post.file == mid_file
                    &&& result == Err::<(), AdapterError>(error)
                },
            }
        };
    lemma_drains_in_memory(pre.file, pre.output.pending, flushed, mid_file, left);
    lemma_flush_in_memory(mid_file, result, post.file);
}

/// A seek through the stream moves the cursor of the file that the stream
/// stands for as a seek straight on that file would, once, and reports where
/// it stands. After it the write buffer is empty, and where the seek
/// succeeded so is the read buffer, and the foreign file is that file.
pub proof fn lemma_stream_seek(
    pre: BufReadWriteView<MemoryFile>,
    request: SeekRequest,
    result: Result<u64, AdapterError>,
    post: BufReadWriteView<MemoryFile>,
)
    requires
        coherent(pre),
        BufReadWritePyFileObject::seek_spec(pre, request, result, post),
    ensures
        coherent(post),
        post.output.pending.len() == 0,
        post.file.file@ == logical(post),
        logical(post) == logical(pre).sought(
            spec_seek_args(request).0 as int,
            spec_seek_args(request).1,
        ),
        result == if logical(pre).reaches(
            spec_seek_args(request).0 as int,
            spec_seek_args(request).1,
        ) {
            Ok::<u64, AdapterError>(logical(post).cursor as u64)
        } else {
            Err::<u64, AdapterError>(AdapterError::ForeignCallFailed { op: Operation::Seek })
        },
        result is Ok ==> post.is_synced(),
{
    let (moved, mid_file) = choose|moved: Result<u64, AdapterError>, mid_file: PyFileObject<MemoryFile>|
        {
            &&& #[trigger] WriteBuffer::seek_spec(
                pre.output,
                pre.file,
                request,
                moved,
                post.output,
                mid_file,
            )
            &&& match moved {
                Ok(position) => ReadBuffer::seek_spec(
                    pre.input,
                    mid_file,
                    SeekRequest::FromStart(position),
                    result,
                    post.input,
                    post.file,
                ),
                Err(error) => {
                    &&& post.file == mid_file
                    &&& post.input == pre.input
                    &&& result == Err::<u64, AdapterError>(error)
                },
            }
        };
    let (flushed, drained_file, left) = choose|
        flushed: Result<(), AdapterError>,
        drained_file: PyFileObject<MemoryFile>,
        left: Seq<u8>,
    |
        {
            &&& #[trigger] drains(pre.file, pre.output.pending, flushed, drained_file, left)
            &&& post.output == pre.output.holding(left)
            &&& match flushed {
                Ok(_) => PyFileObject::seek_spec(drained_file, request, moved, mid_file),
                Err(error) => {
                    &&& mid_file == drained_file
                    &&& moved == Err::<u64, AdapterError>(error)
                },
            }
        };
    lemma_drains_in_memory(pre.file, pre.output.pending, flushed, drained_file, left);
    lemma_seek_in_memory(drained_file, request, moved, mid_file);
    match moved {
        Ok(position) => {
            lemma_seek_in_memory(mid_file, SeekRequest::FromStart(position), result, post.file);
        },
        Err(_) => {},
    }
}

/// A read through a stream whose buffers are both empty puts the bytes at the
/// foreign cursor at the start of the destination and reports how many they
/// are, whether the destination was filled directly or from a fetched block.
pub proof fn lemma_stream_read(
    pre: BufReadWriteView<MemoryFile>,
    buf: Seq<u8>,
    result: Result<usize, AdapterError>,
    post: BufReadWriteView<MemoryFile>,
    filled: Seq<u8>,
)
    requires
        coherent(pre),
        pre.is_synced(),
        buf.len() <= usize::MAX,
        BufReadWritePyFileObject::read_spec(pre, buf, result, post, filled),
    ensures
        result == Ok::<usize, AdapterError>(pre.file.file@.readable(buf.len()).len() as usize),
        filled == pre.file.file@.readable(buf.len()) + buf.subrange(
            pre.file.file@.readable(buf.len()).len() as int,
            buf.len() as int,
        ),
{
    if buf.len() >= pre.input.capacity() {
        lemma_read_in_memory(pre.file, buf, result, post.file, filled);
    } else {
        let fetched = choose|fetched: Result<usize, AdapterError>|
            {
                &&& #[trigger] PyFileObject::read_spec(
                    pre.file,
                    pre.input.storage,
                    fetched,
                    post.file,
                    post.input.storage,
                )
                &&& match fetched {
                    Ok(got) => {
                        let n: nat = shorter(got as nat, buf.len());
                        &&& post.input.pos == n
                        &&& post.input.filled == got
                        &&& result == Ok::<usize, AdapterError>(n as usize)
                        &&& filled == with_prefix(buf, post.input.storage, n)
                    },
                    Err(error) => {
                        &&& post.input.pos == pre.input.pos
                        &&& post.input.filled == pre.input.filled
                        &&& result == Err::<usize, AdapterError>(error)
                        &&& filled == buf
                    },
                }
            };
        lemma_read_in_memory(pre.file, pre.input.storage, fetched, post.file, post.input.storage);
    }
}

/// An operation that changes a stream.
pub enum StreamOp {
    Write(Seq<u8>),
    Flush,
    Seek(SeekRequest),
}

/// Whether `op`, carried out on the stream `pre`, can leave it as `post`.
pub open spec fn performs(
    pre: BufReadWriteView<MemoryFile>,
    op: StreamOp,
    post: BufReadWriteView<MemoryFile>,
) -> bool {
    match op {
        StreamOp::Write(bytes) => exists|result: Result<usize, AdapterError>| #[trigger]
            BufReadWritePyFileObject::write_spec(pre, bytes, result, post),
        StreamOp::Flush => exists|result: Result<(), AdapterError>| #[trigger]
            BufReadWritePyFileObject::flush_spec(pre, result, post),
        StreamOp::Seek(request) => exists|result: Result<u64, AdapterError>| #[trigger]
            BufReadWritePyFileObject::seek_spec(pre, request, result, post),
    }
}

/// Whether `ops`, carried out in order on the stream `pre`, can leave it as
/// `post`.
pub open spec fn runs(
    pre: BufReadWriteView<MemoryFile>,
    ops: Seq<StreamOp>,
    post: BufReadWriteView<MemoryFile>,
) -> bool
    decreases ops.len(),
{
    if ops.len() == 0 {
        post == pre
    } else {
        exists|mid: BufReadWriteView<MemoryFile>| #[trigger]
            performs(pre, ops[0], mid) && runs(mid, ops.skip(1), post)
    }
}

/// The file after `op` is carried out on it directly, with no buffer between.
pub open spec fn apply(file: FileModel, op: StreamOp) -> FileModel {
    match op {
        StreamOp::Write(bytes) => file.written(bytes),
        StreamOp::Flush => file,
        StreamOp::Seek(request) => file.sought(
            spec_seek_args(request).0 as int,
            spec_seek_args(request).1,
        ),
    }
}

/// The file after `ops` are carried out on it directly, in order.
pub open spec fn replay(file: FileModel, ops: Seq<StreamOp>) -> FileModel
    decreases ops.len(),
{
    if ops.len() == 0 {
        file
    } else {
        replay(apply(file, ops[0]), ops.skip(1))
    }
}

/// Whether every write among `ops`, carried out in order on `file`, ends at
/// an address.
pub open spec fn addressable(file: FileModel, ops: Seq<StreamOp>) -> bool
    decreases ops.len(),
{
    if ops.len() == 0 {
        true
    } else {
        &&& ops[0] matches StreamOp::Write(bytes) ==> file.cursor + bytes.len() <= usize::MAX
        &&& addressable(apply(file, ops[0]), ops.skip(1))
    }
}

/// One operation on the stream does to the file that the stream stands for
/// what the operation does to a file directly.
pub proof fn lemma_stream_step(
    pre: BufReadWriteView<MemoryFile>,
    op: StreamOp,
    post: BufReadWriteView<MemoryFile>,
)
    requires
        coherent(pre),
        op matches StreamOp::Write(bytes) ==> logical(pre).cursor + bytes.len() <= usize::MAX,
        performs(pre, op, post),
    ensures
        coherent(post),
        logical(post) == apply(logical(pre), op),
{
    match op {
        StreamOp::Write(bytes) => {
            let result = choose|result: Result<usize, AdapterError>| #[trigger]
                BufReadWritePyFileObject::write_spec(pre, bytes, result, post);
            lemma_stream_write(pre, bytes, result, post);
        },
        StreamOp::Flush => {
            let result = choose|result: Result<(), AdapterError>| #[trigger]
                BufReadWritePyFileObject::flush_spec(pre, result, post);
            lemma_stream_flush(pre, result, post);
        },
        StreamOp::Seek(request) => {
            let result = choose|result: Result<u64, AdapterError>| #[trigger]
                BufReadWritePyFileObject::seek_spec(pre, request, result, post);
            lemma_stream_seek(pre, request, result, post);
        },
    }
}

/// Any sequence of writes, flushes and seeks on the stream does to the file
/// that the stream stands for what the same sequence does to a file directly:
/// the buffers change when bytes reach the foreign object, never which bytes
/// or where.
pub proof fn lemma_stream_follows_file(
    pre: BufReadWriteView<MemoryFile>,
    ops: Seq<StreamOp>,
    post: BufReadWriteView<MemoryFile>,
)
    requires
        coherent(pre),
        addressable(logical(pre), ops),
        runs(pre, ops, post),
    ensures
        coherent(post),
        logical(post) == replay(logical(pre), ops),
    decreases ops.len(),
{
    if ops.len() > 0 {
        let mid = choose|mid: BufReadWriteView<MemoryFile>| #[trigger]
            performs(pre, ops[0], mid) && runs(mid, ops.skip(1), post);
        lemma_stream_step(pre, ops[0], mid);
        lemma_stream_follows_file(mid, ops.skip(1), post);
    }
}

/// The position law: after any sequence of writes, flushes and seeks, a seek
/// that succeeds reports the position it reached in the file that the
/// sequence describes, and a read that follows it returns the bytes of that
/// file from that position on, as many as the destination holds or as are
/// left: what was last written there, or what the file held before, and
/// nothing that a buffer held from another position.
pub proof fn lemma_read_after_seek(
    start: BufReadWriteView<MemoryFile>,
    ops: Seq<StreamOp>,
    before_seek: BufReadWriteView<MemoryFile>,
    request: SeekRequest,
    position: u64,
    after_seek: BufReadWriteView<MemoryFile>,
    buf: Seq<u8>,
    read: Result<usize, AdapterError>,
    after_read: BufReadWriteView<MemoryFile>,
    filled: Seq<u8>,
)
    requires
        coherent(start),
        addressable(logical(start), ops),
        runs(start, ops, before_seek),
        BufReadWritePyFileObject::seek_spec(
            before_seek,
            request,
            Ok::<u64, AdapterError>(position),
            after_seek,
        ),
        buf.len() <= usize::MAX,
        BufReadWritePyFileObject::read_spec(after_seek, buf, read, after_read, filled),
    ensures
        position == replay(logical(start), ops).target(
            spec_seek_args(request).0 as int,
            spec_seek_args(request).1,
        ),
        read == Ok::<usize, AdapterError>(
            replay(logical(start), ops).at(position as nat).readable(buf.len()).len() as usize,
        ),
        filled.subrange(
            0,
            replay(logical(start), ops).at(position as nat).readable(buf.len()).len() as int,
        ) == replay(logical(start), ops).at(position as nat).readable(buf.len()),
{
    lemma_stream_follows_file(start, ops, before_seek);
    lemma_stream_seek(before_seek, request, Ok::<u64, AdapterError>(position), after_seek);
    lemma_stream_read(after_seek, buf, read, after_read, filled);
}

/// A seek relative to the current position moves the cursor by the offset
/// once: although both buffers seek, the cursor ends the offset away from
/// where the stream stood, and that position is reported.
pub proof fn lemma_relative_seek_moves_once(
    pre: BufReadWriteView<MemoryFile>,
    offset: i64,
    result: Result<u64, AdapterError>,
    post: BufReadWriteView<MemoryFile>,
)
    requires
        coherent(pre),
        0 <= logical(pre).cursor + offset <= usize::MAX,
        BufReadWritePyFileObject::seek_spec(pre, SeekRequest::FromCurrent(offset), result, post),
    ensures
        result == Ok::<u64, AdapterError>((logical(pre).cursor + offset) as u64),
        post.file.file@.cursor == logical(pre).cursor + offset,
        post.file.file@.content == logical(pre).content,
        post.is_synced(),
{
    lemma_stream_seek(pre, SeekRequest::FromCurrent(offset), result, post);
}

/// A seek to a position from the start, made twice in a row through the
/// stream, reports that position both times. The second seek changes neither
/// the content nor the cursor, and both buffers are empty after either.
pub proof fn lemma_stream_seek_idempotent(
    start: BufReadWriteView<MemoryFile>,
    position: u64,
    first: Result<u64, AdapterError>,
    after_first: BufReadWriteView<MemoryFile>,
    second: Result<u64, AdapterError>,
    after_second: BufReadWriteView<MemoryFile>,
)
    requires
        coherent(start),
        position <= usize::MAX,
        BufReadWritePyFileObject::seek_spec(
            start,
            SeekRequest::FromStart(position),
            first,
            after_first,
        ),
        BufReadWritePyFileObject::seek_spec(
            after_first,
            SeekRequest::FromStart(position),
            second,
            after_second,
        ),
    ensures
        first == Ok::<u64, AdapterError>(position),
        second == Ok::<u64, AdapterError>(position),
        after_first.file.file@.cursor == position,
        after_first.file.file@.content == logical(start).content,
        after_second.file.file@ == after_first.file.file@,
        after_first.is_synced(),
        after_second.is_synced(),
{
    lemma_stream_seek(start, SeekRequest::FromStart(position), first, after_first);
    lemma_stream_seek(after_first, SeekRequest::FromStart(position), second, after_second);
}

/// Round trip through the stream: bytes that are written and flushed are
/// read back unchanged after a seek to where the stream stood before the
/// write.
pub proof fn lemma_stream_round_trip(
    start: BufReadWriteView<MemoryFile>,
    bytes: Seq<u8>,
    wrote: Result<usize, AdapterError>,
    after_write: BufReadWriteView<MemoryFile>,
    flushed: Result<(), AdapterError>,
    after_flush: BufReadWriteView<MemoryFile>,
    moved: Result<u64, AdapterError>,
    after_seek: BufReadWriteView<MemoryFile>,
    buf: Seq<u8>,
    read: Result<usize, AdapterError>,
    after_read: BufReadWriteView<MemoryFile>,
    filled: Seq<u8>,
)
    requires
        coherent(start),
        logical(start).cursor + bytes.len() <= usize::MAX,
        buf.len() == bytes.len(),
        BufReadWritePyFileObject::write_spec(start, bytes, wrote, after_write),
        BufReadWritePyFileObject::flush_spec(after_write, flushed, after_flush),
        BufReadWritePyFileObject::seek_spec(
            after_flush,
            SeekRequest::FromStart(logical(start).cursor as u64),
            moved,
            after_seek,
        ),
        BufReadWritePyFileObject::read_spec(after_seek, buf, read, after_read, filled),
    ensures
        wrote == Ok::<usize, AdapterError>(bytes.len() as usize),
        flushed == Ok::<(), AdapterError>(()),
        moved == Ok::<u64, AdapterError>(logical(start).cursor as u64),
        read == Ok::<usize, AdapterError>(bytes.len() as usize),
        filled == bytes,
{
    lemma_stream_write(start, bytes, wrote, after_write);
    lemma_stream_flush(after_write, flushed, after_flush);
    lemma_stream_seek(
        after_flush,
        SeekRequest::FromStart(logical(start).cursor as u64),
        moved,
        after_seek,
    );
    lemma_stream_read(after_seek, buf, read, after_read, filled);
}

} // verus!
