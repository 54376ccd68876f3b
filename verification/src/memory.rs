//! A file object that lives in memory: a byte vector, a cursor and a choice of
//! exposed methods. It answers as a well-behaved foreign file object does, and
//! is the object that the laws of this crate are stated of.

use vstd::prelude::*;
use crate::adapters::Capabilities;
use crate::error::Method;
use crate::foreign::{ForeignFile, ForeignReply, ReplyView, Whence};
use crate::replies::shorter;

verus! {

/// The state of a [`MemoryFile`]: its bytes, the position of its cursor
/// (which may lie beyond the last byte) and the methods it exposes.
pub struct FileModel {
    pub content: Seq<u8>,
    pub cursor: nat,
    pub methods: Capabilities,
}

impl FileModel {
    /// The bytes that a read of up to `size` bytes takes: those from the
    /// cursor on, at most `size` of them, none if the cursor is at or beyond
    /// the end.
    pub open spec fn readable(self, size: nat) -> Seq<u8> {
        if self.cursor >= self.content.len() {
            Seq::<u8>::empty()
        } else {
            self.content.subrange(
                self.cursor as int,
                (self.cursor + shorter(size, (self.content.len() - self.cursor) as nat)) as int,
            )
        }
    }

    /// The same file with the cursor `n` bytes further on.
    pub open spec fn advanced(self, n: nat) -> FileModel {
        FileModel { cursor: self.cursor + n, ..self }
    }

    /// The same file with the cursor at `position`.
    pub open spec fn at(self, position: nat) -> FileModel {
        FileModel { cursor: position, ..self }
    }

    /// The content after `bytes` are written at the cursor: they replace what
    /// was there and extend the file where they reach beyond its end; a gap
    /// between the old end and the cursor is filled with zeros.
    pub open spec fn overwritten(self, bytes: Seq<u8>) -> Seq<u8> {
        let end: nat = if self.content.len() >= self.cursor + bytes.len() {
            self.content.len()
        } else {
            self.cursor + bytes.len()
        };
        Seq::new(
            end,
            |i: int|
                if self.cursor <= i < self.cursor + bytes.len() {
                    bytes[i - self.cursor]
                } else if i < self.content.len() {
                    self.content[i]
                } else {
                    0u8
                },
        )
    }

    /// Whether a write of `bytes` is taken: the method must be exposed and the
    /// end of the written range must be an address.
    pub open spec fn takes(self, bytes: Seq<u8>) -> bool {
        self.methods.write && self.cursor + bytes.len() <= usize::MAX
    }

    /// The file after a write of `bytes`: unchanged where the write is not
    /// taken, and where there is nothing to write.
    pub open spec fn written(self, bytes: Seq<u8>) -> FileModel {
        if self.takes(bytes) && bytes.len() > 0 {
            FileModel {
                content: self.overwritten(bytes),
                cursor: self.cursor + bytes.len(),
                methods: self.methods,
            }
        } else {
            self
        }
    }

    /// The position that a seek by `offset` from `whence` aims at.
    pub open spec fn target(self, offset: int, whence: Whence) -> int {
        match whence {
            Whence::Start => offset,
            Whence::Current => self.cursor + offset,
            Whence::End => self.content.len() + offset,
        }
    }

    /// Whether a seek by `offset` from `whence` is carried out: the method
    /// must be exposed and the target must be an address.
    pub open spec fn reaches(self, offset: int, whence: Whence) -> bool {
        self.methods.seek && 0 <= self.target(offset, whence) <= usize::MAX
    }

    /// The file after a seek by `offset` from `whence`: unchanged where the
    /// seek is not carried out.
    pub open spec fn sought(self, offset: int, whence: Whence) -> FileModel {
        if self.reaches(offset, whence) {
            self.at(self.target(offset, whence) as nat)
        } else {
            self
        }
    }

    pub open spec fn read_reply(self, size: nat) -> ReplyView {
        if self.methods.read {
            ReplyView::Bytes(self.readable(size))
        } else {
            ReplyView::Raised
        }
    }

    pub open spec fn after_read(self, size: nat) -> FileModel {
        if self.methods.read {
            self.advanced(self.readable(size).len())
        } else {
            self
        }
    }

    pub open spec fn readinto_reply(self, size: nat) -> ReplyView {
        if self.methods.readinto {
            ReplyView::Integer(self.readable(size).len() as int)
        } else {
            ReplyView::Raised
        }
    }

    pub open spec fn readinto_fill(self, buf: Seq<u8>) -> Seq<u8> {
        if self.methods.readinto {
            self.readable(buf.len()) + buf.subrange(
                self.readable(buf.len()).len() as int,
                buf.len() as int,
            )
        } else {
            buf
        }
    }

    pub open spec fn after_readinto(self, size: nat) -> FileModel {
        if self.methods.readinto {
            self.advanced(self.readable(size).len())
        } else {
            self
        }
    }

    pub open spec fn write_reply(self, bytes: Seq<u8>) -> ReplyView {
        if self.takes(bytes) {
            ReplyView::Integer(bytes.len() as int)
        } else {
            ReplyView::Raised
        }
    }

    pub open spec fn seek_reply(self, offset: int, whence: Whence) -> ReplyView {
        if self.reaches(offset, whence) {
            ReplyView::Integer(self.target(offset, whence))
        } else {
            ReplyView::Raised
        }
    }

    pub open spec fn flush_reply(self) -> ReplyView {
        if self.methods.flush {
            ReplyView::Other
        } else {
            ReplyView::Raised
        }
    }
}

/// A file object in memory.
#[derive(Clone, Debug, PartialEq, Eq)]
pub struct MemoryFile {
    content: Vec<u8>,
    cursor: usize,
    methods: Capabilities,
}

impl View for MemoryFile {
    type V = FileModel;

    closed spec fn view(&self) -> FileModel {
        FileModel { content: self.content@, cursor: self.cursor as nat, methods: self.methods }
    }
}

/// Every method exposed.
pub open spec fn all_methods() -> Capabilities {
    Capabilities { read: true, readinto: true, write: true, seek: true, flush: true }
}

impl MemoryFile {
    /// A file that holds `content`, with its cursor at the start and every
    /// method exposed.
    pub fn new(content: Vec<u8>) -> (file: MemoryFile)
        ensures
            file@ == (FileModel { content: content@, cursor: 0, methods: all_methods() }),
    {
        MemoryFile {
            content,
            cursor: 0,
            methods: Capabilities {
                read: true,
                readinto: true,
                write: true,
                seek: true,
                flush: true,
            },
        }
    }

    /// A file of `len` zero bytes, with its cursor at the start and every
    /// method exposed.
    pub fn zeroed(len: usize) -> (file: MemoryFile)
        ensures
            file@ == (FileModel {
                content: Seq::new(len as nat, |i: int| 0u8),
                cursor: 0,
                methods: all_methods(),
            }),
    {
        let content = vec![0u8; len];
        assert(content@ =~= Seq::new(len as nat, |i: int| 0u8));
        MemoryFile::new(content)
    }

    /// The same file, exposing `methods` and nothing else.
    pub fn exposing(self, methods: Capabilities) -> (file: MemoryFile)
        ensures
            file@ == (FileModel { methods, ..self@ }),
    {
        MemoryFile { content: self.content, cursor: self.cursor, methods }
    }

    /// The bytes of the file.
    pub fn content(&self) -> (bytes: &[u8])
        ensures
            bytes@ == self@.content,
    {
        self.content.as_slice()
    }

    /// The position of the cursor.
    pub fn position(&self) -> (cursor: usize)
        ensures
            cursor == self@.cursor,
    {
        self.cursor
    }

    /// The methods that the file exposes.
    pub fn methods(&self) -> (methods: Capabilities)
        ensures
            methods == self@.methods,
    {
        self.methods
    }

    /// How many bytes a read of up to `size` bytes takes.
    fn take(&self, size: usize) -> (n: usize)
        ensures
            n == self@.readable(size as nat).len(),
            n > 0 ==> self.cursor + n <= self.content.len(),
    {
        if self.cursor >= self.content.len() {
            0
        } else {
            let rest: usize = self.content.len() - self.cursor;
            if size <= rest {
                size
            } else {
                rest
            }
        }
    }
}

impl ForeignFile for MemoryFile {
    open spec fn finds(&self, method: Method, found: bool) -> bool {
        found == self@.methods.has(method)
    }

    open spec fn read_answers(&self, size: usize, reply: ReplyView, after: Self) -> bool {
        &&& reply == self@.read_reply(size as nat)
        &&& after@ == self@.after_read(size as nat)
    }

    open spec fn readinto_answers(
        &self,
        buf: Seq<u8>,
        reply: ReplyView,
        after: Self,
        filled: Seq<u8>,
    ) -> bool {
        &&& reply == self@.readinto_reply(buf.len())
        &&& filled == self@.readinto_fill(buf)
        &&& after@ == self@.after_readinto(buf.len())
    }

    open spec fn write_answers(&self, bytes: Seq<u8>, reply: ReplyView, after: Self) -> bool {
        &&& reply == self@.write_reply(bytes)
        &&& after@ == self@.written(bytes)
    }

    open spec fn seek_answers(
        &self,
        offset: i128,
        whence: Whence,
        reply: ReplyView,
        after: Self,
    ) -> bool {
        &&& reply == self@.seek_reply(offset as int, whence)
        &&& after@ == self@.sought(offset as int, whence)
    }

    open spec fn flush_answers(&self, reply: ReplyView, after: Self) -> bool {
        &&& reply == self@.flush_reply()
        &&& after@ == self@
    }

    fn has_method(&self, method: Method) -> (found: bool) {
        match method {
            Method::Read => self.methods.read,
            Method::ReadInto => self.methods.readinto,
            Method::Write => self.methods.write,
            Method::Seek => self.methods.seek,
            Method::Flush => self.methods.flush,
        }
    }

    fn call_read(&mut self, size: usize) -> (reply: ForeignReply) {
        if !self.methods.read {
            return ForeignReply::Raised;
        }
        let n = self.take(size);
        let mut bytes: Vec<u8> = Vec::new();
        let mut i: usize = 0;
        while i < n
            invariant
                i <= n,
                n > 0 ==> self.cursor + n <= self.content.len(),
                bytes@.len() == i,
                forall|j: int| 0 <= j < i ==> #[trigger] bytes@[j] == self.content@[self.cursor + j],
            decreases n - i,
        {
            bytes.push(self.content[self.cursor + i]);
            i += 1;
        }
        assert(bytes@ =~= old(self)@.readable(size as nat));
        self.cursor = self.cursor + n;
        ForeignReply::Bytes(bytes)
    }

    fn call_readinto(&mut self, buf: &mut [u8]) -> (reply: ForeignReply) {
        if !self.methods.readinto {
            return ForeignReply::Raised;
        }
        let n = self.take(buf.len());
        let mut i: usize = 0;
        while i < n
            invariant
                i <= n,
                n <= buf@.len(),
                buf@.len() == old(buf)@.len(),
                n > 0 ==> self.cursor + n <= self.content.len(),
                forall|j: int|
                    0 <= j < buf@.len() ==> #[trigger] buf@[j] == if j < i {
                        self.content@[self.cursor + j]
                    } else {
                        old(buf)@[j]
                    },
            decreases n - i,
        {
            buf[i] = self.content[self.cursor + i];
            i += 1;
        }
        assert(buf@ =~= old(self)@.readinto_fill(old(buf)@));
        self.cursor = self.cursor + n;
        ForeignReply::Integer(n as i128)
    }

    fn call_write(&mut self, bytes: &[u8]) -> (reply: ForeignReply) {
        let n: usize = bytes.len();
        if !self.methods.write || self.cursor > usize::MAX - n {
            return ForeignReply::Raised;
        }
        if n == 0 {
            return ForeignReply::Integer(0);
        }
        let end: usize = self.cursor + n;
        if self.content.len() < end {
            self.content.resize(end, 0u8);
        }
        let mut i: usize = 0;
        while i < n
            invariant
                i <= n,
                n == bytes@.len(),
                end == self.cursor + n,
                self.cursor == old(self).cursor,
                self.methods == old(self).methods,
                self.content@.len() == old(self)@.overwritten(bytes@).len(),
                forall|j: int|
                    0 <= j < self.content@.len() ==> #[trigger] self.content@[j] == if self.cursor
                        <= j < self.cursor + i {
                        bytes@[j - self.cursor]
                    } else if j < old(self).content@.len() {
                        old(self).content@[j]
                    } else {
                        0u8
                    },
            decreases n - i,
        {
            self.content[self.cursor + i] = bytes[i];
            i += 1;
        }
        assert(self.content@ =~= old(self)@.overwritten(bytes@));
        self.cursor = end;
        ForeignReply::Integer(n as i128)
    }

    fn call_seek(&mut self, offset: i128, whence: Whence) -> (reply: ForeignReply) {
        if !self.methods.seek {
            return ForeignReply::Raised;
        }
        let base: i128 = match whence {
            Whence::Start => 0,
            Whence::Current => self.cursor as i128,
            Whence::End => self.content.len() as i128,
        };
        if offset < 0 - base || offset > usize::MAX as i128 - base {
            return ForeignReply::Raised;
        }
        let target: i128 = base + offset;
        self.cursor = target as usize;
        ForeignReply::Integer(target)
    }

    fn call_flush(&mut self) -> (reply: ForeignReply) {
        if self.methods.flush {
            ForeignReply::Other
        } else {
            ForeignReply::Raised
        }
    }
}

} // verus!
