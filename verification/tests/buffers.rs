use lazrs::adapters::{AccessMode, BufReadWritePyFileObject, PyFileObject};
use lazrs::buffered::{ReadBuffer, WriteBuffer, DEFAULT_CAPACITY};
use lazrs::memory::MemoryFile;
use lazrs::seek::SeekRequest;

fn open(content: Vec<u8>) -> PyFileObject<MemoryFile> {
    PyFileObject::new(MemoryFile::new(content), AccessMode::ReadWrite).unwrap()
}

#[test]
fn default_buffers_hold_eight_kibibytes() {
    assert_eq!(DEFAULT_CAPACITY, 8192);
    assert_eq!(ReadBuffer::new().capacity(), 8192);
    assert_eq!(ReadBuffer::new().buffered(), 0);
    assert_eq!(WriteBuffer::new().capacity(), 8192);
    assert_eq!(WriteBuffer::new().buffered(), 0);
    assert_eq!(ReadBuffer::with_capacity(3).capacity(), 3);
    assert_eq!(WriteBuffer::with_capacity(0).capacity(), 0);
}

#[test]
fn small_reads_are_served_from_one_fetched_block() {
    let mut file = open((0u8..10).collect());
    let mut reader = ReadBuffer::with_capacity(4);
    let mut buf = [0u8; 3];
    assert_eq!(reader.read(&mut file, &mut buf), Ok(3));
    assert_eq!(buf, [0, 1, 2]);
    assert_eq!(file.file.position(), 4);
    assert_eq!(reader.buffered(), 1);
    assert_eq!(reader.read(&mut file, &mut buf), Ok(1));
    assert_eq!(buf, [3, 1, 2]);
    assert_eq!(file.file.position(), 4);
    assert_eq!(reader.buffered(), 0);
    assert_eq!(reader.read(&mut file, &mut buf), Ok(3));
    assert_eq!(buf, [4, 5, 6]);
    assert_eq!(file.file.position(), 8);
}

#[test]
fn large_reads_pass_the_block_by() {
    let mut file = open((0u8..10).collect());
    let mut reader = ReadBuffer::with_capacity(4);
    let mut buf = [0u8; 6];
    assert_eq!(reader.read(&mut file, &mut buf), Ok(6));
    assert_eq!(buf, [0, 1, 2, 3, 4, 5]);
    assert_eq!(file.file.position(), 6);
    assert_eq!(reader.buffered(), 0);
    let mut exact = [0u8; 4];
    assert_eq!(reader.read(&mut file, &mut exact), Ok(4));
    assert_eq!(exact, [6, 7, 8, 9]);
    assert_eq!(reader.read(&mut file, &mut exact), Ok(0));
}

#[test]
fn reader_seek_from_current_counts_the_waiting_bytes() {
    let mut file = open((0u8..20).collect());
    let mut reader = ReadBuffer::with_capacity(8);
    let mut buf = [0u8; 2];
    assert_eq!(reader.read(&mut file, &mut buf), Ok(2));
    assert_eq!(file.file.position(), 8);
    assert_eq!(reader.seek(&mut file, SeekRequest::FromCurrent(3)), Ok(5));
    assert_eq!(reader.buffered(), 0);
    assert_eq!(reader.read(&mut file, &mut buf), Ok(2));
    assert_eq!(buf, [5, 6]);
    assert_eq!(reader.seek(&mut file, SeekRequest::FromStart(1)), Ok(1));
    assert_eq!(reader.read(&mut file, &mut buf), Ok(2));
    assert_eq!(buf, [1, 2]);
    assert_eq!(reader.seek(&mut file, SeekRequest::FromEnd(-2)), Ok(18));
    assert_eq!(reader.read(&mut file, &mut buf), Ok(2));
    assert_eq!(buf, [18, 19]);
}

#[test]
fn reader_seek_that_fails_keeps_the_waiting_bytes() {
    let mut file = open((0u8..20).collect());
    let mut reader = ReadBuffer::with_capacity(8);
    let mut buf = [0u8; 2];
    assert_eq!(reader.read(&mut file, &mut buf), Ok(2));
    assert!(reader.seek(&mut file, SeekRequest::FromCurrent(-3)).is_err());
    assert_eq!(reader.buffered(), 6);
    assert_eq!(reader.read(&mut file, &mut buf), Ok(2));
    assert_eq!(buf, [2, 3]);
    assert_eq!(reader.buffered(), 4);
    assert_eq!(file.file.position(), 8);
    reader.discard();
    assert_eq!(reader.buffered(), 0);
}

#[test]
fn reader_seek_too_far_back_for_one_step_takes_two() {
    let mut file = open((0u8..20).collect());
    let mut reader = ReadBuffer::with_capacity(8);
    let mut buf = [0u8; 4];
    assert_eq!(reader.read(&mut file, &mut buf), Ok(4));
    assert_eq!(reader.buffered(), 4);
    assert_eq!(file.file.position(), 8);
    assert!(reader.seek(&mut file, SeekRequest::FromCurrent(i64::MIN)).is_err());
    assert_eq!(reader.buffered(), 0);
    assert_eq!(file.file.position(), 4);
}

#[test]
fn small_writes_wait_until_the_buffer_is_full() {
    let mut file = open(vec![]);
    let mut writer = WriteBuffer::with_capacity(4);
    assert_eq!(writer.write(&mut file, &[1, 2]), Ok(2));
    assert_eq!(writer.write(&mut file, &[3, 4]), Ok(2));
    assert_eq!(writer.buffered(), 4);
    assert_eq!(file.file.content().len(), 0);
    assert_eq!(writer.write(&mut file, &[5]), Ok(1));
    assert_eq!(writer.buffered(), 1);
    assert_eq!(file.file.content(), &[1, 2, 3, 4]);
    assert_eq!(writer.write(&mut file, &[6, 7, 8, 9]), Ok(4));
    assert_eq!(writer.buffered(), 0);
    assert_eq!(file.file.content(), &[1, 2, 3, 4, 5, 6, 7, 8, 9]);
    assert_eq!(writer.write(&mut file, &[]), Ok(0));
    assert_eq!(writer.write(&mut file, &[10]), Ok(1));
    assert_eq!(writer.flush_buf(&mut file), Ok(()));
    assert_eq!(writer.buffered(), 0);
    assert_eq!(file.file.content(), &[1, 2, 3, 4, 5, 6, 7, 8, 9, 10]);
    assert_eq!(writer.flush(&mut file), Ok(()));
}

#[test]
fn writer_seek_commits_before_it_moves() {
    let mut file = open(vec![0; 6]);
    let mut writer = WriteBuffer::with_capacity(8);
    assert_eq!(writer.write(&mut file, &[1, 2]), Ok(2));
    assert_eq!(writer.seek(&mut file, SeekRequest::FromCurrent(2)), Ok(4));
    assert_eq!(writer.buffered(), 0);
    assert_eq!(file.file.content(), &[1, 2, 0, 0, 0, 0]);
    assert_eq!(writer.write(&mut file, &[3]), Ok(1));
    assert_eq!(writer.flush(&mut file), Ok(()));
    assert_eq!(file.file.content(), &[1, 2, 0, 0, 3, 0]);
}

#[test]
fn stream_starts_with_empty_buffers_over_the_given_adapter() {
    let stream = BufReadWritePyFileObject::new(open(vec![1, 2, 3]));
    assert_eq!(stream.get_ref().file.content(), &[1, 2, 3]);
    assert!(stream.get_ref().bindings.write);
    let mut small = BufReadWritePyFileObject::with_capacity(2, open(vec![1, 2, 3, 4, 5]));
    let mut buf = [0u8; 1];
    assert_eq!(small.read(&mut buf), Ok(1));
    assert_eq!(small.get_ref().file.position(), 2);
    assert_eq!(small.write(&[7, 7, 7]), Ok(3));
    assert_eq!(small.get_ref().file.content(), &[1, 2, 7, 7, 7]);
}
