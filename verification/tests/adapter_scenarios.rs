use lazrs::adapters::{AccessMode, BufReadWritePyFileObject, Capabilities, PyFileObject};
use lazrs::error::{AdapterError, Method, Operation};
use lazrs::memory::MemoryFile;
use lazrs::seek::SeekRequest;

fn open(file: MemoryFile) -> PyFileObject<MemoryFile> {
    PyFileObject::new(file, AccessMode::ReadWrite).unwrap()
}

fn without(method: Method) -> Capabilities {
    Capabilities {
        read: method != Method::Read,
        readinto: method != Method::ReadInto,
        write: method != Method::Write,
        seek: method != Method::Seek,
        flush: method != Method::Flush,
    }
}

#[test]
fn write_flush_seek_read_round_trip() {
    let mut adapter = open(MemoryFile::zeroed(100));
    assert_eq!(adapter.write(&[1, 2, 3]), Ok(3));
    assert_eq!(adapter.flush(), Ok(()));
    assert_eq!(adapter.seek(SeekRequest::FromStart(0)), Ok(0));
    let mut buf = [0u8; 3];
    assert_eq!(adapter.read(&mut buf), Ok(3));
    assert_eq!(buf, [1, 2, 3]);
    assert_eq!(adapter.seek(SeekRequest::FromEnd(-1)), Ok(99));

    let mut stream = BufReadWritePyFileObject::new(adapter);
    assert_eq!(stream.seek(SeekRequest::FromStart(50)), Ok(50));
    assert_eq!(stream.write(&[9]), Ok(1));
    assert_eq!(stream.seek(SeekRequest::FromStart(50)), Ok(50));
    let mut one = [0u8; 1];
    assert_eq!(stream.read(&mut one), Ok(1));
    assert_eq!(one, [9]);
    assert_eq!(stream.get_ref().file.content().len(), 100);
    assert_eq!(stream.get_ref().file.content()[50], 9);
    assert_eq!(&stream.get_ref().file.content()[..4], &[1, 2, 3, 0]);
}

#[test]
fn write_adapter_needs_a_write_method() {
    let file = MemoryFile::new(vec![1, 2, 3]).exposing(without(Method::Write));
    let untouched = file.clone();
    let rejected = PyFileObject::new(file, AccessMode::Write).unwrap_err();
    assert_eq!(rejected.error, AdapterError::MissingCapability { method: Method::Write });
    assert_eq!(rejected.error.message(), "No write method on file object");
    assert_eq!(rejected.file, untouched);
    assert_eq!(rejected.file.position(), 0);
}

#[test]
fn each_mode_names_the_first_method_it_misses() {
    let lacking = |method: Method, mode: AccessMode| {
        let file = MemoryFile::zeroed(1).exposing(without(method));
        PyFileObject::new(file, mode).map(|_| ()).map_err(|rejected| rejected.error)
    };
    let missing = |method: Method| Err(AdapterError::MissingCapability { method });
    assert_eq!(lacking(Method::Read, AccessMode::Read), missing(Method::Read));
    assert_eq!(lacking(Method::Read, AccessMode::ReadWrite), missing(Method::Read));
    assert_eq!(lacking(Method::Read, AccessMode::Write), Ok(()));
    assert_eq!(lacking(Method::Write, AccessMode::ReadWrite), missing(Method::Write));
    assert_eq!(lacking(Method::Write, AccessMode::Read), Ok(()));
    assert_eq!(lacking(Method::Flush, AccessMode::Write), missing(Method::Flush));
    assert_eq!(lacking(Method::Flush, AccessMode::ReadWrite), missing(Method::Flush));
    assert_eq!(lacking(Method::Flush, AccessMode::Read), Ok(()));
    assert_eq!(lacking(Method::ReadInto, AccessMode::ReadWrite), Ok(()));
    assert_eq!(lacking(Method::Seek, AccessMode::ReadWrite), Ok(()));

    let nothing = Capabilities { read: false, readinto: false, write: false, seek: false, flush: false };
    assert_eq!(nothing.require(AccessMode::ReadWrite), missing(Method::Read));
    assert_eq!(nothing.require(AccessMode::Write), missing(Method::Write));
    let file = MemoryFile::zeroed(1).exposing(nothing);
    assert_eq!(Capabilities::probe(&file), nothing);
}

#[test]
fn bulk_and_plain_reads_agree() {
    let content: Vec<u8> = (0u8..20).collect();
    let mut bulk = open(MemoryFile::new(content.clone()));
    let mut plain = open(MemoryFile::new(content).exposing(without(Method::ReadInto)));
    assert!(bulk.bindings.readinto);
    assert!(!plain.bindings.readinto);
    for size in [0usize, 1, 7, 12, 30] {
        let mut a = vec![0xAAu8; size];
        let mut b = vec![0xAAu8; size];
        let got = bulk.read(&mut a);
        assert_eq!(got, plain.read(&mut b));
        assert!(got.is_ok());
        assert_eq!(a, b);
        assert_eq!(bulk.file.position(), plain.file.position());
        assert_eq!(bulk.file.content(), plain.file.content());
    }
    assert_eq!(bulk.file.position(), 20);
}

#[test]
fn read_at_the_end_reports_nothing() {
    let mut adapter = open(MemoryFile::new(vec![1, 2]));
    assert_eq!(adapter.seek(SeekRequest::FromEnd(3)), Ok(5));
    let mut buf = [7u8; 4];
    assert_eq!(adapter.read(&mut buf), Ok(0));
    assert_eq!(buf, [7, 7, 7, 7]);
    assert_eq!(adapter.file.position(), 5);
}

#[test]
fn seek_twice_to_the_same_place_changes_nothing() {
    let mut adapter = open(MemoryFile::new(vec![5, 6, 7, 8]));
    assert_eq!(adapter.seek(SeekRequest::FromStart(3)), Ok(3));
    let once = adapter.file.clone();
    assert_eq!(adapter.seek(SeekRequest::FromStart(3)), Ok(3));
    assert_eq!(adapter.file, once);

    let mut stream = BufReadWritePyFileObject::with_capacity(4, adapter);
    assert_eq!(stream.write(&[1, 2]), Ok(2));
    assert_eq!(stream.seek(SeekRequest::FromStart(1)), Ok(1));
    let once = stream.get_ref().file.clone();
    assert_eq!(once.content(), &[5, 6, 7, 1, 2]);
    assert_eq!(stream.seek(SeekRequest::FromStart(1)), Ok(1));
    assert_eq!(stream.get_ref().file, once);
    let mut buf = [0u8; 2];
    assert_eq!(stream.read(&mut buf), Ok(2));
    assert_eq!(buf, [6, 7]);
}

#[test]
fn relative_seek_moves_by_the_offset_once() {
    let mut stream = BufReadWritePyFileObject::new(open(MemoryFile::zeroed(100)));
    assert_eq!(stream.seek(SeekRequest::FromStart(10)), Ok(10));
    assert_eq!(stream.seek(SeekRequest::FromCurrent(15)), Ok(25));
    assert_eq!(stream.get_ref().file.position(), 25);
    assert_eq!(stream.seek(SeekRequest::FromCurrent(-5)), Ok(20));
    assert_eq!(stream.get_ref().file.position(), 20);
    assert_eq!(stream.write(&[1, 2, 3]), Ok(3));
    assert_eq!(stream.seek(SeekRequest::FromCurrent(4)), Ok(27));
    assert_eq!(stream.get_ref().file.position(), 27);
    assert_eq!(&stream.get_ref().file.content()[20..23], &[1, 2, 3]);
}

#[test]
fn read_after_seek_sees_what_was_written_there() {
    let content: Vec<u8> = (100u8..140).collect();
    let mut stream = BufReadWritePyFileObject::with_capacity(8, open(MemoryFile::new(content)));
    assert_eq!(stream.seek(SeekRequest::FromStart(4)), Ok(4));
    assert_eq!(stream.write(&[1, 2, 3]), Ok(3));
    assert_eq!(stream.write(&[4, 5, 6]), Ok(3));
    assert_eq!(stream.write(&[7, 8, 9, 10]), Ok(4));
    assert_eq!(stream.flush(), Ok(()));
    assert_eq!(stream.write(&[11; 12]), Ok(12));
    assert_eq!(stream.seek(SeekRequest::FromEnd(-2)), Ok(38));
    assert_eq!(stream.write(&[50, 51, 52, 53]), Ok(4));

    assert_eq!(stream.seek(SeekRequest::FromStart(2)), Ok(2));
    let mut buf = [0u8; 6];
    assert_eq!(stream.read(&mut buf), Ok(6));
    assert_eq!(buf, [102, 103, 1, 2, 3, 4]);

    assert_eq!(stream.seek(SeekRequest::FromStart(12)), Ok(12));
    let mut big = [0u8; 16];
    assert_eq!(stream.read(&mut big), Ok(16));
    assert_eq!(big, [9, 10, 11, 11, 11, 11, 11, 11, 11, 11, 11, 11, 11, 11, 126, 127]);

    assert_eq!(stream.seek(SeekRequest::FromStart(37)), Ok(37));
    let mut tail = [0u8; 7];
    assert_eq!(stream.read(&mut tail), Ok(5));
    assert_eq!(tail, [137, 50, 51, 52, 53, 0, 0]);
    assert_eq!(stream.get_ref().file.content().len(), 42);
}

#[test]
fn stream_round_trip_of_small_and_large_pieces() {
    for len in [0usize, 1, 7, 8, 9, 40] {
        let bytes: Vec<u8> = (0..len).map(|i| (i * 3 + 1) as u8).collect();
        let mut stream =
            BufReadWritePyFileObject::with_capacity(8, open(MemoryFile::zeroed(20)));
        assert_eq!(stream.seek(SeekRequest::FromStart(5)), Ok(5));
        assert_eq!(stream.write(&bytes), Ok(len));
        assert_eq!(stream.flush(), Ok(()));
        assert_eq!(stream.seek(SeekRequest::FromStart(5)), Ok(5));
        let mut back = vec![0u8; len];
        assert_eq!(stream.read(&mut back), Ok(len));
        assert_eq!(back, bytes);
    }
}

#[test]
fn seek_before_the_start_fails_and_keeps_the_cursor() {
    let mut adapter = open(MemoryFile::zeroed(10));
    assert_eq!(adapter.seek(SeekRequest::FromStart(4)), Ok(4));
    assert_eq!(
        adapter.seek(SeekRequest::FromCurrent(-5)),
        Err(AdapterError::ForeignCallFailed { op: Operation::Seek })
    );
    assert_eq!(
        adapter.seek(SeekRequest::FromEnd(-11)),
        Err(AdapterError::ForeignCallFailed { op: Operation::Seek })
    );
    assert_eq!(adapter.file.position(), 4);
    assert_eq!(adapter.seek(SeekRequest::FromEnd(-10)), Ok(0));
}

#[test]
fn long_stream_through_default_buffers_reads_back() {
    let bytes: Vec<u8> = (0..20_000usize).map(|i| (i % 251) as u8).collect();
    let mut stream = BufReadWritePyFileObject::new(open(MemoryFile::new(vec![])));
    for piece in bytes.chunks(1_000) {
        assert_eq!(stream.write(piece), Ok(1_000));
    }
    assert_eq!(stream.get_ref().file.content().len(), 16_000);
    assert_eq!(stream.flush(), Ok(()));
    assert_eq!(stream.get_ref().file.content(), bytes.as_slice());
    assert_eq!(stream.seek(SeekRequest::FromStart(0)), Ok(0));
    let mut back = Vec::new();
    let mut piece = [0u8; 700];
    loop {
        let n = stream.read(&mut piece).unwrap();
        if n == 0 {
            break;
        }
        back.extend_from_slice(&piece[..n]);
    }
    assert_eq!(back, bytes);
    assert_eq!(stream.seek(SeekRequest::FromCurrent(0)), Ok(20_000));
    assert_eq!(stream.seek(SeekRequest::FromEnd(-20_000)), Ok(0));
}
