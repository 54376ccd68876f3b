use lazrs::error::{to_other_io_error, AdapterError, IoErrorKind, Method, Operation};
use lazrs::foreign::{ForeignReply, Whence};
use lazrs::replies::{copy_plain_read, flush_outcome, seek_position, transfer_count};
use lazrs::seek::{py_seek_args_from_rust_seek, SeekRequest};

#[test]
fn io_error_carries_kind_other_and_the_message() {
    let error = to_other_io_error("Failed to call seek".to_string());
    assert_eq!(error.kind, IoErrorKind::Other);
    assert_eq!(error.message, "Failed to call seek");
    let empty = to_other_io_error(String::new());
    assert_eq!(empty.kind, IoErrorKind::Other);
    assert_eq!(empty.message, "");
}

#[test]
fn messages_name_the_method_or_the_operation() {
    let missing = |method| AdapterError::MissingCapability { method }.message();
    assert_eq!(missing(Method::Read), "No read method on file object");
    assert_eq!(missing(Method::ReadInto), "No readinto method on file object");
    assert_eq!(missing(Method::Write), "No write method on file object");
    assert_eq!(missing(Method::Seek), "No seek method on file object");
    assert_eq!(missing(Method::Flush), "No flush method on file object");
    let failed = |op| AdapterError::ForeignCallFailed { op }.message();
    assert_eq!(failed(Operation::Read), "Failed to call read");
    assert_eq!(failed(Operation::Write), "Failed to call write");
    assert_eq!(failed(Operation::Flush), "Failed to call flush");
    assert_eq!(failed(Operation::Seek), "Failed to call seek");
    assert_eq!(
        AdapterError::UnexpectedReturnType.message(),
        "Unexpected return type from file object"
    );
}

#[test]
fn every_failure_becomes_the_same_kind_of_io_error() {
    let errors = [
        AdapterError::MissingCapability { method: Method::Write },
        AdapterError::ForeignCallFailed { op: Operation::Flush },
        AdapterError::UnexpectedReturnType,
    ];
    for error in errors {
        let io = error.to_io_error();
        assert_eq!(io.kind, IoErrorKind::Other);
        assert_eq!(io.message, error.message());
    }
}

#[test]
fn method_and_operation_names() {
    assert_eq!(Method::Read.name(), "read");
    assert_eq!(Method::ReadInto.name(), "readinto");
    assert_eq!(Method::Write.name(), "write");
    assert_eq!(Method::Seek.name(), "seek");
    assert_eq!(Method::Flush.name(), "flush");
    assert_eq!(Operation::Read.name(), "read");
    assert_eq!(Operation::Write.name(), "write");
    assert_eq!(Operation::Flush.name(), "flush");
    assert_eq!(Operation::Seek.name(), "seek");
}

#[test]
fn seek_requests_become_offset_and_origin() {
    assert_eq!(py_seek_args_from_rust_seek(SeekRequest::FromStart(0)), (0, Whence::Start));
    assert_eq!(
        py_seek_args_from_rust_seek(SeekRequest::FromStart(u64::MAX)),
        (18446744073709551615, Whence::Start)
    );
    assert_eq!(py_seek_args_from_rust_seek(SeekRequest::FromEnd(-1)), (-1, Whence::End));
    assert_eq!(
        py_seek_args_from_rust_seek(SeekRequest::FromEnd(i64::MIN)),
        (-9223372036854775808, Whence::End)
    );
    assert_eq!(py_seek_args_from_rust_seek(SeekRequest::FromCurrent(7)), (7, Whence::Current));
    assert_eq!(
        py_seek_args_from_rust_seek(SeekRequest::FromCurrent(i64::MAX)),
        (9223372036854775807, Whence::Current)
    );
}

#[test]
fn transfer_count_accepts_zero_to_limit() {
    let failed = |op| Err(AdapterError::ForeignCallFailed { op });
    let odd = Err(AdapterError::UnexpectedReturnType);
    assert_eq!(transfer_count(&ForeignReply::Integer(0), 4, Operation::Read), Ok(0));
    assert_eq!(transfer_count(&ForeignReply::Integer(4), 4, Operation::Read), Ok(4));
    assert_eq!(transfer_count(&ForeignReply::Integer(5), 4, Operation::Read), odd);
    assert_eq!(transfer_count(&ForeignReply::Integer(-1), 4, Operation::Write), odd);
    assert_eq!(transfer_count(&ForeignReply::Integer(i128::MAX), usize::MAX, Operation::Write), odd);
    assert_eq!(transfer_count(&ForeignReply::Integer(0), 0, Operation::Write), Ok(0));
    assert_eq!(transfer_count(&ForeignReply::Other, 4, Operation::Write), odd);
    assert_eq!(transfer_count(&ForeignReply::Bytes(vec![1]), 4, Operation::Read), odd);
    assert_eq!(transfer_count(&ForeignReply::Raised, 4, Operation::Read), failed(Operation::Read));
    assert_eq!(transfer_count(&ForeignReply::Raised, 4, Operation::Write), failed(Operation::Write));
}

#[test]
fn copy_plain_read_copies_what_fits() {
    let mut buf = [9u8; 4];
    assert_eq!(copy_plain_read(&ForeignReply::Bytes(vec![1, 2]), &mut buf), Ok(2));
    assert_eq!(buf, [1, 2, 9, 9]);
    assert_eq!(copy_plain_read(&ForeignReply::Bytes(vec![3, 4, 5, 6]), &mut buf), Ok(4));
    assert_eq!(buf, [3, 4, 5, 6]);
    assert_eq!(copy_plain_read(&ForeignReply::Bytes(vec![7, 7, 7, 7, 7, 7]), &mut buf), Ok(4));
    assert_eq!(buf, [7, 7, 7, 7]);
    assert_eq!(copy_plain_read(&ForeignReply::Bytes(vec![]), &mut buf), Ok(0));
    assert_eq!(buf, [7, 7, 7, 7]);
    let mut none: [u8; 0] = [];
    assert_eq!(copy_plain_read(&ForeignReply::Bytes(vec![1]), &mut none), Ok(0));
    assert_eq!(
        copy_plain_read(&ForeignReply::Raised, &mut buf),
        Err(AdapterError::ForeignCallFailed { op: Operation::Read })
    );
    assert_eq!(
        copy_plain_read(&ForeignReply::Integer(2), &mut buf),
        Err(AdapterError::UnexpectedReturnType)
    );
    assert_eq!(
        copy_plain_read(&ForeignReply::Other, &mut buf),
        Err(AdapterError::UnexpectedReturnType)
    );
    assert_eq!(buf, [7, 7, 7, 7]);
}

#[test]
fn seek_position_accepts_what_fits_u64() {
    let odd = Err(AdapterError::UnexpectedReturnType);
    assert_eq!(seek_position(&ForeignReply::Integer(0)), Ok(0));
    assert_eq!(seek_position(&ForeignReply::Integer(99)), Ok(99));
    assert_eq!(seek_position(&ForeignReply::Integer(u64::MAX as i128)), Ok(u64::MAX));
    assert_eq!(seek_position(&ForeignReply::Integer(u64::MAX as i128 + 1)), odd);
    assert_eq!(seek_position(&ForeignReply::Integer(-1)), odd);
    assert_eq!(seek_position(&ForeignReply::Other), odd);
    assert_eq!(seek_position(&ForeignReply::Bytes(vec![])), odd);
    assert_eq!(
        seek_position(&ForeignReply::Raised),
        Err(AdapterError::ForeignCallFailed { op: Operation::Seek })
    );
}

#[test]
fn flush_outcome_fails_only_when_the_call_failed() {
    assert_eq!(flush_outcome(&ForeignReply::Other), Ok(()));
    assert_eq!(flush_outcome(&ForeignReply::Integer(-3)), Ok(()));
    assert_eq!(flush_outcome(&ForeignReply::Bytes(vec![1])), Ok(()));
    assert_eq!(
        flush_outcome(&ForeignReply::Raised),
        Err(AdapterError::ForeignCallFailed { op: Operation::Flush })
    );
}
