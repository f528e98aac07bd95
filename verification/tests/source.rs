use qoi_decoder::encoding::error::DecodeError;
use qoi_decoder::encoding::source::ByteSource;

#[test]
fn source_hands_out_bytes_in_order() {
    let mut source = ByteSource::new(vec![1, 2, 3, 4, 5]);
    assert_eq!(source.remaining(), 5);
    assert_eq!(source.read_u8(), Ok(1));
    assert_eq!(source.read_exact(3), Ok(vec![2, 3, 4]));
    assert_eq!(source.remaining(), 1);
    assert_eq!(source.read_u8(), Ok(5));
    assert_eq!(source.remaining(), 0);
}

#[test]
fn empty_source_fails_a_byte_read() {
    let mut source = ByteSource::new(Vec::new());
    assert_eq!(source.read_u8(), Err(DecodeError::TruncatedStream));
    assert_eq!(source.remaining(), 0);
}

#[test]
fn short_read_fails_and_reads_nothing() {
    let mut source = ByteSource::new(vec![1, 2, 3]);
    assert_eq!(source.read_exact(4), Err(DecodeError::TruncatedStream));
    assert_eq!(source.remaining(), 3);
    assert_eq!(source.read_exact(3), Ok(vec![1, 2, 3]));
    assert_eq!(source.read_exact(1), Err(DecodeError::TruncatedStream));
}

#[test]
fn read_of_nothing_succeeds() {
    let mut source = ByteSource::new(vec![7]);
    assert_eq!(source.read_exact(0), Ok(Vec::new()));
    assert_eq!(source.remaining(), 1);
    let mut empty = ByteSource::new(Vec::new());
    assert_eq!(empty.read_exact(0), Ok(Vec::new()));
}

#[test]
fn huge_read_fails() {
    let mut source = ByteSource::new(vec![1, 2]);
    assert_eq!(source.read_u8(), Ok(1));
    assert_eq!(source.read_exact(usize::MAX), Err(DecodeError::TruncatedStream));
    assert_eq!(source.remaining(), 1);
}
