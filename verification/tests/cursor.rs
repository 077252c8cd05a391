use worldfile::DataStream;
use worldfile::WorldLoadError;

#[test]
fn new_stream_starts_at_zero() {
    let ds = DataStream::new(vec![1, 2, 3]);
    assert_eq!(ds.position(), 0);
    assert_eq!(ds.len(), 3);
    assert!(!ds.is_empty());
    assert!(ds.has_more());
}

#[test]
fn empty_stream_is_empty() {
    let ds = DataStream::new(vec![]);
    assert!(ds.is_empty());
    assert_eq!(ds.len(), 0);
    assert!(!ds.has_more());
}

#[test]
fn read_byte_advances_by_one() {
    let mut ds = DataStream::new(vec![0xAB, 0xCD]);
    assert_eq!(ds.read_byte().unwrap(), 0xAB);
    assert_eq!(ds.position(), 1);
    assert_eq!(ds.read_byte().unwrap(), 0xCD);
    assert_eq!(ds.position(), 2);
    assert!(!ds.has_more());
    assert!(matches!(ds.read_byte(), Err(WorldLoadError::OutOfBounds)));
    assert_eq!(ds.position(), 2);
}

#[test]
fn read_bytes_copies_and_advances() {
    let mut ds = DataStream::new(vec![1, 2, 3, 4, 5]);
    assert_eq!(ds.read_bytes(0).unwrap(), Vec::<u8>::new());
    assert_eq!(ds.read_bytes(3).unwrap(), vec![1, 2, 3]);
    assert_eq!(ds.position(), 3);
    assert!(matches!(ds.read_bytes(3), Err(WorldLoadError::OutOfBounds)));
    assert_eq!(ds.position(), 3);
    assert_eq!(ds.read_bytes(2).unwrap(), vec![4, 5]);
}

#[test]
fn read_uint16_is_little_endian() {
    let mut ds = DataStream::new(vec![0x34, 0x12]);
    assert_eq!(ds.read_uint16().unwrap(), 0x1234);
    assert_eq!(ds.position(), 2);
}

#[test]
fn read_int16_is_twos_complement() {
    let mut ds = DataStream::new(vec![0xFF, 0xFF, 0x00, 0x80, 0xFF, 0x7F]);
    assert_eq!(ds.read_int16().unwrap(), -1);
    assert_eq!(ds.read_int16().unwrap(), i16::MIN);
    assert_eq!(ds.read_int16().unwrap(), i16::MAX);
}

#[test]
fn read_uint32_is_little_endian() {
    let mut ds = DataStream::new(vec![0x78, 0x56, 0x34, 0x12]);
    assert_eq!(ds.read_uint32().unwrap(), 0x12345678);
}

#[test]
fn read_int32_is_twos_complement() {
    let mut ds = DataStream::new(vec![0xFF, 0xFF, 0xFF, 0xFF, 0x00, 0x00, 0x00, 0x80]);
    assert_eq!(ds.read_int32().unwrap(), -1);
    assert_eq!(ds.read_int32().unwrap(), i32::MIN);
}

#[test]
fn read_int64_is_little_endian_twos_complement() {
    let mut ds = DataStream::new(vec![
        0xEF, 0xCD, 0xAB, 0x89, 0x67, 0x45, 0x23, 0x01, 0xFF, 0xFF, 0xFF, 0xFF, 0xFF, 0xFF, 0xFF,
        0xFF,
    ]);
    assert_eq!(ds.read_int64().unwrap(), 0x0123456789ABCDEF);
    assert_eq!(ds.read_int64().unwrap(), -1);
}

#[test]
fn read_bool_nonzero_is_true() {
    let mut ds = DataStream::new(vec![0, 1, 7]);
    assert!(!ds.read_bool().unwrap());
    assert!(ds.read_bool().unwrap());
    assert!(ds.read_bool().unwrap());
}

#[test]
fn read_string_reads_length_prefixed_utf8() {
    let mut buf = vec![4, 0, 0, 0];
    buf.extend_from_slice(b"Test");
    buf.push(0xAA);
    let mut ds = DataStream::new(buf);
    assert_eq!(ds.read_string().unwrap(), "Test");
    assert_eq!(ds.position(), 8);
}

#[test]
fn read_string_replaces_malformed_bytes() {
    // 0xFF is never valid UTF-8: permissive decoding must substitute the
    // replacement character rather than fail or pass the byte through.
    let mut ds = DataStream::new(vec![2, 0, 0, 0, 0xFF, b'a']);
    assert_eq!(ds.read_string().unwrap(), "\u{FFFD}a");
}

#[test]
fn read_string_empty_is_ok() {
    let mut ds = DataStream::new(vec![0, 0, 0, 0]);
    assert_eq!(ds.read_string().unwrap(), "");
    assert_eq!(ds.position(), 4);
}

#[test]
fn read_string_truncated_payload_fails() {
    let mut ds = DataStream::new(vec![5, 0, 0, 0, b'a']);
    assert!(matches!(ds.read_string(), Err(WorldLoadError::OutOfBounds)));
    assert_eq!(ds.position(), 4);
}

#[test]
fn skip_advances_without_reading() {
    let mut ds = DataStream::new(vec![1, 2, 3]);
    ds.skip(2).unwrap();
    assert_eq!(ds.position(), 2);
    assert!(matches!(ds.skip(2), Err(WorldLoadError::OutOfBounds)));
    assert_eq!(ds.position(), 2);
}

#[test]
fn seek_moves_to_absolute_offset() {
    let mut ds = DataStream::new(vec![1, 2, 3]);
    ds.seek(3).unwrap();
    assert_eq!(ds.position(), 3);
    ds.seek(0).unwrap();
    assert_eq!(ds.position(), 0);
    assert!(matches!(ds.seek(4), Err(WorldLoadError::OutOfBounds)));
    assert_eq!(ds.position(), 0);
}

#[test]
fn reads_never_pass_the_end_under_any_truncation() {
    let base = vec![7u8, 0, 0, 0, 1, 2, 3, 4, 5, 6, 7];
    for cut in 0..base.len() {
        let mut ds = DataStream::new(base[..cut].to_vec());
        while ds.read_byte().is_ok() {}
        assert!(ds.position() <= cut);
    }
}
