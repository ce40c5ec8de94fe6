use cfile::decode::decode_path;
use cfile::{acquire, cfile_close, cfile_read, finish_read, AcquireError, Handle, CFILE_READ_ERROR};

#[test]
fn test_has_file() {
    const FILE_PATH: &'static str = "/tmp/test_has_file.txt";
    let content = b"How are you?";
    fs_err::write(FILE_PATH, &content).unwrap();

    let file_path_with_nul = format!("{}\0", FILE_PATH);

    let (file_buf, file_len) = cfile_read(file_path_with_nul.as_bytes());

    // check status code and file length
    assert!(file_len != CFILE_READ_ERROR);
    assert!(file_len as usize == content.len());

    // check content
    let file_buf = file_buf.unwrap();
    for i in 0..content.len() {
        assert!(file_buf.byte_at(i) == content[i]);
    }

    cfile_close(file_buf);
    fs_err::remove_file(FILE_PATH).unwrap();
}

#[test]
fn test_no_file() {
    const FILE_PATH: &'static str = "/tmp/test_no_file.txt";

    // force remove file, ignore error
    let _ = fs_err::remove_file(FILE_PATH);

    let file_path_with_nul = format!("{}\0", FILE_PATH);

    let (file_buf, file_len) = cfile_read(file_path_with_nul.as_bytes());

    // check status code must be an error
    // error means no need to close file buffer
    assert!(file_len == CFILE_READ_ERROR);
    assert!(file_buf.is_none());
}

#[test]
fn test_empty_file() {
    const FILE_PATH: &'static str = "/tmp/test_empty_file.txt";
    fs_err::write(FILE_PATH, b"").unwrap();

    let file_path_with_nul = format!("{}\0", FILE_PATH);

    let (file_buf, file_len) = cfile_read(file_path_with_nul.as_bytes());

    // an empty file is a success with length zero, not the failure sentinel
    assert!(file_len == 0);
    assert!(file_len != CFILE_READ_ERROR);
    let file_buf = file_buf.unwrap();
    assert_eq!(file_buf.len(), 0);

    cfile_close(file_buf);
    fs_err::remove_file(FILE_PATH).unwrap();
}

#[test]
fn test_invalid_utf8_path() {
    // a nul-terminated path whose bytes are not valid UTF-8
    let path: Vec<u8> = vec![0x66, 0xff, 0xfe, 0x00];

    let (file_buf, file_len) = cfile_read(&path);
    assert!(file_len == CFILE_READ_ERROR);
    assert!(file_buf.is_none());

    // the rich internal error tags it as a decode failure
    assert!(matches!(acquire(&path), Err(AcquireError::Decode)));
}

#[test]
fn test_missing_nul_terminator() {
    // a path without any nul terminator does not decode
    let path = b"test_missing_nul.txt";

    let (file_buf, file_len) = cfile_read(path);
    assert!(file_len == CFILE_READ_ERROR);
    assert!(file_buf.is_none());

    assert!(matches!(acquire(path), Err(AcquireError::Decode)));
}

#[test]
fn test_round_trip() {
    const FILE_PATH: &'static str = "/tmp/test_round_trip.txt";
    let content = b"How are you?";
    fs_err::write(FILE_PATH, &content).unwrap();

    let file_path_with_nul = format!("{}\0", FILE_PATH);

    let (file_buf, file_len) = cfile_read(file_path_with_nul.as_bytes());
    assert!(file_len == 12);
    let file_buf = file_buf.unwrap();
    for i in 0..content.len() {
        assert!(file_buf.byte_at(i) == content[i]);
    }
    cfile_close(file_buf);

    // once the file is gone, the same path must fail with the sentinel
    fs_err::remove_file(FILE_PATH).unwrap();
    let (file_buf, file_len) = cfile_read(file_path_with_nul.as_bytes());
    assert!(file_len == CFILE_READ_ERROR);
    assert!(file_buf.is_none());
}

#[test]
fn test_acquire_missing_file_is_io_error() {
    let path = b"/tmp/test_acquire_missing.txt\0";
    assert!(matches!(acquire(path), Err(AcquireError::Io)));
}

#[test]
fn test_finish_read_success() {
    let handle = finish_read(Ok(vec![1u8, 2, 3])).unwrap();
    assert_eq!(handle.len(), 3);
    assert_eq!(handle.byte_at(0), 1);
    assert_eq!(handle.byte_at(1), 2);
    assert_eq!(handle.byte_at(2), 3);
    assert_eq!(handle.into_bytes(), vec![1u8, 2, 3]);
}

#[test]
fn test_finish_read_error_passthrough() {
    assert!(matches!(finish_read(Err(AcquireError::Decode)), Err(AcquireError::Decode)));
    assert!(matches!(finish_read(Err(AcquireError::Io)), Err(AcquireError::Io)));
}

#[test]
fn test_decode_path_strips_terminator() {
    // everything from the first nul terminator on is ignored
    assert_eq!(decode_path(b"abc\0def"), Some("abc"));
    assert_eq!(decode_path(b"\0"), Some(""));
}

#[test]
fn test_decode_path_rejects_bad_input() {
    // no terminator
    assert_eq!(decode_path(b"abc"), None);
    // terminated, but not valid UTF-8 before the terminator
    assert_eq!(decode_path(&[0x61, 0xff, 0x00]), None);
}

#[test]
fn test_handle_owns_exact_bytes() {
    let handle = Handle::from_bytes(vec![9u8, 8, 7]);
    assert_eq!(handle.len(), 3);
    assert_eq!(handle.byte_at(2), 7);
    let bytes = handle.into_bytes();
    assert_eq!(bytes, vec![9u8, 8, 7]);
}
