use cfile::cstr::c_string_bytes;
use cfile::errors::Error;
use cfile::handle::{open_outcome, open_request, write_line_outcome};

#[test]
fn c_string_bytes_appends_one_terminator() {
    let r = c_string_bytes("hello").unwrap();
    assert_eq!(r, b"hello\0".to_vec());
}

#[test]
fn c_string_bytes_of_empty_text_is_just_the_terminator() {
    let r = c_string_bytes("").unwrap();
    assert_eq!(r, vec![0u8]);
}

#[test]
fn c_string_bytes_rejects_embedded_null() {
    let r = c_string_bytes("a\0b");
    assert_eq!(r, Err(Error::InvalidArgument));
}

#[test]
fn open_request_yields_both_native_strings() {
    let (path, mode) = open_request("hello.txt", "r").unwrap();
    assert_eq!(path, b"hello.txt\0".to_vec());
    assert_eq!(mode, b"r\0".to_vec());
}

#[test]
fn open_request_rejects_null_in_path() {
    assert_eq!(open_request("he\0llo.txt", "r"), Err(Error::InvalidArgument));
}

#[test]
fn open_request_rejects_null_in_mode() {
    assert_eq!(open_request("hello.txt", "r\0"), Err(Error::InvalidArgument));
}

#[test]
fn open_outcome_translates_a_null_handle() {
    assert_eq!(open_outcome(true), Err(Error::CannotOpen));
    assert_eq!(open_outcome(false), Ok(()));
}

#[test]
fn write_line_outcome_demands_a_positive_status() {
    assert_eq!(write_line_outcome(1), Ok(()));
    assert_eq!(write_line_outcome(42), Ok(()));
    assert_eq!(write_line_outcome(0), Err(Error::WriteFailed(0)));
    assert_eq!(write_line_outcome(-3), Err(Error::WriteFailed(-3)));
}
