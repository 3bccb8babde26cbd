use vstd::prelude::*;
use vstd::utf8::{decode_utf8, encode_utf8, valid_utf8};
use crate::cstr::{c_string_bytes, c_string_of, has_nul};
use crate::errors::Error;
use crate::pos::wrapped_fpos;

verus! {

// ---------------------------------------------------------------------
// Opening a stream
// ---------------------------------------------------------------------

/// What `open` hands to the native open call: the two null-terminated
/// byte strings for path and mode. A path or mode with an embedded null
/// byte is rejected as `InvalidArgument` before any native call is made.
pub fn open_request(path: &str, mode: &str) -> (r: Result<(Vec<u8>, Vec<u8>), Error>)
    ensures
        r is Ok <==> !has_nul(encode_utf8(path@)) && !has_nul(encode_utf8(mode@)),
        r matches Ok(pm) ==> pm.0@ == c_string_of(path@) && pm.1@ == c_string_of(mode@),
        r matches Err(e) ==> e == Error::InvalidArgument,
{
    let p = match c_string_bytes(path) {
        Ok(b) => b,
        Err(e) => {
            return Err(e);
        },
    };
    let m = match c_string_bytes(mode) {
        Ok(b) => b,
        Err(e) => {
            return Err(e);
        },
    };
    Ok((p, m))
}

/// The typed outcome of the native open call: a handle is owed exactly
/// when the call produced one; a null result is `CannotOpen`.
pub fn open_outcome(handle_is_null: bool) -> (r: Result<(), Error>)
    ensures
        r is Ok <==> !handle_is_null,
        r matches Err(e) ==> e == Error::CannotOpen,
{
    if handle_is_null {
        Err(Error::CannotOpen)
    } else {
        Ok(())
    }
}

// ---------------------------------------------------------------------
// Writing a line
// ---------------------------------------------------------------------

/// The typed outcome of the native line write, which reports success
/// with a positive status and failure with any other.
pub fn write_line_outcome(status: i32) -> (r: Result<(), Error>)
    ensures
        r is Ok <==> status > 0,
        r matches Err(e) ==> e == Error::WriteFailed(status),
{
    if status > 0 {
        Ok(())
    } else {
        Err(Error::WriteFailed(status))
    }
}

// ---------------------------------------------------------------------
// Reading a line
// ---------------------------------------------------------------------

/// True when `i` is the index of the first null byte in `buf`.
pub open spec fn is_first_nul(buf: Seq<u8>, i: int) -> bool {
    &&& 0 <= i < buf.len()
    &&& buf[i] == 0u8
    &&& forall|j: int| 0 <= j < i ==> buf[j] != 0u8
}

/// The index of the first null byte in `buf`; meaningful when `buf`
/// holds one at all.
pub open spec fn first_nul(buf: Seq<u8>) -> int {
    choose|i: int| is_first_nul(buf, i)
}

/// The text portion of a native line-read buffer: the bytes before the
/// first null terminator.
pub open spec fn line_prefix(buf: Seq<u8>) -> Seq<u8>
    recommends
        has_nul(buf),
{
    buf.subrange(0, first_nul(buf))
}

/// The first null byte's index is well defined: any index that qualifies
/// is the one `first_nul` denotes.
pub proof fn lemma_first_nul(buf: Seq<u8>, i: int)
    requires
        is_first_nul(buf, i),
    ensures
        first_nul(buf) == i,
{
    let k = first_nul(buf);
    assert(is_first_nul(buf, k));
    if k < i {
        assert(buf[k] != 0u8);
    } else if i < k {
        assert(buf[i] != 0u8);
    }
}

/// Interprets a finished native line read. The native convention reports
/// error and end of file out of band, so the indicators sampled after the
/// call come in as arguments: a set error indicator is `ReadFailed`;
/// otherwise the bytes before the buffer's first null terminator are the
/// line, decoded as UTF-8, and the end-of-file indicator is passed on.
/// A buffer with no terminator at all would mean the native layer broke
/// its own bounds; that is a contract violation, not an error value, and
/// is excluded here.
pub fn read_line_outcome(buf: Vec<u8>, err_code: i32, at_eof: bool) -> (r: Result<(String, bool), Error>)
    requires
        err_code == 0 ==> has_nul(buf@),
    ensures
        err_code != 0 ==> (r matches Err(e) && e == Error::ReadFailed(err_code)),
        err_code == 0 ==> (r is Ok <==> valid_utf8(line_prefix(buf@))),
        err_code == 0 ==> (r matches Ok(p) ==> p.0@ == decode_utf8(line_prefix(buf@)) && p.1 == at_eof),
        err_code == 0 ==> (r matches Err(e) ==> e == Error::InvalidEncoding),
{
    if err_code != 0 {
        return Err(Error::ReadFailed(err_code));
    }
    let mut line = buf;
    let mut i: usize = 0;
    while i < line.len() && line[i] != 0
        invariant
            line@ == buf@,
            i <= buf@.len(),
            forall|j: int| 0 <= j < i ==> buf@[j] != 0u8,
            has_nul(buf@),
        decreases buf@.len() - i,
    {
        i = i + 1;
    }
    proof {
        if i == buf@.len() {
            let w = choose|w: int| 0 <= w < buf@.len() && buf@[w] == 0u8;
            assert(buf@[w] != 0u8);
        }
        assert(is_first_nul(buf@, i as int));
        lemma_first_nul(buf@, i as int);
    }
    line.truncate(i);
    match utf8_string(line) {
        Some(text) => Ok((text, at_eof)),
        None => Err(Error::InvalidEncoding),
    }
}

/// Relies on `String::from_utf8`: it succeeds exactly on input that is
/// valid UTF-8, and the characters of the resulting text are the ones
/// those bytes encode.
#[verifier::external_body]
fn utf8_string(bytes: Vec<u8>) -> (r: Option<String>)
    ensures
        r is Some <==> valid_utf8(bytes@),
        r matches Some(s) ==> s@ == decode_utf8(bytes@),
{
    String::from_utf8(bytes).ok()
}

// ---------------------------------------------------------------------
// Delimiter-bounded reads from a bookmark
// ---------------------------------------------------------------------

/// The typed outcome of the native seek to a bookmark: any non-zero
/// status (a bookmark from another stream among the causes) is
/// `SetPositionFailed`.
pub fn seek_outcome(status: i32) -> (r: Result<(), Error>)
    ensures
        r is Ok <==> status == 0,
        r matches Err(e) ==> e == Error::SetPositionFailed(status),
{
    if status == 0 {
        Ok(())
    } else {
        Err(Error::SetPositionFailed(status))
    }
}

/// One step of a delimiter-bounded read, after one native byte read with
/// the two indicators sampled: an indicator that is set ends the read
/// with nothing kept (the byte is then a sentinel, not data); otherwise
/// the byte is kept, and the read goes on unless the byte was the
/// delimiter.
pub fn read_until_step(acc: &mut Vec<u8>, byte: u8, err: bool, eof: bool, delimiter: u8) -> (go_on: bool)
    ensures
        err || eof ==> final(acc)@ == old(acc)@ && !go_on,
        !(err || eof) ==> final(acc)@ == old(acc)@.push(byte) && (go_on <==> byte != delimiter),
{
    if err || eof {
        false
    } else {
        acc.push(byte);
        byte != delimiter
    }
}

/// The bytes a delimiter-bounded read accumulates from the stream
/// content that lies ahead of its start position: every byte up to and
/// including the first delimiter, or all of `content` when the delimiter
/// never occurs.
pub open spec fn read_until_bytes(content: Seq<u8>, delimiter: u8) -> Seq<u8>
    decreases content.len(),
{
    if content.len() == 0 {
        Seq::empty()
    } else if content[0] == delimiter {
        seq![delimiter]
    } else {
        seq![content[0]] + read_until_bytes(content.subrange(1, content.len() as int), delimiter)
    }
}

/// Whether that read ends by exhausting the stream rather than at the
/// delimiter; the native end-of-file indicator is set exactly then.
pub open spec fn read_until_hits_end(content: Seq<u8>, delimiter: u8) -> bool {
    !content.contains(delimiter)
}

/// Law: where the delimiter never occurs ahead of the start position, a
/// delimiter-bounded read accumulates all remaining bytes and runs into
/// the end of the stream.
pub proof fn lemma_read_until_exhausts(content: Seq<u8>, delimiter: u8)
    requires
        !content.contains(delimiter),
    ensures
        read_until_bytes(content, delimiter) == content,
        read_until_hits_end(content, delimiter),
    decreases content.len(),
{
    if content.len() > 0 {
        assert(content[0] != delimiter);
        let rest = content.subrange(1, content.len() as int);
        assert forall|j: int| 0 <= j < rest.len() implies rest[j] != delimiter by {
            assert(rest[j] == content[j + 1]);
        }
        lemma_read_until_exhausts(rest, delimiter);
    }
    assert(read_until_bytes(content, delimiter) =~= content);
}

/// Law: where the delimiter first occurs at offset `k` of the content
/// ahead of the start position, a delimiter-bounded read accumulates
/// exactly the first `k + 1` bytes, the delimiter included, and does not
/// run into the end of the stream.
pub proof fn lemma_read_until_delimiter(content: Seq<u8>, delimiter: u8, k: int)
    requires
        0 <= k < content.len(),
        content[k] == delimiter,
        forall|j: int| 0 <= j < k ==> content[j] != delimiter,
    ensures
        read_until_bytes(content, delimiter) == content.subrange(0, k + 1),
        !read_until_hits_end(content, delimiter),
    decreases k,
{
    assert(content.contains(delimiter));
    if k == 0 {
        assert(read_until_bytes(content, delimiter) =~= content.subrange(0, 1));
    } else {
        assert(content[0] != delimiter);
        let rest = content.subrange(1, content.len() as int);
        assert(rest[k - 1] == delimiter);
        assert forall|j: int| 0 <= j < k - 1 implies rest[j] != delimiter by {
            assert(rest[j] == content[j + 1]);
        }
        lemma_read_until_delimiter(rest, delimiter, k - 1);
        assert(read_until_bytes(content, delimiter) =~= content.subrange(0, k + 1));
    }
}

/// Interprets a finished delimiter-bounded read: a set error indicator is
/// `ReadFailed`; otherwise the accumulated bytes are decoded as UTF-8 and
/// the end-of-file indicator is passed on.
pub fn read_until_outcome(acc: Vec<u8>, err_code: i32, at_eof: bool) -> (r: Result<(String, bool), Error>)
    ensures
        err_code != 0 ==> (r matches Err(e) && e == Error::ReadFailed(err_code)),
        err_code == 0 ==> (r is Ok <==> valid_utf8(acc@)),
        err_code == 0 ==> (r matches Ok(p) ==> p.0@ == decode_utf8(acc@) && p.1 == at_eof),
        err_code == 0 ==> (r matches Err(e) ==> e == Error::InvalidEncoding),
{
    if err_code != 0 {
        return Err(Error::ReadFailed(err_code));
    }
    match utf8_string(acc) {
        Some(text) => Ok((text, at_eof)),
        None => Err(Error::InvalidEncoding),
    }
}

// ---------------------------------------------------------------------
// Capturing the stream position
// ---------------------------------------------------------------------

/// The typed outcome of capturing the stream position: on native success
/// the bookmark owns exactly the record bytes the native call produced;
/// any other status is `GetPositionFailed`.
pub fn position_outcome(status: i32, record: Vec<u8>) -> (r: Result<wrapped_fpos, Error>)
    ensures
        r is Ok <==> status == 0,
        r matches Ok(t) ==> t@ == record@,
        r matches Err(e) ==> e == Error::GetPositionFailed(status),
{
    if status == 0 {
        Ok(wrapped_fpos::new(record))
    } else {
        Err(Error::GetPositionFailed(status))
    }
}

// ---------------------------------------------------------------------
// Laws across operations
// ---------------------------------------------------------------------

/// Law: a line without an embedded null byte survives the round trip
/// through the native layer. Writing it hands the native call
/// `c_string_of(line)`, so the stream gains exactly the line's UTF-8
/// bytes; a line read whose buffer then holds those bytes with the
/// read's own terminator appended decodes back to exactly `line`.
pub proof fn lemma_write_read_round_trip(line: Seq<char>)
    requires
        !has_nul(encode_utf8(line)),
    ensures
        has_nul(c_string_of(line)),
        valid_utf8(line_prefix(c_string_of(line))),
        decode_utf8(line_prefix(c_string_of(line))) == line,
{
    broadcast use vstd::utf8::encode_utf8_valid_utf8;
    broadcast use vstd::utf8::encode_utf8_decode_utf8;

    let buf = c_string_of(line);
    let n = encode_utf8(line).len() as int;
    assert(buf[n] == 0u8);
    assert forall|j: int| 0 <= j < n implies buf[j] != 0u8 by {
        assert(buf[j] == encode_utf8(line)[j]);
    }
    assert(is_first_nul(buf, n));
    lemma_first_nul(buf, n);
    assert(line_prefix(buf) =~= encode_utf8(line));
}

} // verus!

