use vstd::prelude::*;
use vstd::string::StringSliceAdditionalSpecFns;
use vstd::utf8::encode_utf8;
use crate::errors::Error;

verus! {

/// True when the byte sequence holds a null byte somewhere.
pub open spec fn has_nul(bytes: Seq<u8>) -> bool {
    exists|i: int| 0 <= i < bytes.len() && bytes[i] == 0u8
}

/// The byte string a native call is handed for the text `s`: its UTF-8
/// bytes followed by one terminating null byte.
pub open spec fn c_string_of(s: Seq<char>) -> Seq<u8> {
    encode_utf8(s).push(0u8)
}

/// Builds the null-terminated byte form of `s` for a native call.
/// A text with an embedded null byte cannot be represented this way and
/// is rejected as `InvalidArgument` before any native call can see it.
pub fn c_string_bytes(s: &str) -> (r: Result<Vec<u8>, Error>)
    ensures
        r is Ok <==> !has_nul(encode_utf8(s@)),
        r matches Ok(b) ==> b@ == c_string_of(s@),
        r matches Err(e) ==> e == Error::InvalidArgument,
{
    let bytes: &[u8] = s.as_bytes();
    let mut out: Vec<u8> = Vec::new();
    let mut i: usize = 0;
    while i < bytes.len()
        invariant
            bytes@ == s.spec_bytes(),
            i <= bytes@.len(),
            out@ == bytes@.subrange(0, i as int),
            forall|j: int| 0 <= j < i ==> bytes@[j] != 0u8,
        decreases bytes@.len() - i,
    {
        if bytes[i] == 0 {
            return Err(Error::InvalidArgument);
        }
        out.push(bytes[i]);
        i = i + 1;
    }
    out.push(0);
    proof {
        assert(out@ =~= c_string_of(s@));
    }
    Ok(out)
}

} // verus!
