use vstd::prelude::*;

verus! {

/// An opaque native stream-position record, held as its raw bytes.
/// The native layer treats the bytes as an implementation-defined marker;
/// this crate never interprets them, it only owns and copies them.
#[allow(non_camel_case_types)]
pub struct fpos_t {
    pub bytes: Vec<u8>,
}

impl View for fpos_t {
    type V = Seq<u8>;

    open spec fn view(&self) -> Seq<u8> {
        self.bytes@
    }
}

/// An owned position bookmark: exactly one independently owned native
/// position record. A bookmark is only meaningful for the stream it was
/// captured from; handing it to another stream is a caller error that the
/// native layer reports through its seek status.
#[allow(non_camel_case_types)]
pub struct wrapped_fpos {
    pos: fpos_t,
}

impl View for wrapped_fpos {
    type V = Seq<u8>;

    closed spec fn view(&self) -> Seq<u8> {
        self.pos@
    }
}

impl wrapped_fpos {
    /// Takes ownership of the raw bytes of one captured position record.
    pub fn new(bytes: Vec<u8>) -> (r: Self)
        ensures
            r@ == bytes@,
    {
        wrapped_fpos { pos: fpos_t { bytes } }
    }

    /// The position record, for a native call that reads it.
    pub fn as_ptr(&self) -> (r: &fpos_t)
        ensures
            r@ == self@,
    {
        &self.pos
    }

    /// The position record, for a native call that fills it in place.
    pub fn as_mut_ptr(&mut self) -> (r: &mut fpos_t)
        ensures
            r@ == old(self)@,
            final(self)@ == final(r)@,
    {
        &mut self.pos
    }
}

impl Clone for wrapped_fpos {
    /// A deep copy: the new bookmark owns an independent record holding
    /// the same bytes.
    fn clone(&self) -> (r: Self)
        ensures
            r@ == self@,
    {
        let copy = vstd::slice::slice_to_vec(self.pos.bytes.as_slice());
        wrapped_fpos { pos: fpos_t { bytes: copy } }
    }
}

} // verus!
