use vstd::prelude::*;

verus! {

/// The error taxonomy of the library. Every fallible operation returns a
/// `Result` carrying one of these; the integer payloads keep the native
/// status code for diagnostics.
#[derive(Debug, Clone, Copy, PartialEq, Eq)]
pub enum Error {
    /// A string argument holds an embedded null byte, so no native call
    /// was possible.
    InvalidArgument,
    /// The native open returned no handle.
    CannotOpen,
    /// The native line write reported the given non-positive status.
    WriteFailed(i32),
    /// The native error indicator was set after a read; the payload is
    /// the indicator's value.
    ReadFailed(i32),
    /// Capturing the stream position failed with the given native status.
    GetPositionFailed(i32),
    /// Restoring a stream position failed with the given native status.
    SetPositionFailed(i32),
    /// The bytes obtained from the stream are not valid UTF-8.
    InvalidEncoding,
}

} // verus!
