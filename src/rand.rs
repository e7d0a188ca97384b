//! The decisions around a request for random bytes from the backend's
//! generator: whether the buffer may be handed over at all, the length the
//! backend is told, and what its return code means.
use vstd::prelude::*;

verus! {

/// The most bytes that one request may ask for: the backend takes the
/// length as a C `int`.
pub open spec fn max_request() -> int {
    i32::MAX as int
}

/// Whether a buffer of `len` bytes can be filled by one request. A longer
/// buffer is a caller's error, not a backend failure.
pub fn len_within_limit(len: usize) -> (r: bool)
    ensures
        r == (len as int <= max_request()),
{
    len <= i32::MAX as usize
}

/// The length that the backend is told for a buffer of `len` bytes.
pub fn request_len(len: usize) -> (r: i32)
    requires
        len as int <= max_request(),
    ensures
        r as int == len as int,
{
    len as i32
}

/// Whether a backend return code reports success: the backend reports
/// failure by a code of zero or less, and leaves its reasons on the error
/// queue.
pub fn status_ok(ret: i32) -> (r: bool)
    ensures
        r == (ret > 0),
{
    ret > 0
}

} // verus!
