//! The system's random source.

use rand::RngCore;
use vstd::prelude::*;

verus! {

#[verifier::external_type_specification]
#[verifier::external_body]
pub struct ExRandomError(rand::Error);

/// Calls `OsRng::try_fill_bytes` on the buffer. Trusted: nothing of what
/// the buffer then holds; two calls may differ, and the call fails where the
/// operating system gives no random bytes.
#[verifier::external_body]
pub(crate) fn fill_from_os(buffer: &mut [u8; 32]) -> (r: Result<(), rand::Error>) {
    rand::rngs::OsRng.try_fill_bytes(buffer)
}

} // verus!
