//! The source of the bytes that the random instruction consumes.

use vstd::prelude::*;

verus! {

/// Draws one byte from `rand::random`, which samples the thread-local
/// generator that the operating system seeds. Nothing is claimed of the byte:
/// every value of a `u8` can come back. `rand` panics if the operating system
/// cannot seed the generator on the thread's first draw.
#[verifier::external_body]
pub(crate) fn random_byte() -> (byte: u8) {
    rand::random::<u8>()
}

} // verus!
