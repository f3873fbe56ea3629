//! The source of random bytes.

use vstd::prelude::*;

verus! {

/// Calls `rand::random::<u8>()`, which draws a byte from the thread's
/// generator. Nothing is claimed of the byte: every value may come. The
/// generator is seeded from the operating system, and the call panics
/// where the system hands out no seed; no argument decides that, so no
/// precondition can leave it out.
#[verifier::external_body]
pub(crate) fn random_byte() -> (byte: u8) {
    rand::random::<u8>()
}

} // verus!
