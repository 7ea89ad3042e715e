//! The interpreter's only outside call: the random byte consumed by the
//! random-mask instruction.

use vstd::prelude::*;

verus! {

/// Relies on `rand::random::<u8>`: one byte from the thread-local
/// generator, uniform over 0..=255. Nothing can be promised of a random
/// value, so the caller's contract holds whatever byte comes back.
#[verifier::external_body]
pub(crate) fn random_byte() -> u8 {
    rand::random::<u8>()
}

} // verus!
