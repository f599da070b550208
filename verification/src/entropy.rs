//! The source of the bytes that the random-number instruction draws.

use vstd::prelude::*;

verus! {

/// A byte from `rand::random`, which samples the thread-local generator of
/// the `rand` crate. Nothing is claimed of the value: callers are verified
/// for every byte.
#[verifier::external_body]
pub(crate) fn random_byte() -> (byte: u8) {
    rand::random::<u8>()
}

} // verus!
