//! The random source.
use vstd::prelude::*;

verus! {

/// A byte from the thread-local generator of the `rand` crate, by
/// `rand::random`. Nothing is claimed of the byte: callers hold for every
/// value of it.
#[verifier::external_body]
pub(crate) fn random_byte() -> (byte: u8) {
    rand::random()
}

} // verus!
