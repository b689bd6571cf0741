use rand::Rng;
use vstd::prelude::*;

verus! {

/// One byte from `rand::thread_rng()`, drawn with `Rng::gen`.
///
/// Nothing is claimed of the byte: the generator is seeded by the system,
/// and any of the 256 values may come back. The first call on a thread
/// panics if the system cannot provide the seed.
#[verifier::external_body]
pub(crate) fn random_byte() -> (byte: u8) {
    rand::thread_rng().gen()
}

} // verus!
