use vstd::prelude::*;

verus! {

/// Draws a byte with `rand::random::<u8>()`, which takes it, uniformly
/// distributed, from the generator of the calling thread. Nothing is
/// promised of the value: every byte can come back. The call fails only
/// where the operating system cannot seed that generator.
#[verifier::external_body]
pub(crate) fn random_byte() -> (r: u8) {
    rand::random::<u8>()
}

} // verus!
