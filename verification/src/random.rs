use vstd::prelude::*;

verus! {

/// A byte from `rand::random`, drawn from the thread-local generator of `rand`.
/// Its value rests on chance: nothing is stated of it beyond its type.
#[verifier::external_body]
pub(crate) fn random_byte() -> (b: u8) {
    rand::random::<u8>()
}

} // verus!
