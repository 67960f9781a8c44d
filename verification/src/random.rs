use vstd::prelude::*;

verus! {

/// Calls `rand::random::<u8>()`, a byte drawn from the thread-local
/// generator of `rand`. Every byte can come back, so nothing is stated of
/// it; `rand` panics only when the operating system's entropy source cannot
/// be read to seed that generator.
#[verifier::external_body]
pub(crate) fn random_u8() -> u8 {
    rand::random::<u8>()
}

/// Calls `rand::random::<u64>()`, a 64-bit word drawn from the thread-local
/// generator of `rand`. Every value can come back, so nothing is stated of
/// it; `rand` panics only when the operating system's entropy source cannot
/// be read to seed that generator.
#[verifier::external_body]
pub(crate) fn random_u64() -> u64 {
    rand::random::<u64>()
}

} // verus!
