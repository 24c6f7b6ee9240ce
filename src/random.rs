use vstd::prelude::*;

verus! {

/// Relies on `std::time::SystemTime::now` and `duration_since`: the time
/// elapsed since the Unix epoch in nanoseconds, or zero for a clock set
/// before it. The value depends on the clock, so nothing is stated of it.
#[verifier::external_body]
fn nanos_since_epoch() -> (r: u128) {
    std::time::SystemTime::now()
        .duration_since(std::time::UNIX_EPOCH)
        .map(|d| d.as_nanos())
        .unwrap_or(0)
}

/// Relies on `std::collections::hash_map::DefaultHasher`: a 64-bit hash of
/// `n`. Its algorithm may change between releases, so nothing is stated of it.
#[verifier::external_body]
fn hash_u128(n: u128) -> (r: u64) {
    let mut hasher = std::collections::hash_map::DefaultHasher::new();
    std::hash::Hash::hash(&n, &mut hasher);
    std::hash::Hasher::finish(&hasher)
}

/// A pseudo-random value drawn from the current time, for simulated work.
/// Nothing is promised of it beyond being built by `T::from` from 64 bits.
pub fn random<T: From<u64>>() -> T {
    T::from(hash_u128(nanos_since_epoch()))
}

} // verus!
