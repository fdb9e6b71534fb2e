//! Random draws for procedural generation.
use vstd::prelude::*;

verus! {

/// Relies on `rand::random` (rand 0.8): it returns a value drawn from the
/// thread-local generator. Nothing is known of the value, so nothing is
/// promised of it.
pub assume_specification<T>[ rand::random::<T> ]() -> (r: T)
    where
        rand::distributions::Standard: rand::distributions::Distribution<T>,
;

/// A uniformly drawn `u32`; callers reduce it into the range they need.
pub fn random_u32() -> (r: u32) {
    rand::random::<u32>()
}

} // verus!
