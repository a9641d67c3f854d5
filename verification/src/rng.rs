//! Trusted declaration of the one source of randomness the library uses.
use vstd::prelude::*;

verus! {

// Relies on rand::random: draws a value from the thread-local generator
// through the Standard distribution. Nothing can be promised of the result,
// so this has no `ensures`; every caller must work for every outcome.
pub assume_specification<T>[ rand::random::<T> ]() -> (r: T)
    where
        rand::distributions::Standard: rand::distributions::Distribution<T>,
;

} // verus!
