//! The one boundary to an outside source of randomness.
//!
//! Fresh entropy is only ever needed to pick a new seed on request; the
//! animation itself runs on the library's own deterministic generator.

use vstd::prelude::*;

verus! {

/// Relies on `rand::random`: one draw from the thread-local generator of
/// the `rand` crate, used to sample a fresh seed on a reseed request.
/// Nothing can be promised of a random draw, so nothing is: every caller
/// states what holds of every outcome.
pub assume_specification<T>[ rand::random::<T> ]() -> (r: T)
    where
        rand::distributions::Standard: rand::distributions::Distribution<T>,
;

} // verus!
