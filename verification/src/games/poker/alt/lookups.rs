use vstd::prelude::*;

verus! {

/// The prime of each rank, by weight: deuce first, ace last.
pub const PRIMES: [u8; 13] = [2, 3, 5, 7, 11, 13, 17, 19, 23, 29, 31, 37, 41];

} // verus!
