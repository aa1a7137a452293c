//! Coin flips from the `rand` crate's thread-local generator.

use vstd::prelude::*;

verus! {

/// One flip of a fair coin: a call of `rand::random` at type `bool`, which
/// draws from the generator of the calling thread. The result is left to
/// chance, so nothing is claimed of it. The call ends the program if the
/// system has no entropy to seed the generator with.
#[verifier::external_body]
fn flip_coin() -> bool {
    rand::random()
}

/// Flips the coin `count` times and gives the flips in the order they fell.
pub fn coin_flips(count: usize) -> (flips: Vec<bool>)
    ensures
        flips@.len() == count,
{
    let mut flips: Vec<bool> = Vec::new();
    let mut i: usize = 0;
    while i < count
        invariant
            i <= count,
            flips@.len() == i,
        decreases count - i,
    {
        flips.push(flip_coin());
        i = i + 1;
    }
    flips
}

} // verus!
