use vstd::prelude::*;

verus! {

/// Relies on rand::random_range over `0..bound`: it returns a uniformly drawn
/// value of the half-open range, so always below the bound, and panics only
/// on an empty range, which the precondition rules out. The draw depends on a
/// thread-local generator, so nothing more is promised of it.
#[verifier::external_body]
fn random_below(bound: usize) -> (r: usize)
    requires
        bound > 0,
    ensures
        r < bound,
{
    rand::random_range(0..bound)
}

/// Relies on rand::random::<u8>: a uniformly drawn byte. Every `u8` is a
/// possible outcome, so nothing is promised of the value.
#[verifier::external_body]
fn random_byte() -> u8 {
    rand::random::<u8>()
}

/// Draws `count` random picks for the mutation generator: each one an offset
/// below `len` and a replacement byte.
pub fn random_picks(len: usize, count: usize) -> (r: Vec<(usize, u8)>)
    requires
        len > 0,
    ensures
        r@.len() == count,
        forall|i: int| 0 <= i < r@.len() ==> (#[trigger] r@[i]).0 < len,
{
    let mut picks: Vec<(usize, u8)> = Vec::with_capacity(count);
    let mut k: usize = 0;
    while k < count
        invariant
            len > 0,
            k <= count,
            picks@.len() == k,
            forall|i: int| 0 <= i < picks@.len() ==> (#[trigger] picks@[i]).0 < len,
        decreases count - k,
    {
        let offset = random_below(len);
        let value = random_byte();
        picks.push((offset, value));
        k = k + 1;
    }
    picks
}

} // verus!
