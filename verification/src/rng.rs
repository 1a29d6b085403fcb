//! Trusted access to the process random number generator.

use rand::seq::SliceRandom;
use rand::Rng;
use vstd::prelude::*;

use crate::models::Song;

verus! {

/// Relies on rand's `Rng::gen_range`: returns a value drawn from `[0, bound)`.
/// `gen_range` panics on an empty range, so a positive bound is required.
#[verifier::external_body]
pub(crate) fn random_below(bound: u32) -> (r: u32)
    requires
        bound > 0,
    ensures
        r < bound,
{
    rand::thread_rng().gen_range(0..bound)
}

/// Relies on rand's `SliceRandom::shuffle`: reorders the slice in place by
/// Fisher-Yates swaps, so the elements afterwards are a permutation of the
/// elements before.
#[verifier::external_body]
pub(crate) fn shuffle_songs(songs: &mut Vec<Song>)
    ensures
        final(songs)@.len() == old(songs)@.len(),
        final(songs)@.to_multiset() == old(songs)@.to_multiset(),
{
    songs.shuffle(&mut rand::thread_rng());
}

} // verus!
