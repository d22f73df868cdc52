//! Draws of chance.

use vstd::prelude::*;
use crate::fixed::UNIT;

verus! {

/// Draws a number below `bound` with `rand::random_range`, from the random
/// number generator of the running thread.
///
/// The generator gives a number at or above the start of the range and
/// below its end, and fails on an empty range. Nothing else is known of
/// the number drawn.
#[verifier::external_body]
pub(crate) fn random_below(bound: u64) -> (r: u64)
    requires
        bound > 0,
    ensures
        r < bound,
{
    rand::random_range(0..bound)
}

/// Draws a roll: a number of millionths below one.
pub fn roll() -> (r: u64)
    ensures
        r < UNIT,
{
    random_below(UNIT)
}

/// Whether a roll succeeds against a chance given in millionths: it does
/// where it lies below the chance.
pub open spec fn succeeds(chance: u64, roll: u64) -> bool {
    roll < chance
}

/// A chance of one or more always succeeds, and a chance of nothing never
/// does.
pub proof fn lemma_certain_and_impossible(chance: u64, roll: u64)
    requires
        roll < UNIT,
    ensures
        chance >= UNIT ==> succeeds(chance, roll),
        chance == 0 ==> !succeeds(chance, roll),
{
}

/// Draws a whole number from `low` to `high`, both included.
pub fn random_between(low: i32, high: i32) -> (r: i32)
    requires
        low <= high,
    ensures
        low <= r <= high,
{
    let span: u64 = (high as i64 - low as i64) as u64 + 1;
    let draw: u64 = random_below(span);
    counted_from(low, draw)
}

/// Draws a place in a list of `len` items.
pub fn random_index(len: usize) -> (r: usize)
    requires
        len > 0,
    ensures
        r < len,
{
    random_below(len as u64) as usize
}

/// The whole number that lies `draw` above `low`: what a draw below the
/// width of a range picks from the range that starts at `low`.
pub fn counted_from(low: i32, draw: u64) -> (r: i32)
    requires
        low + draw <= i32::MAX,
    ensures
        r == low + draw,
{
    (low as i64 + draw as i64) as i32
}

} // verus!
