//! Affinity: a chance, checked now and then, that the player's work goes
//! faster for a while.

use vstd::prelude::*;
use crate::chance::{roll, succeeds};
use crate::fixed::UNIT;

verus! {

/// The affinity of the player for an action.
#[derive(Debug, Clone, Copy)]
pub struct Affinity {
    /// The chance that a check succeeds, in millionths.
    pub chance: u64,
    /// The multiplier on the work while the affinity lasts, in millionths.
    pub multiplier: u64,
    /// The time for which the affinity lasts, in nanoseconds.
    pub time: u64,
}

impl Affinity {
    /// No affinity: no chance, no multiplier, no time.
    pub fn new() -> (r: Affinity)
        ensures
            r.chance == 0,
            r.multiplier == 0,
            r.time == 0,
    {
        Affinity { chance: 0, multiplier: 0, time: 0 }
    }

    /// Whether a check succeeds on a given roll.
    pub fn check_with(&self, roll: u64) -> (r: bool)
        ensures
            r == succeeds(self.chance, roll),
    {
        roll < self.chance
    }

    /// Checks the affinity on a roll that is drawn for the check.
    pub fn check(&self) -> (r: bool)
        ensures
            self.chance >= UNIT ==> r,
            self.chance == 0 ==> !r,
    {
        let drawn: u64 = roll();
        self.check_with(drawn)
    }
}

impl Default for Affinity {
    fn default() -> (r: Affinity)
        ensures
            r.chance == 0,
            r.multiplier == 0,
            r.time == 0,
    {
        Affinity::new()
    }
}

} // verus!
