//! Criticals: a chance, checked now and then, that an effect works harder
//! for a short while.

use vstd::prelude::*;
use crate::chance::{roll, succeeds};
use crate::fixed::UNIT;

verus! {

/// The chance of a critical, and what it brings.
#[derive(Debug, Clone, Copy)]
pub struct Critical {
    /// The chance that a check succeeds, in millionths.
    pub chance: u64,
    /// The multiplier on the work while the critical lasts, in millionths.
    pub multiplier: u64,
    /// The time for which the critical lasts, in nanoseconds.
    pub time: u64,
}

impl Critical {
    /// An even chance of double work for one second.
    pub fn new() -> (r: Critical)
        ensures
            r.chance == UNIT / 2,
            r.multiplier == 2 * UNIT,
            r.time == 1_000_000_000,
    {
        Critical { chance: 500_000, multiplier: 2_000_000, time: 1_000_000_000 }
    }

    /// Whether a check succeeds on a given roll.
    pub fn check_with(&self, roll: u64) -> (r: bool)
        ensures
            r == succeeds(self.chance, roll),
    {
        roll < self.chance
    }

    /// Checks for a critical on a roll that is drawn for the check.
    pub fn check(&self) -> (r: bool)
        ensures
            self.chance >= UNIT ==> r,
            self.chance == 0 ==> !r,
    {
        let drawn: u64 = roll();
        self.check_with(drawn)
    }
}

} // verus!
