//! What the player's equipment makes of the player's actions.

use vstd::prelude::*;
use crate::action::Action;
use crate::affinity::Affinity;
use crate::fixed::PerSecond;

verus! {

/// The figures of one action.
#[derive(Debug, Clone, Copy)]
pub struct PlayerActionStats {
    /// What the action gains in a second before any multiplier.
    pub base_gain_per_second: PerSecond,
    /// The affinity of the player for the action.
    pub affinity: Affinity,
}

impl PlayerActionStats {
    /// Whether the action gains anything at all.
    pub fn has_base_gain(&self) -> (r: bool)
        ensures
            r == (self.base_gain_per_second.0 != 0),
    {
        self.base_gain_per_second.0 != 0
    }
}

impl Default for PlayerActionStats {
    fn default() -> (r: PlayerActionStats)
        ensures
            r.base_gain_per_second.0 == 0,
            r.affinity.chance == 0,
            r.affinity.multiplier == 0,
            r.affinity.time == 0,
    {
        PlayerActionStats { base_gain_per_second: PerSecond(0), affinity: Affinity::new() }
    }
}

/// The figures of all actions that have any.
#[derive(Debug, Clone, Copy)]
pub struct PlayerActionsStats {
    pub gather_wood: PlayerActionStats,
    pub gather_stone: PlayerActionStats,
    pub hunt: PlayerActionStats,
}

impl PlayerActionsStats {
    /// The figures of an action, if it has any.
    pub open spec fn spec_bonuses(self, action: Action) -> Option<PlayerActionStats> {
        match action {
            Action::GatherWood => Some(self.gather_wood),
            Action::GatherStone => Some(self.gather_stone),
            Action::Hunt => Some(self.hunt),
            _ => None,
        }
    }

    /// The figures of an action, if it has any.
    pub fn get_bonuses(&self, action: Action) -> (r: Option<&PlayerActionStats>)
        ensures
            match r {
                Some(stats) => self.spec_bonuses(action) == Some(*stats),
                None => self.spec_bonuses(action).is_none(),
            },
    {
        match action {
            Action::Explore => None,
            Action::GatherWood => Some(&self.gather_wood),
            Action::GatherStone => Some(&self.gather_stone),
            Action::Hunt => Some(&self.hunt),
            Action::RenderCarcass => None,
            Action::CookMeat => None,
            Action::CreateFollowers => None,
        }
    }
}

impl Default for PlayerActionsStats {
    fn default() -> (r: PlayerActionsStats)
        ensures
            r.gather_wood.base_gain_per_second.0 == 0,
            r.gather_stone.base_gain_per_second.0 == 0,
            r.hunt.base_gain_per_second.0 == 0,
            r.gather_wood.affinity.chance == 0,
            r.gather_stone.affinity.chance == 0,
            r.hunt.affinity.chance == 0,
    {
        PlayerActionsStats {
            gather_wood: PlayerActionStats::default(),
            gather_stone: PlayerActionStats::default(),
            hunt: PlayerActionStats::default(),
        }
    }
}

} // verus!
