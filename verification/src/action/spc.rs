//! The effect of the player's own action on the stockyard.

use vstd::prelude::*;
use crate::fixed::{PerSecond, UNIT};
use crate::stock::producer_consumer::{Rates, StockyardProducerConsumer};
use crate::stock::StockKind;

verus! {

/// What the player's action changes, and the affinity that may be in force
/// on it.
#[derive(Debug)]
pub struct PlayerActionSpc {
    has_affinity: bool,
    affinity_multiplier: u64,
    base_changes: Vec<(StockKind, PerSecond)>,
}

/// What a list of changes asks for under a multiplier: of each change that
/// takes from a stock, the amount taken, scaled.
pub open spec fn demands_of(changes: Rates, multiplier: u64) -> Rates
    decreases changes.len(),
{
    if changes.len() == 0 {
        Seq::empty()
    } else if changes.last().1.0 < 0 {
        demands_of(changes.drop_last(), multiplier).push(
            (changes.last().0, changes.last().1.spec_negated().spec_scaled(multiplier)),
        )
    } else {
        demands_of(changes.drop_last(), multiplier)
    }
}

/// What a list of changes makes: each change that does not take from a
/// stock.
pub open spec fn supplies_of(changes: Rates) -> Rates
    decreases changes.len(),
{
    if changes.len() == 0 {
        Seq::empty()
    } else if changes.last().1.0 >= 0 {
        supplies_of(changes.drop_last()).push(changes.last())
    } else {
        supplies_of(changes.drop_last())
    }
}

impl PlayerActionSpc {
    /// Whether an affinity is in force.
    pub closed spec fn has_affinity(self) -> bool {
        self.has_affinity
    }

    /// The multiplier that an affinity brings, in millionths.
    pub closed spec fn multiplier_of_affinity(self) -> u64 {
        self.affinity_multiplier
    }

    /// What the action changes in a second, kind by kind.
    pub closed spec fn changes(self) -> Rates {
        self.base_changes@
    }

    /// The multiplier on the action: that of the affinity while one is in
    /// force, and one otherwise.
    pub open spec fn spec_affinity_multiplier(self) -> u64 {
        if self.has_affinity() {
            self.multiplier_of_affinity()
        } else {
            UNIT
        }
    }

    /// An action that changes nothing.
    pub fn new() -> (r: PlayerActionSpc)
        ensures
            !r.has_affinity(),
            r.multiplier_of_affinity() == 0,
            r.changes().len() == 0,
    {
        PlayerActionSpc { has_affinity: false, affinity_multiplier: 0, base_changes: Vec::new() }
    }

    /// Forgets the changes and the affinity.
    pub fn reset(&mut self)
        ensures
            !final(self).has_affinity(),
            final(self).multiplier_of_affinity() == 0,
            final(self).changes().len() == 0,
    {
        self.has_affinity = false;
        self.affinity_multiplier = 0;
        self.base_changes.clear();
    }

    /// Adds a change of one kind of stock: a gain where the rate is above
    /// zero, a loss where it is below.
    pub fn push_change(&mut self, stock_kind: StockKind, change: PerSecond)
        ensures
            final(self).changes() == old(self).changes().push((stock_kind, change)),
            final(self).has_affinity() == old(self).has_affinity(),
            final(self).multiplier_of_affinity() == old(self).multiplier_of_affinity(),
    {
        self.base_changes.push((stock_kind, change));
    }

    /// Sets the multiplier that an affinity brings.
    pub fn set_affinity_multiplier(&mut self, affinity: u64)
        ensures
            final(self).multiplier_of_affinity() == affinity,
            final(self).has_affinity() == old(self).has_affinity(),
            final(self).changes() == old(self).changes(),
    {
        self.affinity_multiplier = affinity;
    }

    /// Puts the affinity in force.
    pub fn enable_affinity(&mut self)
        ensures
            final(self).has_affinity(),
            final(self).multiplier_of_affinity() == old(self).multiplier_of_affinity(),
            final(self).changes() == old(self).changes(),
    {
        self.has_affinity = true;
    }

    /// Lifts the affinity.
    pub fn disable_affinity(&mut self)
        ensures
            !final(self).has_affinity(),
            final(self).multiplier_of_affinity() == old(self).multiplier_of_affinity(),
            final(self).changes() == old(self).changes(),
    {
        self.has_affinity = false;
    }

    /// The multiplier on the action: that of the affinity while one is in
    /// force, and one otherwise.
    pub fn affinity_multiplier(&self) -> (r: u64)
        ensures
            r == self.spec_affinity_multiplier(),
    {
        if self.has_affinity {
            self.affinity_multiplier
        } else {
            1_000_000
        }
    }

    /// Whether an affinity is in force.
    pub fn affinity_enabled(&self) -> (r: bool)
        ensures
            r == self.has_affinity(),
    {
        self.has_affinity
    }
}

impl Default for PlayerActionSpc {
    fn default() -> (r: PlayerActionSpc)
        ensures
            !r.has_affinity(),
            r.multiplier_of_affinity() == 0,
            r.changes().len() == 0,
    {
        PlayerActionSpc::new()
    }
}

/// The effect of the player's action as it stands before the first tick.
pub fn initialize_action_spc() -> (r: (PlayerActionSpc, StockyardProducerConsumer))
    ensures
        !r.0.has_affinity(),
        r.0.changes().len() == 0,
        r.1.wf(),
        r.1.consumes@.len() == 0,
        r.1.produces@.len() == 0,
        r.0.multiplier_of_affinity() == 0,
        r.0.spec_affinity_multiplier() == UNIT,
        r.1.fulfillment().num() == 0,
        r.1.fulfillment().den() == 1,
        r.1.multiplier().is_none(),
{
    (PlayerActionSpc::default(), StockyardProducerConsumer::default())
}

/// Before consumption: sets what the player's action asks for.
///
/// While the stockyard's gate is open the action asks for what its
/// changes take, scaled by its multiplier. While it is shut the
/// action is held and asks for nothing.
pub fn preconsume(spc: &mut StockyardProducerConsumer, action_spc: &PlayerActionSpc, gate_open: bool)
    ensures
        final(spc).consumes@ == if gate_open {
            demands_of(action_spc.changes(), action_spc.spec_affinity_multiplier())
        } else {
            Seq::empty()
        },
        final(spc).produces == old(spc).produces,
        final(spc).fulfillment() == old(spc).fulfillment(),
        final(spc).multiplier() == old(spc).multiplier(),
{
    spc.consumes.clear();
    if !gate_open {
        return ;
    }
    let multiplier: u64 = action_spc.affinity_multiplier();
    let mut i: usize = 0;
    while i < action_spc.base_changes.len()
        invariant
            i <= action_spc.base_changes.len(),
            multiplier == action_spc.spec_affinity_multiplier(),
            spc.consumes@ == demands_of(action_spc.changes().take(i as int), multiplier),
            spc.produces == old(spc).produces,
            spc.fulfillment() == old(spc).fulfillment(),
            spc.multiplier() == old(spc).multiplier(),
        decreases action_spc.base_changes.len() - i,
    {
        let kind: StockKind = action_spc.base_changes[i].0;
        let change: PerSecond = action_spc.base_changes[i].1;
        proof {
            let changes = action_spc.changes();
            assert(changes.take(i + 1).drop_last() =~= changes.take(i as int));
            assert(changes.take(i + 1).last() == changes[i as int]);
        }
        if change.is_sign_negative() {
            spc.consumes.push((kind, change.negate().scaled(multiplier)));
        }
        i = i + 1;
    }
    proof {
        let changes = action_spc.changes();
        assert(changes.take(changes.len() as int) =~= changes);
    }
}

/// After consumption: sets what the player's action makes, and puts the
/// multiplier of its affinity in force on that while the affinity lasts.
///
/// While the stockyard's gate is shut the action is held and makes
/// nothing.
pub fn postconsume(spc: &mut StockyardProducerConsumer, action_spc: &PlayerActionSpc, gate_open: bool)
    ensures
        final(spc).produces@ == if gate_open {
            supplies_of(action_spc.changes())
        } else {
            Seq::empty()
        },
        final(spc).multiplier() == if action_spc.has_affinity() {
            Some(action_spc.multiplier_of_affinity())
        } else {
            None
        },
        final(spc).consumes == old(spc).consumes,
        final(spc).fulfillment() == old(spc).fulfillment(),
{
    spc.produces.clear();
    if action_spc.has_affinity {
        spc.multiplier = Some(action_spc.affinity_multiplier);
    } else {
        spc.multiplier = None;
    }
    if !gate_open {
        return ;
    }
    let mut i: usize = 0;
    while i < action_spc.base_changes.len()
        invariant
            i <= action_spc.base_changes.len(),
            spc.produces@ == supplies_of(action_spc.changes().take(i as int)),
            spc.consumes == old(spc).consumes,
            spc.fulfillment() == old(spc).fulfillment(),
            spc.multiplier() == if action_spc.has_affinity() {
                Some(action_spc.multiplier_of_affinity())
            } else {
                None
            },
        decreases action_spc.base_changes.len() - i,
    {
        let kind: StockKind = action_spc.base_changes[i].0;
        let change: PerSecond = action_spc.base_changes[i].1;
        proof {
            let changes = action_spc.changes();
            assert(changes.take(i + 1).drop_last() =~= changes.take(i as int));
            assert(changes.take(i + 1).last() == changes[i as int]);
        }
        if change.is_sign_positive() {
            spc.produces.push((kind, change));
        }
        i = i + 1;
    }
    proof {
        let changes = action_spc.changes();
        assert(changes.take(changes.len() as int) =~= changes);
    }
}

/// What the player's action changes in a second with its multiplier
/// applied.
pub fn changes_per_second(player_action_modifier: &PlayerActionSpc) -> (r: Vec<(StockKind, PerSecond)>)
    ensures
        r@.len() == player_action_modifier.changes().len(),
        forall|i: int|
            0 <= i < r@.len() ==> (#[trigger] r@[i]).0 == player_action_modifier.changes()[i].0
                && r@[i].1 == if player_action_modifier.has_affinity() {
                player_action_modifier.changes()[i].1.spec_scaled(
                    player_action_modifier.multiplier_of_affinity(),
                )
            } else {
                player_action_modifier.changes()[i].1
            },
{
    let mut out: Vec<(StockKind, PerSecond)> = Vec::new();
    let mut i: usize = 0;
    while i < player_action_modifier.base_changes.len()
        invariant
            i <= player_action_modifier.base_changes.len(),
            out@.len() == i,
            forall|k: int|
                0 <= k < i ==> (#[trigger] out@[k]).0 == player_action_modifier.changes()[k].0
                    && out@[k].1 == if player_action_modifier.has_affinity() {
                    player_action_modifier.changes()[k].1.spec_scaled(
                        player_action_modifier.multiplier_of_affinity(),
                    )
                } else {
                    player_action_modifier.changes()[k].1
                },
        decreases player_action_modifier.base_changes.len() - i,
    {
        let kind: StockKind = player_action_modifier.base_changes[i].0;
        let change: PerSecond = player_action_modifier.base_changes[i].1;
        if player_action_modifier.has_affinity {
            out.push((kind, change.scaled(player_action_modifier.affinity_multiplier)));
        } else {
            out.push((kind, change));
        }
        i = i + 1;
    }
    out
}

} // verus!
