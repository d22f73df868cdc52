//! What the items that the player wears make of the player's actions.

use vstd::prelude::*;
use crate::affinity::Affinity;
use crate::fixed::PerSecond;
use crate::item::item_slot::ItemSlot;
use crate::item::modifier::{Modifier, ModifierKind, ModifierValue};
use crate::stats::{PlayerActionStats, PlayerActionsStats};
use crate::stats_builder::StatsBuilder;

verus! {

/// The player has put an item on.
#[derive(Debug, Clone, Copy)]
pub struct Equipped {
    /// The place of the slot that took the item.
    pub slot: usize,
}

/// The figures of the player's actions in the making.
#[derive(Debug, Clone, Copy)]
pub struct Gear {
    pub base_wood: StatsBuilder,
    pub wood_affinity_chance: StatsBuilder,
    pub wood_affinity_multiplier: StatsBuilder,
    pub wood_affinity_time: StatsBuilder,
    pub base_stone: StatsBuilder,
    pub stone_affinity_chance: StatsBuilder,
    pub stone_affinity_multiplier: StatsBuilder,
    pub stone_affinity_time: StatsBuilder,
    pub base_hunt: StatsBuilder,
}

/// The figures before any item counts: an affinity has an even chance,
/// doubles the work and lasts a second, once it has a base.
pub open spec fn starting_gear() -> Gear {
    Gear {
        base_wood: StatsBuilder::spec_default(),
        wood_affinity_chance: StatsBuilder::spec_default().with_offset(500_000),
        wood_affinity_multiplier: StatsBuilder::spec_default().with_offset(2_000_000),
        wood_affinity_time: StatsBuilder::spec_default().with_offset(1_000_000),
        base_stone: StatsBuilder::spec_default(),
        stone_affinity_chance: StatsBuilder::spec_default().with_offset(500_000),
        stone_affinity_multiplier: StatsBuilder::spec_default().with_offset(2_000_000),
        stone_affinity_time: StatsBuilder::spec_default().with_offset(1_000_000),
        base_hunt: StatsBuilder::spec_default(),
    }
}

/// A value in hundredths as a number of millionths.
pub open spec fn from_hundredths(value: ModifierValue) -> i64 {
    (value * 10_000) as i64
}

/// The figures with one more modifier counted.
pub open spec fn with_modifier(gear: Gear, kind: ModifierKind, value: ModifierValue) -> Gear {
    match kind {
        ModifierKind::WoodBase => Gear {
            base_wood: gear.base_wood.with_base(from_hundredths(value)),
            ..gear
        },
        ModifierKind::WoodBaseGain => Gear {
            base_wood: gear.base_wood.with_offset(from_hundredths(value)),
            ..gear
        },
        ModifierKind::WoodMultiplier => Gear {
            base_wood: gear.base_wood.with_multiplier_percent(value),
            ..gear
        },
        ModifierKind::WoodAffinityChanceMultiplier => Gear {
            wood_affinity_chance: gear.wood_affinity_chance.with_multiplier_percent(value),
            ..gear
        },
        ModifierKind::WoodAffinityMultiplier => Gear {
            wood_affinity_multiplier: gear.wood_affinity_multiplier.with_multiplier_percent(value),
            ..gear
        },
        ModifierKind::WoodAffinityTimeMultiplier => Gear {
            wood_affinity_time: gear.wood_affinity_time.with_multiplier_percent(value),
            ..gear
        },
        ModifierKind::StoneBase => Gear {
            base_stone: gear.base_stone.with_base(from_hundredths(value)),
            ..gear
        },
        ModifierKind::StoneBaseGain => Gear {
            base_stone: gear.base_stone.with_offset(from_hundredths(value)),
            ..gear
        },
        ModifierKind::StoneMultiplier => Gear {
            base_stone: gear.base_stone.with_multiplier_percent(value),
            ..gear
        },
        ModifierKind::StoneAffinityChanceMultiplier => Gear {
            stone_affinity_chance: gear.stone_affinity_chance.with_multiplier_percent(value),
            ..gear
        },
        ModifierKind::StoneAffinityMultiplier => Gear {
            stone_affinity_multiplier: gear.stone_affinity_multiplier.with_multiplier_percent(
                value,
            ),
            ..gear
        },
        ModifierKind::StoneAffinityTimeMultiplier => Gear {
            stone_affinity_time: gear.stone_affinity_time.with_multiplier_percent(value),
            ..gear
        },
        ModifierKind::ToolAffinityChanceMultiplier => Gear {
            wood_affinity_chance: gear.wood_affinity_chance.with_multiplier_percent(value),
            stone_affinity_chance: gear.stone_affinity_chance.with_multiplier_percent(value),
            ..gear
        },
    }
}

/// The figures with a list of modifiers counted, one after the other.
pub open spec fn with_modifiers(gear: Gear, modifiers: Seq<(Modifier, ModifierValue)>) -> Gear
    decreases modifiers.len(),
{
    if modifiers.len() == 0 {
        gear
    } else {
        with_modifier(
            with_modifiers(gear, modifiers.drop_last()),
            modifiers.last().0.kind,
            modifiers.last().1,
        )
    }
}

/// The figures with the modifiers of the items in a list of slots counted,
/// slot by slot.
pub open spec fn with_slots(gear: Gear, slots: Seq<ItemSlot>) -> Gear
    decreases slots.len(),
{
    if slots.len() == 0 {
        gear
    } else {
        with_modifiers(with_slots(gear, slots.drop_last()), slots.last().spec_modifiers())
    }
}

/// A figure as an amount: nothing where it is below zero.
pub open spec fn amount_of(figure: i64) -> u64 {
    if figure < 0 {
        0
    } else {
        figure as u64
    }
}

/// A figure in millionths of a second as a time in nanoseconds, held to
/// the longest time that can be counted.
pub open spec fn nanos_of(figure: i64) -> u64 {
    if amount_of(figure) * 1000 > u64::MAX {
        u64::MAX
    } else {
        (amount_of(figure) * 1000) as u64
    }
}

/// The figures of the player's actions as built. The affinity for
/// hunting, which no item changes, is that of the figures before.
pub open spec fn gear_stats(gear: Gear, before: PlayerActionsStats) -> PlayerActionsStats {
    PlayerActionsStats {
        gather_wood: PlayerActionStats {
            base_gain_per_second: PerSecond(gear.base_wood.spec_calculate()),
            affinity: Affinity {
                chance: amount_of(gear.wood_affinity_chance.spec_calculate()),
                multiplier: amount_of(gear.wood_affinity_multiplier.spec_calculate()),
                time: nanos_of(gear.wood_affinity_time.spec_calculate()),
            },
        },
        gather_stone: PlayerActionStats {
            base_gain_per_second: PerSecond(gear.base_stone.spec_calculate()),
            affinity: Affinity {
                chance: amount_of(gear.stone_affinity_chance.spec_calculate()),
                multiplier: amount_of(gear.stone_affinity_multiplier.spec_calculate()),
                time: nanos_of(gear.stone_affinity_time.spec_calculate()),
            },
        },
        hunt: PlayerActionStats {
            base_gain_per_second: PerSecond(gear.base_hunt.spec_calculate()),
            affinity: before.hunt.affinity,
        },
    }
}

/// A figure as an amount.
fn to_amount(figure: i64) -> (r: u64)
    ensures
        r == amount_of(figure),
{
    if figure < 0 {
        0
    } else {
        figure as u64
    }
}

/// A figure in millionths of a second as a time in nanoseconds.
fn to_nanos(figure: i64) -> (r: u64)
    ensures
        r == nanos_of(figure),
{
    let micros: u64 = to_amount(figure);
    if micros > u64::MAX / 1000 {
        u64::MAX
    } else {
        micros * 1000
    }
}

/// The figures before any item counts.
fn new_gear() -> (r: Gear)
    ensures
        r == starting_gear(),
{
    let mut wood_affinity_chance = StatsBuilder::default();
    let mut wood_affinity_multiplier = StatsBuilder::default();
    let mut wood_affinity_time = StatsBuilder::default();
    let mut stone_affinity_chance = StatsBuilder::default();
    let mut stone_affinity_multiplier = StatsBuilder::default();
    let mut stone_affinity_time = StatsBuilder::default();
    wood_affinity_chance.add_offset(500_000);
    wood_affinity_multiplier.add_offset(2_000_000);
    wood_affinity_time.add_offset(1_000_000);
    stone_affinity_chance.add_offset(500_000);
    stone_affinity_multiplier.add_offset(2_000_000);
    stone_affinity_time.add_offset(1_000_000);
    Gear {
        base_wood: StatsBuilder::default(),
        wood_affinity_chance,
        wood_affinity_multiplier,
        wood_affinity_time,
        base_stone: StatsBuilder::default(),
        stone_affinity_chance,
        stone_affinity_multiplier,
        stone_affinity_time,
        base_hunt: StatsBuilder::default(),
    }
}

/// Counts one more modifier.
fn count_modifier(gear: &mut Gear, kind: ModifierKind, value: ModifierValue)
    ensures
        *final(gear) == with_modifier(*old(gear), kind, value),
{
    let wide: i64 = value as i64;
    let units: i64 = wide * 10_000;
    match kind {
        ModifierKind::WoodBase => {
            gear.base_wood.set_base(units);
        },
        ModifierKind::WoodBaseGain => {
            gear.base_wood.add_offset(units);
        },
        ModifierKind::WoodMultiplier => {
            gear.base_wood.add_multiplier_percent(value);
        },
        ModifierKind::WoodAffinityChanceMultiplier => {
            gear.wood_affinity_chance.add_multiplier_percent(value);
        },
        ModifierKind::WoodAffinityMultiplier => {
            gear.wood_affinity_multiplier.add_multiplier_percent(value);
        },
        ModifierKind::WoodAffinityTimeMultiplier => {
            gear.wood_affinity_time.add_multiplier_percent(value);
        },
        ModifierKind::StoneBase => {
            gear.base_stone.set_base(units);
        },
        ModifierKind::StoneBaseGain => {
            gear.base_stone.add_offset(units);
        },
        ModifierKind::StoneMultiplier => {
            gear.base_stone.add_multiplier_percent(value);
        },
        ModifierKind::StoneAffinityChanceMultiplier => {
            gear.stone_affinity_chance.add_multiplier_percent(value);
        },
        ModifierKind::StoneAffinityMultiplier => {
            gear.stone_affinity_multiplier.add_multiplier_percent(value);
        },
        ModifierKind::StoneAffinityTimeMultiplier => {
            gear.stone_affinity_time.add_multiplier_percent(value);
        },
        ModifierKind::ToolAffinityChanceMultiplier => {
            gear.wood_affinity_chance.add_multiplier_percent(value);
            gear.stone_affinity_chance.add_multiplier_percent(value);
        },
    }
}

/// Works out the figures of the player's actions from the items in the
/// slots.
///
/// The base of an action is the highest base among the items; gains are
/// added to it and multipliers are summed. The affinity for gathering has
/// an even chance, doubles the work and lasts a second before multipliers,
/// and counts for nothing as long as nothing gives it a base.
pub fn on_equip(player_actions_stats: &mut PlayerActionsStats, slots: &Vec<ItemSlot>)
    ensures
        *final(player_actions_stats) == gear_stats(
            with_slots(starting_gear(), slots@),
            *old(player_actions_stats),
        ),
{
    let mut gear: Gear = new_gear();
    let mut s: usize = 0;
    while s < slots.len()
        invariant
            s <= slots.len(),
            gear == with_slots(starting_gear(), slots@.take(s as int)),
        decreases slots.len() - s,
    {
        let modifiers: Vec<(Modifier, ModifierValue)> = slots[s].modifiers();
        let ghost before = gear;
        let mut m: usize = 0;
        while m < modifiers.len()
            invariant
                m <= modifiers.len(),
                gear == with_modifiers(before, modifiers@.take(m as int)),
            decreases modifiers.len() - m,
        {
            proof {
                assert(modifiers@.take(m + 1).drop_last() =~= modifiers@.take(m as int));
                assert(modifiers@.take(m + 1).last() == modifiers@[m as int]);
            }
            count_modifier(&mut gear, modifiers[m].0.kind, modifiers[m].1);
            m = m + 1;
        }
        proof {
            assert(modifiers@.take(modifiers.len() as int) =~= modifiers@);
            assert(slots@.take(s + 1).drop_last() =~= slots@.take(s as int));
            assert(slots@.take(s + 1).last() == slots@[s as int]);
        }
        s = s + 1;
    }
    proof {
        assert(slots@.take(slots.len() as int) =~= slots@);
    }
    player_actions_stats.gather_wood.base_gain_per_second = PerSecond(gear.base_wood.calculate());
    player_actions_stats.gather_wood.affinity = Affinity {
        chance: to_amount(gear.wood_affinity_chance.calculate()),
        multiplier: to_amount(gear.wood_affinity_multiplier.calculate()),
        time: to_nanos(gear.wood_affinity_time.calculate()),
    };
    player_actions_stats.gather_stone.base_gain_per_second = PerSecond(
        gear.base_stone.calculate(),
    );
    player_actions_stats.gather_stone.affinity = Affinity {
        chance: to_amount(gear.stone_affinity_chance.calculate()),
        multiplier: to_amount(gear.stone_affinity_multiplier.calculate()),
        time: to_nanos(gear.stone_affinity_time.calculate()),
    };
    player_actions_stats.hunt.base_gain_per_second = PerSecond(gear.base_hunt.calculate());
}

} // verus!
