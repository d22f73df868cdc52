//! The player: the slots, and what the items in them add up to.

use vstd::prelude::*;
use crate::drop_tables::AffixiveItemTag;
use crate::engine::item::{AffixiveItemBase, Modifier, ModifierValue};
use crate::fixed::clamp_to_rate;
use crate::game::modifiers::GameModifierKind;
use crate::game::{AffixiveItem, ItemSlot};
use crate::item::item_slot::SwapFailReason;

verus! {

/// The player of the game.
#[derive(Debug)]
pub struct Player {
    pub slot_inventory: ItemSlot,
    pub slot_footwear: ItemSlot,
    /// The volume of the inventory, in hundredths.
    pub inventory_volume: i64,
    pub inventory_skill_gain_percent: i32,
    /// The speed of travel as a multiple of the plain speed, in hundredths.
    pub speed_multiplier: i64,
    pub armor: i32,
    pub level: u8,
}

/// A list of modifiers with their values.
pub type Modifiers = Seq<(Modifier<GameModifierKind>, ModifierValue)>;

/// What the modifiers of a kind in a list add up to.
pub open spec fn bonus(modifiers: Modifiers, kind: GameModifierKind) -> int
    decreases modifiers.len(),
{
    if modifiers.len() == 0 {
        0
    } else {
        bonus(modifiers.drop_last(), kind) + if modifiers.last().0.kind == kind {
            modifiers.last().1 as int
        } else {
            0
        }
    }
}

/// A sum held to the values that a modifier can have.
pub open spec fn held(sum: int) -> int {
    if sum > i32::MAX {
        i32::MAX as int
    } else if sum < i32::MIN {
        i32::MIN as int
    } else {
        sum
    }
}

/// The volume of the inventory in hundredths: its base times its height,
/// both three before any bonus, raised by the bonus on the volume in
/// hundredths.
pub open spec fn volume_of(modifiers: Modifiers) -> int {
    (3 + held(bonus(modifiers, GameModifierKind::InventoryBase))) * (3 + held(
        bonus(modifiers, GameModifierKind::InventoryHeight),
    )) * (100 + held(bonus(modifiers, GameModifierKind::IncreasedVolume)))
}

/// What the modifiers of each kind add up to, as far as they are counted.
struct Tally {
    base: i128,
    height: i128,
    volume: i128,
    skill: i128,
    armor: i128,
    speed: i128,
}

impl Tally {
    /// Whether the sums are those of a list of modifiers.
    spec fn counts(self, modifiers: Modifiers) -> bool {
        &&& self.base == bonus(modifiers, GameModifierKind::InventoryBase)
        &&& self.height == bonus(modifiers, GameModifierKind::InventoryHeight)
        &&& self.volume == bonus(modifiers, GameModifierKind::IncreasedVolume)
        &&& self.skill == bonus(modifiers, GameModifierKind::InventorySkillGain)
        &&& self.armor == bonus(modifiers, GameModifierKind::ArmorArmorIncrease)
        &&& self.speed == bonus(modifiers, GameModifierKind::FootwearSpeedIncrease)
    }

    /// Whether no sum is beyond what `count` modifiers can add up to.
    spec fn within(self, count: int) -> bool {
        &&& -count * 0x8000_0000 <= self.base <= count * 0x8000_0000
        &&& -count * 0x8000_0000 <= self.height <= count * 0x8000_0000
        &&& -count * 0x8000_0000 <= self.volume <= count * 0x8000_0000
        &&& -count * 0x8000_0000 <= self.skill <= count * 0x8000_0000
        &&& -count * 0x8000_0000 <= self.armor <= count * 0x8000_0000
        &&& -count * 0x8000_0000 <= self.speed <= count * 0x8000_0000
    }
}

/// A sum held to the values that a modifier can have.
fn hold(sum: i128) -> (r: i32)
    ensures
        r == held(sum as int),
{
    if sum > 0x7FFF_FFFF {
        i32::MAX
    } else if sum < -0x8000_0000 {
        i32::MIN
    } else {
        sum as i32
    }
}

/// Counts the modifiers of a list on top of those counted before.
fn tally(sums: &mut Tally, modifiers: &Vec<(Modifier<GameModifierKind>, ModifierValue)>, Ghost(
    before,
): Ghost<Modifiers>)
    requires
        old(sums).counts(before),
        old(sums).within(before.len() as int),
        before.len() <= 0x1_0000_0000_0000_0000,
    ensures
        final(sums).counts(before + modifiers@),
        final(sums).within((before.len() + modifiers@.len()) as int),
{
    let mut i: usize = 0;
    while i < modifiers.len()
        invariant
            i <= modifiers.len(),
            before.len() <= 0x1_0000_0000_0000_0000,
            sums.counts(before + modifiers@.take(i as int)),
            sums.within((before.len() + i) as int),
        decreases modifiers.len() - i,
    {
        let kind: GameModifierKind = modifiers[i].0.kind;
        let value: i128 = modifiers[i].1 as i128;
        proof {
            let longer = before + modifiers@.take(i + 1);
            assert(longer.drop_last() =~= before + modifiers@.take(i as int));
            assert(longer.last() == modifiers@[i as int]);
        }
        match kind {
            GameModifierKind::InventoryBase => {
                sums.base = sums.base + value;
            },
            GameModifierKind::InventoryHeight => {
                sums.height = sums.height + value;
            },
            GameModifierKind::IncreasedVolume => {
                sums.volume = sums.volume + value;
            },
            GameModifierKind::InventorySkillGain => {
                sums.skill = sums.skill + value;
            },
            GameModifierKind::ArmorArmorIncrease => {
                sums.armor = sums.armor + value;
            },
            GameModifierKind::FootwearSpeedIncrease => {
                sums.speed = sums.speed + value;
            },
        }
        i = i + 1;
    }
    proof {
        assert(modifiers@.take(modifiers.len() as int) =~= modifiers@);
    }
}

impl Player {
    /// The modifiers of the items that the player wears: those of what
    /// holds the inventory, then those of what is worn on the feet.
    pub open spec fn worn(self) -> Modifiers {
        self.slot_inventory.spec_modifiers() + self.slot_footwear.spec_modifiers()
    }

    /// Whether the figures of the player are those of the items in the
    /// slots.
    pub open spec fn figures_match(self, modifiers: Modifiers) -> bool {
        &&& self.inventory_volume == crate::fixed::clamp_rate(volume_of(modifiers))
        &&& self.inventory_skill_gain_percent == held(
            bonus(modifiers, GameModifierKind::InventorySkillGain),
        )
        &&& self.speed_multiplier == 100 + held(
            bonus(modifiers, GameModifierKind::FootwearSpeedIncrease),
        )
        &&& self.armor == held(bonus(modifiers, GameModifierKind::ArmorArmorIncrease))
    }

    /// The slot that takes an item, and why none does if none does: the
    /// slot for the feet is asked first, then that for the inventory; a
    /// slot that is of the wrong kind is passed over, and any other
    /// objection ends the search.
    pub open spec fn spec_slot_for(self, item: AffixiveItem, bases: Seq<AffixiveItemBase>) -> Result<
        AffixiveItemTag,
        SwapFailReason,
    > {
        match self.slot_footwear.spec_can_hold(item, bases) {
            Ok(()) => Ok(AffixiveItemTag::Footwear),
            Err(SwapFailReason::NotEquippableInSlot) => match self.slot_inventory.spec_can_hold(
                item,
                bases,
            ) {
                Ok(()) => Ok(AffixiveItemTag::Inventory),
                Err(reason) => Err(reason),
            },
            Err(reason) => Err(reason),
        }
    }

    /// A player of the first level with empty slots and an inventory of
    /// three by three.
    pub fn new() -> (r: Player)
        ensures
            r.slot_inventory.item.is_none(),
            r.slot_inventory.slot_kind == AffixiveItemTag::Inventory,
            r.slot_inventory.level == 1,
            r.slot_footwear.item.is_none(),
            r.slot_footwear.slot_kind == AffixiveItemTag::Footwear,
            r.slot_footwear.level == 1,
            r.inventory_volume == 900,
            r.inventory_skill_gain_percent == 0,
            r.speed_multiplier == 100,
            r.armor == 0,
            r.level == 1,
    {
        Player {
            slot_inventory: ItemSlot::new(AffixiveItemTag::Inventory, 1),
            slot_footwear: ItemSlot::new(AffixiveItemTag::Footwear, 1),
            inventory_volume: 900,
            inventory_skill_gain_percent: 0,
            speed_multiplier: 100,
            armor: 0,
            level: 1,
        }
    }

    /// Puts an item into the first slot that takes it, works the figures
    /// out anew, and gives back what was in that slot. Where no slot takes
    /// the item nothing changes and the item is gone.
    pub fn try_equipping(&mut self, replacement_item: AffixiveItem, bases: &Vec<AffixiveItemBase>) -> (r:
        Result<Option<AffixiveItem>, SwapFailReason>)
        requires
            replacement_item.base_ix.0 < bases@.len(),
        ensures
            final(self).level == old(self).level,
            final(self).slot_inventory.slot_kind == old(self).slot_inventory.slot_kind,
            final(self).slot_inventory.level == old(self).slot_inventory.level,
            final(self).slot_footwear.slot_kind == old(self).slot_footwear.slot_kind,
            final(self).slot_footwear.level == old(self).slot_footwear.level,
            match old(self).spec_slot_for(replacement_item, bases@) {
                Ok(AffixiveItemTag::Footwear) => {
                    &&& r == Ok::<Option<AffixiveItem>, SwapFailReason>(old(self).slot_footwear.item)
                    &&& final(self).slot_footwear.item == Some(replacement_item)
                    &&& final(self).slot_inventory.item == old(self).slot_inventory.item
                    &&& final(self).figures_match(final(self).worn())
                },
                Ok(_) => {
                    &&& r == Ok::<Option<AffixiveItem>, SwapFailReason>(
                        old(self).slot_inventory.item,
                    )
                    &&& final(self).slot_inventory.item == Some(replacement_item)
                    &&& final(self).slot_footwear.item == old(self).slot_footwear.item
                    &&& final(self).figures_match(final(self).worn())
                },
                Err(reason) => {
                    &&& r == Err::<Option<AffixiveItem>, SwapFailReason>(reason)
                    &&& *final(self) == *old(self)
                },
            },
    {
        match self.slot_footwear.can_hold(&replacement_item, bases) {
            Ok(()) => {
                let replaced = self.slot_footwear.replace_item(Some(replacement_item));
                self.recalculate_bonuses();
                Ok(replaced)
            },
            Err(SwapFailReason::NotEquippableInSlot) => {
                match self.slot_inventory.can_hold(&replacement_item, bases) {
                    Ok(()) => {
                        let replaced = self.slot_inventory.replace_item(Some(replacement_item));
                        self.recalculate_bonuses();
                        Ok(replaced)
                    },
                    Err(reason) => Err(reason),
                }
            },
            Err(reason) => Err(reason),
        }
    }

    /// Works the figures of the player out from the items in the slots.
    pub fn recalculate_bonuses(&mut self)
        ensures
            final(self).figures_match(old(self).worn()),
            final(self).slot_inventory == old(self).slot_inventory,
            final(self).slot_footwear == old(self).slot_footwear,
            final(self).level == old(self).level,
    {
        let mut sums = Tally { base: 0, height: 0, volume: 0, skill: 0, armor: 0, speed: 0 };
        let carried = self.slot_inventory.modifiers();
        let ghost none: Modifiers = Seq::empty();
        tally(&mut sums, &carried, Ghost(none));
        let ghost first = carried@;
        let counted: usize = carried.len();
        proof {
            assert(none + first =~= first);
            assert(first.len() == counted);
        }
        let worn = self.slot_footwear.modifiers();
        tally(&mut sums, &worn, Ghost(first));
        let base: i128 = 3 + hold(sums.base) as i128;
        let height: i128 = 3 + hold(sums.height) as i128;
        let raised: i128 = 100 + hold(sums.volume) as i128;
        assert(-0x1_0000_0000 * 0x1_0000_0000 <= base * height <= 0x1_0000_0000 * 0x1_0000_0000)
            by (nonlinear_arith)
            requires
                -0x1_0000_0000 <= base <= 0x1_0000_0000,
                -0x1_0000_0000 <= height <= 0x1_0000_0000,
        ;
        let area: i128 = base * height;
        assert(-0x1_0000_0000_0000_0000 * 0x1_0000_0000 <= area * raised
            <= 0x1_0000_0000_0000_0000 * 0x1_0000_0000) by (nonlinear_arith)
            requires
                -0x1_0000_0000_0000_0000 <= area <= 0x1_0000_0000_0000_0000,
                -0x1_0000_0000 <= raised <= 0x1_0000_0000,
        ;
        self.inventory_volume = clamp_to_rate(area * raised);
        self.inventory_skill_gain_percent = hold(sums.skill);
        self.speed_multiplier = 100 + hold(sums.speed) as i64;
        self.armor = hold(sums.armor);
    }

    /// The volume of the inventory in whole units: nothing for a volume
    /// below zero, and no more than can be counted.
    pub fn get_inventory_volume(&self) -> (r: u32)
        ensures
            r == if self.inventory_volume < 0 {
                0
            } else if self.inventory_volume / 100 > u32::MAX {
                u32::MAX as int
            } else {
                self.inventory_volume / 100
            },
    {
        if self.inventory_volume < 0 {
            0
        } else {
            let whole: i64 = self.inventory_volume / 100;
            if whole > 0xFFFF_FFFF {
                u32::MAX
            } else {
                whole as u32
            }
        }
    }
}

impl Default for Player {
    fn default() -> (r: Player)
        ensures
            r.slot_inventory.item.is_none(),
            r.slot_footwear.item.is_none(),
            r.inventory_volume == 900,
            r.inventory_skill_gain_percent == 0,
            r.speed_multiplier == 100,
            r.armor == 0,
            r.level == 1,
    {
        Player::new()
    }
}

} // verus!
