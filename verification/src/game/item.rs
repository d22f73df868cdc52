//! The bases and the affixes of the game.

use vstd::prelude::*;
use crate::drop_tables::{AffixiveItemBaseTagMap, AffixiveItemTag};
use crate::engine::item::{Affix, AffixiveItemBase, ImplicitIndex, Modifier};
use crate::game::modifiers::GameModifierKind;
use crate::game::{Implicit, Prefix, Suffix};

verus! {

/// Whether an entry is that of a base of the first level with a name, a
/// list of tags and one implicit.
pub open spec fn is_base(
    entry: AffixiveItemBase,
    name: Seq<char>,
    tags: Seq<AffixiveItemTag>,
    implicit: usize,
) -> bool {
    &&& entry.name@ == name
    &&& entry.level == 1
    &&& entry.tags@ == tags
    &&& entry.implicits@ == seq![ImplicitIndex(implicit)]
}

/// Whether an affix has a name and a modifier with a value, and no second
/// modifier.
pub open spec fn is_affix(
    affix: Affix<GameModifierKind>,
    name: Seq<char>,
    kind: GameModifierKind,
    min: i32,
    max: i32,
    actual: i32,
) -> bool {
    &&& affix.name@ == name
    &&& affix.modifier == (Modifier { kind, min, max })
    &&& affix.modifier_actual == actual
    &&& affix.hybrid_modifier.is_none()
    &&& affix.hybrid_modifier_actual == 0
}

/// Whether an affix is that of a bag: it has a name, a base of the
/// inventory and a height of the inventory, both fixed.
pub open spec fn is_bag_affix(
    affix: Affix<GameModifierKind>,
    name: Seq<char>,
    base: i32,
    height: i32,
) -> bool {
    &&& affix.name@ == name
    &&& affix.modifier == (Modifier { kind: GameModifierKind::InventoryBase, min: base, max: base })
    &&& affix.modifier_actual == base
    &&& affix.hybrid_modifier == Some(
        Modifier { kind: GameModifierKind::InventoryHeight, min: height, max: height },
    )
    &&& affix.hybrid_modifier_actual == height
}

/// The tags of what holds the inventory.
pub open spec fn inventory_tags() -> Seq<AffixiveItemTag> {
    seq![AffixiveItemTag::Inventory]
}

/// The tags of what is worn on the feet.
pub open spec fn boot_tags() -> Seq<AffixiveItemTag> {
    seq![AffixiveItemTag::Footwear, AffixiveItemTag::Armor]
}

/// The entry of a base of the first level.
fn base(name: &str, boots: bool, implicit: usize) -> (r: AffixiveItemBase)
    ensures
        is_base(
            r,
            name@,
            if boots {
                boot_tags()
            } else {
                inventory_tags()
            },
            implicit,
        ),
{
    let mut tags: Vec<AffixiveItemTag> = Vec::new();
    if boots {
        tags.push(AffixiveItemTag::Footwear);
        tags.push(AffixiveItemTag::Armor);
        assert(tags@ =~= boot_tags());
    } else {
        tags.push(AffixiveItemTag::Inventory);
        assert(tags@ =~= inventory_tags());
    }
    let mut implicits: Vec<ImplicitIndex> = Vec::new();
    implicits.push(ImplicitIndex(implicit));
    assert(implicits@ =~= seq![ImplicitIndex(implicit)]);
    AffixiveItemBase { name: name.to_string(), level: 1, tags, implicits }
}

/// The affix of a bag.
fn bag_affix(name: &str, base: i32, height: i32) -> (r: Affix<GameModifierKind>)
    ensures
        is_bag_affix(r, name@, base, height),
{
    Affix {
        name: name.to_string(),
        modifier: Modifier { kind: GameModifierKind::InventoryBase, min: base, max: base },
        modifier_actual: base,
        hybrid_modifier: Some(
            Modifier { kind: GameModifierKind::InventoryHeight, min: height, max: height },
        ),
        hybrid_modifier_actual: height,
    }
}

/// A new affix with one modifier.
fn plain_affix(name: &str, kind: GameModifierKind, min: i32, max: i32) -> (r: Affix<
    GameModifierKind,
>)
    ensures
        is_affix(
            r,
            name@,
            kind,
            min,
            max,
            if min == max {
                min
            } else {
                0
            },
        ),
{
    Affix::new(name.to_string(), Modifier { kind, min, max })
}

/// The bases of the game: six that hold the inventory, and sandals.
pub fn initialize_bases() -> (r: Vec<AffixiveItemBase>)
    ensures
        r@.len() == 7,
        is_base(r@[0], "Bag"@, inventory_tags(), 0),
        is_base(r@[1], "Satchel"@, inventory_tags(), 1),
        is_base(r@[2], "Purse"@, inventory_tags(), 2),
        is_base(r@[3], "Backpack"@, inventory_tags(), 3),
        is_base(r@[4], "Rucksack"@, inventory_tags(), 4),
        is_base(r@[5], "Pocket Dimension"@, inventory_tags(), 5),
        is_base(r@[6], "Sandals"@, boot_tags(), 6),
{
    let mut bases: Vec<AffixiveItemBase> = Vec::new();
    bases.push(base("Bag", false, 0));
    bases.push(base("Satchel", false, 1));
    bases.push(base("Purse", false, 2));
    bases.push(base("Backpack", false, 3));
    bases.push(base("Rucksack", false, 4));
    bases.push(base("Pocket Dimension", false, 5));
    bases.push(base("Sandals", true, 6));
    bases
}

/// The implicits of the game: one for each base, in the order of the
/// bases.
pub fn initialize_implicits() -> (r: Vec<Implicit>)
    ensures
        r@.len() == 7,
        is_bag_affix(r@[0].0, "BagInventory"@, 1, 1),
        is_bag_affix(r@[1].0, "SatchelInventory"@, 1, 3),
        is_bag_affix(r@[2].0, "PurseInventory"@, 2, 3),
        is_bag_affix(r@[3].0, "BackpackInventory"@, 3, 3),
        is_bag_affix(r@[4].0, "RucksackInventory"@, 3, 5),
        is_bag_affix(r@[5].0, "PocketDimensionInventory"@, 3, 9),
        is_affix(r@[6].0, "SandalFootwear"@, GameModifierKind::ArmorArmorIncrease, 2, 5, 0),
{
    let mut mods: Vec<Implicit> = Vec::new();
    mods.push(crate::engine::item::Implicit(bag_affix("BagInventory", 1, 1)));
    mods.push(crate::engine::item::Implicit(bag_affix("SatchelInventory", 1, 3)));
    mods.push(crate::engine::item::Implicit(bag_affix("PurseInventory", 2, 3)));
    mods.push(crate::engine::item::Implicit(bag_affix("BackpackInventory", 3, 3)));
    mods.push(crate::engine::item::Implicit(bag_affix("RucksackInventory", 3, 5)));
    mods.push(crate::engine::item::Implicit(bag_affix("PocketDimensionInventory", 3, 9)));
    mods.push(
        crate::engine::item::Implicit(
            plain_affix("SandalFootwear", GameModifierKind::ArmorArmorIncrease, 2, 5),
        ),
    );
    mods
}

/// The suffixes of the game, by the way in which an item is worn.
pub fn initialize_suffixes() -> (r: AffixiveItemBaseTagMap<Vec<Suffix>>)
    ensures
        r.inventory@.len() == 6,
        is_affix(r.inventory@[0].0, "Holding"@, GameModifierKind::InventoryBase, 1, 1, 1),
        is_affix(r.inventory@[1].0, "More Holding"@, GameModifierKind::InventoryBase, 2, 2, 2),
        is_affix(r.inventory@[2].0, "Tiny Pockets"@, GameModifierKind::IncreasedVolume, 8, 15, 0),
        is_affix(r.inventory@[3].0, "Pockets"@, GameModifierKind::IncreasedVolume, 16, 24, 0),
        is_affix(
            r.inventory@[4].0,
            "Large Tiny Pockets"@,
            GameModifierKind::IncreasedVolume,
            25,
            34,
            0,
        ),
        is_affix(
            r.inventory@[5].0,
            "Gargantuan Pockets"@,
            GameModifierKind::IncreasedVolume,
            35,
            45,
            0,
        ),
        r.armor@.len() == 1,
        is_affix(r.armor@[0].0, "Protection 1"@, GameModifierKind::ArmorArmorIncrease, 2, 5, 0),
        r.footwear@.len() == 1,
        is_affix(r.footwear@[0].0, "Speed 1"@, GameModifierKind::FootwearSpeedIncrease, 1, 5, 0),
{
    let mut inventory: Vec<Suffix> = Vec::new();
    inventory.push(
        crate::engine::item::Suffix(plain_affix("Holding", GameModifierKind::InventoryBase, 1, 1)),
    );
    inventory.push(
        crate::engine::item::Suffix(
            plain_affix("More Holding", GameModifierKind::InventoryBase, 2, 2),
        ),
    );
    inventory.push(
        crate::engine::item::Suffix(
            plain_affix("Tiny Pockets", GameModifierKind::IncreasedVolume, 8, 15),
        ),
    );
    inventory.push(
        crate::engine::item::Suffix(
            plain_affix("Pockets", GameModifierKind::IncreasedVolume, 16, 24),
        ),
    );
    inventory.push(
        crate::engine::item::Suffix(
            plain_affix("Large Tiny Pockets", GameModifierKind::IncreasedVolume, 25, 34),
        ),
    );
    inventory.push(
        crate::engine::item::Suffix(
            plain_affix("Gargantuan Pockets", GameModifierKind::IncreasedVolume, 35, 45),
        ),
    );
    let mut armor: Vec<Suffix> = Vec::new();
    armor.push(
        crate::engine::item::Suffix(
            plain_affix("Protection 1", GameModifierKind::ArmorArmorIncrease, 2, 5),
        ),
    );
    let mut footwear: Vec<Suffix> = Vec::new();
    footwear.push(
        crate::engine::item::Suffix(
            plain_affix("Speed 1", GameModifierKind::FootwearSpeedIncrease, 1, 5),
        ),
    );
    AffixiveItemBaseTagMap { inventory, armor, footwear }
}

/// The prefixes of the game, by the way in which an item is worn.
pub fn initialize_prefixes() -> (r: AffixiveItemBaseTagMap<Vec<Prefix>>)
    ensures
        r.inventory@.len() == 4,
        is_affix(r.inventory@[0].0, "Student's"@, GameModifierKind::InventorySkillGain, 1, 25, 0),
        is_affix(r.inventory@[1].0, "Teacher's"@, GameModifierKind::InventorySkillGain, 26, 50, 0),
        is_affix(
            r.inventory@[2].0,
            "Professor's"@,
            GameModifierKind::InventorySkillGain,
            51,
            75,
            0,
        ),
        is_affix(r.inventory@[3].0, "Mentor's"@, GameModifierKind::InventorySkillGain, 76, 100, 0),
        r.armor@.len() == 0,
        r.footwear@.len() == 0,
{
    let mut inventory: Vec<Prefix> = Vec::new();
    inventory.push(
        crate::engine::item::Prefix(
            plain_affix("Student's", GameModifierKind::InventorySkillGain, 1, 25),
        ),
    );
    inventory.push(
        crate::engine::item::Prefix(
            plain_affix("Teacher's", GameModifierKind::InventorySkillGain, 26, 50),
        ),
    );
    inventory.push(
        crate::engine::item::Prefix(
            plain_affix("Professor's", GameModifierKind::InventorySkillGain, 51, 75),
        ),
    );
    inventory.push(
        crate::engine::item::Prefix(
            plain_affix("Mentor's", GameModifierKind::InventorySkillGain, 76, 100),
        ),
    );
    AffixiveItemBaseTagMap { inventory, armor: Vec::new(), footwear: Vec::new() }
}

} // verus!
