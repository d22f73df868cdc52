use incremental_affix::drop_tables::{AffixiveItemBaseIndex, AffixiveItemTag};
use incremental_affix::engine::item::{
    Affix, AffixiveItem, Modifier, ModifierKind, Prefix, PushAffixError, Quality, Suffix,
};
use incremental_affix::engine::item_slot::{contains_tag, ItemSlot};
use incremental_affix::game::item::{
    initialize_bases, initialize_implicits, initialize_prefixes, initialize_suffixes,
};
use incremental_affix::game::modifiers::GameModifierKind;
use incremental_affix::game::player::Player;
use incremental_affix::item::item_slot::SwapFailReason;

type Item = AffixiveItem<GameModifierKind>;

fn item_of(base: usize, quality: Quality) -> Item {
    AffixiveItem::new(&initialize_bases(), &initialize_implicits(), AffixiveItemBaseIndex(base), quality)
}

fn affix(name: &str, kind: GameModifierKind, value: i32) -> Affix<GameModifierKind> {
    Affix::new(name.to_string(), Modifier { kind, min: value, max: value })
}

#[test]
fn modifiers_of_the_game_read_as_the_player_sees_them() {
    assert_eq!(GameModifierKind::InventoryBase.display_actual(2), "+2 Inventory Base");
    assert_eq!(GameModifierKind::InventoryHeight.display_actual(3), "+3 Inventory Height");
    assert_eq!(GameModifierKind::IncreasedVolume.display_actual(15), "+15% Increased Volume");
    assert_eq!(
        GameModifierKind::InventorySkillGain.display_actual(25),
        "Skills in inventory gain 25% of earned experience"
    );
    assert_eq!(GameModifierKind::ArmorArmorIncrease.display_actual(4), "+4 Armor");
    assert_eq!(GameModifierKind::FootwearSpeedIncrease.display_actual(-1), "--1 Travel Speed");
    assert_eq!(GameModifierKind::ArmorArmorIncrease.display_actual(0), "-0 Armor");
}

#[test]
fn bases_and_affixes_of_the_game() {
    let bases = initialize_bases();
    let names: Vec<&str> = bases.iter().map(|base| base.name.as_str()).collect();
    assert_eq!(
        names,
        vec!["Bag", "Satchel", "Purse", "Backpack", "Rucksack", "Pocket Dimension", "Sandals"]
    );
    for (place, base) in bases.iter().enumerate() {
        assert_eq!(base.level, 1);
        assert_eq!(base.implicits.len(), 1);
        assert_eq!(base.implicits[0].0, place);
    }
    assert_eq!(bases[0].tags, vec![AffixiveItemTag::Inventory]);
    assert_eq!(bases[6].tags, vec![AffixiveItemTag::Footwear, AffixiveItemTag::Armor]);
    let implicits = initialize_implicits();
    assert_eq!(implicits.len(), 7);
    assert_eq!(implicits[4].0.name, "RucksackInventory");
    assert_eq!(implicits[4].0.modifier_actual, 3);
    assert_eq!(implicits[4].0.hybrid_modifier_actual, 5);
    assert_eq!(implicits[4].0.hybrid_modifier.unwrap().kind, GameModifierKind::InventoryHeight);
    assert_eq!(implicits[6].0.modifier.kind, GameModifierKind::ArmorArmorIncrease);
    assert_eq!((implicits[6].0.modifier.min, implicits[6].0.modifier.max), (2, 5));
    assert_eq!(implicits[6].0.modifier_actual, 0);
    let suffixes = initialize_suffixes();
    assert_eq!(suffixes.inventory.len(), 6);
    assert_eq!(suffixes.inventory[1].0.name, "More Holding");
    assert_eq!(suffixes.inventory[1].0.modifier_actual, 2);
    assert_eq!(suffixes.inventory[5].0.modifier.max, 45);
    assert_eq!(suffixes.armor[0].0.name, "Protection 1");
    assert_eq!(suffixes.footwear[0].0.modifier.kind, GameModifierKind::FootwearSpeedIncrease);
    let prefixes = initialize_prefixes();
    assert_eq!(prefixes.inventory.len(), 4);
    assert_eq!(prefixes.inventory[3].0.name, "Mentor's");
    assert_eq!((prefixes.inventory[3].0.modifier.min, prefixes.inventory[3].0.modifier.max), (76, 100));
    assert!(prefixes.armor.is_empty());
    assert!(prefixes.footwear.is_empty());
}

#[test]
fn item_of_the_game_reads_as_the_player_sees_it() {
    let bases = initialize_bases();
    let mut purse = item_of(2, Quality::Quality(1));
    assert_eq!(purse.name(&bases), "Purse");
    assert_eq!(purse.level(&bases), 1);
    assert_eq!(
        purse.display(&bases),
        "~Purse~\n===\n+2 Inventory Base\n+3 Inventory Height\n===\n"
    );
    let pockets = Suffix(affix("Pockets", GameModifierKind::IncreasedVolume, 20));
    assert_eq!(purse.try_push_suffix(pockets.clone()), Ok(()));
    assert_eq!(purse.try_push_suffix(pockets), Err(PushAffixError::AffixiveItemQualityTooLow));
    let students = Prefix(affix("Student's", GameModifierKind::InventorySkillGain, 10));
    assert_eq!(purse.try_push_prefix(students.clone()), Ok(()));
    assert_eq!(purse.try_push_prefix(students.clone()), Err(PushAffixError::AffixiveItemQualityTooLow));
    assert_eq!(
        purse.display(&bases),
        "~Purse~\n===\n+2 Inventory Base\n+3 Inventory Height\n===\nSkills in inventory gain 10% of earned experience\n+20% Increased Volume\n===\n"
    );
    let kinds: Vec<(GameModifierKind, i32)> =
        purse.modifiers().iter().map(|(modifier, value)| (modifier.kind, *value)).collect();
    assert_eq!(
        kinds,
        vec![
            (GameModifierKind::InventoryBase, 2),
            (GameModifierKind::InventoryHeight, 3),
            (GameModifierKind::InventorySkillGain, 10),
            (GameModifierKind::IncreasedVolume, 20),
        ]
    );
    let mut artifact = item_of(0, Quality::FixedArtifact);
    assert_eq!(artifact.try_push_prefix(students.clone()), Err(PushAffixError::AffixiveItemIsFixed));
    assert_eq!(artifact.display(&bases), "Artifact: Bag\n===\n+1 Inventory Base\n+1 Inventory Height\n===\n");
    let mut odd = item_of(0, Quality::Quality(-1));
    assert_eq!(odd.try_push_prefix(students), Ok(()));
    assert!(odd.display(&bases).starts_with("Bag\n"));
}

#[test]
fn sandals_get_their_armor_by_chance() {
    for _ in 0..100 {
        let sandals = item_of(6, Quality::Quality(0));
        assert!((2..=5).contains(&sandals.implicits[0].modifier_actual));
        assert_eq!(sandals.tags, vec![AffixiveItemTag::Footwear, AffixiveItemTag::Armor]);
    }
}

#[test]
fn slot_of_the_game_takes_items_of_its_kind_and_level() {
    let mut bases = initialize_bases();
    let bag = item_of(0, Quality::Quality(0));
    let mut inventory: ItemSlot<GameModifierKind> = ItemSlot::new(AffixiveItemTag::Inventory, 1);
    let feet: ItemSlot<GameModifierKind> = ItemSlot::new(AffixiveItemTag::Footwear, 1);
    assert_eq!(inventory.can_hold(&bag, &bases), Ok(()));
    assert_eq!(feet.can_hold(&bag, &bases), Err(SwapFailReason::NotEquippableInSlot));
    bases[0].level = 2;
    assert_eq!(inventory.can_hold(&bag, &bases), Err(SwapFailReason::TooHighLevel));
    assert!(inventory.replace_item(Some(bag)).is_none());
    assert_eq!(inventory.modifiers().len(), 2);
    assert!(inventory.replace_item(None).is_some());
    assert!(contains_tag(&vec![AffixiveItemTag::Armor], AffixiveItemTag::Armor));
    assert!(!contains_tag(&vec![AffixiveItemTag::Armor], AffixiveItemTag::Inventory));
}

#[test]
fn player_starts_with_an_inventory_of_three_by_three() {
    let player = Player::new();
    assert_eq!(player.get_inventory_volume(), 9);
    assert_eq!(player.inventory_volume, 900);
    assert_eq!(player.speed_multiplier, 100);
    assert_eq!(player.armor, 0);
    assert_eq!(player.level, 1);
    assert_eq!(Player::default().inventory_skill_gain_percent, 0);
}

#[test]
fn player_wears_a_rucksack_and_sandals() {
    let bases = initialize_bases();
    let mut player = Player::new();
    let mut rucksack = item_of(4, Quality::Quality(2));
    assert_eq!(
        rucksack.try_push_suffix(Suffix(affix("Pockets", GameModifierKind::IncreasedVolume, 20))),
        Ok(())
    );
    assert_eq!(
        rucksack.try_push_prefix(Prefix(affix("Student's", GameModifierKind::InventorySkillGain, 12))),
        Ok(())
    );
    assert!(matches!(player.try_equipping(rucksack, &bases), Ok(None)));
    // Six by eight, and a fifth more.
    assert_eq!(player.inventory_volume, 5_760);
    assert_eq!(player.get_inventory_volume(), 57);
    assert_eq!(player.inventory_skill_gain_percent, 12);
    let mut sandals = item_of(6, Quality::Quality(1));
    sandals.implicits[0].set_actual(4, 0);
    assert_eq!(
        sandals.try_push_suffix(Suffix(affix("Speed 1", GameModifierKind::FootwearSpeedIncrease, 3))),
        Ok(())
    );
    assert!(matches!(player.try_equipping(sandals, &bases), Ok(None)));
    assert_eq!(player.armor, 4);
    assert_eq!(player.speed_multiplier, 103);
    assert_eq!(player.inventory_volume, 5_760);
    let bag = item_of(0, Quality::Quality(0));
    let replaced = player.try_equipping(bag, &bases);
    match replaced {
        Ok(Some(old)) => assert_eq!(old.name(&bases), "Rucksack"),
        _ => panic!("the rucksack should come back"),
    }
    assert_eq!(player.get_inventory_volume(), 16);
    assert_eq!(player.inventory_skill_gain_percent, 0);
    assert_eq!(player.armor, 4);
}

#[test]
fn player_cannot_wear_what_is_above_the_level_or_of_no_kind() {
    let mut bases = initialize_bases();
    let mut player = Player::new();
    bases[6].level = 5;
    let sandals = item_of(6, Quality::Quality(0));
    assert!(matches!(player.try_equipping(sandals, &bases), Err(SwapFailReason::TooHighLevel)));
    bases[0].level = 5;
    let bag = item_of(0, Quality::Quality(0));
    assert!(matches!(player.try_equipping(bag, &bases), Err(SwapFailReason::TooHighLevel)));
    let mut armor = item_of(1, Quality::Quality(0));
    armor.tags = vec![AffixiveItemTag::Armor];
    assert!(matches!(
        player.try_equipping(armor, &bases),
        Err(SwapFailReason::NotEquippableInSlot)
    ));
    assert!(player.slot_inventory.item.is_none());
    assert!(player.slot_footwear.item.is_none());
    assert_eq!(player.get_inventory_volume(), 9);
}

#[test]
fn inventory_cannot_be_less_than_nothing() {
    let bases = initialize_bases();
    let mut player = Player::new();
    let mut bag = item_of(0, Quality::Quality(1));
    assert_eq!(
        bag.try_push_suffix(Suffix(affix("Holes", GameModifierKind::IncreasedVolume, -250))),
        Ok(())
    );
    assert!(matches!(player.try_equipping(bag, &bases), Ok(None)));
    assert_eq!(player.inventory_volume, 4 * 4 * -150);
    assert_eq!(player.get_inventory_volume(), 0);
    player.inventory_volume = i64::MAX;
    assert_eq!(player.get_inventory_volume(), u32::MAX);
    player.recalculate_bonuses();
    assert_eq!(player.get_inventory_volume(), 0);
}
