use incremental_affix::affinity::Affinity;
use incremental_affix::fixed::{PerSecond, UNIT};
use incremental_affix::item::affixive_item::{
    AffixiveItem, ImplicitIndex, ItemTag, PushAffixError, Quality,
};
use incremental_affix::item::base::{initialize, makeshift_tools, secondary_tools, Base, BASE_COUNT};
use incremental_affix::item::equipment::{on_equip, Equipped};
use incremental_affix::item::item_database::{AffixTable, ItemDatabase};
use incremental_affix::item::item_slot::{contains_tag, ItemSlot, ItemSlotTag, SwapFailReason};
use incremental_affix::item::modifier::{
    initialize_implicits, initialize_prefixes, initialize_suffixes, Affix, Modifier, ModifierKind,
    Prefix, Suffix,
};
use incremental_affix::stats::PlayerActionsStats;
use incremental_affix::stats_builder::StatsBuilder;

fn affix(name: &str, kind: ModifierKind, min: i32, max: i32) -> Affix {
    Affix::new(name.to_string(), Modifier { kind, min, max })
}

fn plain_item(quality: Quality) -> AffixiveItem {
    AffixiveItem {
        base: Base::StoneTools,
        name: "Stone Tools".to_string(),
        implicits: vec![],
        prefixes: vec![],
        suffixes: vec![],
        quality,
        tags: vec![ItemTag::Tool],
    }
}

#[test]
fn modifiers_read_as_the_player_sees_them() {
    assert_eq!(
        ModifierKind::WoodBase.display_actual(50),
        "Chopping wood gives 0.5 wood per second"
    );
    assert_eq!(ModifierKind::WoodBaseGain.display_actual(15), "+0.15 Wood chopped per second");
    assert_eq!(ModifierKind::WoodMultiplier.display_actual(20), "+20% Wood chopped per second");
    assert_eq!(
        ModifierKind::WoodAffinityChanceMultiplier.display_actual(5),
        "+5% Wood affinity chance"
    );
    assert_eq!(ModifierKind::WoodAffinityMultiplier.display_actual(7), "+7% Wood affinity gain");
    assert_eq!(
        ModifierKind::WoodAffinityTimeMultiplier.display_actual(9),
        "+9% Wood affinity time"
    );
    assert_eq!(
        ModifierKind::StoneBase.display_actual(120),
        "Mining stone gives 1.2 stone per second"
    );
    assert_eq!(ModifierKind::StoneBaseGain.display_actual(15), "+15 Stone mined per second");
    assert_eq!(ModifierKind::StoneMultiplier.display_actual(20), "+20% Stone mined per second");
    assert_eq!(
        ModifierKind::StoneAffinityChanceMultiplier.display_actual(5),
        "+5 Stone affinity chance"
    );
    assert_eq!(ModifierKind::StoneAffinityMultiplier.display_actual(7), "+7% Stone affinity gain");
    assert_eq!(
        ModifierKind::StoneAffinityTimeMultiplier.display_actual(9),
        "+9% Sone affinity time"
    );
    assert_eq!(
        ModifierKind::ToolAffinityChanceMultiplier.display_actual(75),
        "+0.75 Tool action affinity chance"
    );
}

#[test]
fn modifiers_below_nothing_carry_their_sign_twice() {
    assert_eq!(ModifierKind::WoodMultiplier.display_actual(-20), "--20% Wood chopped per second");
    assert_eq!(ModifierKind::WoodBaseGain.display_actual(-15), "--0.15 Wood chopped per second");
    assert_eq!(ModifierKind::StoneMultiplier.display_actual(0), "-0% Stone mined per second");
    assert_eq!(
        ModifierKind::WoodBase.display_actual(-50),
        "Chopping wood gives -0.5 wood per second"
    );
}

#[test]
fn new_affix_takes_the_one_value_of_a_fixed_range() {
    let fixed = affix("Tier0ToolsGatherWoodBase", ModifierKind::WoodBase, 50, 50);
    assert_eq!(fixed.modifier_actual, 50);
    assert!(fixed.hybrid_modifier.is_none());
    assert_eq!(fixed.hybrid_modifier_actual, 0);
    let open = affix("Lumberjack's", ModifierKind::WoodBaseGain, 10, 20);
    assert_eq!(open.modifier_actual, 0);
    assert_eq!(open.name, "Lumberjack's");
}

#[test]
fn affix_values_are_drawn_from_their_ranges() {
    let mut one = affix("Lumberjack's", ModifierKind::WoodBaseGain, 10, 20);
    one.hybrid_modifier = Some(Modifier { kind: ModifierKind::StoneBaseGain, min: -3, max: -3 });
    for _ in 0..200 {
        one.randomize_actual();
        assert!((10..=20).contains(&one.modifier_actual));
        assert_eq!(one.hybrid_modifier_actual, -3);
    }
    let mut single = affix("ingenuity", ModifierKind::ToolAffinityChanceMultiplier, 7, 7);
    single.hybrid_modifier_actual = 99;
    single.randomize_actual();
    assert_eq!(single.modifier_actual, 7);
    assert_eq!(single.hybrid_modifier_actual, 99);
    assert_eq!(Modifier { kind: ModifierKind::WoodBase, min: 4, max: 4 }.random_modifier_value(), 4);
}

#[test]
fn affix_shows_each_of_its_modifiers_on_a_line() {
    let mut one = affix("Lumberjack's", ModifierKind::WoodBaseGain, 10, 20);
    one.set_actual(15, 0);
    assert_eq!(one.display(), "+0.15 Wood chopped per second");
    assert_eq!(one.modifiers().len(), 1);
    one.hybrid_modifier = Some(Modifier { kind: ModifierKind::StoneMultiplier, min: 1, max: 9 });
    one.set_actual(12, 4);
    assert_eq!(one.display(), "+0.12 Wood chopped per second\n+4% Stone mined per second");
    let found = one.modifiers();
    assert_eq!(found.len(), 2);
    assert_eq!(found[0].0.kind, ModifierKind::WoodBaseGain);
    assert_eq!(found[0].1, 12);
    assert_eq!(found[1].0.kind, ModifierKind::StoneMultiplier);
    assert_eq!(found[1].1, 4);
    let copy = one.duplicate();
    assert_eq!(copy.name, one.name);
    assert_eq!(copy.modifier_actual, 12);
    assert_eq!(copy.hybrid_modifier_actual, 4);
    assert_eq!(
        Modifier { kind: ModifierKind::WoodBase, min: 0, max: 1 }.display_actual(100),
        "Chopping wood gives 1 wood per second"
    );
}

#[test]
fn affixes_of_the_game() {
    let implicits = initialize_implicits();
    assert_eq!(implicits.len(), 4);
    assert_eq!(implicits[0].0.name, "Tier0ToolsGatherWoodBase");
    assert_eq!(implicits[0].0.modifier.kind, ModifierKind::WoodBase);
    assert_eq!(implicits[0].0.modifier_actual, 50);
    assert_eq!(implicits[1].0.modifier.kind, ModifierKind::StoneBase);
    assert_eq!((implicits[2].0.modifier.min, implicits[2].0.modifier.max), (80, 120));
    assert_eq!(implicits[3].0.name, "Tier1ToolsGatherStoneBase");
    let prefixes = initialize_prefixes();
    assert_eq!(prefixes.len(), 1);
    assert_eq!(prefixes[0].0.name, "Lumberjack's");
    assert_eq!((prefixes[0].0.modifier.min, prefixes[0].0.modifier.max), (10, 20));
    let suffixes = initialize_suffixes();
    assert_eq!(suffixes.len(), 1);
    assert_eq!(suffixes[0].0.name, "ingenuity");
    assert_eq!(suffixes[0].0.modifier.kind, ModifierKind::ToolAffinityChanceMultiplier);
}

#[test]
fn bases_of_the_game() {
    let bases = initialize();
    assert_eq!(bases.len(), BASE_COUNT);
    assert_eq!(bases[Base::MakeshiftTools.index()].name, "Makeshift Tools");
    assert_eq!(bases[Base::SecondaryTools.index()].name, "Secondary Tools");
    assert_eq!(bases[Base::StoneTools.index()].name, "Stone Tools");
    assert_eq!(bases[0].implicits, vec![ImplicitIndex(0), ImplicitIndex(1)]);
    assert!(bases[1].implicits.is_empty());
    assert_eq!(bases[2].tags, vec![ItemTag::Tool]);
    assert_eq!(makeshift_tools().implicits.len(), 2);
    assert_eq!(secondary_tools().name, "Secondary Tools");
    assert_eq!(secondary_tools().level, 0);
    assert_eq!(Base::StoneTools.name(), "Stone Tools");
}

#[test]
fn new_item_carries_the_implicits_of_its_base() {
    let database = ItemDatabase::new();
    let item = database.create_basic(Base::MakeshiftTools);
    assert_eq!(item.name(), "Makeshift Tools");
    assert_eq!(database.item_name(&item), "Makeshift Tools");
    assert_eq!(item.base(), Base::MakeshiftTools);
    assert_eq!(item.quality, Quality::Quality(0));
    assert_eq!(item.implicits().len(), 2);
    assert_eq!(item.implicits()[0].modifier.kind, ModifierKind::WoodBase);
    assert_eq!(item.implicits()[0].modifier_actual, 50);
    assert_eq!(item.implicits()[1].modifier.kind, ModifierKind::StoneBase);
    assert!(item.prefixes().is_empty());
    assert!(item.suffixes().is_empty());
    assert!(database.item_has_tag(&item, ItemTag::Tool));
    assert!(!database.item_has_tag(&item, ItemTag::Hunt));
    let bare = database.create_basic(Base::SecondaryTools);
    assert!(bare.implicits().is_empty());
    let same = ItemDatabase::default();
    assert_eq!(same.prefix_table(&item), Some(AffixTable { start: 0, end: 1 }));
    assert_eq!(same.suffix_table(&bare), None);
}

#[test]
fn item_reads_as_the_player_sees_it() {
    let database = ItemDatabase::new();
    let mut item = database.create_basic(Base::StoneTools);
    assert_eq!(
        item.display(),
        "Stone Tools\n===\nChopping wood gives 0.5 wood per secondMining stone gives 0.5 stone per second\n===\n"
    );
    item.increase_quality_to(2);
    assert_eq!(database.try_push_prefix_at(&mut item, 0, 15, 0), Ok(()));
    assert_eq!(database.try_push_suffix_at(&mut item, 0, 75, 0), Ok(()));
    assert_eq!(
        database.display_item(&item),
        "~~Stone Tools~~\n===\nChopping wood gives 0.5 wood per secondMining stone gives 0.5 stone per second\n===\n+0.15 Wood chopped per second\n+0.75 Tool action affinity chance\n===\n"
    );
    let artifact = plain_item(Quality::FixedArtifact);
    assert_eq!(artifact.display(), "Artifact: Stone Tools\n===\n\n===\n");
}

#[test]
fn quality_only_rises() {
    let mut item = plain_item(Quality::Quality(2));
    item.increase_quality_to(1);
    assert_eq!(item.quality, Quality::Quality(2));
    item.increase_quality_to(3);
    assert_eq!(item.quality, Quality::Quality(3));
    let mut artifact = plain_item(Quality::FixedArtifact);
    artifact.increase_quality_to(9);
    assert_eq!(artifact.quality, Quality::FixedArtifact);
}

#[test]
fn item_takes_as_many_affixes_as_its_quality_says() {
    let mut item = plain_item(Quality::Quality(1));
    let prefix = || Prefix(affix("Lumberjack's", ModifierKind::WoodBaseGain, 10, 20));
    let suffix = || Suffix(affix("ingenuity", ModifierKind::ToolAffinityChanceMultiplier, 50, 100));
    assert_eq!(item.try_push_prefix(prefix()), Ok(()));
    assert_eq!(item.try_push_prefix(prefix()), Err(PushAffixError::AffixiveItemQualityTooLow));
    assert_eq!(item.prefixes().len(), 1);
    assert_eq!(item.try_push_suffix(suffix()), Ok(()));
    assert_eq!(item.try_push_suffix(suffix()), Err(PushAffixError::AffixiveItemQualityTooLow));
    assert_eq!(item.suffixes().len(), 1);
    let mut none = plain_item(Quality::Quality(0));
    assert_eq!(none.try_push_prefix(prefix()), Err(PushAffixError::AffixiveItemQualityTooLow));
    let mut artifact = plain_item(Quality::FixedArtifact);
    assert_eq!(artifact.try_push_prefix(prefix()), Err(PushAffixError::AffixiveItemIsFixed));
    assert_eq!(artifact.try_push_suffix(suffix()), Err(PushAffixError::AffixiveItemIsFixed));
    assert!(artifact.prefixes().is_empty());
}

#[test]
fn drawn_affixes_come_from_the_database() {
    let database = ItemDatabase::new();
    let mut item = database.create_basic(Base::StoneTools);
    assert_eq!(
        database.try_push_random_prefix(&mut item),
        Err(PushAffixError::AffixiveItemQualityTooLow)
    );
    item.increase_quality_to(2);
    for _ in 0..2 {
        assert_eq!(database.try_push_random_prefix(&mut item), Ok(()));
        assert_eq!(database.try_push_random_suffix(&mut item), Ok(()));
    }
    assert_eq!(
        database.try_push_random_suffix(&mut item),
        Err(PushAffixError::AffixiveItemQualityTooLow)
    );
    for prefix in item.prefixes() {
        assert_eq!(prefix.name, "Lumberjack's");
        assert!((10..=20).contains(&prefix.modifier_actual));
    }
    for suffix in item.suffixes() {
        assert_eq!(suffix.name, "ingenuity");
        assert!((50..=100).contains(&suffix.modifier_actual));
    }
    assert_eq!(item.modifiers().len(), 6);
}

#[test]
fn item_modifiers_come_in_the_order_of_its_affixes() {
    let database = ItemDatabase::new();
    let mut item = database.create_basic(Base::MakeshiftTools);
    item.increase_quality_to(1);
    assert_eq!(database.try_push_suffix_at(&mut item, 0, 60, 0), Ok(()));
    assert_eq!(database.try_push_prefix_at(&mut item, 0, 11, 0), Ok(()));
    let kinds: Vec<(ModifierKind, i32)> =
        item.modifiers().iter().map(|(modifier, value)| (modifier.kind, *value)).collect();
    assert_eq!(
        kinds,
        vec![
            (ModifierKind::WoodBase, 50),
            (ModifierKind::StoneBase, 50),
            (ModifierKind::WoodBaseGain, 11),
            (ModifierKind::ToolAffinityChanceMultiplier, 60),
        ]
    );
}

#[test]
fn slot_takes_items_of_its_kind_and_level() {
    let database = ItemDatabase::new();
    let mut bases = initialize();
    let item = database.create_basic(Base::StoneTools);
    let mut tools = ItemSlot::new(ItemSlotTag::Tool, 0);
    let hunting = ItemSlot::new(ItemSlotTag::Hunt, 0);
    assert_eq!(tools.can_hold(&item, &bases), Ok(()));
    assert_eq!(hunting.can_hold(&item, &bases), Err(SwapFailReason::NotEquippableInSlot));
    bases[Base::StoneTools.index()].level = 3;
    assert_eq!(tools.can_hold(&item, &bases), Err(SwapFailReason::TooHighLevel));
    assert_eq!(hunting.can_hold(&item, &bases), Err(SwapFailReason::TooHighLevel));
    assert!(tools.modifiers().is_empty());
    assert!(tools.replace_item(Some(item)).is_none());
    assert_eq!(tools.modifiers().len(), 2);
    let back = tools.replace_item(None);
    assert_eq!(back.unwrap().name(), "Stone Tools");
    assert!(tools.item.is_none());
    assert_eq!(ItemSlotTag::Tool.name(), "Tools");
    assert_eq!(ItemSlotTag::Hunt.name(), "Hunting Gear");
    assert_eq!(ItemTag::from(ItemSlotTag::Hunt), ItemTag::Hunt);
    assert_eq!(ItemTag::from_slot(ItemSlotTag::Tool), ItemTag::Tool);
    assert_eq!(ItemTag::Hunt.name(), "Hunting Weapon");
    assert!(contains_tag(&vec![ItemTag::Tool, ItemTag::Hunt], ItemTag::Hunt));
    assert!(!contains_tag(&vec![], ItemTag::Hunt));
}

#[test]
fn stats_builder_sums_its_multipliers() {
    let mut builder = StatsBuilder::default();
    builder.set_base(1_000_000);
    builder.add_multiplier(200_000);
    builder.add_multiplier(200_000);
    assert_eq!(builder.calculate(), 1_400_000);
    builder.add_offset(500_000);
    assert_eq!(builder.calculate(), 2_100_000);
    builder.set_base(500_000);
    assert_eq!(builder.calculate(), 2_100_000);
    builder.set_base(2_000_000);
    assert_eq!(builder.calculate(), 3_500_000);
    builder.add_multiplier_percent(-140);
    assert_eq!(builder.calculate(), 0);
    builder.add_multiplier_percent(-100);
    assert_eq!(builder.calculate(), -2_500_000);
}

#[test]
fn stats_builder_without_a_base_gives_nothing() {
    let mut builder = StatsBuilder::default();
    builder.add_offset(500_000);
    builder.add_multiplier_percent(50);
    assert_eq!(builder.calculate(), 0);
    builder.set_base(-5);
    assert_eq!(builder.calculate(), 0);
}

#[test]
fn stats_builder_holds_to_what_can_be_counted() {
    let mut builder = StatsBuilder::default();
    builder.set_base(i64::MAX);
    builder.add_offset(i64::MAX);
    builder.add_offset(i64::MAX);
    builder.add_multiplier(i64::MAX);
    assert_eq!(builder.calculate(), i64::MAX);
    builder.add_multiplier(i64::MIN);
    builder.add_multiplier(i64::MIN);
    assert_eq!(builder.calculate(), i64::MIN);
}

#[test]
fn equipment_sets_what_gathering_brings() {
    let database = ItemDatabase::new();
    let mut item = database.create_basic(Base::MakeshiftTools);
    item.increase_quality_to(1);
    assert_eq!(database.try_push_prefix_at(&mut item, 0, 20, 0), Ok(()));
    assert_eq!(database.try_push_suffix_at(&mut item, 0, 60, 0), Ok(()));
    let mut tools = ItemSlot::new(ItemSlotTag::Tool, 0);
    tools.replace_item(Some(item));
    let slots = vec![tools, ItemSlot::new(ItemSlotTag::Hunt, 0)];
    let mut stats = PlayerActionsStats::default();
    stats.hunt.affinity = Affinity { chance: 7, multiplier: 8, time: 9 };
    on_equip(&mut stats, &slots);
    assert_eq!(stats.gather_wood.base_gain_per_second, PerSecond(700_000));
    assert_eq!(stats.gather_stone.base_gain_per_second, PerSecond(500_000));
    assert_eq!(stats.hunt.base_gain_per_second, PerSecond(0));
    assert!(stats.gather_wood.has_base_gain());
    assert!(!stats.hunt.has_base_gain());
    // Nothing gives the affinity a base, so it counts for nothing.
    assert_eq!(stats.gather_wood.affinity.chance, 0);
    assert_eq!(stats.gather_wood.affinity.multiplier, 0);
    assert_eq!(stats.gather_wood.affinity.time, 0);
    assert_eq!(stats.hunt.affinity.chance, 7);
    let _event = Equipped { slot: 0 };
    let none: Vec<ItemSlot> = Vec::new();
    on_equip(&mut stats, &none);
    assert_eq!(stats.gather_wood.base_gain_per_second, PerSecond(0));
    assert_eq!(UNIT, 1_000_000);
}

#[test]
fn equipment_of_several_slots_counts_together() {
    let mut first = plain_item(Quality::Quality(3));
    let wood = |value: i32| {
        let mut one = affix("base", ModifierKind::WoodBase, value, value);
        one.set_actual(value, 0);
        one
    };
    first.implicits.push(wood(80));
    let mut more = affix("more", ModifierKind::WoodMultiplier, 0, 100);
    more.set_actual(50, 0);
    first.prefixes.push(more);
    let mut second = plain_item(Quality::Quality(3));
    second.implicits.push(wood(120));
    let mut stone = affix("stone", ModifierKind::StoneBaseGain, 0, 100);
    stone.set_actual(30, 0);
    second.suffixes.push(stone);
    let mut a = ItemSlot::new(ItemSlotTag::Tool, 0);
    a.replace_item(Some(first));
    let mut b = ItemSlot::new(ItemSlotTag::Tool, 0);
    b.replace_item(Some(second));
    let mut stats = PlayerActionsStats::default();
    on_equip(&mut stats, &vec![a, b]);
    // The higher base, times one and a half.
    assert_eq!(stats.gather_wood.base_gain_per_second, PerSecond(1_800_000));
    // A gain without a base gives nothing.
    assert_eq!(stats.gather_stone.base_gain_per_second, PerSecond(0));
    assert_eq!(stats.get_bonuses(incremental_affix::action::Action::GatherWood).unwrap().base_gain_per_second, PerSecond(1_800_000));
    assert!(stats.get_bonuses(incremental_affix::action::Action::Explore).is_none());
    assert!(stats.get_bonuses(incremental_affix::action::Action::CookMeat).is_none());
    assert!(stats.get_bonuses(incremental_affix::action::Action::Hunt).is_some());
}
