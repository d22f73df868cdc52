use incremental_affix::drop_table::{DropTableBuilder, SuffixOrPrefix, SuffixOrPrefixDropTable};
use incremental_affix::drop_tables::{
    initialize_drop_tables, AffixiveItemBaseIndex, AffixiveItemBaseTag, AffixiveItemBaseTagMap,
    AffixiveItemTag, LOOT_WEIGHT,
};
use incremental_affix::game::item::{initialize_bases, initialize_prefixes, initialize_suffixes};

#[test]
fn table_picks_by_the_running_totals_of_the_weights() {
    let table = DropTableBuilder::new()
        .add_loot('a', 10)
        .add_loot('b', 0)
        .add_loot('c', 5)
        .add_loot('d', 1)
        .build();
    assert_eq!(table.len(), 4);
    assert_eq!(table.total_weight(), 16);
    assert_eq!(table.weights(), vec![10, 10, 15, 16]);
    assert_eq!(table.pick(0), 0);
    assert_eq!(table.pick(9), 0);
    assert_eq!(table.pick(10), 2);
    assert_eq!(table.pick(14), 2);
    assert_eq!(table.pick(15), 3);
    assert_eq!(table.pick_loot(12), 'c');
    assert_eq!(*table.get(1), 'b');
    for _ in 0..500 {
        assert_ne!(table.random(), 'b');
    }
}

#[test]
fn table_of_one_piece_always_gives_it() {
    let table = DropTableBuilder::new().add_loot("only".to_string(), 3).build();
    for _ in 0..20 {
        assert_eq!(table.random(), "only");
    }
    let empty = DropTableBuilder::<u8>::new().build();
    assert_eq!(empty.len(), 0);
    assert_eq!(empty.total_weight(), 0);
}

#[test]
fn suffix_and_prefix_weigh_the_same() {
    let table = SuffixOrPrefixDropTable::new();
    assert_eq!(table.0.weights(), vec![1, 2]);
    assert_eq!(table.pick(0), SuffixOrPrefix::Suffix);
    assert_eq!(table.pick(1), SuffixOrPrefix::Prefix);
    let mut seen = [false; 2];
    for _ in 0..200 {
        match table.0.random() {
            SuffixOrPrefix::Suffix => seen[0] = true,
            SuffixOrPrefix::Prefix => seen[1] = true,
        }
    }
    assert_eq!(seen, [true, true]);
}

#[test]
fn drop_tables_of_the_game_are_kept_by_their_kind() {
    let bases = initialize_bases();
    let prefixes = initialize_prefixes();
    let suffixes = initialize_suffixes();
    let tables = initialize_drop_tables(&bases, &prefixes, &suffixes);
    assert_eq!(LOOT_WEIGHT, 50);
    assert_eq!(tables.bases_weights(), Some(vec![50, 100, 150, 200, 250, 300, 350]));
    assert_eq!(tables.suffix_or_prefix_weights(), Some(vec![1, 2]));
    assert_eq!(tables.prefixes_weights(), Some(vec![50, 100, 150, 200]));
    assert_eq!(tables.suffixes_weights(), Some(vec![50, 100, 150, 200]));
    assert_eq!(suffixes.get(AffixiveItemTag::Armor).len(), 1);
    assert_eq!(prefixes.get(AffixiveItemTag::Inventory).len(), 4);
    assert_eq!(prefixes.get(AffixiveItemTag::Footwear).len(), 0);
    assert_eq!(AffixiveItemBaseIndex(4).inner(), 4);
    assert_eq!(AffixiveItemBaseTag::Inventory, AffixiveItemBaseTag::Inventory);
}
