//! The drop tables of the game, kept together and found by their kind.

use vstd::prelude::*;
use crate::drop_table::{DropTable, DropTableBuilder, SuffixOrPrefix, SuffixOrPrefixDropTable};
use crate::engine::item::AffixiveItemBase;
use crate::game::{Prefix, Suffix};

verus! {

/// The place of a base among the bases.
#[derive(Debug, Clone, Copy, PartialEq, Eq, Structural, Hash)]
pub struct AffixiveItemBaseIndex(pub usize);

impl AffixiveItemBaseIndex {
    /// The place as a number.
    pub fn inner(self) -> (r: usize)
        ensures
            r == self.0,
    {
        self.0
    }
}

/// What an item is worn as.
#[derive(Debug, Clone, Copy, PartialEq, Eq, Structural, Hash)]
pub enum AffixiveItemTag {
    Inventory,
    Armor,
    Footwear,
}

/// What a base of items is good for.
#[derive(Debug, Clone, Copy, PartialEq, Eq, Structural)]
pub enum AffixiveItemBaseTag {
    Inventory,
}

/// One value for each way in which an item is worn.
pub struct AffixiveItemBaseTagMap<T> {
    pub inventory: T,
    pub armor: T,
    pub footwear: T,
}

impl<T> AffixiveItemBaseTagMap<T> {
    /// The value for a way in which an item is worn.
    pub fn get(&self, tag: AffixiveItemTag) -> (r: &T)
        ensures
            *r == match tag {
                AffixiveItemTag::Inventory => self.inventory,
                AffixiveItemTag::Armor => self.armor,
                AffixiveItemTag::Footwear => self.footwear,
            },
    {
        match tag {
            AffixiveItemTag::Inventory => &self.inventory,
            AffixiveItemTag::Armor => &self.armor,
            AffixiveItemTag::Footwear => &self.footwear,
        }
    }
}

/// The table from which the base of a new item is drawn.
pub struct StorageBasesDropTable(pub DropTable<AffixiveItemBaseIndex>);

/// The table from which a prefix of an item for the inventory is drawn.
pub struct InventoryModifierPrefixes(pub DropTable<Prefix>);

/// The table from which a suffix of an item for the inventory is drawn.
pub struct InventoryModifierSuffixes(pub DropTable<Suffix>);

/// The kinds of drop table.
#[derive(Debug, Clone, Copy, PartialEq, Eq, Structural, Hash)]
pub enum TableKind {
    StorageBases,
    InventoryPrefixes,
    InventorySuffixes,
    SuffixOrPrefix,
}

impl TableKind {
    /// The number under which the tables of the kind are kept.
    pub open spec fn key(self) -> int {
        match self {
            TableKind::StorageBases => 0,
            TableKind::InventoryPrefixes => 1,
            TableKind::InventorySuffixes => 2,
            TableKind::SuffixOrPrefix => 3,
        }
    }
}

/// The drop tables of the game: at most one of each kind, kept in an
/// `anymap::AnyMap` under the type of the table.
#[verifier::external_body]
pub struct DropTables {
    map: anymap::AnyMap,
}

/// What the drop tables hold: for each kind of which a table is kept, the
/// running totals of the weights of that table.
pub uninterp spec fn held_weights(tables: DropTables) -> Map<int, Seq<i32>>;

/// No table of any kind.
pub open spec fn nothing_held() -> Map<int, Seq<i32>> {
    Map::empty()
}

/// `AnyMap::new`: a map that holds nothing.
#[verifier::external_body]
fn no_tables() -> (r: DropTables)
    ensures
        held_weights(r) == nothing_held(),
{
    DropTables { map: anymap::AnyMap::new() }
}

/// `AnyMap::insert` for the table of bases: the map then holds this table
/// for its type, in place of any that it held for that type, and what it
/// holds for other types stays.
#[verifier::external_body]
fn keep_bases(tables: &mut DropTables, table: StorageBasesDropTable)
    ensures
        held_weights(*final(tables)) == held_weights(*old(tables)).insert(
            TableKind::StorageBases.key(),
            table.0.totals(),
        ),
{
    tables.map.insert(table);
}

/// `AnyMap::insert` for the table of prefixes: see `keep_bases`.
#[verifier::external_body]
fn keep_prefixes(tables: &mut DropTables, table: InventoryModifierPrefixes)
    ensures
        held_weights(*final(tables)) == held_weights(*old(tables)).insert(
            TableKind::InventoryPrefixes.key(),
            table.0.totals(),
        ),
{
    tables.map.insert(table);
}

/// `AnyMap::insert` for the table of suffixes: see `keep_bases`.
#[verifier::external_body]
fn keep_suffixes(tables: &mut DropTables, table: InventoryModifierSuffixes)
    ensures
        held_weights(*final(tables)) == held_weights(*old(tables)).insert(
            TableKind::InventorySuffixes.key(),
            table.0.totals(),
        ),
{
    tables.map.insert(table);
}

/// `AnyMap::insert` for the table of suffix or prefix: see `keep_bases`.
#[verifier::external_body]
fn keep_suffix_or_prefix(tables: &mut DropTables, table: SuffixOrPrefixDropTable)
    ensures
        held_weights(*final(tables)) == held_weights(*old(tables)).insert(
            TableKind::SuffixOrPrefix.key(),
            table.0.totals(),
        ),
{
    tables.map.insert(table);
}

/// `AnyMap::get` for the table of bases: the table that the map holds for
/// that type, if it holds one.
#[verifier::external_body]
fn find_bases(tables: &DropTables) -> (r: Option<&StorageBasesDropTable>)
    ensures
        r.is_some() == held_weights(*tables).contains_key(TableKind::StorageBases.key()),
        r.is_some() ==> r.unwrap().0.totals() == held_weights(*tables)[TableKind::StorageBases.key()],
{
    tables.map.get::<StorageBasesDropTable>()
}

/// `AnyMap::get` for the table of prefixes: see `find_bases`.
#[verifier::external_body]
fn find_prefixes(tables: &DropTables) -> (r: Option<&InventoryModifierPrefixes>)
    ensures
        r.is_some() == held_weights(*tables).contains_key(TableKind::InventoryPrefixes.key()),
        r.is_some() ==> r.unwrap().0.totals() == held_weights(*tables)[TableKind::InventoryPrefixes.key()],
{
    tables.map.get::<InventoryModifierPrefixes>()
}

/// `AnyMap::get` for the table of suffixes: see `find_bases`.
#[verifier::external_body]
fn find_suffixes(tables: &DropTables) -> (r: Option<&InventoryModifierSuffixes>)
    ensures
        r.is_some() == held_weights(*tables).contains_key(TableKind::InventorySuffixes.key()),
        r.is_some() ==> r.unwrap().0.totals() == held_weights(*tables)[TableKind::InventorySuffixes.key()],
{
    tables.map.get::<InventoryModifierSuffixes>()
}

/// `AnyMap::get` for the table of suffix or prefix: see `find_bases`.
#[verifier::external_body]
fn find_suffix_or_prefix(tables: &DropTables) -> (r: Option<&SuffixOrPrefixDropTable>)
    ensures
        r.is_some() == held_weights(*tables).contains_key(TableKind::SuffixOrPrefix.key()),
        r.is_some() ==> r.unwrap().0.totals() == held_weights(*tables)[TableKind::SuffixOrPrefix.key()],
{
    tables.map.get::<SuffixOrPrefixDropTable>()
}

impl DropTables {
    /// The running totals of the table of bases, if one is kept.
    pub fn bases_weights(&self) -> (r: Option<Vec<i32>>)
        ensures
            r.is_some() == held_weights(*self).contains_key(TableKind::StorageBases.key()),
            r.is_some() ==> r.unwrap()@ == held_weights(*self)[TableKind::StorageBases.key()],
    {
        match find_bases(self) {
            Some(table) => Some(table.0.weights()),
            None => None,
        }
    }

    /// The running totals of the table of prefixes, if one is kept.
    pub fn prefixes_weights(&self) -> (r: Option<Vec<i32>>)
        ensures
            r.is_some() == held_weights(*self).contains_key(TableKind::InventoryPrefixes.key()),
            r.is_some() ==> r.unwrap()@ == held_weights(*self)[TableKind::InventoryPrefixes.key()],
    {
        match find_prefixes(self) {
            Some(table) => Some(table.0.weights()),
            None => None,
        }
    }

    /// The running totals of the table of suffixes, if one is kept.
    pub fn suffixes_weights(&self) -> (r: Option<Vec<i32>>)
        ensures
            r.is_some() == held_weights(*self).contains_key(TableKind::InventorySuffixes.key()),
            r.is_some() ==> r.unwrap()@ == held_weights(*self)[TableKind::InventorySuffixes.key()],
    {
        match find_suffixes(self) {
            Some(table) => Some(table.0.weights()),
            None => None,
        }
    }

    /// The running totals of the table of suffix or prefix, if one is
    /// kept.
    pub fn suffix_or_prefix_weights(&self) -> (r: Option<Vec<i32>>)
        ensures
            r.is_some() == held_weights(*self).contains_key(TableKind::SuffixOrPrefix.key()),
            r.is_some() ==> r.unwrap()@ == held_weights(*self)[TableKind::SuffixOrPrefix.key()],
    {
        match find_suffix_or_prefix(self) {
            Some(table) => Some(table.0.weights()),
            None => None,
        }
    }
}

/// The running totals of `count` pieces that weigh `weight` each.
pub open spec fn even_totals(count: nat, weight: int) -> Seq<i32> {
    Seq::new(count, |i: int| ((i + 1) * weight) as i32)
}

/// The weight of a base, of a prefix and of a suffix in their tables.
pub const LOOT_WEIGHT: i32 = 50;

/// The drop tables of the game.
///
/// Every base weighs the same in the table of bases. The first four
/// prefixes for the inventory weigh the same in the table of prefixes, and
/// the first four suffixes in that of suffixes. A suffix and a prefix weigh
/// the same in the table of suffix or prefix.
pub fn initialize_drop_tables(
    bases: &Vec<AffixiveItemBase>,
    prefixes: &AffixiveItemBaseTagMap<Vec<Prefix>>,
    suffixes: &AffixiveItemBaseTagMap<Vec<Suffix>>,
) -> (r: DropTables)
    requires
        bases@.len() * LOOT_WEIGHT <= i32::MAX,
        prefixes.inventory@.len() >= 4,
        suffixes.inventory@.len() >= 4,
    ensures
        held_weights(r) == nothing_held().insert(
            TableKind::StorageBases.key(),
            even_totals(bases@.len(), LOOT_WEIGHT as int),
        ).insert(TableKind::InventoryPrefixes.key(), even_totals(4, LOOT_WEIGHT as int)).insert(
            TableKind::InventorySuffixes.key(),
            even_totals(4, LOOT_WEIGHT as int),
        ).insert(TableKind::SuffixOrPrefix.key(), even_totals(2, 1)),
{
    let mut drop_tables: DropTables = no_tables();
    let mut base_drop_table: DropTableBuilder<AffixiveItemBaseIndex> = DropTableBuilder::new();
    let mut ix: usize = 0;
    while ix < bases.len()
        invariant
            ix <= bases.len(),
            bases@.len() * LOOT_WEIGHT <= i32::MAX,
            base_drop_table.wf(),
            base_drop_table.total() == ix * LOOT_WEIGHT,
            base_drop_table.totals() == even_totals(ix as nat, LOOT_WEIGHT as int),
        decreases bases.len() - ix,
    {
        assert((ix + 1) * LOOT_WEIGHT <= bases@.len() * LOOT_WEIGHT) by (nonlinear_arith)
            requires
                ix < bases@.len(),
        ;
        base_drop_table = base_drop_table.add_loot(AffixiveItemBaseIndex(ix), LOOT_WEIGHT);
        assert(base_drop_table.totals() =~= even_totals((ix + 1) as nat, LOOT_WEIGHT as int));
        ix = ix + 1;
    }
    keep_bases(&mut drop_tables, StorageBasesDropTable(base_drop_table.build()));
    let mut prefix_table: DropTableBuilder<Prefix> = DropTableBuilder::new();
    let mut p: usize = 0;
    while p < 4
        invariant
            p <= 4,
            prefixes.inventory@.len() >= 4,
            prefix_table.wf(),
            prefix_table.total() == p * LOOT_WEIGHT,
            prefix_table.totals() == even_totals(p as nat, LOOT_WEIGHT as int),
        decreases 4 - p,
    {
        prefix_table = prefix_table.add_loot(
            crate::engine::item::Prefix(prefixes.inventory[p].0.duplicate()),
            LOOT_WEIGHT,
        );
        assert(prefix_table.totals() =~= even_totals((p + 1) as nat, LOOT_WEIGHT as int));
        p = p + 1;
    }
    keep_prefixes(&mut drop_tables, InventoryModifierPrefixes(prefix_table.build()));
    let mut suffix_table: DropTableBuilder<Suffix> = DropTableBuilder::new();
    let mut s: usize = 0;
    while s < 4
        invariant
            s <= 4,
            suffixes.inventory@.len() >= 4,
            suffix_table.wf(),
            suffix_table.total() == s * LOOT_WEIGHT,
            suffix_table.totals() == even_totals(s as nat, LOOT_WEIGHT as int),
        decreases 4 - s,
    {
        suffix_table = suffix_table.add_loot(
            crate::engine::item::Suffix(suffixes.inventory[s].0.duplicate()),
            LOOT_WEIGHT,
        );
        assert(suffix_table.totals() =~= even_totals((s + 1) as nat, LOOT_WEIGHT as int));
        s = s + 1;
    }
    keep_suffixes(&mut drop_tables, InventoryModifierSuffixes(suffix_table.build()));
    let prefix_or_suffix_table: SuffixOrPrefixDropTable = SuffixOrPrefixDropTable::new();
    proof {
        assert(prefix_or_suffix_table.0.totals() =~= even_totals(2, 1));
    }
    keep_suffix_or_prefix(&mut drop_tables, prefix_or_suffix_table);
    drop_tables
}

} // verus!
