//! The item database: the bases and the affixes from which items are made.

use vstd::prelude::*;
use crate::chance::random_index;
use crate::item::affixive_item::{room_for, AffixiveItem, ItemTag, PushAffixError, Quality};
use crate::item::base::{is_tool_base, AffixiveItemBase, Base, BASE_COUNT};
use crate::item::item_slot::{contains_tag, has_tag};
use crate::item::modifier::{
    initialize_implicits, initialize_prefixes, initialize_suffixes, is_plain_affix, Affix,
    Implicit, ModifierKind, ModifierValue, Prefix, Suffix,
};

verus! {

/// A stretch of a list of affixes: from `start` up to `end`, `end` not
/// included.
#[derive(Debug, Clone, Copy, PartialEq, Eq, Structural)]
pub struct AffixTable {
    pub start: usize,
    pub end: usize,
}

/// The bases and the affixes from which items are made.
#[derive(Debug)]
pub struct ItemDatabase {
    pub bases: Vec<AffixiveItemBase>,
    pub implicits: Vec<Implicit>,
    pub prefixes: Vec<Prefix>,
    pub suffixes: Vec<Suffix>,
    /// For each base the prefixes that its items can get.
    pub prefix_table: Vec<Option<AffixTable>>,
    /// For each base the suffixes that its items can get.
    pub suffix_table: Vec<Option<AffixTable>>,
}

/// Whether a list of tables holds, for each base, no table or a stretch
/// that is not empty and lies within `len`.
pub open spec fn tables_wf(tables: Seq<Option<AffixTable>>, len: nat) -> bool {
    &&& tables.len() == BASE_COUNT
    &&& forall|i: int|
        0 <= i < BASE_COUNT ==> match #[trigger] tables[i] {
            Some(table) => table.start < table.end <= len,
            None => true,
        }
}

/// Whether an affix is `source` with values drawn for it.
pub open spec fn drawn_from(affix: Affix, source: Affix) -> bool {
    affix.same_kind(source) && affix.in_range()
}

impl ItemDatabase {
    /// Every base has its entry, every implicit that a base names is
    /// there, every table lies within its list, and no affix has an empty
    /// range.
    pub open spec fn wf(self) -> bool {
        &&& self.bases@.len() == BASE_COUNT
        &&& tables_wf(self.prefix_table@, self.prefixes@.len())
        &&& tables_wf(self.suffix_table@, self.suffixes@.len())
        &&& forall|b: int, i: int|
            0 <= b < BASE_COUNT && 0 <= i < self.bases@[b].implicits@.len() ==> (
            #[trigger] self.bases@[b].implicits@[i]).0 < self.implicits@.len()
        &&& forall|i: int| 0 <= i < self.implicits@.len() ==> (#[trigger] self.implicits@[i]).0.wf()
        &&& forall|i: int| 0 <= i < self.prefixes@.len() ==> (#[trigger] self.prefixes@[i]).0.wf()
        &&& forall|i: int| 0 <= i < self.suffixes@.len() ==> (#[trigger] self.suffixes@[i]).0.wf()
    }

    /// The database of the game: three bases of tools, four implicits, one
    /// prefix and one suffix. Makeshift tools and stone tools can get any
    /// prefix and any suffix; secondary tools can get none.
    pub fn new() -> (r: ItemDatabase)
        ensures
            r.wf(),
            is_tool_base(r.bases@[0], Base::MakeshiftTools),
            is_tool_base(r.bases@[1], Base::SecondaryTools),
            is_tool_base(r.bases@[2], Base::StoneTools),
            r.implicits@.len() == 4,
            r.prefixes@.len() == 1,
            r.suffixes@.len() == 1,
            is_plain_affix(r.prefixes@[0].0, "Lumberjack's"@, ModifierKind::WoodBaseGain, 10, 20),
            is_plain_affix(
                r.suffixes@[0].0,
                "ingenuity"@,
                ModifierKind::ToolAffinityChanceMultiplier,
                50,
                100,
            ),
            r.prefix_table@ == seq![
                Some(AffixTable { start: 0, end: 1 }),
                None,
                Some(AffixTable { start: 0, end: 1 }),
            ],
            r.suffix_table@ == seq![
                Some(AffixTable { start: 0, end: 1 }),
                None,
                Some(AffixTable { start: 0, end: 1 }),
            ],
    {
        let bases = crate::item::base::initialize();
        let implicits = initialize_implicits();
        let prefixes = initialize_prefixes();
        let suffixes = initialize_suffixes();
        let mut prefix_table: Vec<Option<AffixTable>> = Vec::new();
        prefix_table.push(Some(AffixTable { start: 0, end: prefixes.len() }));
        prefix_table.push(None);
        prefix_table.push(Some(AffixTable { start: 0, end: prefixes.len() }));
        let mut suffix_table: Vec<Option<AffixTable>> = Vec::new();
        suffix_table.push(Some(AffixTable { start: 0, end: suffixes.len() }));
        suffix_table.push(None);
        suffix_table.push(Some(AffixTable { start: 0, end: suffixes.len() }));
        proof {
            assert(prefix_table@ =~= seq![
                Some(AffixTable { start: 0, end: 1 }),
                None,
                Some(AffixTable { start: 0, end: 1 }),
            ]);
            assert(suffix_table@ =~= seq![
                Some(AffixTable { start: 0, end: 1 }),
                None,
                Some(AffixTable { start: 0, end: 1 }),
            ]);
        }
        ItemDatabase { bases, implicits, prefixes, suffixes, prefix_table, suffix_table }
    }

    /// Whether an item carries a tag.
    pub fn item_has_tag(&self, item: &AffixiveItem, tag: ItemTag) -> (r: bool)
        ensures
            r == has_tag(item.tags@, tag),
    {
        contains_tag(&item.tags, tag)
    }

    /// What the player reads of an item.
    pub fn display_item(&self, item: &AffixiveItem) -> (r: String)
        ensures
            r@ == item.spec_display(),
    {
        item.display()
    }

    /// The name of an item.
    pub fn item_name<'a>(&self, item: &'a AffixiveItem) -> (r: &'a str)
        ensures
            r@ == item.name@,
    {
        item.name()
    }

    /// The prefixes that an item can get, if any.
    pub fn prefix_table(&self, item: &AffixiveItem) -> (r: Option<AffixTable>)
        requires
            self.wf(),
        ensures
            r == self.prefix_table@[item.base.spec_index()],
    {
        self.prefix_table[item.base().index()]
    }

    /// The suffixes that an item can get, if any.
    pub fn suffix_table(&self, item: &AffixiveItem) -> (r: Option<AffixTable>)
        requires
            self.wf(),
        ensures
            r == self.suffix_table@[item.base.spec_index()],
    {
        self.suffix_table[item.base().index()]
    }

    /// A new item of a base that carries the implicits of the base, with
    /// values drawn for them, and has room for no other affix.
    pub fn create_basic(&self, base: Base) -> (r: AffixiveItem)
        requires
            self.wf(),
        ensures
            r.base == base,
            r.name@ == self.bases@[base.spec_index()].name@,
            r.quality == Quality::Quality(0),
            r.tags@ == self.bases@[base.spec_index()].tags@,
            r.prefixes@.len() == 0,
            r.suffixes@.len() == 0,
            r.implicits@.len() == self.bases@[base.spec_index()].implicits@.len(),
            forall|i: int|
                0 <= i < r.implicits@.len() ==> drawn_from(
                    #[trigger] r.implicits@[i],
                    self.implicits@[self.bases@[base.spec_index()].implicits@[i].0 as int].0,
                ),
    {
        AffixiveItem::new(&self.bases, &self.implicits, base, Quality::Quality(0))
    }

    /// What a new item of a base costs in branches and pebbles, in
    /// millionths: a unit for makeshift tools, nothing for any other.
    pub open spec fn spec_cost(base: Base) -> u64 {
        match base {
            Base::MakeshiftTools => crate::fixed::UNIT,
            _ => 0,
        }
    }

    /// Makes a new item of a base and takes what it costs from the
    /// stockyard, as far as that is there.
    pub fn craft(&self, base: Base, stockyard: &mut crate::stock::stockyard::Stockyard) -> (r:
        AffixiveItem)
        requires
            self.wf(),
            old(stockyard).wf(),
        ensures
            final(stockyard).wf(),
            final(stockyard).gate() == old(stockyard).gate(),
            final(stockyard).stock(crate::stock::StockKind::BranchesAndPebbles).current()
                == crate::stock::Stock::lowered(
                old(stockyard).stock(crate::stock::StockKind::BranchesAndPebbles).current(),
                ItemDatabase::spec_cost(base) as nat,
            ),
            final(stockyard).stock(crate::stock::StockKind::BranchesAndPebbles).maximum() == old(stockyard).stock(crate::stock::StockKind::BranchesAndPebbles).maximum(),
            final(stockyard).stock(crate::stock::StockKind::BranchesAndPebbles).dirty() == (old(stockyard).stock(crate::stock::StockKind::BranchesAndPebbles).dirty() || ItemDatabase::spec_cost(
                base,
            ) != 0),
            forall|kind: crate::stock::StockKind|
                kind != crate::stock::StockKind::BranchesAndPebbles ==> final(stockyard).stock(kind)
                    == old(stockyard).stock(kind),
            r.base == base,
            r.name@ == self.bases@[base.spec_index()].name@,
            r.quality == Quality::Quality(0),
            r.tags@ == self.bases@[base.spec_index()].tags@,
            r.prefixes@.len() == 0,
            r.suffixes@.len() == 0,
            r.implicits@.len() == self.bases@[base.spec_index()].implicits@.len(),
            forall|i: int|
                0 <= i < r.implicits@.len() ==> drawn_from(
                    #[trigger] r.implicits@[i],
                    self.implicits@[self.bases@[base.spec_index()].implicits@[i].0 as int].0,
                ),
    {
        match base {
            Base::MakeshiftTools => {
                stockyard.subtract(crate::stock::StockKind::BranchesAndPebbles, 1_000_000);
            },
            _ => {
                stockyard.subtract(crate::stock::StockKind::BranchesAndPebbles, 0);
            },
        }
        self.create_basic(base)
    }

    /// Puts the prefix at a place of the database on an item, with the
    /// given values, where the item has room for a prefix.
    pub fn try_push_prefix_at(
        &self,
        item: &mut AffixiveItem,
        index: usize,
        modifier_actual: ModifierValue,
        hybrid_actual: ModifierValue,
    ) -> (r: Result<(), PushAffixError>)
        requires
            index < self.prefixes@.len(),
        ensures
            r == room_for(old(item).quality, old(item).prefixes@.len()),
            r.is_err() ==> final(item).prefixes@ == old(item).prefixes@,
            r.is_ok() ==> {
                &&& final(item).prefixes@.len() == old(item).prefixes@.len() + 1
                &&& final(item).prefixes@.drop_last() == old(item).prefixes@
                &&& final(item).prefixes@.last().same_kind(self.prefixes@[index as int].0)
                &&& final(item).prefixes@.last().modifier_actual == modifier_actual
                &&& final(item).prefixes@.last().hybrid_modifier_actual
                    == if self.prefixes@[index as int].0.hybrid_modifier.is_some() {
                    hybrid_actual
                } else {
                    self.prefixes@[index as int].0.hybrid_modifier_actual
                }
            },
            final(item).base == old(item).base,
            final(item).name == old(item).name,
            final(item).implicits == old(item).implicits,
            final(item).suffixes == old(item).suffixes,
            final(item).quality == old(item).quality,
            final(item).tags == old(item).tags,
    {
        let mut prefix: Affix = self.prefixes[index].0.duplicate();
        prefix.set_actual(modifier_actual, hybrid_actual);
        let r = item.try_push_prefix(Prefix(prefix));
        proof {
            if r.is_ok() {
                assert(final(item).prefixes@.drop_last() =~= old(item).prefixes@);
            }
        }
        r
    }

    /// Puts the suffix at a place of the database on an item, with the
    /// given values, where the item has room for a suffix.
    pub fn try_push_suffix_at(
        &self,
        item: &mut AffixiveItem,
        index: usize,
        modifier_actual: ModifierValue,
        hybrid_actual: ModifierValue,
    ) -> (r: Result<(), PushAffixError>)
        requires
            index < self.suffixes@.len(),
        ensures
            r == room_for(old(item).quality, old(item).suffixes@.len()),
            r.is_err() ==> final(item).suffixes@ == old(item).suffixes@,
            r.is_ok() ==> {
                &&& final(item).suffixes@.len() == old(item).suffixes@.len() + 1
                &&& final(item).suffixes@.drop_last() == old(item).suffixes@
                &&& final(item).suffixes@.last().same_kind(self.suffixes@[index as int].0)
                &&& final(item).suffixes@.last().modifier_actual == modifier_actual
                &&& final(item).suffixes@.last().hybrid_modifier_actual
                    == if self.suffixes@[index as int].0.hybrid_modifier.is_some() {
                    hybrid_actual
                } else {
                    self.suffixes@[index as int].0.hybrid_modifier_actual
                }
            },
            final(item).base == old(item).base,
            final(item).name == old(item).name,
            final(item).implicits == old(item).implicits,
            final(item).prefixes == old(item).prefixes,
            final(item).quality == old(item).quality,
            final(item).tags == old(item).tags,
    {
        let mut suffix: Affix = self.suffixes[index].0.duplicate();
        suffix.set_actual(modifier_actual, hybrid_actual);
        let r = item.try_push_suffix(Suffix(suffix));
        proof {
            if r.is_ok() {
                assert(final(item).suffixes@.drop_last() =~= old(item).suffixes@);
            }
        }
        r
    }

    /// Draws a prefix that the item can get, with values drawn for it, and
    /// puts it on the item where the item has room for a prefix.
    pub fn try_push_random_prefix(&self, item: &mut AffixiveItem) -> (r: Result<(), PushAffixError>)
        requires
            self.wf(),
            self.prefix_table@[old(item).base.spec_index()].is_some(),
        ensures
            r == room_for(old(item).quality, old(item).prefixes@.len()),
            r.is_err() ==> final(item).prefixes@ == old(item).prefixes@,
            r.is_ok() ==> {
                &&& final(item).prefixes@.len() == old(item).prefixes@.len() + 1
                &&& final(item).prefixes@.drop_last() == old(item).prefixes@
                &&& exists|index: int|
                    self.prefix_table@[old(item).base.spec_index()].unwrap().start <= index
                        < self.prefix_table@[old(item).base.spec_index()].unwrap().end
                        && drawn_from(
                        final(item).prefixes@.last(),
                        (#[trigger] self.prefixes@[index]).0,
                    )
            },
            final(item).base == old(item).base,
            final(item).name == old(item).name,
            final(item).implicits == old(item).implicits,
            final(item).suffixes == old(item).suffixes,
            final(item).quality == old(item).quality,
            final(item).tags == old(item).tags,
    {
        let table: AffixTable = match self.prefix_table(item) {
            Some(table) => table,
            None => AffixTable { start: 0, end: 1 },
        };
        let index: usize = table.start + random_index(table.end - table.start);
        let mut prefix: Affix = self.prefixes[index].0.duplicate();
        prefix.randomize_actual();
        let r = item.try_push_prefix(Prefix(prefix));
        proof {
            if r.is_ok() {
                assert(final(item).prefixes@.drop_last() =~= old(item).prefixes@);
                assert(drawn_from(final(item).prefixes@.last(), self.prefixes@[index as int].0));
            }
        }
        r
    }

    /// Draws a suffix that the item can get, with values drawn for it, and
    /// puts it on the item where the item has room for a suffix.
    pub fn try_push_random_suffix(&self, item: &mut AffixiveItem) -> (r: Result<(), PushAffixError>)
        requires
            self.wf(),
            self.suffix_table@[old(item).base.spec_index()].is_some(),
        ensures
            r == room_for(old(item).quality, old(item).suffixes@.len()),
            r.is_err() ==> final(item).suffixes@ == old(item).suffixes@,
            r.is_ok() ==> {
                &&& final(item).suffixes@.len() == old(item).suffixes@.len() + 1
                &&& final(item).suffixes@.drop_last() == old(item).suffixes@
                &&& exists|index: int|
                    self.suffix_table@[old(item).base.spec_index()].unwrap().start <= index
                        < self.suffix_table@[old(item).base.spec_index()].unwrap().end
                        && drawn_from(
                        final(item).suffixes@.last(),
                        (#[trigger] self.suffixes@[index]).0,
                    )
            },
            final(item).base == old(item).base,
            final(item).name == old(item).name,
            final(item).implicits == old(item).implicits,
            final(item).prefixes == old(item).prefixes,
            final(item).quality == old(item).quality,
            final(item).tags == old(item).tags,
    {
        let table: AffixTable = match self.suffix_table(item) {
            Some(table) => table,
            None => AffixTable { start: 0, end: 1 },
        };
        let index: usize = table.start + random_index(table.end - table.start);
        let mut suffix: Affix = self.suffixes[index].0.duplicate();
        suffix.randomize_actual();
        let r = item.try_push_suffix(Suffix(suffix));
        proof {
            if r.is_ok() {
                assert(final(item).suffixes@.drop_last() =~= old(item).suffixes@);
                assert(drawn_from(final(item).suffixes@.last(), self.suffixes@[index as int].0));
            }
        }
        r
    }
}

impl Default for ItemDatabase {
    fn default() -> (r: ItemDatabase)
        ensures
            r.wf(),
    {
        ItemDatabase::new()
    }
}

} // verus!
