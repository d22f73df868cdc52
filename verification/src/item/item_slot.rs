//! The slots in which the player wears items.

use vstd::prelude::*;
use crate::item::affixive_item::{AffixiveItem, ItemTag};
use crate::item::base::AffixiveItemBase;
use crate::item::modifier::{Modifier, ModifierValue};

verus! {

/// What a slot is for.
#[derive(Debug, Clone, Copy, PartialEq, Eq, Structural, Hash)]
pub enum ItemSlotTag {
    Tool,
    Hunt,
}

impl ItemSlotTag {
    /// The name of the slot as the player reads it.
    pub open spec fn spec_name(self) -> Seq<char> {
        match self {
            ItemSlotTag::Tool => "Tools"@,
            ItemSlotTag::Hunt => "Hunting Gear"@,
        }
    }

    /// The name of the slot as the player reads it.
    pub fn name(&self) -> (r: &'static str)
        ensures
            r@ == self.spec_name(),
    {
        match self {
            ItemSlotTag::Tool => "Tools",
            ItemSlotTag::Hunt => "Hunting Gear",
        }
    }
}

/// Why an item does not go into a slot.
#[derive(Debug, Clone, Copy, PartialEq, Eq, Structural)]
pub enum SwapFailReason {
    TooHighLevel,
    NotEquippableInSlot,
}

/// A slot, with the item that is worn in it, if any.
#[derive(Debug)]
pub struct ItemSlot {
    pub tag: ItemSlotTag,
    pub item: Option<AffixiveItem>,
    /// The highest level of item that the slot takes.
    pub level: u8,
}

/// Whether a list of tags holds a tag.
pub open spec fn has_tag(tags: Seq<ItemTag>, tag: ItemTag) -> bool {
    exists|i: int| 0 <= i < tags.len() && tags[i] == tag
}

/// Whether a list of tags holds a tag.
pub fn contains_tag(tags: &Vec<ItemTag>, tag: ItemTag) -> (r: bool)
    ensures
        r == has_tag(tags@, tag),
{
    let mut i: usize = 0;
    while i < tags.len()
        invariant
            i <= tags.len(),
            forall|k: int| 0 <= k < i ==> tags@[k] != tag,
        decreases tags.len() - i,
    {
        if tags[i] == tag {
            return true;
        }
        i = i + 1;
    }
    false
}

impl ItemSlot {
    /// What stands against an item in the slot, if anything: its level
    /// first, then its tags.
    pub open spec fn spec_can_hold(self, item: AffixiveItem, bases: Seq<AffixiveItemBase>) -> Result<
        (),
        SwapFailReason,
    > {
        if bases[item.base.spec_index()].level > self.level {
            Err(SwapFailReason::TooHighLevel)
        } else if !has_tag(item.tags@, ItemTag::spec_from_slot(self.tag)) {
            Err(SwapFailReason::NotEquippableInSlot)
        } else {
            Ok(())
        }
    }

    /// The modifiers of the item in the slot with their values; none where
    /// the slot is empty.
    pub open spec fn spec_modifiers(self) -> Seq<(Modifier, ModifierValue)> {
        match self.item {
            Some(item) => item.spec_modifiers(),
            None => Seq::empty(),
        }
    }

    /// An empty slot.
    pub fn new(tag: ItemSlotTag, level: u8) -> (r: ItemSlot)
        ensures
            r.tag == tag,
            r.level == level,
            r.item.is_none(),
    {
        ItemSlot { tag, item: None, level }
    }

    /// Tells whether the slot takes an item, and why not if it does not.
    pub fn can_hold(&self, item: &AffixiveItem, bases: &Vec<AffixiveItemBase>) -> (r: Result<
        (),
        SwapFailReason,
    >)
        requires
            bases@.len() == crate::item::base::BASE_COUNT,
        ensures
            r == self.spec_can_hold(*item, bases@),
    {
        if bases[item.base.index()].level > self.level {
            Err(SwapFailReason::TooHighLevel)
        } else if !contains_tag(&item.tags, ItemTag::from_slot(self.tag)) {
            Err(SwapFailReason::NotEquippableInSlot)
        } else {
            Ok(())
        }
    }

    /// Puts an item, or none, into the slot and gives back what was in it.
    pub fn replace_item(&mut self, maybe_replacement_item: Option<AffixiveItem>) -> (r: Option<
        AffixiveItem,
    >)
        ensures
            r == old(self).item,
            final(self).item == maybe_replacement_item,
            final(self).tag == old(self).tag,
            final(self).level == old(self).level,
    {
        let mut held: Option<AffixiveItem> = maybe_replacement_item;
        std::mem::swap(&mut self.item, &mut held);
        held
    }

    /// The modifiers of the item in the slot with their values.
    pub fn modifiers(&self) -> (r: Vec<(Modifier, ModifierValue)>)
        ensures
            r@ == self.spec_modifiers(),
    {
        match &self.item {
            Some(item) => item.modifiers(),
            None => Vec::new(),
        }
    }
}

} // verus!
