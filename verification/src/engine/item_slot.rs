//! The slots in which items are worn.

use vstd::prelude::*;
use crate::drop_tables::AffixiveItemTag;
use crate::engine::item::{AffixiveItem, AffixiveItemBase, Modifier, ModifierKind, ModifierValue};
use crate::item::item_slot::SwapFailReason;

verus! {

/// A slot for items of one kind up to a level, with the item that is worn
/// in it, if any.
#[derive(Debug)]
pub struct ItemSlot<MK: ModifierKind> {
    pub item: Option<AffixiveItem<MK>>,
    pub slot_kind: AffixiveItemTag,
    pub level: u8,
}

/// Whether a list of tags holds a tag.
pub open spec fn has_tag(tags: Seq<AffixiveItemTag>, tag: AffixiveItemTag) -> bool {
    exists|i: int| 0 <= i < tags.len() && tags[i] == tag
}

/// Whether a list of tags holds a tag.
pub fn contains_tag(tags: &Vec<AffixiveItemTag>, tag: AffixiveItemTag) -> (r: bool)
    ensures
        r == has_tag(tags@, tag),
{
    let mut i: usize = 0;
    while i < tags.len()
        invariant
            i <= tags.len(),
            forall|k: int| 0 <= k < i ==> tags@[k] != tag,
        decreases tags.len() - i,
    {
        if tags[i] == tag {
            return true;
        }
        i = i + 1;
    }
    false
}

impl<MK: ModifierKind> ItemSlot<MK> {
    /// What stands against an item in the slot, if anything: its level
    /// first, then its tags.
    pub open spec fn spec_can_hold(
        self,
        item: AffixiveItem<MK>,
        bases: Seq<AffixiveItemBase>,
    ) -> Result<(), SwapFailReason> {
        if bases[item.base_ix.0 as int].level > self.level {
            Err(SwapFailReason::TooHighLevel)
        } else if !has_tag(item.tags@, self.slot_kind) {
            Err(SwapFailReason::NotEquippableInSlot)
        } else {
            Ok(())
        }
    }

    /// The modifiers of the item in the slot with their values; none where
    /// the slot is empty.
    pub open spec fn spec_modifiers(self) -> Seq<(Modifier<MK>, ModifierValue)> {
        match self.item {
            Some(item) => item.spec_modifiers(),
            None => Seq::empty(),
        }
    }

    /// An empty slot.
    pub fn new(slot_kind: AffixiveItemTag, level: u8) -> (r: ItemSlot<MK>)
        ensures
            r.slot_kind == slot_kind,
            r.level == level,
            r.item.is_none(),
    {
        ItemSlot { item: None, slot_kind, level }
    }

    /// Tells whether the slot takes an item, and why not if it does not.
    pub fn can_hold(&self, item: &AffixiveItem<MK>, bases: &Vec<AffixiveItemBase>) -> (r: Result<
        (),
        SwapFailReason,
    >)
        requires
            item.base_ix.0 < bases@.len(),
        ensures
            r == self.spec_can_hold(*item, bases@),
    {
        if item.level(bases) > self.level {
            Err(SwapFailReason::TooHighLevel)
        } else if !contains_tag(&item.tags, self.slot_kind) {
            Err(SwapFailReason::NotEquippableInSlot)
        } else {
            Ok(())
        }
    }

    /// Puts an item, or none, into the slot and gives back what was in it.
    pub fn replace_item(&mut self, maybe_replacement_item: Option<AffixiveItem<MK>>) -> (r: Option<
        AffixiveItem<MK>,
    >)
        ensures
            r == old(self).item,
            final(self).item == maybe_replacement_item,
            final(self).slot_kind == old(self).slot_kind,
            final(self).level == old(self).level,
    {
        let mut held: Option<AffixiveItem<MK>> = maybe_replacement_item;
        std::mem::swap(&mut self.item, &mut held);
        held
    }

    /// The modifiers of the item in the slot with their values.
    pub fn modifiers(&self) -> (r: Vec<(Modifier<MK>, ModifierValue)>)
        ensures
            r@ == self.spec_modifiers(),
    {
        match &self.item {
            Some(item) => item.modifiers(),
            None => Vec::new(),
        }
    }
}

} // verus!
