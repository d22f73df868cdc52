//! Items with affixes: what they are made of and what they do for the
//! player.

pub mod affixive_item;
pub mod base;
pub mod equipment;
pub mod item_database;
pub mod item_slot;
pub mod modifier;
