//! Items and slots for any kind of modifier.

pub mod item;
pub mod item_slot;
