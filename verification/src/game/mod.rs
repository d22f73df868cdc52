//! The kinds of modifier, the items and the player of the game.

pub mod item;
pub mod modifiers;
pub mod player;

use vstd::prelude::*;
use crate::game::modifiers::GameModifierKind;

verus! {

/// An implicit of the game.
pub type Implicit = crate::engine::item::Implicit<GameModifierKind>;

/// A prefix of the game.
pub type Prefix = crate::engine::item::Prefix<GameModifierKind>;

/// A suffix of the game.
pub type Suffix = crate::engine::item::Suffix<GameModifierKind>;

/// An item of the game.
pub type AffixiveItem = crate::engine::item::AffixiveItem<GameModifierKind>;

/// A slot of the game.
pub type ItemSlot = crate::engine::item_slot::ItemSlot<GameModifierKind>;

} // verus!
