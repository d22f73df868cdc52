//! What the modifiers of the game change.

use vstd::prelude::*;
use crate::engine::item::ModifierKind;
use crate::text::{push_signed, push_text, sign, signed_decimal, spec_sign};

verus! {

/// What a modifier of the game changes.
#[derive(Debug, Clone, Copy, PartialEq, Eq, Structural, Hash)]
pub enum GameModifierKind {
    InventoryBase,
    InventoryHeight,
    IncreasedVolume,
    InventorySkillGain,
    ArmorArmorIncrease,
    FootwearSpeedIncrease,
}

impl GameModifierKind {
    /// What stands before the value of a modifier of this kind.
    pub open spec fn spec_lead(self) -> Seq<char> {
        match self {
            GameModifierKind::InventorySkillGain => "Skills in inventory gain "@,
            _ => ""@,
        }
    }

    /// Whether the value of a modifier of this kind is written with a sign
    /// in front.
    pub open spec fn spec_signed(self) -> bool {
        self != GameModifierKind::InventorySkillGain
    }

    /// What stands behind the value of a modifier of this kind.
    pub open spec fn spec_tail(self) -> Seq<char> {
        match self {
            GameModifierKind::InventoryBase => " Inventory Base"@,
            GameModifierKind::InventoryHeight => " Inventory Height"@,
            GameModifierKind::IncreasedVolume => "% Increased Volume"@,
            GameModifierKind::InventorySkillGain => "% of earned experience"@,
            GameModifierKind::ArmorArmorIncrease => " Armor"@,
            GameModifierKind::FootwearSpeedIncrease => " Travel Speed"@,
        }
    }

    /// What stands before the value of a modifier of this kind.
    fn lead(&self) -> (r: &'static str)
        ensures
            r@ == self.spec_lead(),
    {
        match self {
            GameModifierKind::InventorySkillGain => "Skills in inventory gain ",
            _ => "",
        }
    }

    /// What stands behind the value of a modifier of this kind.
    fn tail(&self) -> (r: &'static str)
        ensures
            r@ == self.spec_tail(),
    {
        match self {
            GameModifierKind::InventoryBase => " Inventory Base",
            GameModifierKind::InventoryHeight => " Inventory Height",
            GameModifierKind::IncreasedVolume => "% Increased Volume",
            GameModifierKind::InventorySkillGain => "% of earned experience",
            GameModifierKind::ArmorArmorIncrease => " Armor",
            GameModifierKind::FootwearSpeedIncrease => " Travel Speed",
        }
    }
}

impl ModifierKind for GameModifierKind {
    /// What the player reads of a modifier of this kind with a value: the
    /// value, with a sign in front but for the gain of skills, between
    /// what stands before and behind it.
    open spec fn spec_display_actual(self, actual: int) -> Seq<char> {
        self.spec_lead() + if self.spec_signed() {
            seq![spec_sign(actual)]
        } else {
            Seq::empty()
        } + signed_decimal(actual) + self.spec_tail()
    }

    fn display_actual(&self, actual: i32) -> (r: String) {
        let mut out: String = String::new();
        push_text(&mut out, self.lead());
        match self {
            GameModifierKind::InventorySkillGain => {},
            _ => {
                out.push(sign(actual));
            },
        }
        push_signed(&mut out, actual as i64);
        push_text(&mut out, self.tail());
        assert(out@ =~= self.spec_display_actual(actual as int));
        out
    }
}

} // verus!
