//! The bases of items: what an item is before it gets any affix.

use vstd::prelude::*;
use crate::item::affixive_item::{ImplicitIndex, ItemTag};

verus! {

/// The number of bases.
pub const BASE_COUNT: usize = 3;

/// A base of items. It is cheap to keep and to hand on; what belongs to it
/// is found in the item database.
#[derive(Debug, Clone, Copy, PartialEq, Eq, Structural, Hash)]
pub enum Base {
    MakeshiftTools,
    SecondaryTools,
    StoneTools,
}

impl Base {
    /// The place of the base in the item database.
    pub open spec fn spec_index(self) -> int {
        match self {
            Base::MakeshiftTools => 0,
            Base::SecondaryTools => 1,
            Base::StoneTools => 2,
        }
    }

    /// The name of the base as the player reads it.
    pub open spec fn spec_name(self) -> Seq<char> {
        match self {
            Base::MakeshiftTools => "Makeshift Tools"@,
            Base::SecondaryTools => "Secondary Tools"@,
            Base::StoneTools => "Stone Tools"@,
        }
    }

    /// The implicits that an item of the base starts with, by their place
    /// among the implicits.
    pub open spec fn spec_implicits(self) -> Seq<ImplicitIndex> {
        match self {
            Base::MakeshiftTools => seq![ImplicitIndex(0), ImplicitIndex(1)],
            Base::SecondaryTools => seq![],
            Base::StoneTools => seq![ImplicitIndex(0), ImplicitIndex(1)],
        }
    }

    /// The place of the base in the item database.
    pub fn index(self) -> (r: usize)
        ensures
            r == self.spec_index(),
            r < BASE_COUNT,
    {
        match self {
            Base::MakeshiftTools => 0,
            Base::SecondaryTools => 1,
            Base::StoneTools => 2,
        }
    }

    /// The name of the base as the player reads it.
    pub fn name(&self) -> (r: &'static str)
        ensures
            r@ == self.spec_name(),
    {
        match self {
            Base::MakeshiftTools => "Makeshift Tools",
            Base::SecondaryTools => "Secondary Tools",
            Base::StoneTools => "Stone Tools",
        }
    }
}

/// What belongs to a base.
#[derive(Debug)]
pub struct AffixiveItemBase {
    pub name: String,
    pub level: u8,
    pub tags: Vec<ItemTag>,
    pub implicits: Vec<ImplicitIndex>,
}

/// Whether an entry is that of a base of tools: it has the name and the
/// implicits of the base, the lowest level and the tag of a tool.
pub open spec fn is_tool_base(entry: AffixiveItemBase, base: Base) -> bool {
    &&& entry.name@ == base.spec_name()
    &&& entry.level == 0
    &&& entry.tags@ == seq![ItemTag::Tool]
    &&& entry.implicits@ == base.spec_implicits()
}

/// The entry of a base of tools.
fn tool_base(base: Base) -> (r: AffixiveItemBase)
    ensures
        is_tool_base(r, base),
{
    let mut tags: Vec<ItemTag> = Vec::new();
    tags.push(ItemTag::Tool);
    let mut implicits: Vec<ImplicitIndex> = Vec::new();
    match base {
        Base::SecondaryTools => {},
        _ => {
            implicits.push(ImplicitIndex(0));
            implicits.push(ImplicitIndex(1));
        },
    }
    proof {
        assert(implicits@ =~= base.spec_implicits());
        assert(tags@ =~= seq![ItemTag::Tool]);
    }
    AffixiveItemBase { name: base.name().to_string(), level: 0, tags, implicits }
}

/// The entry of makeshift tools.
pub fn makeshift_tools() -> (r: AffixiveItemBase)
    ensures
        is_tool_base(r, Base::MakeshiftTools),
{
    tool_base(Base::MakeshiftTools)
}

/// The entry of secondary tools.
pub fn secondary_tools() -> (r: AffixiveItemBase)
    ensures
        is_tool_base(r, Base::SecondaryTools),
{
    tool_base(Base::SecondaryTools)
}

/// The entries of all bases, each at the place of its base.
pub fn initialize() -> (r: Vec<AffixiveItemBase>)
    ensures
        r@.len() == BASE_COUNT,
        is_tool_base(r@[0], Base::MakeshiftTools),
        is_tool_base(r@[1], Base::SecondaryTools),
        is_tool_base(r@[2], Base::StoneTools),
{
    let mut bases: Vec<AffixiveItemBase> = Vec::new();
    bases.push(tool_base(Base::MakeshiftTools));
    bases.push(tool_base(Base::SecondaryTools));
    bases.push(tool_base(Base::StoneTools));
    bases
}

} // verus!
