//! Modifiers and the affixes that carry them.

use vstd::prelude::*;
use crate::chance::random_between;
use crate::text::{hundredths, push_hundredths, push_signed, push_text, sign, signed_decimal, spec_sign};

verus! {

/// The value of a modifier.
pub type ModifierValue = i32;

/// What a modifier changes.
#[derive(Debug, Clone, Copy, PartialEq, Eq, Structural, Hash)]
pub enum ModifierKind {
    /// The wood that gathering wood brings in a second, in hundredths.
    WoodBase,
    /// Wood on top of the base, in hundredths.
    WoodBaseGain,
    WoodMultiplier,
    WoodAffinityChanceMultiplier,
    WoodAffinityMultiplier,
    WoodAffinityTimeMultiplier,
    /// The stone that gathering stone brings in a second, in hundredths.
    StoneBase,
    StoneBaseGain,
    StoneMultiplier,
    StoneAffinityChanceMultiplier,
    StoneAffinityMultiplier,
    StoneAffinityTimeMultiplier,
    ToolAffinityChanceMultiplier,
}

/// How the value of a modifier is written.
#[derive(Debug, Clone, Copy, PartialEq, Eq, Structural)]
pub enum ValueShape {
    /// As a number of units, from a value in hundredths.
    Units,
    /// With a sign in front, as a number of units from a value in
    /// hundredths.
    SignedUnits,
    /// With a sign in front, as the value itself.
    SignedValue,
}

impl ModifierKind {
    /// What stands before the value of a modifier of this kind.
    pub open spec fn spec_lead(self) -> Seq<char> {
        match self {
            ModifierKind::WoodBase => "Chopping wood gives "@,
            ModifierKind::StoneBase => "Mining stone gives "@,
            _ => ""@,
        }
    }

    /// How the value of a modifier of this kind is written.
    pub open spec fn spec_shape(self) -> ValueShape {
        match self {
            ModifierKind::WoodBase => ValueShape::Units,
            ModifierKind::StoneBase => ValueShape::Units,
            ModifierKind::WoodBaseGain => ValueShape::SignedUnits,
            ModifierKind::ToolAffinityChanceMultiplier => ValueShape::SignedUnits,
            _ => ValueShape::SignedValue,
        }
    }

    /// What stands behind the value of a modifier of this kind.
    pub open spec fn spec_tail(self) -> Seq<char> {
        match self {
            ModifierKind::WoodBase => " wood per second"@,
            ModifierKind::WoodBaseGain => " Wood chopped per second"@,
            ModifierKind::WoodMultiplier => "% Wood chopped per second"@,
            ModifierKind::WoodAffinityChanceMultiplier => "% Wood affinity chance"@,
            ModifierKind::WoodAffinityMultiplier => "% Wood affinity gain"@,
            ModifierKind::WoodAffinityTimeMultiplier => "% Wood affinity time"@,
            ModifierKind::StoneBase => " stone per second"@,
            ModifierKind::StoneBaseGain => " Stone mined per second"@,
            ModifierKind::StoneMultiplier => "% Stone mined per second"@,
            ModifierKind::StoneAffinityChanceMultiplier => " Stone affinity chance"@,
            ModifierKind::StoneAffinityMultiplier => "% Stone affinity gain"@,
            ModifierKind::StoneAffinityTimeMultiplier => "% Sone affinity time"@,
            ModifierKind::ToolAffinityChanceMultiplier => " Tool action affinity chance"@,
        }
    }

    /// A value written in a shape.
    pub open spec fn spec_value(shape: ValueShape, actual: int) -> Seq<char> {
        match shape {
            ValueShape::Units => hundredths(actual),
            ValueShape::SignedUnits => seq![spec_sign(actual)] + hundredths(actual),
            ValueShape::SignedValue => seq![spec_sign(actual)] + signed_decimal(actual),
        }
    }

    /// What the player reads of a modifier of this kind with a value.
    pub open spec fn spec_display_actual(self, actual: int) -> Seq<char> {
        self.spec_lead() + ModifierKind::spec_value(self.spec_shape(), actual) + self.spec_tail()
    }

    /// What stands before the value of a modifier of this kind.
    fn lead(&self) -> (r: &'static str)
        ensures
            r@ == self.spec_lead(),
    {
        match self {
            ModifierKind::WoodBase => "Chopping wood gives ",
            ModifierKind::StoneBase => "Mining stone gives ",
            _ => "",
        }
    }

    /// How the value of a modifier of this kind is written.
    fn shape(&self) -> (r: ValueShape)
        ensures
            r == self.spec_shape(),
    {
        match self {
            ModifierKind::WoodBase => ValueShape::Units,
            ModifierKind::StoneBase => ValueShape::Units,
            ModifierKind::WoodBaseGain => ValueShape::SignedUnits,
            ModifierKind::ToolAffinityChanceMultiplier => ValueShape::SignedUnits,
            _ => ValueShape::SignedValue,
        }
    }

    /// What stands behind the value of a modifier of this kind.
    fn tail(&self) -> (r: &'static str)
        ensures
            r@ == self.spec_tail(),
    {
        match self {
            ModifierKind::WoodBase => " wood per second",
            ModifierKind::WoodBaseGain => " Wood chopped per second",
            ModifierKind::WoodMultiplier => "% Wood chopped per second",
            ModifierKind::WoodAffinityChanceMultiplier => "% Wood affinity chance",
            ModifierKind::WoodAffinityMultiplier => "% Wood affinity gain",
            ModifierKind::WoodAffinityTimeMultiplier => "% Wood affinity time",
            ModifierKind::StoneBase => " stone per second",
            ModifierKind::StoneBaseGain => " Stone mined per second",
            ModifierKind::StoneMultiplier => "% Stone mined per second",
            ModifierKind::StoneAffinityChanceMultiplier => " Stone affinity chance",
            ModifierKind::StoneAffinityMultiplier => "% Stone affinity gain",
            ModifierKind::StoneAffinityTimeMultiplier => "% Sone affinity time",
            ModifierKind::ToolAffinityChanceMultiplier => " Tool action affinity chance",
        }
    }

    /// What the player reads of a modifier of this kind with a value.
    pub fn display_actual(&self, actual: i32) -> (r: String)
        ensures
            r@ == self.spec_display_actual(actual as int),
    {
        let mut out: String = String::new();
        push_text(&mut out, self.lead());
        match self.shape() {
            ValueShape::Units => {
                push_hundredths(&mut out, actual as i64);
            },
            ValueShape::SignedUnits => {
                out.push(sign(actual));
                push_hundredths(&mut out, actual as i64);
            },
            ValueShape::SignedValue => {
                out.push(sign(actual));
                push_signed(&mut out, actual as i64);
            },
        }
        push_text(&mut out, self.tail());
        assert(out@ =~= self.spec_display_actual(actual as int));
        out
    }
}

/// A modifier: a kind with the range from which its value is drawn.
#[derive(Debug, Clone, Copy)]
pub struct Modifier {
    pub kind: ModifierKind,
    pub min: ModifierValue,
    pub max: ModifierValue,
}

impl Modifier {
    /// The range of a modifier is not empty.
    pub open spec fn wf(self) -> bool {
        self.min <= self.max
    }

    /// Whether a value lies in the range of the modifier.
    pub open spec fn holds(self, value: ModifierValue) -> bool {
        self.min <= value <= self.max
    }

    /// What the player reads of the modifier with a value.
    pub fn display_actual(&self, actual: ModifierValue) -> (r: String)
        ensures
            r@ == self.kind.spec_display_actual(actual as int),
    {
        self.kind.display_actual(actual)
    }

    /// Draws a value from the range of the modifier.
    pub fn random_modifier_value(&self) -> (r: ModifierValue)
        requires
            self.wf(),
        ensures
            self.holds(r),
    {
        random_between(self.min, self.max)
    }
}

/// An affix: a named modifier with its value, and a second modifier with
/// its value where the affix is a hybrid.
#[derive(Debug, Clone)]
pub struct Affix {
    pub name: String,
    pub modifier: Modifier,
    pub modifier_actual: ModifierValue,
    pub hybrid_modifier: Option<Modifier>,
    pub hybrid_modifier_actual: ModifierValue,
}

impl Affix {
    /// The ranges of the modifiers of an affix are not empty.
    pub open spec fn wf(self) -> bool {
        &&& self.modifier.wf()
        &&& match self.hybrid_modifier {
            Some(hybrid) => hybrid.wf(),
            None => true,
        }
    }

    /// Whether the values of an affix lie in the ranges of its modifiers.
    pub open spec fn in_range(self) -> bool {
        &&& self.modifier.holds(self.modifier_actual)
        &&& match self.hybrid_modifier {
            Some(hybrid) => hybrid.holds(self.hybrid_modifier_actual),
            None => true,
        }
    }

    /// Whether two affixes agree in their name and their modifiers.
    pub open spec fn same_kind(self, other: Affix) -> bool {
        &&& self.name@ == other.name@
        &&& self.modifier == other.modifier
        &&& self.hybrid_modifier == other.hybrid_modifier
    }

    /// Whether two affixes agree in all but the place where they are kept.
    pub open spec fn same(self, other: Affix) -> bool {
        &&& self.same_kind(other)
        &&& self.modifier_actual == other.modifier_actual
        &&& self.hybrid_modifier_actual == other.hybrid_modifier_actual
    }

    /// The modifiers of the affix with their values: the first, and the
    /// second where there is one.
    pub open spec fn spec_modifiers(self) -> Seq<(Modifier, ModifierValue)> {
        match self.hybrid_modifier {
            Some(hybrid) => seq![
                (self.modifier, self.modifier_actual),
                (hybrid, self.hybrid_modifier_actual),
            ],
            None => seq![(self.modifier, self.modifier_actual)],
        }
    }

    /// What the player reads of the affix: one line for each modifier.
    pub open spec fn spec_display(self) -> Seq<char> {
        match self.hybrid_modifier {
            Some(hybrid) => self.modifier.kind.spec_display_actual(self.modifier_actual as int)
                + seq!['\n'] + hybrid.kind.spec_display_actual(self.hybrid_modifier_actual as int),
            None => self.modifier.kind.spec_display_actual(self.modifier_actual as int),
        }
    }

    /// A new affix with the given modifier and no second one. Its value is
    /// the one value of the range where the range has one value only, and
    /// zero until it is drawn otherwise.
    pub fn new(name: String, modifier: Modifier) -> (r: Affix)
        ensures
            r.name == name,
            r.modifier == modifier,
            r.modifier_actual == if modifier.min == modifier.max {
                modifier.min
            } else {
                0
            },
            r.hybrid_modifier.is_none(),
            r.hybrid_modifier_actual == 0,
    {
        Affix {
            name,
            modifier,
            modifier_actual: if modifier.min == modifier.max {
                modifier.min
            } else {
                0
            },
            hybrid_modifier: None,
            hybrid_modifier_actual: 0,
        }
    }

    /// A copy of the affix.
    pub fn duplicate(&self) -> (r: Affix)
        ensures
            r.same(*self),
    {
        Affix {
            name: self.name.clone(),
            modifier: self.modifier,
            modifier_actual: self.modifier_actual,
            hybrid_modifier: self.hybrid_modifier,
            hybrid_modifier_actual: self.hybrid_modifier_actual,
        }
    }

    /// What the player reads of the affix.
    pub fn display(&self) -> (r: String)
        ensures
            r@ == self.spec_display(),
    {
        let mut output: String = String::new();
        let first: String = self.modifier.display_actual(self.modifier_actual);
        push_text(&mut output, first.as_str());
        match self.hybrid_modifier {
            Some(hybrid_modifier) => {
                output.push('\n');
                let second: String = hybrid_modifier.display_actual(self.hybrid_modifier_actual);
                push_text(&mut output, second.as_str());
            },
            None => {},
        }
        assert(output@ =~= self.spec_display());
        output
    }

    /// Sets the values of the affix. The second value is kept only where
    /// the affix has a second modifier.
    pub fn set_actual(&mut self, modifier_actual: ModifierValue, hybrid_actual: ModifierValue)
        ensures
            final(self).same_kind(*old(self)),
            final(self).name == old(self).name,
            final(self).modifier_actual == modifier_actual,
            final(self).hybrid_modifier_actual == if old(self).hybrid_modifier.is_some() {
                hybrid_actual
            } else {
                old(self).hybrid_modifier_actual
            },
    {
        self.modifier_actual = modifier_actual;
        if self.hybrid_modifier.is_some() {
            self.hybrid_modifier_actual = hybrid_actual;
        }
    }

    /// Draws the values of the affix anew, each from the range of its
    /// modifier.
    pub fn randomize_actual(&mut self)
        requires
            old(self).wf(),
        ensures
            final(self).same_kind(*old(self)),
            final(self).name == old(self).name,
            final(self).in_range(),
            old(self).hybrid_modifier.is_none() ==> final(self).hybrid_modifier_actual == old(self).hybrid_modifier_actual,
    {
        let first: ModifierValue = self.modifier.random_modifier_value();
        let second: ModifierValue = match self.hybrid_modifier {
            Some(modifier) => modifier.random_modifier_value(),
            None => 0,
        };
        self.set_actual(first, second);
    }

    /// The modifiers of the affix with their values.
    pub fn modifiers(&self) -> (r: Vec<(Modifier, ModifierValue)>)
        ensures
            r@ == self.spec_modifiers(),
    {
        let mut out: Vec<(Modifier, ModifierValue)> = Vec::new();
        out.push((self.modifier, self.modifier_actual));
        match self.hybrid_modifier {
            Some(hybrid) => {
                out.push((hybrid, self.hybrid_modifier_actual));
            },
            None => {},
        }
        assert(out@ =~= self.spec_modifiers());
        out
    }
}

/// An affix that belongs to the base of an item.
#[derive(Debug, Clone)]
pub struct Implicit(pub Affix);

/// An affix that comes before the name of an item.
#[derive(Debug, Clone)]
pub struct Prefix(pub Affix);

/// An affix that comes behind the name of an item.
#[derive(Debug, Clone)]
pub struct Suffix(pub Affix);

/// Whether an affix has a name, a kind of modifier and a range, no second
/// modifier, and the value that a new affix has.
pub open spec fn is_plain_affix(
    affix: Affix,
    name: Seq<char>,
    kind: ModifierKind,
    min: ModifierValue,
    max: ModifierValue,
) -> bool {
    &&& affix.name@ == name
    &&& affix.modifier.kind == kind
    &&& affix.modifier.min == min
    &&& affix.modifier.max == max
    &&& affix.modifier_actual == if min == max {
        min
    } else {
        0
    }
    &&& affix.hybrid_modifier.is_none()
    &&& affix.hybrid_modifier_actual == 0
}

/// A new affix with a name, a kind of modifier and a range.
fn plain_affix(name: &str, kind: ModifierKind, min: ModifierValue, max: ModifierValue) -> (r: Affix)
    ensures
        is_plain_affix(r, name@, kind, min, max),
{
    Affix::new(name.to_string(), Modifier { kind, min, max })
}

/// The implicits that the bases of items draw on.
pub fn initialize_implicits() -> (r: Vec<Implicit>)
    ensures
        r@.len() == 4,
        is_plain_affix(r@[0].0, "Tier0ToolsGatherWoodBase"@, ModifierKind::WoodBase, 50, 50),
        is_plain_affix(r@[1].0, "Tier0ToolsGatherStoneBase"@, ModifierKind::StoneBase, 50, 50),
        is_plain_affix(r@[2].0, "Tier1ToolsGatherWoodBase"@, ModifierKind::WoodBase, 80, 120),
        is_plain_affix(r@[3].0, "Tier1ToolsGatherStoneBase"@, ModifierKind::StoneBase, 80, 120),
{
    let mut mods: Vec<Implicit> = Vec::new();
    mods.push(Implicit(plain_affix("Tier0ToolsGatherWoodBase", ModifierKind::WoodBase, 50, 50)));
    mods.push(Implicit(plain_affix("Tier0ToolsGatherStoneBase", ModifierKind::StoneBase, 50, 50)));
    mods.push(Implicit(plain_affix("Tier1ToolsGatherWoodBase", ModifierKind::WoodBase, 80, 120)));
    mods.push(
        Implicit(plain_affix("Tier1ToolsGatherStoneBase", ModifierKind::StoneBase, 80, 120)),
    );
    mods
}

/// The prefixes that items can get.
pub fn initialize_prefixes() -> (r: Vec<Prefix>)
    ensures
        r@.len() == 1,
        is_plain_affix(r@[0].0, "Lumberjack's"@, ModifierKind::WoodBaseGain, 10, 20),
{
    let mut mods: Vec<Prefix> = Vec::new();
    mods.push(Prefix(plain_affix("Lumberjack's", ModifierKind::WoodBaseGain, 10, 20)));
    mods
}

/// The suffixes that items can get.
pub fn initialize_suffixes() -> (r: Vec<Suffix>)
    ensures
        r@.len() == 1,
        is_plain_affix(
            r@[0].0,
            "ingenuity"@,
            ModifierKind::ToolAffinityChanceMultiplier,
            50,
            100,
        ),
{
    let mut mods: Vec<Suffix> = Vec::new();
    mods.push(
        Suffix(plain_affix("ingenuity", ModifierKind::ToolAffinityChanceMultiplier, 50, 100)),
    );
    mods
}

} // verus!
