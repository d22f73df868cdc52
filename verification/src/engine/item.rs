//! Items that carry affixes, whatever their modifiers change.

use vstd::prelude::*;
use crate::chance::random_between;
use crate::drop_tables::{AffixiveItemBaseIndex, AffixiveItemTag};
use crate::text::push_text;

verus! {

/// What a modifier changes: a kind that can say how it reads with a value.
pub trait ModifierKind: Copy {
    /// What the player reads of a modifier of this kind with a value.
    spec fn spec_display_actual(self, actual: int) -> Seq<char>;

    /// What the player reads of a modifier of this kind with a value.
    fn display_actual(&self, actual: i32) -> (r: String)
        ensures
            r@ == self.spec_display_actual(actual as int),
    ;
}

/// The value of a modifier.
pub type ModifierValue = i32;

/// A modifier: a kind with the range from which its value is drawn.
#[derive(Debug, Clone, Copy)]
pub struct Modifier<MK: ModifierKind> {
    pub kind: MK,
    pub min: ModifierValue,
    pub max: ModifierValue,
}

impl<MK: ModifierKind> Modifier<MK> {
    /// The range of a modifier is not empty.
    pub open spec fn wf(self) -> bool {
        self.min <= self.max
    }

    /// Whether a value lies in the range of the modifier.
    pub open spec fn holds(self, value: ModifierValue) -> bool {
        self.min <= value <= self.max
    }

    /// What the player reads of the modifier with a value.
    pub fn display_actual(&self, actual: ModifierValue) -> (r: String)
        ensures
            r@ == self.kind.spec_display_actual(actual as int),
    {
        self.kind.display_actual(actual)
    }

    /// Draws a value from the range of the modifier.
    pub fn random_modifier_value(&self) -> (r: ModifierValue)
        requires
            self.wf(),
        ensures
            self.holds(r),
    {
        random_between(self.min, self.max)
    }
}

/// An affix: a named modifier with its value, and a second modifier with
/// its value where the affix is a hybrid.
#[derive(Debug, Clone)]
pub struct Affix<MK: ModifierKind> {
    pub name: String,
    pub modifier: Modifier<MK>,
    pub modifier_actual: ModifierValue,
    pub hybrid_modifier: Option<Modifier<MK>>,
    pub hybrid_modifier_actual: ModifierValue,
}

impl<MK: ModifierKind> Affix<MK> {
    /// The ranges of the modifiers of an affix are not empty.
    pub open spec fn wf(self) -> bool {
        &&& self.modifier.wf()
        &&& match self.hybrid_modifier {
            Some(hybrid) => hybrid.wf(),
            None => true,
        }
    }

    /// Whether the values of an affix lie in the ranges of its modifiers.
    pub open spec fn in_range(self) -> bool {
        &&& self.modifier.holds(self.modifier_actual)
        &&& match self.hybrid_modifier {
            Some(hybrid) => hybrid.holds(self.hybrid_modifier_actual),
            None => true,
        }
    }

    /// Whether two affixes agree in their name and their modifiers.
    pub open spec fn same_kind(self, other: Affix<MK>) -> bool {
        &&& self.name@ == other.name@
        &&& self.modifier == other.modifier
        &&& self.hybrid_modifier == other.hybrid_modifier
    }

    /// Whether two affixes agree in all but the place where they are kept.
    pub open spec fn same(self, other: Affix<MK>) -> bool {
        &&& self.same_kind(other)
        &&& self.modifier_actual == other.modifier_actual
        &&& self.hybrid_modifier_actual == other.hybrid_modifier_actual
    }

    /// The modifiers of the affix with their values: the first, and the
    /// second where there is one.
    pub open spec fn spec_modifiers(self) -> Seq<(Modifier<MK>, ModifierValue)> {
        match self.hybrid_modifier {
            Some(hybrid) => seq![
                (self.modifier, self.modifier_actual),
                (hybrid, self.hybrid_modifier_actual),
            ],
            None => seq![(self.modifier, self.modifier_actual)],
        }
    }

    /// What the player reads of the affix: one line for each modifier.
    pub open spec fn spec_display(self) -> Seq<char> {
        match self.hybrid_modifier {
            Some(hybrid) => self.modifier.kind.spec_display_actual(self.modifier_actual as int)
                + seq!['\n'] + hybrid.kind.spec_display_actual(self.hybrid_modifier_actual as int),
            None => self.modifier.kind.spec_display_actual(self.modifier_actual as int),
        }
    }

    /// A new affix with the given modifier and no second one. Its value is
    /// the one value of the range where the range has one value only, and
    /// zero until it is drawn otherwise.
    pub fn new(name: String, modifier: Modifier<MK>) -> (r: Affix<MK>)
        ensures
            r.name == name,
            r.modifier == modifier,
            r.modifier_actual == if modifier.min == modifier.max {
                modifier.min
            } else {
                0
            },
            r.hybrid_modifier.is_none(),
            r.hybrid_modifier_actual == 0,
    {
        Affix {
            name,
            modifier,
            modifier_actual: if modifier.min == modifier.max {
                modifier.min
            } else {
                0
            },
            hybrid_modifier: None,
            hybrid_modifier_actual: 0,
        }
    }

    /// A copy of the affix.
    pub fn duplicate(&self) -> (r: Affix<MK>)
        ensures
            r.same(*self),
    {
        Affix {
            name: self.name.clone(),
            modifier: self.modifier,
            modifier_actual: self.modifier_actual,
            hybrid_modifier: self.hybrid_modifier,
            hybrid_modifier_actual: self.hybrid_modifier_actual,
        }
    }

    /// What the player reads of the affix.
    pub fn display(&self) -> (r: String)
        ensures
            r@ == self.spec_display(),
    {
        let mut output: String = String::new();
        let first: String = self.modifier.display_actual(self.modifier_actual);
        push_text(&mut output, first.as_str());
        match self.hybrid_modifier {
            Some(hybrid_modifier) => {
                output.push('\n');
                let second: String = hybrid_modifier.display_actual(self.hybrid_modifier_actual);
                push_text(&mut output, second.as_str());
            },
            None => {},
        }
        assert(output@ =~= self.spec_display());
        output
    }

    /// Sets the values of the affix. The second value is kept only where
    /// the affix has a second modifier.
    pub fn set_actual(&mut self, modifier_actual: ModifierValue, hybrid_actual: ModifierValue)
        ensures
            final(self).same_kind(*old(self)),
            final(self).name == old(self).name,
            final(self).modifier_actual == modifier_actual,
            final(self).hybrid_modifier_actual == if old(self).hybrid_modifier.is_some() {
                hybrid_actual
            } else {
                old(self).hybrid_modifier_actual
            },
    {
        self.modifier_actual = modifier_actual;
        if self.hybrid_modifier.is_some() {
            self.hybrid_modifier_actual = hybrid_actual;
        }
    }

    /// Draws the values of the affix anew, each from the range of its
    /// modifier.
    pub fn randomize_actual(&mut self)
        requires
            old(self).wf(),
        ensures
            final(self).same_kind(*old(self)),
            final(self).name == old(self).name,
            final(self).in_range(),
            old(self).hybrid_modifier.is_none() ==> final(self).hybrid_modifier_actual == old(self).hybrid_modifier_actual,
    {
        let first: ModifierValue = self.modifier.random_modifier_value();
        let second: ModifierValue = match self.hybrid_modifier {
            Some(modifier) => modifier.random_modifier_value(),
            None => 0,
        };
        self.set_actual(first, second);
    }

    /// The modifiers of the affix with their values.
    pub fn modifiers(&self) -> (r: Vec<(Modifier<MK>, ModifierValue)>)
        ensures
            r@ == self.spec_modifiers(),
    {
        let mut out: Vec<(Modifier<MK>, ModifierValue)> = Vec::new();
        out.push((self.modifier, self.modifier_actual));
        match self.hybrid_modifier {
            Some(hybrid) => {
                out.push((hybrid, self.hybrid_modifier_actual));
            },
            None => {},
        }
        assert(out@ =~= self.spec_modifiers());
        out
    }
}

/// An affix that belongs to the base of an item.
#[derive(Debug, Clone)]
pub struct Implicit<MK: ModifierKind>(pub Affix<MK>);

/// An affix that comes before the name of an item.
#[derive(Debug, Clone)]
pub struct Prefix<MK: ModifierKind>(pub Affix<MK>);

/// An affix that comes behind the name of an item.
#[derive(Debug, Clone)]
pub struct Suffix<MK: ModifierKind>(pub Affix<MK>);

/// How many affixes an item can carry.
#[derive(Debug, Clone, Copy, PartialEq, Eq, Structural)]
pub enum Quality {
    /// The affixes of the item are fixed.
    FixedArtifact,
    /// The item can carry this many prefixes and this many suffixes: at a
    /// quality of two, two of each.
    Quality(i8),
}

/// The place of an implicit among the implicits.
#[derive(Debug, Clone, Copy, PartialEq, Eq, Structural, Hash)]
pub struct ImplicitIndex(pub usize);

/// What belongs to a base of items.
#[derive(Debug)]
pub struct AffixiveItemBase {
    pub name: String,
    pub level: u8,
    pub tags: Vec<AffixiveItemTag>,
    pub implicits: Vec<ImplicitIndex>,
}

/// Why an affix cannot be put on an item.
#[derive(Debug, Clone, Copy, PartialEq, Eq, Structural)]
pub enum PushAffixError {
    AffixiveItemIsFixed,
    AffixiveItemQualityTooLow,
}

/// An item with its affixes.
#[derive(Debug)]
pub struct AffixiveItem<MK: ModifierKind> {
    pub base_ix: AffixiveItemBaseIndex,
    pub implicits: Vec<Affix<MK>>,
    pub prefixes: Vec<Affix<MK>>,
    pub suffixes: Vec<Affix<MK>>,
    pub quality: Quality,
    pub tags: Vec<AffixiveItemTag>,
}

/// The modifiers of a list of affixes with their values, affix by affix.
pub open spec fn affix_modifiers<MK: ModifierKind>(affixes: Seq<Affix<MK>>) -> Seq<
    (Modifier<MK>, ModifierValue),
>
    decreases affixes.len(),
{
    if affixes.len() == 0 {
        Seq::empty()
    } else {
        affix_modifiers(affixes.drop_last()) + affixes.last().spec_modifiers()
    }
}

/// What the player reads of a list of affixes: what is read of each, with
/// `end` behind each.
pub open spec fn affix_lines<MK: ModifierKind>(affixes: Seq<Affix<MK>>, end: Seq<char>) -> Seq<char>
    decreases affixes.len(),
{
    if affixes.len() == 0 {
        Seq::empty()
    } else {
        affix_lines(affixes.drop_last(), end) + affixes.last().spec_display() + end
    }
}

/// A row of tildes; none for a count below one.
pub open spec fn tildes(count: int) -> Seq<char> {
    if count <= 0 {
        Seq::empty()
    } else {
        Seq::new(count as nat, |i: int| '~')
    }
}

/// Whether an item can take one more affix where it carries `carried` of
/// them already, and why not if it cannot. An item of a quality below zero
/// takes any number.
pub open spec fn room_for(quality: Quality, carried: nat) -> Result<(), PushAffixError> {
    match quality {
        Quality::FixedArtifact => Err(PushAffixError::AffixiveItemIsFixed),
        Quality::Quality(quality) => if quality >= 0 && quality as nat == carried {
            Err(PushAffixError::AffixiveItemQualityTooLow)
        } else {
            Ok(())
        },
    }
}

/// Writes what the player reads of a list of affixes at the end of a
/// string.
fn push_affix_lines<MK: ModifierKind>(out: &mut String, affixes: &Vec<Affix<MK>>, end: &str)
    ensures
        final(out)@ == old(out)@ + affix_lines(affixes@, end@),
{
    let mut i: usize = 0;
    while i < affixes.len()
        invariant
            i <= affixes.len(),
            out@ == old(out)@ + affix_lines(affixes@.take(i as int), end@),
        decreases affixes.len() - i,
    {
        let line: String = affixes[i].display();
        proof {
            assert(affixes@.take(i + 1).drop_last() =~= affixes@.take(i as int));
            assert(affixes@.take(i + 1).last() == affixes@[i as int]);
        }
        push_text(out, line.as_str());
        push_text(out, end);
        assert(out@ =~= old(out)@ + affix_lines(affixes@.take(i + 1), end@));
        i = i + 1;
    }
    proof {
        assert(affixes@.take(affixes.len() as int) =~= affixes@);
    }
}

/// Adds the modifiers of a list of affixes to a list of modifiers.
fn push_affix_modifiers<MK: ModifierKind>(
    out: &mut Vec<(Modifier<MK>, ModifierValue)>,
    affixes: &Vec<Affix<MK>>,
)
    ensures
        final(out)@ == old(out)@ + affix_modifiers(affixes@),
{
    let mut i: usize = 0;
    while i < affixes.len()
        invariant
            i <= affixes.len(),
            out@ == old(out)@ + affix_modifiers(affixes@.take(i as int)),
        decreases affixes.len() - i,
    {
        let mut found: Vec<(Modifier<MK>, ModifierValue)> = affixes[i].modifiers();
        proof {
            assert(affixes@.take(i + 1).drop_last() =~= affixes@.take(i as int));
            assert(affixes@.take(i + 1).last() == affixes@[i as int]);
        }
        out.append(&mut found);
        assert(out@ =~= old(out)@ + affix_modifiers(affixes@.take(i + 1)));
        i = i + 1;
    }
    proof {
        assert(affixes@.take(affixes.len() as int) =~= affixes@);
    }
}

/// Writes a row of tildes at the end of a string.
fn push_tildes(out: &mut String, count: i8)
    ensures
        final(out)@ == old(out)@ + tildes(count as int),
{
    let mut i: i8 = 0;
    while i < count
        invariant
            0 <= i,
            count >= 0 ==> i <= count,
            count < 0 ==> i == 0,
            out@ == old(out)@ + tildes(i as int),
        decreases count - i,
    {
        out.push('~');
        assert(out@ =~= old(out)@ + tildes((i + 1) as int));
        i = i + 1;
    }
    assert(out@ =~= old(out)@ + tildes(count as int));
}

impl<MK: ModifierKind> AffixiveItem<MK> {
    /// The modifiers of the item with their values: those of its
    /// implicits, then of its prefixes, then of its suffixes.
    pub open spec fn spec_modifiers(self) -> Seq<(Modifier<MK>, ModifierValue)> {
        affix_modifiers(self.implicits@) + affix_modifiers(self.prefixes@) + affix_modifiers(
            self.suffixes@,
        )
    }

    /// The line under which the item goes: the name of its base, marked as
    /// that of an artifact or set between as many tildes as its quality
    /// says.
    pub open spec fn spec_title(self, name: Seq<char>) -> Seq<char> {
        match self.quality {
            Quality::FixedArtifact => "Artifact: "@ + name,
            Quality::Quality(quality) => tildes(quality as int) + name + tildes(quality as int),
        }
    }

    /// What the player reads of the item: its title, its implicits, and
    /// its prefixes and suffixes line by line, each part closed by a rule.
    pub open spec fn spec_display(self, name: Seq<char>) -> Seq<char> {
        self.spec_title(name) + "\n===\n"@ + affix_lines(self.implicits@, Seq::empty())
            + "\n===\n"@ + affix_lines(self.prefixes@, seq!['\n']) + affix_lines(
            self.suffixes@,
            seq!['\n'],
        ) + if self.prefixes@.len() + self.suffixes@.len() > 0 {
            "===\n"@
        } else {
            Seq::empty()
        }
    }

    /// A new item of a base, with the implicits of the base, each with
    /// values drawn for it, and no other affix.
    pub fn new(
        bases: &Vec<AffixiveItemBase>,
        implicits: &Vec<Implicit<MK>>,
        base_ix: AffixiveItemBaseIndex,
        quality: Quality,
    ) -> (r: AffixiveItem<MK>)
        requires
            base_ix.0 < bases@.len(),
            forall|i: int|
                0 <= i < bases@[base_ix.0 as int].implicits@.len() ==> (
                #[trigger] bases@[base_ix.0 as int].implicits@[i]).0 < implicits@.len()
                    && implicits@[bases@[base_ix.0 as int].implicits@[i].0 as int].0.wf(),
        ensures
            r.base_ix == base_ix,
            r.quality == quality,
            r.tags@ == bases@[base_ix.0 as int].tags@,
            r.prefixes@.len() == 0,
            r.suffixes@.len() == 0,
            r.implicits@.len() == bases@[base_ix.0 as int].implicits@.len(),
            forall|i: int|
                0 <= i < r.implicits@.len() ==> (#[trigger] r.implicits@[i]).same_kind(
                    implicits@[bases@[base_ix.0 as int].implicits@[i].0 as int].0,
                ) && r.implicits@[i].in_range(),
    {
        let base: &AffixiveItemBase = &bases[base_ix.0];
        let mut drawn: Vec<Affix<MK>> = Vec::new();
        let mut i: usize = 0;
        while i < base.implicits.len()
            invariant
                i <= base.implicits@.len(),
                *base == bases@[base_ix.0 as int],
                drawn@.len() == i,
                forall|k: int|
                    0 <= k < base.implicits@.len() ==> (#[trigger] base.implicits@[k]).0
                        < implicits@.len() && implicits@[base.implicits@[k].0 as int].0.wf(),
                forall|k: int|
                    0 <= k < i ==> (#[trigger] drawn@[k]).same_kind(
                        implicits@[base.implicits@[k].0 as int].0,
                    ) && drawn@[k].in_range(),
            decreases base.implicits.len() - i,
        {
            let place: usize = base.implicits[i].0;
            let mut implicit: Affix<MK> = implicits[place].0.duplicate();
            implicit.randomize_actual();
            drawn.push(implicit);
            i = i + 1;
        }
        let mut tags: Vec<AffixiveItemTag> = Vec::new();
        let mut t: usize = 0;
        while t < base.tags.len()
            invariant
                t <= base.tags@.len(),
                tags@ == base.tags@.take(t as int),
            decreases base.tags.len() - t,
        {
            tags.push(base.tags[t]);
            assert(base.tags@.take(t + 1) =~= base.tags@.take(t as int).push(base.tags@[t as int]));
            t = t + 1;
        }
        proof {
            assert(base.tags@.take(base.tags@.len() as int) =~= base.tags@);
        }
        AffixiveItem {
            base_ix,
            implicits: drawn,
            prefixes: Vec::new(),
            suffixes: Vec::new(),
            quality,
            tags,
        }
    }

    /// The name of the base of the item.
    pub fn name<'bases>(&self, bases: &'bases Vec<AffixiveItemBase>) -> (r: &'bases str)
        requires
            self.base_ix.0 < bases@.len(),
        ensures
            r@ == bases@[self.base_ix.0 as int].name@,
    {
        bases[self.base_ix.0].name.as_str()
    }

    /// The level of the base of the item.
    pub fn level(&self, bases: &Vec<AffixiveItemBase>) -> (r: u8)
        requires
            self.base_ix.0 < bases@.len(),
        ensures
            r == bases@[self.base_ix.0 as int].level,
    {
        bases[self.base_ix.inner()].level
    }

    /// What the player reads of the item.
    pub fn display(&self, bases: &Vec<AffixiveItemBase>) -> (r: String)
        requires
            self.base_ix.0 < bases@.len(),
        ensures
            r@ == self.spec_display(bases@[self.base_ix.0 as int].name@),
    {
        let mut output: String = String::new();
        let name: &str = bases[self.base_ix.0].name.as_str();
        match self.quality {
            Quality::FixedArtifact => {
                push_text(&mut output, "Artifact: ");
                push_text(&mut output, name);
            },
            Quality::Quality(quality) => {
                push_tildes(&mut output, quality);
                push_text(&mut output, name);
                push_tildes(&mut output, quality);
            },
        }
        assert(output@ =~= self.spec_title(name@));
        push_text(&mut output, "\n===\n");
        push_affix_lines(&mut output, &self.implicits, "");
        push_text(&mut output, "\n===\n");
        push_affix_lines(&mut output, &self.prefixes, "\n");
        push_affix_lines(&mut output, &self.suffixes, "\n");
        if self.prefixes.len() > 0 || self.suffixes.len() > 0 {
            push_text(&mut output, "===\n");
        }
        proof {
            reveal_strlit("");
            reveal_strlit("\n");
            assert(""@ =~= Seq::<char>::empty());
            assert("\n"@ =~= seq!['\n']);
            assert(output@ =~= self.spec_display(name@));
        }
        output
    }

    /// Puts a prefix on the item, where the item has room for one.
    pub fn try_push_prefix(&mut self, prefix: Prefix<MK>) -> (r: Result<(), PushAffixError>)
        ensures
            r == room_for(old(self).quality, old(self).prefixes@.len()),
            final(self).prefixes@ == if r.is_ok() {
                old(self).prefixes@.push(prefix.0)
            } else {
                old(self).prefixes@
            },
            final(self).base_ix == old(self).base_ix,
            final(self).implicits == old(self).implicits,
            final(self).suffixes == old(self).suffixes,
            final(self).quality == old(self).quality,
            final(self).tags == old(self).tags,
    {
        match self.quality {
            Quality::FixedArtifact => Err(PushAffixError::AffixiveItemIsFixed),
            Quality::Quality(quality) => {
                if quality >= 0 && quality as usize == self.prefixes.len() {
                    Err(PushAffixError::AffixiveItemQualityTooLow)
                } else {
                    self.prefixes.push(prefix.0);
                    Ok(())
                }
            },
        }
    }

    /// Puts a suffix on the item, where the item has room for one.
    pub fn try_push_suffix(&mut self, suffix: Suffix<MK>) -> (r: Result<(), PushAffixError>)
        ensures
            r == room_for(old(self).quality, old(self).suffixes@.len()),
            final(self).suffixes@ == if r.is_ok() {
                old(self).suffixes@.push(suffix.0)
            } else {
                old(self).suffixes@
            },
            final(self).base_ix == old(self).base_ix,
            final(self).implicits == old(self).implicits,
            final(self).prefixes == old(self).prefixes,
            final(self).quality == old(self).quality,
            final(self).tags == old(self).tags,
    {
        match self.quality {
            Quality::FixedArtifact => Err(PushAffixError::AffixiveItemIsFixed),
            Quality::Quality(quality) => {
                if quality >= 0 && quality as usize == self.suffixes.len() {
                    Err(PushAffixError::AffixiveItemQualityTooLow)
                } else {
                    self.suffixes.push(suffix.0);
                    Ok(())
                }
            },
        }
    }

    /// The modifiers of the item with their values.
    pub fn modifiers(&self) -> (r: Vec<(Modifier<MK>, ModifierValue)>)
        ensures
            r@ == self.spec_modifiers(),
    {
        let mut out: Vec<(Modifier<MK>, ModifierValue)> = Vec::new();
        push_affix_modifiers(&mut out, &self.implicits);
        push_affix_modifiers(&mut out, &self.prefixes);
        push_affix_modifiers(&mut out, &self.suffixes);
        assert(out@ =~= self.spec_modifiers());
        out
    }
}

} // verus!
