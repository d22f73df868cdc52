//! Items that carry affixes.

use vstd::prelude::*;
use crate::item::base::{AffixiveItemBase, Base, BASE_COUNT};
use crate::item::item_slot::ItemSlotTag;
use crate::item::modifier::{Affix, Implicit, Modifier, ModifierValue, Prefix, Suffix};
use crate::text::push_text;

verus! {

/// How many affixes an item can carry.
#[derive(Debug, Clone, Copy, PartialEq, Eq, Structural)]
pub enum Quality {
    /// The affixes of the item are fixed.
    FixedArtifact,
    /// The item can carry this many prefixes and this many suffixes: at a
    /// quality of two, two of each.
    Quality(u8),
}

/// The place of an implicit among the implicits.
#[derive(Debug, Clone, Copy, PartialEq, Eq, Structural, Hash)]
pub struct ImplicitIndex(pub usize);

/// What an item is good for.
#[derive(Debug, Clone, Copy, PartialEq, Eq, Structural, Hash)]
pub enum ItemTag {
    Tool,
    Hunt,
}

impl ItemTag {
    /// The tag of the items that go into a slot.
    pub open spec fn spec_from_slot(slot_tag: ItemSlotTag) -> ItemTag {
        match slot_tag {
            ItemSlotTag::Tool => ItemTag::Tool,
            ItemSlotTag::Hunt => ItemTag::Hunt,
        }
    }

    /// The tag of the items that go into a slot.
    pub fn from_slot(slot_tag: ItemSlotTag) -> (r: ItemTag)
        ensures
            r == ItemTag::spec_from_slot(slot_tag),
    {
        match slot_tag {
            ItemSlotTag::Tool => ItemTag::Tool,
            ItemSlotTag::Hunt => ItemTag::Hunt,
        }
    }

    /// The name of the tag as the player reads it.
    pub open spec fn spec_name(self) -> Seq<char> {
        match self {
            ItemTag::Tool => "Tool"@,
            ItemTag::Hunt => "Hunting Weapon"@,
        }
    }

    /// The name of the tag as the player reads it.
    pub fn name(&self) -> (r: &'static str)
        ensures
            r@ == self.spec_name(),
    {
        match self {
            ItemTag::Tool => "Tool",
            ItemTag::Hunt => "Hunting Weapon",
        }
    }
}

impl From<ItemSlotTag> for ItemTag {
    fn from(slot_tag: ItemSlotTag) -> (r: ItemTag) {
        ItemTag::from_slot(slot_tag)
    }
}

impl vstd::std_specs::convert::FromSpecImpl<ItemSlotTag> for ItemTag {
    open spec fn obeys_from_spec() -> bool {
        true
    }

    open spec fn from_spec(slot_tag: ItemSlotTag) -> ItemTag {
        ItemTag::spec_from_slot(slot_tag)
    }
}

/// Why an affix cannot be put on an item.
#[derive(Debug, Clone, Copy, PartialEq, Eq, Structural)]
pub enum PushAffixError {
    AffixiveItemIsFixed,
    AffixiveItemQualityTooLow,
}

/// An item with its affixes.
#[derive(Debug)]
pub struct AffixiveItem {
    pub base: Base,
    pub name: String,
    pub implicits: Vec<Affix>,
    pub prefixes: Vec<Affix>,
    pub suffixes: Vec<Affix>,
    pub quality: Quality,
    pub tags: Vec<ItemTag>,
}

/// The modifiers of a list of affixes with their values, affix by affix.
pub open spec fn affix_modifiers(affixes: Seq<Affix>) -> Seq<(Modifier, ModifierValue)>
    decreases affixes.len(),
{
    if affixes.len() == 0 {
        Seq::empty()
    } else {
        affix_modifiers(affixes.drop_last()) + affixes.last().spec_modifiers()
    }
}

/// What the player reads of a list of affixes: what is read of each, with
/// `end` behind each.
pub open spec fn affix_lines(affixes: Seq<Affix>, end: Seq<char>) -> Seq<char>
    decreases affixes.len(),
{
    if affixes.len() == 0 {
        Seq::empty()
    } else {
        affix_lines(affixes.drop_last(), end) + affixes.last().spec_display() + end
    }
}

/// A row of tildes.
pub open spec fn tildes(count: nat) -> Seq<char> {
    Seq::new(count, |i: int| '~')
}

/// Whether an item can take one more affix where it carries `carried` of
/// them already, and why not if it cannot.
pub open spec fn room_for(quality: Quality, carried: nat) -> Result<(), PushAffixError> {
    match quality {
        Quality::FixedArtifact => Err(PushAffixError::AffixiveItemIsFixed),
        Quality::Quality(quality) => if quality as nat == carried {
            Err(PushAffixError::AffixiveItemQualityTooLow)
        } else {
            Ok(())
        },
    }
}

/// Writes what the player reads of a list of affixes at the end of a
/// string.
fn push_affix_lines(out: &mut String, affixes: &Vec<Affix>, end: &str)
    ensures
        final(out)@ == old(out)@ + affix_lines(affixes@, end@),
{
    let mut i: usize = 0;
    while i < affixes.len()
        invariant
            i <= affixes.len(),
            out@ == old(out)@ + affix_lines(affixes@.take(i as int), end@),
        decreases affixes.len() - i,
    {
        let line: String = affixes[i].display();
        proof {
            assert(affixes@.take(i + 1).drop_last() =~= affixes@.take(i as int));
            assert(affixes@.take(i + 1).last() == affixes@[i as int]);
        }
        push_text(out, line.as_str());
        push_text(out, end);
        assert(out@ =~= old(out)@ + affix_lines(affixes@.take(i + 1), end@));
        i = i + 1;
    }
    proof {
        assert(affixes@.take(affixes.len() as int) =~= affixes@);
    }
}

/// Adds the modifiers of a list of affixes to a list of modifiers.
fn push_affix_modifiers(out: &mut Vec<(Modifier, ModifierValue)>, affixes: &Vec<Affix>)
    ensures
        final(out)@ == old(out)@ + affix_modifiers(affixes@),
{
    let mut i: usize = 0;
    while i < affixes.len()
        invariant
            i <= affixes.len(),
            out@ == old(out)@ + affix_modifiers(affixes@.take(i as int)),
        decreases affixes.len() - i,
    {
        let mut found: Vec<(Modifier, ModifierValue)> = affixes[i].modifiers();
        proof {
            assert(affixes@.take(i + 1).drop_last() =~= affixes@.take(i as int));
            assert(affixes@.take(i + 1).last() == affixes@[i as int]);
        }
        out.append(&mut found);
        assert(out@ =~= old(out)@ + affix_modifiers(affixes@.take(i + 1)));
        i = i + 1;
    }
    proof {
        assert(affixes@.take(affixes.len() as int) =~= affixes@);
    }
}

impl AffixiveItem {
    /// The modifiers of the item with their values: those of its
    /// implicits, then of its prefixes, then of its suffixes.
    pub open spec fn spec_modifiers(self) -> Seq<(Modifier, ModifierValue)> {
        affix_modifiers(self.implicits@) + affix_modifiers(self.prefixes@) + affix_modifiers(
            self.suffixes@,
        )
    }

    /// The line under which the item goes: its name, marked as that of an
    /// artifact or set between as many tildes as its quality says.
    pub open spec fn spec_title(self) -> Seq<char> {
        match self.quality {
            Quality::FixedArtifact => "Artifact: "@ + self.name@,
            Quality::Quality(quality) => tildes(quality as nat) + self.name@ + tildes(
                quality as nat,
            ),
        }
    }

    /// What the player reads of the item: its title, its implicits, and
    /// its prefixes and suffixes line by line, each part closed by a rule.
    pub open spec fn spec_display(self) -> Seq<char> {
        self.spec_title() + "\n===\n"@ + affix_lines(self.implicits@, Seq::empty()) + "\n===\n"@
            + affix_lines(self.prefixes@, seq!['\n']) + affix_lines(self.suffixes@, seq!['\n'])
            + if self.prefixes@.len() + self.suffixes@.len() > 0 {
            "===\n"@
        } else {
            Seq::empty()
        }
    }

    /// A new item of a base, with the implicits of the base, each with
    /// values drawn for it, and no other affix.
    pub fn new(
        bases: &Vec<AffixiveItemBase>,
        implicits_db: &Vec<Implicit>,
        base: Base,
        quality: Quality,
    ) -> (r: AffixiveItem)
        requires
            bases@.len() == BASE_COUNT,
            forall|i: int|
                0 <= i < bases@[base.spec_index()].implicits@.len() ==> (
                #[trigger] bases@[base.spec_index()].implicits@[i]).0 < implicits_db@.len()
                    && implicits_db@[bases@[base.spec_index()].implicits@[i].0 as int].0.wf(),
        ensures
            r.base == base,
            r.name@ == bases@[base.spec_index()].name@,
            r.quality == quality,
            r.tags@ == bases@[base.spec_index()].tags@,
            r.prefixes@.len() == 0,
            r.suffixes@.len() == 0,
            r.implicits@.len() == bases@[base.spec_index()].implicits@.len(),
            forall|i: int|
                0 <= i < r.implicits@.len() ==> (#[trigger] r.implicits@[i]).same_kind(
                    implicits_db@[bases@[base.spec_index()].implicits@[i].0 as int].0,
                ) && r.implicits@[i].in_range(),
    {
        let item_base: &AffixiveItemBase = &bases[base.index()];
        let mut implicits: Vec<Affix> = Vec::new();
        let mut i: usize = 0;
        while i < item_base.implicits.len()
            invariant
                i <= item_base.implicits@.len(),
                *item_base == bases@[base.spec_index()],
                implicits@.len() == i,
                forall|k: int|
                    0 <= k < item_base.implicits@.len() ==> (#[trigger] item_base.implicits@[k]).0
                        < implicits_db@.len() && implicits_db@[item_base.implicits@[k].0 as int].0.wf(),
                forall|k: int|
                    0 <= k < i ==> (#[trigger] implicits@[k]).same_kind(
                        implicits_db@[item_base.implicits@[k].0 as int].0,
                    ) && implicits@[k].in_range(),
            decreases item_base.implicits.len() - i,
        {
            let place: usize = item_base.implicits[i].0;
            let mut implicit: Affix = implicits_db[place].0.duplicate();
            implicit.randomize_actual();
            implicits.push(implicit);
            i = i + 1;
        }
        let mut tags: Vec<ItemTag> = Vec::new();
        let mut t: usize = 0;
        while t < item_base.tags.len()
            invariant
                t <= item_base.tags@.len(),
                tags@ == item_base.tags@.take(t as int),
            decreases item_base.tags.len() - t,
        {
            tags.push(item_base.tags[t]);
            assert(item_base.tags@.take(t + 1) =~= item_base.tags@.take(t as int).push(
                item_base.tags@[t as int],
            ));
            t = t + 1;
        }
        proof {
            assert(item_base.tags@.take(item_base.tags@.len() as int) =~= item_base.tags@);
        }
        AffixiveItem {
            base,
            name: item_base.name.clone(),
            implicits,
            prefixes: Vec::new(),
            suffixes: Vec::new(),
            quality,
            tags,
        }
    }

    /// The name of the item.
    pub fn name(&self) -> (r: &str)
        ensures
            r@ == self.name@,
    {
        self.name.as_str()
    }

    /// The base of the item.
    pub fn base(&self) -> (r: Base)
        ensures
            r == self.base,
    {
        self.base
    }

    /// The implicits of the item.
    pub fn implicits(&self) -> (r: &Vec<Affix>)
        ensures
            r@ == self.implicits@,
    {
        &self.implicits
    }

    /// The prefixes of the item.
    pub fn prefixes(&self) -> (r: &Vec<Affix>)
        ensures
            r@ == self.prefixes@,
    {
        &self.prefixes
    }

    /// The suffixes of the item.
    pub fn suffixes(&self) -> (r: &Vec<Affix>)
        ensures
            r@ == self.suffixes@,
    {
        &self.suffixes
    }

    /// What the player reads of the item.
    pub fn display(&self) -> (r: String)
        ensures
            r@ == self.spec_display(),
    {
        let mut output: String = String::new();
        match self.quality {
            Quality::FixedArtifact => {
                push_text(&mut output, "Artifact: ");
                push_text(&mut output, self.name.as_str());
            },
            Quality::Quality(quality) => {
                let mut i: u8 = 0;
                while i < quality
                    invariant
                        i <= quality,
                        output@ == tildes(i as nat),
                    decreases quality - i,
                {
                    output.push('~');
                    assert(output@ =~= tildes((i + 1) as nat));
                    i = i + 1;
                }
                push_text(&mut output, self.name.as_str());
                let mut j: u8 = 0;
                while j < quality
                    invariant
                        j <= quality,
                        output@ == tildes(quality as nat) + self.name@ + tildes(j as nat),
                    decreases quality - j,
                {
                    output.push('~');
                    assert(output@ =~= tildes(quality as nat) + self.name@ + tildes(
                        (j + 1) as nat,
                    ));
                    j = j + 1;
                }
            },
        }
        assert(output@ =~= self.spec_title());
        push_text(&mut output, "\n===\n");
        push_affix_lines(&mut output, &self.implicits, "");
        push_text(&mut output, "\n===\n");
        push_affix_lines(&mut output, &self.prefixes, "\n");
        push_affix_lines(&mut output, &self.suffixes, "\n");
        if self.prefixes.len() > 0 || self.suffixes.len() > 0 {
            push_text(&mut output, "===\n");
        }
        proof {
            reveal_strlit("");
            reveal_strlit("\n");
            assert(""@ =~= Seq::<char>::empty());
            assert("\n"@ =~= seq!['\n']);
            assert(output@ =~= self.spec_display());
        }
        output
    }

    /// Raises the quality of the item to `new_quality` where that is more.
    /// An artifact stays as it is.
    pub fn increase_quality_to(&mut self, new_quality: u8)
        ensures
            final(self).quality == match old(self).quality {
                Quality::FixedArtifact => Quality::FixedArtifact,
                Quality::Quality(current) => if current < new_quality {
                    Quality::Quality(new_quality)
                } else {
                    Quality::Quality(current)
                },
            },
            final(self).base == old(self).base,
            final(self).name == old(self).name,
            final(self).implicits == old(self).implicits,
            final(self).prefixes == old(self).prefixes,
            final(self).suffixes == old(self).suffixes,
            final(self).tags == old(self).tags,
    {
        match self.quality {
            Quality::FixedArtifact => {},
            Quality::Quality(current_quality) => {
                if current_quality < new_quality {
                    self.quality = Quality::Quality(new_quality);
                }
            },
        }
    }

    /// Puts a prefix on the item, where the item has room for one.
    pub fn try_push_prefix(&mut self, prefix: Prefix) -> (r: Result<(), PushAffixError>)
        ensures
            r == room_for(old(self).quality, old(self).prefixes@.len()),
            final(self).prefixes@ == if r.is_ok() {
                old(self).prefixes@.push(prefix.0)
            } else {
                old(self).prefixes@
            },
            final(self).base == old(self).base,
            final(self).name == old(self).name,
            final(self).implicits == old(self).implicits,
            final(self).suffixes == old(self).suffixes,
            final(self).quality == old(self).quality,
            final(self).tags == old(self).tags,
    {
        match self.quality {
            Quality::FixedArtifact => Err(PushAffixError::AffixiveItemIsFixed),
            Quality::Quality(quality) => {
                if quality as usize == self.prefixes.len() {
                    Err(PushAffixError::AffixiveItemQualityTooLow)
                } else {
                    self.prefixes.push(prefix.0);
                    Ok(())
                }
            },
        }
    }

    /// Puts a suffix on the item, where the item has room for one.
    pub fn try_push_suffix(&mut self, suffix: Suffix) -> (r: Result<(), PushAffixError>)
        ensures
            r == room_for(old(self).quality, old(self).suffixes@.len()),
            final(self).suffixes@ == if r.is_ok() {
                old(self).suffixes@.push(suffix.0)
            } else {
                old(self).suffixes@
            },
            final(self).base == old(self).base,
            final(self).name == old(self).name,
            final(self).implicits == old(self).implicits,
            final(self).prefixes == old(self).prefixes,
            final(self).quality == old(self).quality,
            final(self).tags == old(self).tags,
    {
        match self.quality {
            Quality::FixedArtifact => Err(PushAffixError::AffixiveItemIsFixed),
            Quality::Quality(quality) => {
                if quality as usize == self.suffixes.len() {
                    Err(PushAffixError::AffixiveItemQualityTooLow)
                } else {
                    self.suffixes.push(suffix.0);
                    Ok(())
                }
            },
        }
    }

    /// The modifiers of the item with their values.
    pub fn modifiers(&self) -> (r: Vec<(Modifier, ModifierValue)>)
        ensures
            r@ == self.spec_modifiers(),
    {
        let mut out: Vec<(Modifier, ModifierValue)> = Vec::new();
        push_affix_modifiers(&mut out, &self.implicits);
        push_affix_modifiers(&mut out, &self.prefixes);
        push_affix_modifiers(&mut out, &self.suffixes);
        assert(out@ =~= self.spec_modifiers());
        out
    }
}

} // verus!
