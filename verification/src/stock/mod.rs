//! The player's numeric resources, such as wood and stone.
//!
//! They are called stocks throughout; to the player they are resources.

pub mod follower;
pub mod laws;
pub mod producer_consumer;
pub mod stockyard;

use vstd::prelude::*;
use crate::fixed::PerSecond;

verus! {

/// Number of kinds of stock.
pub const KIND_COUNT: usize = 9;

/// A kind of numeric resource held by the player.
#[derive(Debug, Clone, Copy, PartialEq, Eq, Structural, Hash)]
pub enum StockKind {
    BranchesAndPebbles,
    Godpower,
    Followers,
    Wood,
    Stone,
    Carcass,
    Meat,
    Bone,
    Food,
}

impl StockKind {
    /// The place of the kind in the stockyard.
    pub open spec fn spec_index(self) -> int {
        match self {
            StockKind::BranchesAndPebbles => 0,
            StockKind::Godpower => 1,
            StockKind::Followers => 2,
            StockKind::Wood => 3,
            StockKind::Stone => 4,
            StockKind::Carcass => 5,
            StockKind::Meat => 6,
            StockKind::Bone => 7,
            StockKind::Food => 8,
        }
    }

    /// The kind that stands at a place of the stockyard.
    pub open spec fn spec_from_index(index: int) -> StockKind {
        if index == 0 {
            StockKind::BranchesAndPebbles
        } else if index == 1 {
            StockKind::Godpower
        } else if index == 2 {
            StockKind::Followers
        } else if index == 3 {
            StockKind::Wood
        } else if index == 4 {
            StockKind::Stone
        } else if index == 5 {
            StockKind::Carcass
        } else if index == 6 {
            StockKind::Meat
        } else if index == 7 {
            StockKind::Bone
        } else {
            StockKind::Food
        }
    }

    /// The place of the kind in the stockyard.
    pub fn index(self) -> (r: usize)
        ensures
            r == self.spec_index(),
            r < KIND_COUNT,
            StockKind::spec_from_index(r as int) == self,
    {
        match self {
            StockKind::BranchesAndPebbles => 0,
            StockKind::Godpower => 1,
            StockKind::Followers => 2,
            StockKind::Wood => 3,
            StockKind::Stone => 4,
            StockKind::Carcass => 5,
            StockKind::Meat => 6,
            StockKind::Bone => 7,
            StockKind::Food => 8,
        }
    }

    /// The kind that stands at a place of the stockyard.
    pub fn from_index(index: usize) -> (r: Option<StockKind>)
        ensures
            r.is_some() <==> index < KIND_COUNT,
            r.is_some() ==> r.unwrap() == StockKind::spec_from_index(index as int)
                && r.unwrap().spec_index() == index,
    {
        if index == 0 {
            Some(StockKind::BranchesAndPebbles)
        } else if index == 1 {
            Some(StockKind::Godpower)
        } else if index == 2 {
            Some(StockKind::Followers)
        } else if index == 3 {
            Some(StockKind::Wood)
        } else if index == 4 {
            Some(StockKind::Stone)
        } else if index == 5 {
            Some(StockKind::Carcass)
        } else if index == 6 {
            Some(StockKind::Meat)
        } else if index == 7 {
            Some(StockKind::Bone)
        } else if index == 8 {
            Some(StockKind::Food)
        } else {
            None
        }
    }

    /// Every kind, in the order in which the player sees them.
    pub fn list() -> (r: [StockKind; 9])
        ensures
            r@ == seq![
                StockKind::BranchesAndPebbles,
                StockKind::Godpower,
                StockKind::Followers,
                StockKind::Wood,
                StockKind::Stone,
                StockKind::Carcass,
                StockKind::Bone,
                StockKind::Meat,
                StockKind::Food,
            ],
    {
        [
            StockKind::BranchesAndPebbles,
            StockKind::Godpower,
            StockKind::Followers,
            StockKind::Wood,
            StockKind::Stone,
            StockKind::Carcass,
            StockKind::Bone,
            StockKind::Meat,
            StockKind::Food,
        ]
    }

    /// The name of the kind as the player reads it.
    pub fn name(&self) -> (r: &'static str)
        ensures
            r@ == self.spec_name(),
    {
        match self {
            StockKind::BranchesAndPebbles => "Branches and Pebbles",
            StockKind::Godpower => "Godpower",
            StockKind::Followers => "Followers",
            StockKind::Wood => "Wood",
            StockKind::Stone => "Stone",
            StockKind::Carcass => "Carcasses",
            StockKind::Meat => "Meat",
            StockKind::Bone => "Bones",
            StockKind::Food => "Food",
        }
    }

    /// The name of the kind as the player reads it.
    pub open spec fn spec_name(self) -> Seq<char> {
        match self {
            StockKind::BranchesAndPebbles => "Branches and Pebbles"@,
            StockKind::Godpower => "Godpower"@,
            StockKind::Followers => "Followers"@,
            StockKind::Wood => "Wood"@,
            StockKind::Stone => "Stone"@,
            StockKind::Carcass => "Carcasses"@,
            StockKind::Meat => "Meat"@,
            StockKind::Bone => "Bones"@,
            StockKind::Food => "Food"@,
        }
    }
}

/// A numeric resource held by the player.
///
/// Amounts are counted in millionths of a unit.
#[derive(Debug, Clone, Copy)]
pub struct Stock {
    current: u64,
    maximum: Option<u64>,
    /// Whether the stock has changed since the last call of `has_changed`.
    has_changed: bool,
}

impl Stock {
    /// The amount held.
    pub closed spec fn current(self) -> nat {
        self.current as nat
    }

    /// The most that can be held, if there is a limit.
    pub closed spec fn maximum(self) -> Option<nat> {
        match self.maximum {
            Some(m) => Some(m as nat),
            None => None,
        }
    }

    /// Whether a change waits to be noticed.
    pub closed spec fn dirty(self) -> bool {
        self.has_changed
    }

    /// The most that can be held: the limit, or else the largest amount
    /// that can be counted.
    pub open spec fn ceiling(self) -> nat {
        match self.maximum() {
            Some(m) => m,
            None => u64::MAX as nat,
        }
    }

    /// The amount held never exceeds the limit.
    pub open spec fn wf(self) -> bool {
        self.current() <= self.ceiling() && self.ceiling() <= u64::MAX
    }

    /// Two stocks that agree in amount, limit and flag are the same stock.
    pub proof fn lemma_same(self, other: Stock)
        requires
            self.current() == other.current(),
            self.maximum() == other.maximum(),
            self.dirty() == other.dirty(),
        ensures
            self == other,
    {
    }

    /// The amount after `amount` has been added to `current` under a
    /// ceiling.
    pub open spec fn raised(current: nat, ceiling: nat, amount: nat) -> nat {
        if current + amount > ceiling {
            ceiling
        } else {
            current + amount
        }
    }

    /// The amount after `amount` has been taken from `current`.
    pub open spec fn lowered(current: nat, amount: nat) -> nat {
        if amount > current {
            0
        } else {
            (current - amount) as nat
        }
    }

    /// The fraction of `amount` that the stock can pay.
    pub open spec fn payable(self, amount: nat) -> (nat, nat) {
        if amount <= self.current() {
            (1, 1)
        } else {
            (self.current(), amount)
        }
    }

    /// A stock that holds `current`, or `maximum` where that is less, and
    /// waits to be noticed.
    pub fn new(current: u64, maximum: Option<u64>) -> (r: Stock)
        ensures
            r.wf(),
            r.maximum() == match maximum {
                Some(m) => Some(m as nat),
                None => None,
            },
            r.current() == Stock::raised(0, r.ceiling(), current as nat),
            r.dirty(),
    {
        let held: u64 = match maximum {
            Some(m) => if current > m {
                m
            } else {
                current
            },
            None => current,
        };
        Stock { current: held, maximum, has_changed: true }
    }

    /// The amount held.
    pub fn amount(&self) -> (r: u64)
        ensures
            r == self.current(),
    {
        self.current
    }

    /// The most that can be held, if there is a limit.
    pub fn limit(&self) -> (r: Option<u64>)
        ensures
            self.maximum() == match r {
                Some(m) => Some(m as nat),
                None => None,
            },
    {
        self.maximum
    }

    /// Adds `amount`, up to the limit. Adding nothing changes nothing;
    /// anything else marks the stock as changed.
    pub fn add(&mut self, amount: u64)
        requires
            old(self).wf(),
        ensures
            final(self).wf(),
            final(self).maximum() == old(self).maximum(),
            final(self).current() == Stock::raised(
                old(self).current(),
                old(self).ceiling(),
                amount as nat,
            ),
            final(self).dirty() == (old(self).dirty() || amount != 0),
    {
        if amount == 0 {
            return ;
        }
        self.has_changed = true;
        let ceiling: u64 = match self.maximum {
            Some(m) => m,
            None => u64::MAX,
        };
        if amount > ceiling - self.current {
            self.current = ceiling;
        } else {
            self.current = self.current + amount;
        }
    }

    /// Takes `amount`, down to nothing. Taking nothing changes nothing;
    /// anything else marks the stock as changed.
    pub fn subtract(&mut self, amount: u64)
        requires
            old(self).wf(),
        ensures
            final(self).wf(),
            final(self).maximum() == old(self).maximum(),
            final(self).current() == Stock::lowered(old(self).current(), amount as nat),
            final(self).dirty() == (old(self).dirty() || amount != 0),
    {
        if amount == 0 {
            return ;
        }
        self.has_changed = true;
        if amount > self.current {
            self.current = 0;
        } else {
            self.current = self.current - amount;
        }
    }

    /// The fraction of `amount` that the stock can pay: all of it where the
    /// stock holds at least that much, else what it holds over what is
    /// asked.
    pub fn consume_check(&self, amount: u64) -> (r: crate::fixed::Fraction)
        ensures
            r.wf(),
            (r.num(), r.den()) == self.payable(amount as nat),
    {
        if amount <= self.current {
            crate::fixed::Fraction::one()
        } else {
            match crate::fixed::Fraction::new(self.current, amount) {
                Some(f) => f,
                None => crate::fixed::Fraction::one(),
            }
        }
    }

    /// Tells whether the stock has changed since the last call, and
    /// forgets the change.
    pub fn has_changed(&mut self) -> (r: bool)
        ensures
            r == old(self).dirty(),
            !final(self).dirty(),
            final(self).current() == old(self).current(),
            final(self).maximum() == old(self).maximum(),
    {
        let was: bool = self.has_changed;
        self.has_changed = false;
        was
    }

    /// The change that the stock makes to itself in one tick: none, since
    /// every change comes from an effect.
    pub fn get_change_per_tick(&self) -> (r: i64)
        ensures
            r == 0,
    {
        0
    }

    /// What the player reads of the amount held and of the limit: the
    /// amount with two digits behind the point, and behind a stroke the
    /// limit, where there is one.
    pub open spec fn spec_current_and_maximum(self) -> Seq<char> {
        crate::text::fixed_hundredths(crate::text::rounded_hundredths(self.current()))
            + match self.maximum() {
            Some(m) => seq!['/'] + crate::text::millionths(m),
            None => Seq::empty(),
        }
    }

    /// What the player reads of a change in a second: the change with two
    /// digits behind the point, in brackets, with a plus in front of a
    /// gain.
    pub open spec fn spec_change(change: int) -> Seq<char> {
        let size: nat = if change < 0 {
            (-change) as nat
        } else {
            change as nat
        };
        let sign: Seq<char> = if change > 0 {
            seq!['+']
        } else if change < 0 {
            seq!['-']
        } else {
            Seq::empty()
        };
        seq!['('] + sign + crate::text::fixed_hundredths(crate::text::rounded_hundredths(size))
            + seq![')']
    }

    /// Writes the amount held and the limit at the end of a string.
    pub fn push_str_current_and_maximum(&self, string: &mut String)
        ensures
            final(string)@ == old(string)@ + self.spec_current_and_maximum(),
    {
        crate::text::push_fixed_hundredths(string, crate::text::round_to_hundredths(self.current));
        match self.maximum {
            Some(maximum) => {
                string.push('/');
                crate::text::push_millionths(string, maximum);
            },
            None => {},
        }
        assert(final(string)@ =~= old(string)@ + self.spec_current_and_maximum());
    }

    /// Writes the change that the stock makes to itself in a second at the
    /// end of a string.
    pub fn push_str_change_per_second(&self, string: &mut String)
        ensures
            final(string)@ == old(string)@ + Stock::spec_change(0),
    {
        let change: i64 = self.get_change_per_tick() * 20;
        string.push('(');
        if change > 0 {
            string.push('+');
        } else if change < 0 {
            string.push('-');
        }
        crate::text::push_fixed_hundredths(
            string,
            crate::text::round_to_hundredths(crate::text::magnitude(change)),
        );
        string.push(')');
        assert(final(string)@ =~= old(string)@ + Stock::spec_change(0));
    }

    /// Whether the stock holds at least `whole` units.
    pub fn holds_at_least(&self, whole: u32) -> (r: bool)
        ensures
            r == (self.current() >= whole * crate::fixed::UNIT),
    {
        let wide: u64 = whole as u64;
        self.current >= wide * 1_000_000
    }

    /// Whether the stock holds at most `whole` units.
    pub fn holds_at_most(&self, whole: u32) -> (r: bool)
        ensures
            r == (self.current() <= whole * crate::fixed::UNIT),
    {
        let wide: u64 = whole as u64;
        self.current <= wide * 1_000_000
    }
}

/// A rate of change of one kind of stock.
#[derive(Debug, Clone, Copy)]
pub struct StockPerSecond {
    pub kind: StockKind,
    pub per_second: PerSecond,
}

impl StockPerSecond {
    /// The change of `kind` at the rate `per_second`.
    pub fn new(kind: StockKind, per_second: PerSecond) -> (r: StockPerSecond)
        ensures
            r.kind == kind,
            r.per_second == per_second,
    {
        StockPerSecond { kind, per_second }
    }

    /// No change of `kind`.
    pub fn none(kind: StockKind) -> (r: StockPerSecond)
        ensures
            r.kind == kind,
            r.per_second.0 == 0,
    {
        StockPerSecond { kind, per_second: PerSecond(0) }
    }

    /// Whether the change takes from the stock.
    pub fn is_sign_negative(&self) -> (r: bool)
        ensures
            r == (self.per_second.0 < 0),
    {
        self.per_second.is_sign_negative()
    }

    /// Whether the change adds to the stock, or leaves it.
    pub fn is_sign_positive(&self) -> (r: bool)
        ensures
            r == (self.per_second.0 >= 0),
    {
        self.per_second.is_sign_positive()
    }

    /// The opposite change of the same kind.
    pub fn negate(self) -> (r: StockPerSecond)
        ensures
            r.kind == self.kind,
            self.per_second.0 > i64::MIN ==> r.per_second.0 == -self.per_second.0,
            self.per_second.0 == i64::MIN ==> r.per_second.0 == i64::MAX,
    {
        StockPerSecond { kind: self.kind, per_second: self.per_second.negate() }
    }

    /// The change that `count` actors make who each make this one.
    pub fn times(self, count: u32) -> (r: StockPerSecond)
        ensures
            r.kind == self.kind,
            r.per_second == self.per_second.spec_times(count),
    {
        StockPerSecond { kind: self.kind, per_second: self.per_second.times(count) }
    }

    /// The change scaled by a multiplier given in millionths.
    pub fn scaled(self, multiplier: u64) -> (r: StockPerSecond)
        ensures
            r.kind == self.kind,
            r.per_second == self.per_second.spec_scaled(multiplier),
    {
        StockPerSecond { kind: self.kind, per_second: self.per_second.scaled(multiplier) }
    }
}

} // verus!
