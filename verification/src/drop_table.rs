//! Tables of loot, each piece with a weight, from which a piece is drawn
//! by chance.

use vstd::prelude::*;
use crate::chance::random_below;

verus! {

/// A table of loot. Each piece has a weight, and is drawn the more often
/// the more it weighs; a piece without weight is never drawn.
pub struct DropTable<T> {
    total_weight: i32,
    /// For each piece the weights of all pieces up to and with it.
    weights: Vec<i32>,
    modifiers: Vec<T>,
}

/// A table of loot in the making.
pub struct DropTableBuilder<T> {
    total_weight: i32,
    weights: Vec<i32>,
    modifiers: Vec<T>,
}

/// Whether a list of running totals of weights never falls from one
/// piece to the next and ends at the total.
pub open spec fn running_totals(weights: Seq<i32>, total: int) -> bool {
    &&& forall|i: int| 0 <= i < weights.len() ==> 0 <= #[trigger] weights[i]
    &&& forall|i: int, j: int| 0 <= i < j < weights.len() ==> weights[i] <= weights[j]
    &&& if weights.len() == 0 {
        total == 0
    } else {
        total == weights.last()
    }
}

/// The place of the piece that a draw picks: the first piece whose running
/// total lies above the draw.
pub open spec fn picked(weights: Seq<i32>, draw: int, place: int) -> bool {
    &&& 0 <= place < weights.len()
    &&& draw < weights[place]
    &&& place > 0 ==> weights[place - 1] <= draw
}

impl<T> DropTable<T> {
    /// The weights of all pieces together.
    pub closed spec fn total(self) -> int {
        self.total_weight as int
    }

    /// For each piece the weights of all pieces up to and with it.
    pub closed spec fn totals(self) -> Seq<i32> {
        self.weights@
    }

    /// The pieces of loot.
    pub closed spec fn loot(self) -> Seq<T> {
        self.modifiers@
    }

    /// Every piece has its running total, and the running totals never fall.
    pub open spec fn wf(self) -> bool {
        &&& self.totals().len() == self.loot().len()
        &&& running_totals(self.totals(), self.total())
    }

    /// The number of pieces.
    pub fn len(&self) -> (r: usize)
        ensures
            r == self.loot().len(),
    {
        self.modifiers.len()
    }

    /// The running totals of the weights, piece by piece.
    pub fn weights(&self) -> (r: Vec<i32>)
        ensures
            r@ == self.totals(),
    {
        let mut out: Vec<i32> = Vec::new();
        let mut i: usize = 0;
        while i < self.weights.len()
            invariant
                i <= self.weights.len(),
                out@ == self.weights@.take(i as int),
            decreases self.weights.len() - i,
        {
            out.push(self.weights[i]);
            assert(self.weights@.take(i + 1) =~= self.weights@.take(i as int).push(
                self.weights@[i as int],
            ));
            i = i + 1;
        }
        assert(self.weights@.take(self.weights@.len() as int) =~= self.weights@);
        out
    }

    /// The weights of all pieces together.
    pub fn total_weight(&self) -> (r: i32)
        ensures
            r == self.total(),
    {
        self.total_weight
    }

    /// The place of the piece that a draw picks.
    pub fn pick(&self, draw: i32) -> (place: usize)
        requires
            self.wf(),
            0 <= draw < self.total(),
        ensures
            picked(self.totals(), draw as int, place as int),
    {
        let mut low: usize = 0;
        let mut high: usize = self.weights.len();
        while low < high
            invariant
                self.wf(),
                0 <= draw < self.total(),
                low <= high <= self.weights@.len(),
                forall|i: int| 0 <= i < low ==> self.weights@[i] <= draw,
                forall|i: int| high <= i < self.weights@.len() ==> draw < self.weights@[i],
            decreases high - low,
        {
            let middle: usize = low + (high - low) / 2;
            if self.weights[middle] <= draw {
                low = middle + 1;
            } else {
                high = middle;
            }
        }
        low
    }

    /// The piece at a place.
    pub fn get(&self, place: usize) -> (r: &T)
        requires
            place < self.loot().len(),
        ensures
            *r == self.loot()[place as int],
    {
        &self.modifiers[place]
    }
}

impl<T: Clone> DropTable<T> {
    /// The piece that a draw picks.
    pub fn pick_loot(&self, draw: i32) -> (r: T)
        requires
            self.wf(),
            0 <= draw < self.total(),
        ensures
            exists|place: int| #[trigger]
                picked(self.totals(), draw as int, place) && cloned(self.loot()[place], r),
    {
        let place: usize = self.pick(draw);
        self.modifiers[place].clone()
    }

    /// Draws a piece by chance: the piece that some draw below the weights
    /// of all pieces together picks.
    pub fn random(&self) -> (r: T)
        requires
            self.wf(),
            self.total() > 0,
        ensures
            exists|draw: int, place: int|
                0 <= draw < self.total() && #[trigger] picked(self.totals(), draw, place)
                    && cloned(self.loot()[place], r),
    {
        let draw: u64 = random_below(self.total_weight as u64);
        let piece: T = self.pick_loot(draw as i32);
        proof {
            let place = choose|place: int| #[trigger]
                picked(self.totals(), draw as int, place) && cloned(self.loot()[place], piece);
            assert(picked(self.totals(), draw as int, place));
        }
        piece
    }
}

impl<T> DropTableBuilder<T> {
    /// The weights of all pieces so far.
    pub closed spec fn total(self) -> int {
        self.total_weight as int
    }

    /// The running totals so far.
    pub closed spec fn totals(self) -> Seq<i32> {
        self.weights@
    }

    /// The pieces so far.
    pub closed spec fn loot(self) -> Seq<T> {
        self.modifiers@
    }

    /// Every piece has its running total, and the running totals never fall.
    pub open spec fn wf(self) -> bool {
        &&& self.totals().len() == self.loot().len()
        &&& running_totals(self.totals(), self.total())
    }

    /// A table without loot.
    pub fn new() -> (r: DropTableBuilder<T>)
        ensures
            r.wf(),
            r.total() == 0,
            r.loot().len() == 0,
    {
        DropTableBuilder { total_weight: 0, weights: Vec::new(), modifiers: Vec::new() }
    }

    /// The table as built.
    pub fn build(self) -> (r: DropTable<T>)
        ensures
            r.total() == self.total(),
            r.totals() == self.totals(),
            r.loot() == self.loot(),
            self.wf() ==> r.wf(),
    {
        DropTable {
            total_weight: self.total_weight,
            weights: self.weights,
            modifiers: self.modifiers,
        }
    }

    /// The table with one more piece of the given weight.
    pub fn add_loot(self, loot: T, weight: i32) -> (r: DropTableBuilder<T>)
        requires
            self.wf(),
            0 <= weight,
            self.total() + weight <= i32::MAX,
        ensures
            r.wf(),
            r.total() == self.total() + weight,
            r.totals() == self.totals().push((self.total() + weight) as i32),
            r.loot() == self.loot().push(loot),
    {
        let mut weights: Vec<i32> = self.weights;
        let mut modifiers: Vec<T> = self.modifiers;
        modifiers.push(loot);
        weights.push(self.total_weight + weight);
        DropTableBuilder { total_weight: self.total_weight + weight, weights, modifiers }
    }
}

/// Whether an affix comes behind or before the name of an item.
#[derive(Debug, Clone, Copy, PartialEq, Eq, Structural)]
pub enum SuffixOrPrefix {
    Suffix,
    Prefix,
}

/// The table from which it is drawn whether an item gets a suffix or a
/// prefix.
pub struct SuffixOrPrefixDropTable(pub DropTable<SuffixOrPrefix>);

impl SuffixOrPrefixDropTable {
    /// The table in which a suffix and a prefix weigh the same.
    pub fn new() -> (r: SuffixOrPrefixDropTable)
        ensures
            r.0.wf(),
            r.0.total() == 2,
            r.0.totals() == seq![1i32, 2i32],
            r.0.loot() == seq![SuffixOrPrefix::Suffix, SuffixOrPrefix::Prefix],
    {
        let table = DropTableBuilder::new().add_loot(SuffixOrPrefix::Suffix, 1).add_loot(
            SuffixOrPrefix::Prefix,
            1,
        ).build();
        proof {
            assert(table.totals() =~= seq![1i32, 2i32]);
            assert(table.loot() =~= seq![SuffixOrPrefix::Suffix, SuffixOrPrefix::Prefix]);
        }
        SuffixOrPrefixDropTable(table)
    }

    /// What a draw picks: a suffix on the first of the two, a prefix on
    /// the second.
    pub fn pick(&self, draw: i32) -> (r: SuffixOrPrefix)
        requires
            self.0.wf(),
            self.0.totals() == seq![1i32, 2i32],
            self.0.loot() == seq![SuffixOrPrefix::Suffix, SuffixOrPrefix::Prefix],
            self.0.total() == 2,
            0 <= draw < 2,
        ensures
            r == if draw == 0 {
                SuffixOrPrefix::Suffix
            } else {
                SuffixOrPrefix::Prefix
            },
    {
        let place: usize = self.0.pick(draw);
        *self.0.get(place)
    }
}

} // verus!
