//! The stockyard: the one stock of every kind.

use vstd::prelude::*;
use crate::fixed::UNIT;
use crate::stock::{Stock, StockKind, KIND_COUNT};

verus! {

/// The stocks of the player: one of every kind, from the first tick to the
/// last.
///
/// The stockyard also carries a gate: kinds of stock that the player's
/// own work depends on. While one of them is used up, that work is held.
#[derive(Debug)]
pub struct Stockyard {
    stocks: Vec<Stock>,
    gate: Option<Vec<StockKind>>,
}

/// The amount and the limit with which a kind of stock starts, in whole
/// units.
pub open spec fn starting_stock(kind: StockKind) -> (nat, Option<nat>) {
    match kind {
        StockKind::BranchesAndPebbles => (0, None),
        StockKind::Godpower => (10, None),
        StockKind::Followers => (0, Some(10)),
        StockKind::Wood => (0, Some(100)),
        StockKind::Stone => (0, Some(100)),
        StockKind::Carcass => (0, Some(10)),
        StockKind::Meat => (0, Some(100)),
        StockKind::Bone => (0, Some(100)),
        StockKind::Food => (0, Some(100)),
    }
}

impl Stockyard {
    /// The stock of a kind.
    pub closed spec fn stock(self, kind: StockKind) -> Stock {
        self.stocks@[kind.spec_index()]
    }

    /// The kinds of stock on which the player's own work depends, if any
    /// are named.
    pub closed spec fn gate(self) -> Option<Seq<StockKind>> {
        match self.gate {
            Some(kinds) => Some(kinds@),
            None => None,
        }
    }

    /// Every kind has its stock, and every stock is within its limit.
    pub closed spec fn wf(self) -> bool {
        &&& self.stocks@.len() == KIND_COUNT
        &&& forall|i: int| 0 <= i < KIND_COUNT ==> (#[trigger] self.stocks@[i]).wf()
    }

    /// In a well-formed stockyard every stock is within its limit.
    pub proof fn lemma_stocks_wf(self, kind: StockKind)
        requires
            self.wf(),
        ensures
            self.stock(kind).wf(),
    {
    }

    /// Whether two stockyards hold the same stocks behind the same gate.
    pub open spec fn same_as(self, other: Stockyard) -> bool {
        &&& forall|kind: StockKind| self.stock(kind) == other.stock(kind)
        &&& self.gate() == other.gate()
    }

    /// Whether the player's work may go on: no kind is named, or every named kind has
    /// something left.
    pub open spec fn spec_gate_open(self) -> bool {
        match self.gate() {
            Some(kinds) => forall|i: int|
                0 <= i < kinds.len() ==> self.stock(#[trigger] kinds[i]).current() > 0,
            None => true,
        }
    }

    /// The stock of a kind.
    pub fn get(&self, kind: StockKind) -> (r: &Stock)
        requires
            self.wf(),
        ensures
            *r == self.stock(kind),
            r.wf(),
    {
        &self.stocks[kind.index()]
    }

    /// Puts `stock` in the place of the stock of its kind.
    pub fn set(&mut self, kind: StockKind, stock: Stock)
        requires
            old(self).wf(),
            stock.wf(),
        ensures
            final(self).wf(),
            final(self).stock(kind) == stock,
            forall|other: StockKind| other != kind ==> final(self).stock(other) == old(self).stock(other),
            final(self).gate() == old(self).gate(),
    {
        self.stocks.set(kind.index(), stock);
    }

    /// Adds `amount` to the stock of a kind, up to its limit.
    pub fn add(&mut self, kind: StockKind, amount: u64)
        requires
            old(self).wf(),
        ensures
            final(self).wf(),
            final(self).stock(kind).maximum() == old(self).stock(kind).maximum(),
            final(self).stock(kind).current() == Stock::raised(
                old(self).stock(kind).current(),
                old(self).stock(kind).ceiling(),
                amount as nat,
            ),
            final(self).stock(kind).dirty() == (old(self).stock(kind).dirty() || amount != 0),
            forall|other: StockKind| other != kind ==> final(self).stock(other) == old(self).stock(other),
            final(self).gate() == old(self).gate(),
    {
        let mut stock: Stock = self.stocks[kind.index()];
        stock.add(amount);
        self.set(kind, stock);
    }

    /// Takes `amount` from the stock of a kind, down to nothing.
    pub fn subtract(&mut self, kind: StockKind, amount: u64)
        requires
            old(self).wf(),
        ensures
            final(self).wf(),
            final(self).stock(kind).maximum() == old(self).stock(kind).maximum(),
            final(self).stock(kind).current() == Stock::lowered(
                old(self).stock(kind).current(),
                amount as nat,
            ),
            final(self).stock(kind).dirty() == (old(self).stock(kind).dirty() || amount != 0),
            forall|other: StockKind| other != kind ==> final(self).stock(other) == old(self).stock(other),
            final(self).gate() == old(self).gate(),
    {
        let mut stock: Stock = self.stocks[kind.index()];
        stock.subtract(amount);
        self.set(kind, stock);
    }

    /// Tells whether the stock of a kind has changed since the last call
    /// for that kind, and forgets the change.
    pub fn has_changed(&mut self, kind: StockKind) -> (r: bool)
        requires
            old(self).wf(),
        ensures
            final(self).wf(),
            r == old(self).stock(kind).dirty(),
            !final(self).stock(kind).dirty(),
            final(self).stock(kind).current() == old(self).stock(kind).current(),
            final(self).stock(kind).maximum() == old(self).stock(kind).maximum(),
            forall|other: StockKind| other != kind ==> final(self).stock(other) == old(self).stock(other),
            final(self).gate() == old(self).gate(),
    {
        let mut stock: Stock = self.stocks[kind.index()];
        let was: bool = stock.has_changed();
        self.set(kind, stock);
        was
    }

    /// Names the kinds of stock on which the player's own work depends.
    pub fn set_gate(&mut self, kinds: Vec<StockKind>)
        ensures
            final(self).gate() == Some(kinds@),
            forall|kind: StockKind| final(self).stock(kind) == old(self).stock(kind),
            old(self).wf() ==> final(self).wf(),
    {
        self.gate = Some(kinds);
    }

    /// Names no kind of stock any more on which the player's own work
    /// depends.
    pub fn clear_gate(&mut self)
        ensures
            final(self).gate().is_none(),
            forall|kind: StockKind| final(self).stock(kind) == old(self).stock(kind),
            old(self).wf() ==> final(self).wf(),
    {
        self.gate = None;
    }

    /// Whether the player's work may go on: no kind is named, or every named kind has
    /// something left.
    pub fn gate_open(&self) -> (r: bool)
        requires
            self.wf(),
        ensures
            r == self.spec_gate_open(),
    {
        match &self.gate {
            None => true,
            Some(kinds) => {
                let mut i: usize = 0;
                while i < kinds.len()
                    invariant
                        self.wf(),
                        self.gate() == Some(kinds@),
                        i <= kinds.len(),
                        forall|j: int| 0 <= j < i ==> self.stock(#[trigger] kinds@[j]).current() > 0,
                    decreases kinds.len() - i,
                {
                    let kind: StockKind = kinds[i];
                    if self.stocks[kind.index()].amount() == 0 {
                        return false;
                    }
                    i = i + 1;
                }
                true
            },
        }
    }
}

impl Stockyard {
    /// The stocks of several kinds at once, each to be changed by the
    /// caller, through `get_disjoint_mut` of slices.
    ///
    /// The slice method hands out one place for each index, in the order of
    /// the indices, and fails where two indices are the same; so no kind
    /// may be named twice. Each stock handed out holds what the stockyard
    /// held of its kind, what the caller leaves in it is what the
    /// stockyard holds afterwards, and all other stocks stay as they are.
    #[verifier::external_body]
    pub fn get_stocks_mut<const N: usize>(&mut self, stocks: [&StockKind; N]) -> (r: [&mut Stock; N])
        requires
            old(self).wf(),
            forall|i: int, j: int| 0 <= i < j < N ==> *stocks@[i] != *stocks@[j],
        ensures
            forall|i: int| 0 <= i < N ==> *r@[i] == old(self).stock(*(#[trigger] stocks@[i])),
            forall|i: int|
                0 <= i < N ==> final(self).stock(*(#[trigger] stocks@[i])) == *final(r@[i]),
            (forall|i: int| 0 <= i < N ==> final(#[trigger] r@[i]).wf()) ==> final(self).wf(),
            forall|kind: StockKind|
                (forall|i: int| 0 <= i < N ==> *(#[trigger] stocks@[i]) != kind) ==> final(self).stock(kind) == old(self).stock(kind),
            final(self).gate() == old(self).gate(),
    {
        self.stocks.get_disjoint_mut(stocks.map(|kind: &StockKind| kind.index())).unwrap()
    }
}

impl Stockyard {
    /// Takes `amount` from the stock of one kind and adds as much to the
    /// stock of another, in one step.
    pub fn exchange(&mut self, taken: StockKind, given: StockKind, amount: u64)
        requires
            old(self).wf(),
            taken != given,
        ensures
            final(self).wf(),
            final(self).gate() == old(self).gate(),
            final(self).stock(taken).current() == Stock::lowered(
                old(self).stock(taken).current(),
                amount as nat,
            ),
            final(self).stock(given).current() == Stock::raised(
                old(self).stock(given).current(),
                old(self).stock(given).ceiling(),
                amount as nat,
            ),
            final(self).stock(taken).maximum() == old(self).stock(taken).maximum(),
            final(self).stock(given).maximum() == old(self).stock(given).maximum(),
            final(self).stock(taken).dirty() == (old(self).stock(taken).dirty() || amount != 0),
            final(self).stock(given).dirty() == (old(self).stock(given).dirty() || amount != 0),
            forall|kind: StockKind|
                kind != taken && kind != given ==> final(self).stock(kind) == old(self).stock(kind),
    {
        proof {
            old(self).lemma_stocks_wf(taken);
            old(self).lemma_stocks_wf(given);
        }
        let kinds: [&StockKind; 2] = [&taken, &given];
        let mut places = self.get_stocks_mut(kinds);
        assert(*kinds@[0] == taken && *kinds@[1] == given);
        places[0].subtract(amount);
        places[1].add(amount);
        assert(has_resolved(places@[0]));
        assert(has_resolved(places@[1]));
    }
}

impl Default for Stockyard {
    /// The stockyard with which a game starts.
    fn default() -> (r: Stockyard)
        ensures
            r.wf(),
            r.gate().is_none(),
            forall|kind: StockKind| #[trigger] r.stock(kind).dirty(),
            forall|kind: StockKind| #[trigger]
                r.stock(kind).current() == starting_stock(kind).0 * UNIT,
            forall|kind: StockKind| #[trigger]
                r.stock(kind).maximum() == match starting_stock(kind).1 {
                    Some(m) => Some(m * UNIT as nat),
                    None => None,
                },
    {
        let mut stocks: Vec<Stock> = Vec::new();
        stocks.push(Stock::new(0, None));
        stocks.push(Stock::new(10_000_000, None));
        stocks.push(Stock::new(0, Some(10_000_000)));
        stocks.push(Stock::new(0, Some(100_000_000)));
        stocks.push(Stock::new(0, Some(100_000_000)));
        stocks.push(Stock::new(0, Some(10_000_000)));
        stocks.push(Stock::new(0, Some(100_000_000)));
        stocks.push(Stock::new(0, Some(100_000_000)));
        stocks.push(Stock::new(0, Some(100_000_000)));
        Stockyard { stocks, gate: None }
    }
}

} // verus!
