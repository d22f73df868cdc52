//! Effects that consume and produce stocks over time, and the two steps of
//! a tick that carry them out.
//!
//! Consumption is conservative. Where the demand for a kind of stock is
//! more than the stockyard holds, every effect that asks for that kind is
//! cut down by the same fraction, and an effect that asks for several kinds
//! is cut down by the scarcest of them, on all that it consumes and on all
//! that it produces.

use vstd::prelude::*;
use crate::fixed::{wide_product, Fraction, PerSecond, UNIT};
use crate::stock::stockyard::Stockyard;
use crate::stock::{Stock, StockKind, KIND_COUNT};

verus! {

/// The steps of a tick, in the order in which they run.
#[derive(Debug, Clone, Copy, PartialEq, Eq, Structural, Hash)]
pub enum StockSystems {
    PreConsume,
    Consume,
    PostConsume,
    Produce,
}

/// An effect that consumes or produces stocks over time.
#[derive(Debug)]
pub struct StockyardProducerConsumer {
    /// What the effect asks for, by kind and rate.
    pub consumes: Vec<(StockKind, PerSecond)>,
    /// How much of what the effect asked for was there at the last
    /// consumption.
    pub consumption_fullfilled: Fraction,
    /// What the effect makes when it gets all that it asks for.
    pub produces: Vec<(StockKind, PerSecond)>,
    /// The multiplier on what the effect makes, in millionths, while one
    /// is in force.
    pub multiplier: Option<u64>,
}

/// A list of kinds of stock with the rate of each.
pub type Rates = Seq<(StockKind, PerSecond)>;

/// What a list asks of a kind of stock in one tick.
pub open spec fn list_demand(list: Rates, kind: StockKind) -> nat
    decreases list.len(),
{
    if list.len() == 0 {
        0
    } else {
        list_demand(list.drop_last(), kind) + if list.last().0 == kind {
            list.last().1.tick_amount()
        } else {
            0
        }
    }
}

/// What all effects together ask of a kind of stock in one tick.
pub open spec fn total_demand(effects: Seq<StockyardProducerConsumer>, kind: StockKind) -> nat
    decreases effects.len(),
{
    if effects.len() == 0 {
        0
    } else {
        total_demand(effects.drop_last(), kind) + list_demand(effects.last().consumes@, kind)
    }
}

/// The amount `value`, or the largest amount that a stock can hold where
/// `value` is more than that.
pub open spec fn capped(value: nat) -> nat {
    if value > u64::MAX {
        u64::MAX as nat
    } else {
        value
    }
}

/// The demand for a kind as the consumption step counts it: it stops
/// counting at the largest amount that a stock can hold.
pub open spec fn counted_demand(effects: Seq<StockyardProducerConsumer>, kind: StockKind) -> nat {
    capped(total_demand(effects, kind))
}

/// The fraction of the demand for a kind that the stockyard can pay.
pub open spec fn payable_fraction(
    yard: Stockyard,
    effects: Seq<StockyardProducerConsumer>,
    kind: StockKind,
) -> Fraction {
    let (num, den) = yard.stock(kind).payable(counted_demand(effects, kind));
    Fraction { num: num as u64, den: den as u64 }
}

/// The payable fraction of every kind, each at the place of its kind.
pub open spec fn payable_fractions(
    yard: Stockyard,
    effects: Seq<StockyardProducerConsumer>,
) -> Seq<Fraction> {
    Seq::new(
        KIND_COUNT as nat,
        |i: int| payable_fraction(yard, effects, StockKind::spec_from_index(i)),
    )
}

/// The least of the fractions that stand at the places of the kinds that a
/// list names, and one where it names none.
pub open spec fn least_fraction(list: Rates, fractions: Seq<Fraction>) -> Fraction
    decreases list.len(),
{
    if list.len() == 0 {
        Fraction { num: 1, den: 1 }
    } else {
        least_fraction(list.drop_last(), fractions).smaller(
            fractions[list.last().0.spec_index()],
        )
    }
}

/// The fulfillment of an effect that consumes `list`: the least payable
/// fraction among the kinds that it names, and one where it names none.
pub open spec fn list_fulfillment(
    list: Rates,
    yard: Stockyard,
    effects: Seq<StockyardProducerConsumer>,
) -> Fraction {
    least_fraction(list, payable_fractions(yard, effects))
}

/// What a list takes from a kind of stock in one tick at a fulfillment.
pub open spec fn list_drawn(list: Rates, fulfillment: Fraction, kind: StockKind) -> nat
    decreases list.len(),
{
    if list.len() == 0 {
        0
    } else {
        list_drawn(list.drop_last(), fulfillment, kind) + if list.last().0 == kind {
            fulfillment.of(list.last().1.tick_amount())
        } else {
            0
        }
    }
}

/// What all effects together take from a kind of stock in one tick, each at
/// its own fulfillment.
pub open spec fn total_drawn(effects: Seq<StockyardProducerConsumer>, kind: StockKind) -> nat
    decreases effects.len(),
{
    if effects.len() == 0 {
        0
    } else {
        total_drawn(effects.drop_last(), kind) + list_drawn(
            effects.last().consumes@,
            effects.last().fulfillment(),
            kind,
        )
    }
}

/// What a rate makes in one tick at a fulfillment and under a multiplier
/// in millionths.
pub open spec fn produced_amount(rate: PerSecond, fulfillment: Fraction, multiplier: Option<u64>) -> nat {
    match multiplier {
        Some(m) => ((fulfillment.of(rate.tick_amount()) * m) / UNIT as int) as nat,
        None => fulfillment.of(rate.tick_amount()),
    }
}

/// What a list adds to a kind of stock in one tick.
pub open spec fn list_produced(
    list: Rates,
    fulfillment: Fraction,
    multiplier: Option<u64>,
    kind: StockKind,
) -> nat
    decreases list.len(),
{
    if list.len() == 0 {
        0
    } else {
        list_produced(list.drop_last(), fulfillment, multiplier, kind) + if list.last().0 == kind {
            produced_amount(list.last().1, fulfillment, multiplier)
        } else {
            0
        }
    }
}

/// What all effects together add to a kind of stock in one tick.
pub open spec fn total_produced(effects: Seq<StockyardProducerConsumer>, kind: StockKind) -> nat
    decreases effects.len(),
{
    if effects.len() == 0 {
        0
    } else {
        total_produced(effects.drop_last(), kind) + list_produced(
            effects.last().produces@,
            effects.last().fulfillment(),
            effects.last().multiplier(),
            kind,
        )
    }
}

/// Whether every effect holds the fulfillment that the stockyard and the
/// demand of all effects give it.
pub open spec fn settled(effects: Seq<StockyardProducerConsumer>, yard: Stockyard) -> bool {
    forall|i: int|
        0 <= i < effects.len() ==> {
            &&& (#[trigger] effects[i]).wf()
            &&& effects[i].fulfillment() == list_fulfillment(effects[i].consumes@, yard, effects)
        }
}

/// Whether `after` is the stockyard `before` less what the effects take
/// from it in one tick.
pub open spec fn consumed(
    before: Stockyard,
    effects: Seq<StockyardProducerConsumer>,
    after: Stockyard,
) -> bool {
    &&& after.gate() == before.gate()
    &&& forall|kind: StockKind| #[trigger]
        after.stock(kind).maximum() == before.stock(kind).maximum()
    &&& forall|kind: StockKind| #[trigger]
        after.stock(kind).current() == Stock::lowered(
            before.stock(kind).current(),
            total_drawn(effects, kind),
        )
    &&& forall|kind: StockKind| #[trigger]
        after.stock(kind).dirty() == (before.stock(kind).dirty() || total_drawn(effects, kind) > 0)
}

/// Whether `after` is the stockyard `before` with what the effects add to
/// it in one tick.
pub open spec fn produced(
    before: Stockyard,
    effects: Seq<StockyardProducerConsumer>,
    after: Stockyard,
) -> bool {
    &&& after.gate() == before.gate()
    &&& forall|kind: StockKind| #[trigger]
        after.stock(kind).maximum() == before.stock(kind).maximum()
    &&& forall|kind: StockKind| #[trigger]
        after.stock(kind).current() == Stock::raised(
            before.stock(kind).current(),
            before.stock(kind).ceiling(),
            total_produced(effects, kind),
        )
    &&& forall|kind: StockKind| #[trigger]
        after.stock(kind).dirty() == (before.stock(kind).dirty() || total_produced(effects, kind)
            > 0)
}

/// The demand for a kind depends on nothing but the lists of what the
/// effects consume.
pub proof fn lemma_demand_of_lists(
    a: Seq<StockyardProducerConsumer>,
    b: Seq<StockyardProducerConsumer>,
    kind: StockKind,
)
    requires
        a.len() == b.len(),
        forall|i: int| 0 <= i < a.len() ==> (#[trigger] a[i]).consumes@ == b[i].consumes@,
    ensures
        total_demand(a, kind) == total_demand(b, kind),
    decreases a.len(),
{
    if a.len() > 0 {
        lemma_demand_of_lists(a.drop_last(), b.drop_last(), kind);
    }
}

impl StockyardProducerConsumer {
    /// How much of what the effect asked for was there at the last
    /// consumption.
    pub open spec fn fulfillment(self) -> Fraction {
        self.consumption_fullfilled
    }

    /// The multiplier in force on what the effect makes, in millionths.
    pub open spec fn multiplier(self) -> Option<u64> {
        self.multiplier
    }

    /// The fulfillment of an effect is a fraction between zero and one.
    pub open spec fn wf(self) -> bool {
        self.fulfillment().wf()
    }

    /// An effect that asks for nothing and makes nothing, and has not yet
    /// been through a consumption.
    pub fn new() -> (r: StockyardProducerConsumer)
        ensures
            r.wf(),
            r.consumes@.len() == 0,
            r.produces@.len() == 0,
            r.fulfillment().is_zero(),
            r.fulfillment().den() == 1,
            r.multiplier().is_none(),
    {
        StockyardProducerConsumer {
            consumes: Vec::new(),
            consumption_fullfilled: Fraction { num: 0, den: 1 },
            produces: Vec::new(),
            multiplier: None,
        }
    }

    /// An effect with the given lists that counts as fully fulfilled until
    /// its first consumption.
    pub fn with_lists(
        consumes: Vec<(StockKind, PerSecond)>,
        produces: Vec<(StockKind, PerSecond)>,
    ) -> (r: StockyardProducerConsumer)
        ensures
            r.wf(),
            r.consumes@ == consumes@,
            r.produces@ == produces@,
            r.fulfillment().is_one(),
            r.multiplier().is_none(),
    {
        StockyardProducerConsumer {
            consumes,
            consumption_fullfilled: Fraction::one(),
            produces,
            multiplier: None,
        }
    }

    /// The fraction of the consumption that was fulfilled at the last
    /// consumption.
    pub fn consumption_fullfilled(&self) -> (r: Fraction)
        ensures
            r == self.fulfillment(),
    {
        self.consumption_fullfilled
    }

    /// The multiplier in force on what the effect makes, in millionths.
    pub fn active_multiplier(&self) -> (r: Option<u64>)
        ensures
            r == self.multiplier(),
    {
        self.multiplier
    }

    /// Puts a multiplier in force, or lifts the one in force.
    pub fn set_multiplier(&mut self, multiplier: Option<u64>)
        ensures
            final(self).multiplier() == multiplier,
            final(self).fulfillment() == old(self).fulfillment(),
            final(self).consumes == old(self).consumes,
            final(self).produces == old(self).produces,
    {
        self.multiplier = multiplier;
    }
}

impl Default for StockyardProducerConsumer {
    fn default() -> (r: StockyardProducerConsumer)
        ensures
            r.wf(),
            r.consumes@.len() == 0,
            r.produces@.len() == 0,
            r.fulfillment().is_zero(),
            r.fulfillment().den() == 1,
            r.multiplier().is_none(),
    {
        StockyardProducerConsumer::new()
    }
}

/// Adds what a list asks of each kind in one tick to a table of demands.
fn count_list(table: &mut Vec<u64>, list: &Vec<(StockKind, PerSecond)>)
    requires
        old(table)@.len() == KIND_COUNT,
    ensures
        final(table)@.len() == KIND_COUNT,
        forall|kind: StockKind| #[trigger]
            final(table)@[kind.spec_index()] == capped(
                old(table)@[kind.spec_index()] as nat + list_demand(list@, kind),
            ),
{
    let mut j: usize = 0;
    while j < list.len()
        invariant
            j <= list.len(),
            table@.len() == KIND_COUNT,
            forall|kind: StockKind| #[trigger]
                table@[kind.spec_index()] == capped(
                    old(table)@[kind.spec_index()] as nat + list_demand(list@.take(j as int), kind),
                ),
        decreases list.len() - j,
    {
        let kind: StockKind = list[j].0;
        let amount: u64 = list[j].1.amount_per_tick();
        let place: usize = kind.index();
        let before: u64 = table[place];
        proof {
            assert(list@.take(j + 1).drop_last() =~= list@.take(j as int));
            assert(list@.take(j + 1).last() == list@[j as int]);
        }
        table.set(place, before.saturating_add(amount));
        j = j + 1;
    }
    proof {
        assert(list@.take(list.len() as int) =~= list@);
    }
}

/// What all effects together ask of each kind of stock in one tick.
fn demand_table(effects: &Vec<StockyardProducerConsumer>) -> (table: Vec<u64>)
    ensures
        table@.len() == KIND_COUNT,
        forall|kind: StockKind| #[trigger]
            table@[kind.spec_index()] == counted_demand(effects@, kind),
{
    let mut table: Vec<u64> = Vec::new();
    let mut k: usize = 0;
    while k < KIND_COUNT
        invariant
            k <= KIND_COUNT,
            table@.len() == k,
            forall|i: int| 0 <= i < k ==> table@[i] == 0,
        decreases KIND_COUNT - k,
    {
        table.push(0);
        k = k + 1;
    }
    let mut i: usize = 0;
    while i < effects.len()
        invariant
            i <= effects.len(),
            table@.len() == KIND_COUNT,
            forall|kind: StockKind| #[trigger]
                table@[kind.spec_index()] == counted_demand(effects@.take(i as int), kind),
        decreases effects.len() - i,
    {
        proof {
            assert(effects@.take(i + 1).drop_last() =~= effects@.take(i as int));
            assert(effects@.take(i + 1).last() == effects@[i as int]);
        }
        count_list(&mut table, &effects[i].consumes);
        i = i + 1;
    }
    proof {
        assert(effects@.take(effects.len() as int) =~= effects@);
    }
    table
}

/// The fraction of each demand that the stockyard can pay.
fn fraction_table(yard: &Stockyard, table: &Vec<u64>) -> (fractions: Vec<Fraction>)
    requires
        yard.wf(),
        table@.len() == KIND_COUNT,
    ensures
        fractions@.len() == KIND_COUNT,
        forall|i: int| 0 <= i < KIND_COUNT ==> (#[trigger] fractions@[i]).wf(),
        forall|kind: StockKind|
            (fractions@[#[trigger] kind.spec_index()].num(), fractions@[kind.spec_index()].den())
                == yard.stock(kind).payable(table@[kind.spec_index()] as nat),
{
    let mut fractions: Vec<Fraction> = Vec::new();
    let mut k: usize = 0;
    while k < KIND_COUNT
        invariant
            k <= KIND_COUNT,
            yard.wf(),
            table@.len() == KIND_COUNT,
            fractions@.len() == k,
            forall|i: int| 0 <= i < k ==> (#[trigger] fractions@[i]).wf(),
            forall|kind: StockKind|
                kind.spec_index() < k ==> (
                    fractions@[#[trigger] kind.spec_index()].num(),
                    fractions@[kind.spec_index()].den(),
                ) == yard.stock(kind).payable(table@[kind.spec_index()] as nat),
        decreases KIND_COUNT - k,
    {
        match StockKind::from_index(k) {
            Some(kind) => {
                let fraction: Fraction = yard.get(kind).consume_check(table[k]);
                fractions.push(fraction);
            },
            None => {
                fractions.push(Fraction::one());
            },
        }
        k = k + 1;
    }
    fractions
}

/// The least of the fractions of the kinds that a list names.
fn least_of(list: &Vec<(StockKind, PerSecond)>, fractions: &Vec<Fraction>) -> (r: Fraction)
    requires
        fractions@.len() == KIND_COUNT,
        forall|i: int| 0 <= i < KIND_COUNT ==> (#[trigger] fractions@[i]).wf(),
    ensures
        r == least_fraction(list@, fractions@),
        r.wf(),
{
    let mut least: Fraction = Fraction::one();
    let mut j: usize = 0;
    while j < list.len()
        invariant
            j <= list.len(),
            fractions@.len() == KIND_COUNT,
            forall|i: int| 0 <= i < KIND_COUNT ==> (#[trigger] fractions@[i]).wf(),
            least == least_fraction(list@.take(j as int), fractions@),
            least.wf(),
        decreases list.len() - j,
    {
        let kind: StockKind = list[j].0;
        proof {
            assert(list@.take(j + 1).drop_last() =~= list@.take(j as int));
            assert(list@.take(j + 1).last() == list@[j as int]);
        }
        least = least.min(fractions[kind.index()]);
        j = j + 1;
    }
    proof {
        assert(list@.take(list.len() as int) =~= list@);
    }
    least
}

/// Takes from the stockyard what a list asks for in one tick, cut down to a
/// fulfillment.
fn draw(yard: &mut Stockyard, list: &Vec<(StockKind, PerSecond)>, fulfillment: Fraction)
    requires
        old(yard).wf(),
        fulfillment.wf(),
    ensures
        final(yard).wf(),
        final(yard).gate() == old(yard).gate(),
        forall|kind: StockKind| #[trigger]
            final(yard).stock(kind).maximum() == old(yard).stock(kind).maximum(),
        forall|kind: StockKind| #[trigger]
            final(yard).stock(kind).current() == Stock::lowered(
                old(yard).stock(kind).current(),
                list_drawn(list@, fulfillment, kind),
            ),
        forall|kind: StockKind| #[trigger]
            final(yard).stock(kind).dirty() == (old(yard).stock(kind).dirty() || list_drawn(
                list@,
                fulfillment,
                kind,
            ) > 0),
{
    let mut j: usize = 0;
    while j < list.len()
        invariant
            j <= list.len(),
            yard.wf(),
            fulfillment.wf(),
            yard.gate() == old(yard).gate(),
            forall|kind: StockKind| #[trigger]
                yard.stock(kind).maximum() == old(yard).stock(kind).maximum(),
            forall|kind: StockKind| #[trigger]
                yard.stock(kind).current() == Stock::lowered(
                    old(yard).stock(kind).current(),
                    list_drawn(list@.take(j as int), fulfillment, kind),
                ),
            forall|kind: StockKind| #[trigger]
                yard.stock(kind).dirty() == (old(yard).stock(kind).dirty() || list_drawn(
                    list@.take(j as int),
                    fulfillment,
                    kind,
                ) > 0),
        decreases list.len() - j,
    {
        let kind: StockKind = list[j].0;
        let amount: u64 = fulfillment.apply(list[j].1.amount_per_tick());
        proof {
            assert(list@.take(j + 1).drop_last() =~= list@.take(j as int));
            assert(list@.take(j + 1).last() == list@[j as int]);
        }
        yard.subtract(kind, amount);
        j = j + 1;
    }
    proof {
        assert(list@.take(list.len() as int) =~= list@);
    }
}

/// The consumption step of a tick.
///
/// The demand of all effects for each kind of stock is summed. Where a
/// stock holds less than is asked of it, the fraction that it can pay is
/// noted. Each effect is then fulfilled by the least fraction among the
/// kinds that it consumes, and that part of what it asks for is taken from
/// the stockyard.
pub fn consume_modifiers(yard: &mut Stockyard, effects: &mut Vec<StockyardProducerConsumer>)
    requires
        old(yard).wf(),
    ensures
        final(yard).wf(),
        final(effects)@.len() == old(effects)@.len(),
        forall|i: int|
            0 <= i < old(effects)@.len() ==> {
                &&& (#[trigger] final(effects)@[i]).consumes == old(effects)@[i].consumes
                &&& final(effects)@[i].produces == old(effects)@[i].produces
                &&& final(effects)@[i].multiplier == old(effects)@[i].multiplier
            },
        settled(final(effects)@, *old(yard)),
        consumed(*old(yard), final(effects)@, *final(yard)),
{
    let table: Vec<u64> = demand_table(effects);
    let fractions: Vec<Fraction> = fraction_table(yard, &table);
    proof {
        assert forall|i: int| 0 <= i < KIND_COUNT implies fractions@[i] == payable_fractions(
            *old(yard),
            old(effects)@,
        )[i] by {
            let kind = StockKind::spec_from_index(i);
            assert(kind.spec_index() == i);
            old(yard).lemma_stocks_wf(kind);
        }
        assert(fractions@ =~= payable_fractions(*old(yard), old(effects)@));
    }
    let mut i: usize = 0;
    while i < effects.len()
        invariant
            i <= effects.len(),
            yard.wf(),
            yard.gate() == old(yard).gate(),
            effects@.len() == old(effects)@.len(),
            fractions@ == payable_fractions(*old(yard), old(effects)@),
            fractions@.len() == KIND_COUNT,
            forall|k: int| 0 <= k < KIND_COUNT ==> (#[trigger] fractions@[k]).wf(),
            forall|k: int|
                0 <= k < effects@.len() ==> {
                    &&& (#[trigger] effects@[k]).consumes == old(effects)@[k].consumes
                    &&& effects@[k].produces == old(effects)@[k].produces
                    &&& effects@[k].multiplier == old(effects)@[k].multiplier
                },
            forall|k: int|
                0 <= k < i ==> {
                    &&& (#[trigger] effects@[k]).wf()
                    &&& effects@[k].fulfillment() == list_fulfillment(
                        old(effects)@[k].consumes@,
                        *old(yard),
                        old(effects)@,
                    )
                },
            forall|kind: StockKind| #[trigger]
                yard.stock(kind).maximum() == old(yard).stock(kind).maximum(),
            forall|kind: StockKind| #[trigger]
                yard.stock(kind).current() == Stock::lowered(
                    old(yard).stock(kind).current(),
                    total_drawn(effects@.take(i as int), kind),
                ),
            forall|kind: StockKind| #[trigger]
                yard.stock(kind).dirty() == (old(yard).stock(kind).dirty() || total_drawn(
                    effects@.take(i as int),
                    kind,
                ) > 0),
        decreases effects.len() - i,
    {
        let fulfillment: Fraction = least_of(&effects[i].consumes, &fractions);
        let ghost before = effects@;
        effects[i].consumption_fullfilled = fulfillment;
        proof {
            assert(effects@.take(i as int) =~= before.take(i as int));
            assert(effects@.take(i + 1).drop_last() =~= effects@.take(i as int));
            assert(effects@.take(i + 1).last() == effects@[i as int]);
        }
        draw(yard, &effects[i].consumes, fulfillment);
        i = i + 1;
    }
    proof {
        assert(effects@.take(effects.len() as int) =~= effects@);
        assert forall|k: int| 0 <= k < KIND_COUNT implies payable_fractions(
            *old(yard),
            effects@,
        )[k] == payable_fractions(*old(yard), old(effects)@)[k] by {
            lemma_demand_of_lists(effects@, old(effects)@, StockKind::spec_from_index(k));
        }
        assert(payable_fractions(*old(yard), effects@) =~= payable_fractions(
            *old(yard),
            old(effects)@,
        ));
    }
}

/// What a rate makes in one tick at a fulfillment and under a multiplier,
/// counted no further than the largest amount that a stock can hold.
fn amount_made(rate: PerSecond, fulfillment: Fraction, multiplier: Option<u64>) -> (r: u64)
    requires
        fulfillment.wf(),
    ensures
        r == capped(produced_amount(rate, fulfillment, multiplier)),
{
    let base: u64 = fulfillment.apply(rate.amount_per_tick());
    match multiplier {
        None => base,
        Some(m) => {
            let scaled: u128 = wide_product(base, m) / 1_000_000;
            if scaled > 0xFFFF_FFFF_FFFF_FFFF {
                u64::MAX
            } else {
                scaled as u64
            }
        },
    }
}

/// Adds to the stockyard what a list makes in one tick.
fn supply(
    yard: &mut Stockyard,
    list: &Vec<(StockKind, PerSecond)>,
    fulfillment: Fraction,
    multiplier: Option<u64>,
)
    requires
        old(yard).wf(),
        fulfillment.wf(),
    ensures
        final(yard).wf(),
        final(yard).gate() == old(yard).gate(),
        forall|kind: StockKind| #[trigger]
            final(yard).stock(kind).maximum() == old(yard).stock(kind).maximum(),
        forall|kind: StockKind| #[trigger]
            final(yard).stock(kind).current() == Stock::raised(
                old(yard).stock(kind).current(),
                old(yard).stock(kind).ceiling(),
                list_produced(list@, fulfillment, multiplier, kind),
            ),
        forall|kind: StockKind| #[trigger]
            final(yard).stock(kind).dirty() == (old(yard).stock(kind).dirty() || list_produced(
                list@,
                fulfillment,
                multiplier,
                kind,
            ) > 0),
{
    proof {
        assert forall|kind: StockKind| (#[trigger] old(yard).stock(kind)).wf() by {
            old(yard).lemma_stocks_wf(kind);
        }
    }
    let mut j: usize = 0;
    while j < list.len()
        invariant
            j <= list.len(),
            yard.wf(),
            fulfillment.wf(),
            yard.gate() == old(yard).gate(),
            forall|kind: StockKind| (#[trigger] old(yard).stock(kind)).wf(),
            forall|kind: StockKind| #[trigger]
                yard.stock(kind).maximum() == old(yard).stock(kind).maximum(),
            forall|kind: StockKind| #[trigger]
                yard.stock(kind).current() == Stock::raised(
                    old(yard).stock(kind).current(),
                    old(yard).stock(kind).ceiling(),
                    list_produced(list@.take(j as int), fulfillment, multiplier, kind),
                ),
            forall|kind: StockKind| #[trigger]
                yard.stock(kind).dirty() == (old(yard).stock(kind).dirty() || list_produced(
                    list@.take(j as int),
                    fulfillment,
                    multiplier,
                    kind,
                ) > 0),
        decreases list.len() - j,
    {
        let kind: StockKind = list[j].0;
        let amount: u64 = amount_made(list[j].1, fulfillment, multiplier);
        proof {
            assert(list@.take(j + 1).drop_last() =~= list@.take(j as int));
            assert(list@.take(j + 1).last() == list@[j as int]);
            assert(old(yard).stock(kind).wf());
        }
        yard.add(kind, amount);
        j = j + 1;
    }
    proof {
        assert(list@.take(list.len() as int) =~= list@);
    }
}

/// The production step of a tick.
///
/// Every effect adds to the stockyard what it produces in one tick, cut
/// down to its fulfillment and scaled by the multiplier in force on it, if
/// there is one. No stock rises above its limit.
pub fn produce_modifiers(yard: &mut Stockyard, effects: &Vec<StockyardProducerConsumer>)
    requires
        old(yard).wf(),
        forall|i: int| 0 <= i < effects@.len() ==> (#[trigger] effects@[i]).wf(),
    ensures
        final(yard).wf(),
        produced(*old(yard), effects@, *final(yard)),
{
    proof {
        assert forall|kind: StockKind| (#[trigger] old(yard).stock(kind)).wf() by {
            old(yard).lemma_stocks_wf(kind);
        }
    }
    let mut i: usize = 0;
    while i < effects.len()
        invariant
            i <= effects.len(),
            yard.wf(),
            yard.gate() == old(yard).gate(),
            forall|kind: StockKind| (#[trigger] old(yard).stock(kind)).wf(),
            forall|k: int| 0 <= k < effects@.len() ==> (#[trigger] effects@[k]).wf(),
            forall|kind: StockKind| #[trigger]
                yard.stock(kind).maximum() == old(yard).stock(kind).maximum(),
            forall|kind: StockKind| #[trigger]
                yard.stock(kind).current() == Stock::raised(
                    old(yard).stock(kind).current(),
                    old(yard).stock(kind).ceiling(),
                    total_produced(effects@.take(i as int), kind),
                ),
            forall|kind: StockKind| #[trigger]
                yard.stock(kind).dirty() == (old(yard).stock(kind).dirty() || total_produced(
                    effects@.take(i as int),
                    kind,
                ) > 0),
        decreases effects.len() - i,
    {
        proof {
            assert(effects@.take(i + 1).drop_last() =~= effects@.take(i as int));
            assert(effects@.take(i + 1).last() == effects@[i as int]);
            assert(effects@[i as int].wf());
        }
        supply(
            yard,
            &effects[i].produces,
            effects[i].consumption_fullfilled,
            effects[i].multiplier,
        );
        i = i + 1;
    }
    proof {
        assert(effects@.take(effects.len() as int) =~= effects@);
    }
}

} // verus!
