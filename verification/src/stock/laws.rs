//! What holds of every consumption and production step.

use vstd::prelude::*;
use crate::fixed::{
    lemma_at_most_transitive, lemma_of_at_most, lemma_of_monotone, lemma_of_same_value,
    lemma_of_superadditive, lemma_of_whole, lemma_smaller_at_most, Fraction,
};
use crate::stock::producer_consumer::{
    consumed, least_fraction, list_demand, list_drawn, list_fulfillment, list_produced,
    payable_fraction, payable_fractions, produced, settled, total_demand, total_drawn,
    total_produced, Rates, StockyardProducerConsumer,
};
use crate::stock::stockyard::Stockyard;
use crate::stock::{Stock, StockKind, KIND_COUNT};

verus! {

/// Whether a list names a kind of stock.
pub open spec fn names(list: Rates, kind: StockKind) -> bool {
    exists|j: int| 0 <= j < list.len() && (#[trigger] list[j]).0 == kind
}

/// The number of entries of a list that ask for some amount of a kind.
pub open spec fn list_claims(list: Rates, kind: StockKind) -> nat
    decreases list.len(),
{
    if list.len() == 0 {
        0
    } else {
        list_claims(list.drop_last(), kind) + if list.last().0 == kind
            && list.last().1.tick_amount() > 0 {
            1nat
        } else {
            0nat
        }
    }
}

/// The number of entries of all effects that ask for some amount of a kind.
pub open spec fn total_claims(effects: Seq<StockyardProducerConsumer>, kind: StockKind) -> nat
    decreases effects.len(),
{
    if effects.len() == 0 {
        0
    } else {
        total_claims(effects.drop_last(), kind) + list_claims(effects.last().consumes@, kind)
    }
}

/// What is left over when `amount`, taken `held` times, is divided by
/// `asked`.
pub open spec fn cut_remainder(amount: nat, held: nat, asked: nat) -> int {
    ((amount * held) as int) % (asked as int)
}

/// Whether every amount that is asked of a kind, taken `held` times, is a
/// multiple of `asked`: the cut then divides without remainder.
pub open spec fn divides_evenly(
    effects: Seq<StockyardProducerConsumer>,
    kind: StockKind,
    held: nat,
    asked: nat,
) -> bool {
    forall|i: int, j: int|
        0 <= i < effects.len() && 0 <= j < effects[i].consumes@.len() && (
        #[trigger] effects[i].consumes@[j]).0 == kind ==> cut_remainder(effects[i].consumes@[j].1.tick_amount(), held, asked) == 0
}

/// The payable fractions are fractions between zero and one.
pub proof fn lemma_payable_wf(
    yard: Stockyard,
    effects: Seq<StockyardProducerConsumer>,
    kind: StockKind,
)
    requires
        yard.wf(),
    ensures
        payable_fraction(yard, effects, kind).wf(),
        payable_fractions(yard, effects)[kind.spec_index()] == payable_fraction(
            yard,
            effects,
            kind,
        ),
        payable_fractions(yard, effects).len() == KIND_COUNT,
        total_demand(effects, kind) <= yard.stock(kind).current() ==> payable_fraction(
            yard,
            effects,
            kind,
        ) == (Fraction { num: 1, den: 1 }),
        yard.stock(kind).current() < total_demand(effects, kind) <= u64::MAX ==> payable_fraction(
            yard,
            effects,
            kind,
        ) == (Fraction {
            num: yard.stock(kind).current() as u64,
            den: total_demand(effects, kind) as u64,
        }),
{
    yard.lemma_stocks_wf(kind);
}

/// The least fraction over a list is a fraction, and is at most the
/// fraction of every kind that the list names.
pub proof fn lemma_least_fraction_bound(list: Rates, fractions: Seq<Fraction>, kind: StockKind)
    requires
        fractions.len() == KIND_COUNT,
        forall|i: int| 0 <= i < KIND_COUNT ==> (#[trigger] fractions[i]).wf(),
    ensures
        least_fraction(list, fractions).wf(),
        names(list, kind) ==> least_fraction(list, fractions).at_most(
            fractions[kind.spec_index()],
        ),
    decreases list.len(),
{
    if list.len() > 0 {
        let rest = list.drop_last();
        let before = least_fraction(rest, fractions);
        let other = fractions[list.last().0.spec_index()];
        lemma_least_fraction_bound(rest, fractions, kind);
        lemma_smaller_at_most(before, other);
        if names(list, kind) && list.last().0 != kind {
            let j = choose|j: int| 0 <= j < list.len() && (#[trigger] list[j]).0 == kind;
            assert(rest[j] == list[j]);
            assert(names(rest, kind));
            lemma_at_most_transitive(
                before.smaller(other),
                before,
                fractions[kind.spec_index()],
            );
        }
    }
}

/// A list draws nothing from a kind that it does not name, and otherwise at
/// most what a fraction no less than its fulfillment selects of its demand.
pub proof fn lemma_list_drawn_bound(list: Rates, fulfillment: Fraction, bound: Fraction, kind: StockKind)
    requires
        fulfillment.wf(),
        bound.wf(),
        names(list, kind) ==> fulfillment.at_most(bound),
    ensures
        list_drawn(list, fulfillment, kind) <= bound.of(list_demand(list, kind)),
    decreases list.len(),
{
    if list.len() > 0 {
        let rest = list.drop_last();
        if names(rest, kind) {
            let j = choose|j: int| 0 <= j < rest.len() && (#[trigger] rest[j]).0 == kind;
            assert(list[j] == rest[j]);
            assert(names(list, kind));
        }
        lemma_list_drawn_bound(rest, fulfillment, bound, kind);
        if list.last().0 == kind {
            assert(list[list.len() - 1].0 == kind);
            assert(names(list, kind));
            let amount = list.last().1.tick_amount();
            lemma_of_monotone(fulfillment, bound, amount);
            lemma_of_superadditive(bound, list_demand(rest, kind), amount);
        }
    } else {
        assert(bound.of(0) == 0) by {
            lemma_of_at_most(bound, 0);
        }
    }
}

/// All effects together draw at most what a fraction selects of their
/// demand, where that fraction is no less than the fulfillment of every
/// effect that names the kind.
pub proof fn lemma_total_drawn_bound(
    effects: Seq<StockyardProducerConsumer>,
    bound: Fraction,
    kind: StockKind,
)
    requires
        bound.wf(),
        forall|i: int|
            0 <= i < effects.len() ==> (#[trigger] effects[i]).wf() && (names(
                effects[i].consumes@,
                kind,
            ) ==> effects[i].fulfillment().at_most(bound)),
    ensures
        total_drawn(effects, kind) <= bound.of(total_demand(effects, kind)),
    decreases effects.len(),
{
    if effects.len() > 0 {
        let rest = effects.drop_last();
        assert forall|i: int| 0 <= i < rest.len() implies (#[trigger] rest[i]).wf() && (names(
            rest[i].consumes@,
            kind,
        ) ==> rest[i].fulfillment().at_most(bound)) by {
            assert(rest[i] == effects[i]);
        }
        lemma_total_drawn_bound(rest, bound, kind);
        let last = effects.last();
        assert(last == effects[effects.len() - 1]);
        lemma_list_drawn_bound(last.consumes@, last.fulfillment(), bound, kind);
        lemma_of_superadditive(
            bound,
            total_demand(rest, kind),
            list_demand(last.consumes@, kind),
        );
    } else {
        assert(bound.of(0) == 0) by {
            lemma_of_at_most(bound, 0);
        }
    }
}

/// Conservation: what the effects together take from a kind of stock in
/// one consumption step is never more than the stockyard held of it before
/// the step, so that no draw is cut short at an empty stock.
///
/// The demand for the kind has to be an amount that a stock can hold.
pub proof fn lemma_conservation(
    yard: Stockyard,
    effects: Seq<StockyardProducerConsumer>,
    kind: StockKind,
)
    requires
        yard.wf(),
        settled(effects, yard),
        total_demand(effects, kind) <= u64::MAX,
    ensures
        total_drawn(effects, kind) <= yard.stock(kind).current(),
        Stock::lowered(yard.stock(kind).current(), total_drawn(effects, kind))
            == yard.stock(kind).current() - total_drawn(effects, kind),
{
    let bound = payable_fraction(yard, effects, kind);
    let fractions = payable_fractions(yard, effects);
    lemma_payable_wf(yard, effects, kind);
    assert forall|i: int| 0 <= i < KIND_COUNT implies (#[trigger] fractions[i]).wf() by {
        let k = StockKind::spec_from_index(i);
        assert(k.spec_index() == i);
        lemma_payable_wf(yard, effects, k);
    }
    assert forall|i: int| 0 <= i < effects.len() implies (#[trigger] effects[i]).wf() && (names(
        effects[i].consumes@,
        kind,
    ) ==> effects[i].fulfillment().at_most(bound)) by {
        lemma_least_fraction_bound(effects[i].consumes@, fractions, kind);
    }
    lemma_total_drawn_bound(effects, bound, kind);
    let asked = total_demand(effects, kind);
    if asked <= yard.stock(kind).current() {
        lemma_of_at_most(bound, asked);
    } else {
        lemma_of_whole(bound);
    }
}

/// The least fraction over a list is exactly one where the fraction of
/// every kind that the list names is one.
pub proof fn lemma_least_fraction_one(list: Rates, fractions: Seq<Fraction>)
    requires
        forall|j: int|
            0 <= j < list.len() ==> fractions[(#[trigger] list[j]).0.spec_index()] == (Fraction {
                num: 1,
                den: 1,
            }),
    ensures
        least_fraction(list, fractions) == (Fraction { num: 1, den: 1 }),
    decreases list.len(),
{
    if list.len() > 0 {
        let rest = list.drop_last();
        assert forall|j: int| 0 <= j < rest.len() implies fractions[(
        #[trigger] rest[j]).0.spec_index()] == (Fraction { num: 1, den: 1 }) by {
            assert(rest[j] == list[j]);
        }
        lemma_least_fraction_one(rest, fractions);
        assert(list.last() == list[list.len() - 1]);
    }
}

/// At a fulfillment of one a list draws all that it asks for.
pub proof fn lemma_drawn_in_full(list: Rates, fulfillment: Fraction, kind: StockKind)
    requires
        fulfillment.wf(),
        fulfillment.is_one(),
    ensures
        list_drawn(list, fulfillment, kind) == list_demand(list, kind),
    decreases list.len(),
{
    if list.len() > 0 {
        lemma_drawn_in_full(list.drop_last(), fulfillment, kind);
        lemma_of_at_most(fulfillment, list.last().1.tick_amount());
    }
}

/// Full satisfaction: a kind of stock of which no more is asked than is
/// held is paid in full, and an effect that names only such kinds has a
/// fulfillment of one and draws all that it asks for.
pub proof fn lemma_full_satisfaction(
    yard: Stockyard,
    effects: Seq<StockyardProducerConsumer>,
    i: int,
)
    requires
        yard.wf(),
        settled(effects, yard),
        0 <= i < effects.len(),
        forall|j: int|
            0 <= j < effects[i].consumes@.len() ==> total_demand(
                effects,
                (#[trigger] effects[i].consumes@[j]).0,
            ) <= yard.stock(effects[i].consumes@[j].0).current(),
    ensures
        effects[i].fulfillment() == (Fraction { num: 1, den: 1 }),
        forall|kind: StockKind|
            list_drawn(effects[i].consumes@, effects[i].fulfillment(), kind) == list_demand(
                effects[i].consumes@,
                kind,
            ),
{
    let list = effects[i].consumes@;
    let fractions = payable_fractions(yard, effects);
    assert forall|j: int| 0 <= j < list.len() implies fractions[(
    #[trigger] list[j]).0.spec_index()] == (Fraction { num: 1, den: 1 }) by {
        lemma_payable_wf(yard, effects, list[j].0);
    }
    lemma_least_fraction_one(list, fractions);
    assert forall|kind: StockKind|
        list_drawn(effects[i].consumes@, effects[i].fulfillment(), kind) == list_demand(
            effects[i].consumes@,
            kind,
        ) by {
        lemma_drawn_in_full(list, effects[i].fulfillment(), kind);
    }
}

/// A kind of stock of which no more is asked than is held cuts no effect
/// down: its payable fraction is one.
pub proof fn lemma_satisfied_kind_is_paid(
    yard: Stockyard,
    effects: Seq<StockyardProducerConsumer>,
    kind: StockKind,
)
    requires
        yard.wf(),
        total_demand(effects, kind) <= yard.stock(kind).current(),
    ensures
        payable_fraction(yard, effects, kind).is_one(),
{
    lemma_payable_wf(yard, effects, kind);
}

/// What a list draws at the fraction `held / asked`, taken `asked` times,
/// falls short of its demand taken `held` times by less than `asked` for
/// each entry that asks for something, and by nothing where the cut
/// divides without remainder.
proof fn lemma_list_drawn_shortfall(
    list: Rates,
    fulfillment: Fraction,
    kind: StockKind,
    held: nat,
    asked: nat,
) -> (short: nat)
    requires
        fulfillment.wf(),
        0 < asked <= u64::MAX,
        held <= asked,
        names(list, kind) ==> fulfillment.same_value(
            Fraction { num: held as u64, den: asked as u64 },
        ),
    ensures
        asked * list_drawn(list, fulfillment, kind) + short == held * list_demand(list, kind),
        short + list_claims(list, kind) <= asked * list_claims(list, kind),
        (forall|j: int|
            0 <= j < list.len() && (#[trigger] list[j]).0 == kind ==> cut_remainder(list[j].1.tick_amount(), held, asked) == 0) ==> short == 0,
    decreases list.len(),
{
    if list.len() == 0 {
        assert(asked * 0 == 0 && held * 0 == 0) by (nonlinear_arith);
        0
    } else {
        let rest = list.drop_last();
        if names(rest, kind) {
            let j = choose|j: int| 0 <= j < rest.len() && (#[trigger] rest[j]).0 == kind;
            assert(list[j] == rest[j]);
            assert(names(list, kind));
        }
        let before = lemma_list_drawn_shortfall(rest, fulfillment, kind, held, asked);
        assert forall|j: int| 0 <= j < rest.len() implies rest[j] == list[j] by {}
        if list.last().0 == kind {
            assert(list[list.len() - 1].0 == kind);
            assert(names(list, kind));
            let cut = Fraction { num: held as u64, den: asked as u64 };
            let amount = list.last().1.tick_amount();
            lemma_of_same_value(fulfillment, cut, amount);
            let x = (amount * held) as int;
            let d = asked as int;
            vstd::arithmetic::div_mod::lemma_fundamental_div_mod(x, d);
            vstd::arithmetic::div_mod::lemma_mod_bound(x, d);
            let rem = (x % d) as nat;
            let q = x / d;
            let c0 = list_claims(rest, kind) as int;
            let dr0 = list_drawn(rest, fulfillment, kind) as int;
            let dm0 = list_demand(rest, kind) as int;
            let h = held as int;
            let a = amount as int;
            if amount == 0 {
                assert(x == 0) by (nonlinear_arith)
                    requires
                        x == a * h,
                        a == 0,
                ;
                assert(d * (dr0 + q) + (before + rem) == h * (dm0 + a)) by (nonlinear_arith)
                    requires
                        d * dr0 + before == h * dm0,
                        x == d * q + rem,
                        x == 0,
                        a == 0,
                ;
            } else {
                assert(d * (dr0 + q) + (before + rem) == h * (dm0 + a)) by (nonlinear_arith)
                    requires
                        d * dr0 + before == h * dm0,
                        x == d * q + rem,
                        x == a * h,
                ;
                assert(before + rem + (c0 + 1) <= d * (c0 + 1)) by (nonlinear_arith)
                    requires
                        before + c0 <= d * c0,
                        rem < d,
                ;
            }
            before + rem
        } else {
            before
        }
    }
}

/// What all effects together draw at the fraction `held / asked`: see
/// `lemma_list_drawn_shortfall`.
proof fn lemma_total_drawn_shortfall(
    effects: Seq<StockyardProducerConsumer>,
    kind: StockKind,
    held: nat,
    asked: nat,
) -> (short: nat)
    requires
        0 < asked <= u64::MAX,
        held <= asked,
        forall|i: int|
            0 <= i < effects.len() ==> (#[trigger] effects[i]).wf() && (names(
                effects[i].consumes@,
                kind,
            ) ==> effects[i].fulfillment().same_value(
                Fraction { num: held as u64, den: asked as u64 },
            )),
    ensures
        asked * total_drawn(effects, kind) + short == held * total_demand(effects, kind),
        short + total_claims(effects, kind) <= asked * total_claims(effects, kind),
        divides_evenly(effects, kind, held, asked) ==> short == 0,
    decreases effects.len(),
{
    if effects.len() == 0 {
        assert(asked * 0 == 0 && held * 0 == 0) by (nonlinear_arith);
        0
    } else {
        let rest = effects.drop_last();
        assert forall|i: int| 0 <= i < rest.len() implies rest[i] == effects[i] by {}
        let before = lemma_total_drawn_shortfall(rest, kind, held, asked);
        let last = effects.last();
        assert(last == effects[effects.len() - 1]);
        let here = lemma_list_drawn_shortfall(
            last.consumes@,
            last.fulfillment(),
            kind,
            held,
            asked,
        );
        let d = asked as int;
        let h = held as int;
        let dr0 = total_drawn(rest, kind) as int;
        let dr1 = list_drawn(last.consumes@, last.fulfillment(), kind) as int;
        let dm0 = total_demand(rest, kind) as int;
        let dm1 = list_demand(last.consumes@, kind) as int;
        let c0 = total_claims(rest, kind) as int;
        let c1 = list_claims(last.consumes@, kind) as int;
        assert(d * (dr0 + dr1) + (before + here) == h * (dm0 + dm1)) by (nonlinear_arith)
            requires
                d * dr0 + before == h * dm0,
                d * dr1 + here == h * dm1,
        ;
        assert(before + here + (c0 + c1) <= d * (c0 + c1)) by (nonlinear_arith)
            requires
                before + c0 <= d * c0,
                here + c1 <= d * c1,
        ;
        if divides_evenly(effects, kind, held, asked) {
            assert(divides_evenly(rest, kind, held, asked));
            assert forall|j: int| 0 <= j < last.consumes@.len() && (
            #[trigger] last.consumes@[j]).0 == kind implies cut_remainder(last.consumes@[j].1.tick_amount(), held, asked) == 0 by {
                assert(effects[effects.len() - 1].consumes@[j].0 == kind);
            }
        }
        before + here
    }
}

/// Starvation bound: where more is asked of a kind of stock than is held,
/// and that kind is the scarcest for every effect that names it, the
/// effects together draw what was held, less what is lost to rounding down:
/// under one millionth of a unit for each entry that asks for some of the
/// kind. Where the cut divides without remainder they draw exactly what was
/// held.
pub proof fn lemma_starvation(
    yard: Stockyard,
    effects: Seq<StockyardProducerConsumer>,
    kind: StockKind,
)
    requires
        yard.wf(),
        settled(effects, yard),
        yard.stock(kind).current() < total_demand(effects, kind) <= u64::MAX,
        forall|i: int|
            0 <= i < effects.len() && names((#[trigger] effects[i]).consumes@, kind)
                ==> effects[i].fulfillment().same_value(payable_fraction(yard, effects, kind)),
    ensures
        total_drawn(effects, kind) <= yard.stock(kind).current(),
        yard.stock(kind).current() < total_drawn(effects, kind) + total_claims(effects, kind),
        divides_evenly(
            effects,
            kind,
            yard.stock(kind).current(),
            total_demand(effects, kind),
        ) ==> total_drawn(effects, kind) == yard.stock(kind).current(),
{
    let held = yard.stock(kind).current();
    let asked = total_demand(effects, kind);
    lemma_payable_wf(yard, effects, kind);
    lemma_conservation(yard, effects, kind);
    let short = lemma_total_drawn_shortfall(effects, kind, held, asked);
    let d = asked as int;
    let h = held as int;
    let dr = total_drawn(effects, kind) as int;
    let c = total_claims(effects, kind) as int;
    let s = short as int;
    if c == 0 {
        lemma_no_claims_no_demand(effects, kind);
    }
    assert(d * (h - dr) == s) by (nonlinear_arith)
        requires
            d * dr + s == h * d,
    ;
    assert(h - dr < c) by (nonlinear_arith)
        requires
            d * (h - dr) == s,
            s + c <= d * c,
            0 < d,
            0 < c,
    {
        assert(d * (h - dr) < d * c);
    }
    assert(s == 0 ==> dr == h) by (nonlinear_arith)
        requires
            d * (h - dr) == s,
            0 < d,
    ;
}

/// Where no entry asks for any of a kind, nothing is asked of it.
proof fn lemma_no_claims_no_demand(effects: Seq<StockyardProducerConsumer>, kind: StockKind)
    requires
        total_claims(effects, kind) == 0,
    ensures
        total_demand(effects, kind) == 0,
    decreases effects.len(),
{
    if effects.len() > 0 {
        lemma_no_claims_no_demand(effects.drop_last(), kind);
        lemma_list_no_claims_no_demand(effects.last().consumes@, kind);
    }
}

/// Where no entry of a list asks for any of a kind, the list asks nothing
/// of it.
proof fn lemma_list_no_claims_no_demand(list: Rates, kind: StockKind)
    requires
        list_claims(list, kind) == 0,
    ensures
        list_demand(list, kind) == 0,
    decreases list.len(),
{
    if list.len() > 0 {
        lemma_list_no_claims_no_demand(list.drop_last(), kind);
    }
}

/// Limits: after a consumption step and a production step, over whatever
/// effects, every stock holds no more than its limit, as it did before.
pub proof fn lemma_steps_keep_limits(
    start: Stockyard,
    consumers: Seq<StockyardProducerConsumer>,
    middle: Stockyard,
    producers: Seq<StockyardProducerConsumer>,
    end: Stockyard,
    kind: StockKind,
)
    requires
        start.wf(),
        consumed(start, consumers, middle),
        produced(middle, producers, end),
    ensures
        middle.stock(kind).wf(),
        end.stock(kind).wf(),
        end.stock(kind).maximum() == start.stock(kind).maximum(),
        end.stock(kind).current() <= end.stock(kind).ceiling(),
{
    start.lemma_stocks_wf(kind);
}

/// Effects with empty lists ask for nothing, draw nothing and make nothing.
pub proof fn lemma_idle_effects(effects: Seq<StockyardProducerConsumer>, kind: StockKind)
    requires
        forall|i: int|
            0 <= i < effects.len() ==> (#[trigger] effects[i]).consumes@.len() == 0
                && effects[i].produces@.len() == 0,
    ensures
        total_demand(effects, kind) == 0,
        total_drawn(effects, kind) == 0,
        total_produced(effects, kind) == 0,
    decreases effects.len(),
{
    if effects.len() > 0 {
        let rest = effects.drop_last();
        assert forall|i: int| 0 <= i < rest.len() implies (#[trigger] rest[i]).consumes@.len() == 0
            && rest[i].produces@.len() == 0 by {
            assert(rest[i] == effects[i]);
        }
        lemma_idle_effects(rest, kind);
        assert(effects.last() == effects[effects.len() - 1]);
    }
}

/// Idempotence: a consumption step and a production step over effects
/// whose lists are all empty leave every stock as it was, in what it holds,
/// in its limit and in its mark of change, and every such effect has a
/// fulfillment of one.
pub proof fn lemma_idle_tick(
    start: Stockyard,
    effects: Seq<StockyardProducerConsumer>,
    middle: Stockyard,
    end: Stockyard,
)
    requires
        start.wf(),
        forall|i: int|
            0 <= i < effects.len() ==> (#[trigger] effects[i]).consumes@.len() == 0
                && effects[i].produces@.len() == 0,
        settled(effects, start),
        consumed(start, effects, middle),
        produced(middle, effects, end),
    ensures
        end.same_as(start),
        forall|i: int|
            0 <= i < effects.len() ==> (#[trigger] effects[i]).fulfillment() == (Fraction {
                num: 1,
                den: 1,
            }),
{
    assert forall|kind: StockKind| end.stock(kind) == start.stock(kind) by {
        lemma_idle_effects(effects, kind);
        start.lemma_stocks_wf(kind);
        assert(middle.stock(kind).current() == start.stock(kind).current());
        assert(middle.stock(kind).maximum() == start.stock(kind).maximum());
        assert(end.stock(kind).current() == start.stock(kind).current());
        assert(end.stock(kind).maximum() == start.stock(kind).maximum());
        assert(end.stock(kind).dirty() == start.stock(kind).dirty());
        end.stock(kind).lemma_same(start.stock(kind));
    }
}

} // verus!
