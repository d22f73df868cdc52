//! The followers' own effect: they eat food and raise godpower.
//!
//! What the followers eat grows with their number. What they raise grows
//! with their number up to ten followers, and with the decimal logarithm of
//! their number from there on. The logarithm itself is not computed here:
//! it is handed in, and held to the decade of the number of followers,
//! which is counted exactly.

use vstd::prelude::*;
use crate::fixed::{PerSecond, UNIT};
use crate::stock::producer_consumer::StockyardProducerConsumer;
use crate::stock::stockyard::Stockyard;
use crate::stock::StockKind;

verus! {

/// The number of followers, in millionths, from which on godpower grows
/// with the logarithm of their number.
pub const RAMP_END: u64 = 10_000_000;

/// The decimal order of magnitude of a whole number: one less than the
/// number of its digits.
pub open spec fn spec_decade(whole: nat) -> nat
    decreases whole,
{
    if whole < 10 {
        0
    } else {
        1 + spec_decade(whole / 10)
    }
}

/// Ten to the power of `exponent`.
pub open spec fn power_of_ten(exponent: nat) -> nat
    decreases exponent,
{
    if exponent == 0 {
        1
    } else {
        10 * power_of_ten((exponent - 1) as nat)
    }
}

/// A whole number above zero lies in its decade: at or above ten to the
/// power of the decade, and below the next power of ten.
pub proof fn lemma_decade_bounds(whole: nat)
    requires
        whole > 0,
    ensures
        power_of_ten(spec_decade(whole)) <= whole < power_of_ten(spec_decade(whole) + 1),
    decreases whole,
{
    if whole >= 10 {
        lemma_decade_bounds(whole / 10);
        let k = spec_decade(whole / 10);
        assert(power_of_ten(k + 1) == 10 * power_of_ten(k));
        assert(power_of_ten(k + 2) == 10 * power_of_ten((k + 1) as nat));
        assert(spec_decade(whole) == k + 1);
    } else {
        assert(power_of_ten(1) == 10 * power_of_ten(0));
    }
}

/// The decade does not fall as the number grows.
pub proof fn lemma_decade_monotone(small: nat, large: nat)
    requires
        small <= large,
    ensures
        spec_decade(small) <= spec_decade(large),
    decreases large,
{
    if small >= 10 {
        lemma_decade_monotone(small / 10, large / 10);
    }
}

/// The decimal order of magnitude of a whole number.
pub fn decade(whole: u64) -> (r: u64)
    ensures
        r == spec_decade(whole as nat),
        r < 20,
{
    proof {
        lemma_decade_bounds_twenty(whole as nat);
    }
    let mut rest: u64 = whole;
    let mut count: u64 = 0;
    while rest >= 10
        invariant
            spec_decade(whole as nat) == count + spec_decade(rest as nat),
            spec_decade(whole as nat) < 20,
        decreases rest,
    {
        rest = rest / 10;
        count = count + 1;
    }
    count
}

/// Ten to the power of twenty is more than a 64-bit number can hold.
proof fn lemma_power_of_ten_twenty()
    ensures
        power_of_ten(20) > u64::MAX,
{
    reveal_with_fuel(power_of_ten, 21);
}

/// No 64-bit number has a decade of twenty or more.
proof fn lemma_decade_bounds_twenty(whole: nat)
    requires
        whole <= u64::MAX,
    ensures
        spec_decade(whole) < 20,
{
    if whole > 0 && spec_decade(whole) >= 20 {
        lemma_decade_bounds(whole);
        lemma_power_of_ten_twenty();
        lemma_power_monotone(20, spec_decade(whole));
    }
}

/// The powers of ten do not fall as the exponent grows.
proof fn lemma_power_monotone(small: nat, large: nat)
    requires
        small <= large,
    ensures
        power_of_ten(small) <= power_of_ten(large),
    decreases large,
{
    if small < large {
        lemma_power_monotone(small, (large - 1) as nat);
    }
}

/// What the followers eat in a second, in millionths of a unit of food: a
/// fifth of a unit each.
pub open spec fn food_rate(followers: nat) -> nat {
    followers / 5
}

/// The logarithm that is handed in, held to the decade of the number of
/// whole followers.
pub open spec fn held_logarithm(followers: nat, logarithm: nat) -> nat {
    let low: nat = spec_decade(followers / UNIT as nat) * UNIT as nat;
    let high: nat = low + UNIT as nat;
    if logarithm < low {
        low
    } else if logarithm > high {
        high
    } else {
        logarithm
    }
}

/// What the followers raise in a second, in millionths of a unit of
/// godpower: a tenth of their number below ten followers, and one more than
/// the decimal logarithm of their number from ten followers on.
pub open spec fn godpower_rate(followers: nat, logarithm: nat) -> nat {
    if followers < RAMP_END {
        followers / 10
    } else {
        held_logarithm(followers, logarithm) + UNIT as nat
    }
}

/// No followers raise no godpower, whatever logarithm is handed in.
pub proof fn lemma_no_followers_no_godpower(logarithm: nat)
    ensures
        godpower_rate(0, logarithm) == 0,
{
}

/// Below ten followers more followers never raise less godpower, and raise
/// more as soon as they are ten millionths of a follower more.
pub proof fn lemma_ramp_increasing(fewer: nat, more: nat, logarithm: nat)
    requires
        fewer <= more < RAMP_END,
    ensures
        godpower_rate(fewer, logarithm) <= godpower_rate(more, logarithm),
        fewer + 10 <= more ==> godpower_rate(fewer, logarithm) < godpower_rate(more, logarithm),
{
}

/// Whole followers below ten raise the more godpower the more they are.
pub proof fn lemma_ramp_strict_for_whole(fewer: nat, more: nat, logarithm: nat)
    requires
        fewer < more < 10,
    ensures
        godpower_rate(fewer * UNIT as nat, logarithm) < godpower_rate(
            more * UNIT as nat,
            logarithm,
        ),
        godpower_rate(more * UNIT as nat, logarithm) == more * (UNIT / 10),
{
    assert(fewer * 1_000_000 + 10 <= more * 1_000_000);
    assert(more * 1_000_000 == (more * 100_000) * 10);
}

/// From ten followers on the godpower raised is one more than the
/// logarithm handed in, where that lies in the decade of their number, and
/// lies within one of the decade whatever is handed in.
pub proof fn lemma_logarithm_branch(followers: nat, logarithm: nat)
    requires
        followers >= RAMP_END,
    ensures
        spec_decade(followers / UNIT as nat) * UNIT <= logarithm <= spec_decade(
            followers / UNIT as nat,
        ) * UNIT + UNIT ==> godpower_rate(followers, logarithm) == logarithm + UNIT,
        spec_decade(followers / UNIT as nat) >= 1,
        godpower_rate(followers, logarithm) >= (spec_decade(followers / UNIT as nat) + 1) * UNIT,
        godpower_rate(followers, logarithm) <= (spec_decade(followers / UNIT as nat) + 2) * UNIT,
{
    let whole = followers / UNIT as nat;
    assert(whole >= 10);
    let k = spec_decade(whole);
    assert((k + 1) * UNIT == k * UNIT + UNIT) by (nonlinear_arith);
    assert((k + 2) * UNIT == k * UNIT + UNIT + UNIT) by (nonlinear_arith);
}

/// More followers never raise less godpower than fewer followers of a
/// lower decade, whatever logarithms are handed in, and ten followers or
/// more raise more than any number below ten.
pub proof fn lemma_godpower_rises(fewer: nat, more: nat, first: nat, second: nat)
    requires
        fewer <= more,
        more >= RAMP_END,
        fewer < RAMP_END || spec_decade(fewer / UNIT as nat) < spec_decade(more / UNIT as nat),
    ensures
        godpower_rate(fewer, first) <= godpower_rate(more, second),
        fewer < RAMP_END ==> godpower_rate(fewer, first) < godpower_rate(more, second),
{
    lemma_logarithm_branch(more, second);
    let k2 = spec_decade(more / UNIT as nat);
    if fewer >= RAMP_END {
        lemma_logarithm_branch(fewer, first);
        let k1 = spec_decade(fewer / UNIT as nat);
        assert((k1 + 2) * UNIT <= (k2 + 1) * UNIT) by (nonlinear_arith)
            requires
                k1 + 1 <= k2,
        ;
    } else {
        assert((k2 + 1) * UNIT >= 2 * UNIT) by (nonlinear_arith)
            requires
                k2 >= 1,
        ;
    }
}

/// From ten followers on more followers never raise less godpower,
/// provided that the logarithm handed in for them is not the smaller one;
/// and they raise more where both logarithms lie in the decades of their
/// followers and that of the greater number is the greater.
pub proof fn lemma_godpower_follows_logarithm(fewer: nat, more: nat, first: nat, second: nat)
    requires
        RAMP_END <= fewer <= more,
        first <= second,
    ensures
        godpower_rate(fewer, first) <= godpower_rate(more, second),
        first < second && held_logarithm(fewer, first) == first && held_logarithm(more, second)
            == second ==> godpower_rate(fewer, first) < godpower_rate(more, second),
{
    vstd::arithmetic::div_mod::lemma_div_is_ordered(fewer as int, more as int, UNIT as int);
    lemma_decade_monotone(fewer / UNIT as nat, more / UNIT as nat);
    let low = spec_decade(fewer / UNIT as nat);
    let high = spec_decade(more / UNIT as nat);
    assert(low * UNIT <= high * UNIT) by (nonlinear_arith)
        requires
            low <= high,
    ;
}

/// Marks the followers' own effect. One effect at most should carry the
/// mark.
#[derive(Debug, Clone, Copy)]
pub struct FollowerSpc;

/// Holds the logarithm handed in to the decade of the number of followers.
fn hold_logarithm(followers: u64, logarithm: u64) -> (r: u64)
    ensures
        r == held_logarithm(followers as nat, logarithm as nat),
        r <= 20_000_000,
{
    let low: u64 = decade(followers / 1_000_000) * 1_000_000;
    let high: u64 = low + 1_000_000;
    if logarithm < low {
        low
    } else if logarithm > high {
        high
    } else {
        logarithm
    }
}

/// Sets what the followers eat and raise from their number in the
/// stockyard.
///
/// `logarithm` is the decimal logarithm of the number of followers, in
/// millionths. It is read from ten followers on.
pub fn update_follower_modifier(
    stockyard: &Stockyard,
    modifier: &mut StockyardProducerConsumer,
    logarithm: u64,
)
    requires
        stockyard.wf(),
        old(modifier).consumes@.len() > 0,
        old(modifier).produces@.len() > 0,
    ensures
        final(modifier).consumes@ == old(modifier).consumes@.update(
            0,
            (
                old(modifier).consumes@[0].0,
                PerSecond(food_rate(stockyard.stock(StockKind::Followers).current()) as i64),
            ),
        ),
        final(modifier).produces@ == old(modifier).produces@.update(
            0,
            (
                old(modifier).produces@[0].0,
                PerSecond(
                    godpower_rate(
                        stockyard.stock(StockKind::Followers).current(),
                        logarithm as nat,
                    ) as i64,
                ),
            ),
        ),
        final(modifier).fulfillment() == old(modifier).fulfillment(),
        final(modifier).multiplier() == old(modifier).multiplier(),
{
    let followers: u64 = stockyard.get(StockKind::Followers).amount();
    let food: u64 = followers / 5;
    let godpower: u64 = if followers < RAMP_END {
        followers / 10
    } else {
        hold_logarithm(followers, logarithm) + 1_000_000
    };
    let eaten: StockKind = modifier.consumes[0].0;
    modifier.consumes.set(0, (eaten, PerSecond(food as i64)));
    let raised: StockKind = modifier.produces[0].0;
    modifier.produces.set(0, (raised, PerSecond(godpower as i64)));
}

/// The followers' own effect as it stands before the first tick: it eats
/// food and raises godpower, at rates that are still to be set, and counts
/// as fulfilled.
pub fn init_follower_stockyard_producer_consumer() -> (r: StockyardProducerConsumer)
    ensures
        r.wf(),
        r.consumes@ == seq![(StockKind::Food, PerSecond(0))],
        r.produces@ == seq![(StockKind::Godpower, PerSecond(0))],
        r.fulfillment().is_one(),
        r.multiplier().is_none(),
{
    let mut consumes: Vec<(StockKind, PerSecond)> = Vec::new();
    consumes.push((StockKind::Food, PerSecond(0)));
    let mut produces: Vec<(StockKind, PerSecond)> = Vec::new();
    produces.push((StockKind::Godpower, PerSecond(0)));
    StockyardProducerConsumer::with_lists(consumes, produces)
}

} // verus!
