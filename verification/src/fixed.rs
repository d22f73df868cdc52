//! Fixed-point quantities: amounts, rates per second and fractions.

use vstd::prelude::*;

verus! {

/// Number of fixed-point steps in one whole unit.
pub const UNIT: u64 = 1_000_000;

/// Number of simulation ticks in one second of simulated time.
pub const TICKS_PER_SECOND: u64 = 20;

/// A non-negative rational number no greater than one.
///
/// Fulfillment ratios are kept as exact fractions: the numerator is what
/// could be paid, the denominator what was asked for.
#[derive(Clone, Copy, Debug)]
pub struct Fraction {
    pub num: u64,
    pub den: u64,
}

impl Fraction {
    /// The numerator.
    pub open spec fn num(self) -> nat {
        self.num as nat
    }

    /// The denominator.
    pub open spec fn den(self) -> nat {
        self.den as nat
    }

    /// A fraction is well formed when it lies between zero and one.
    pub open spec fn wf(self) -> bool {
        0 < self.den() && self.num() <= self.den()
    }

    /// Whether the fraction has the value one.
    pub open spec fn is_one(self) -> bool {
        self.num() == self.den()
    }

    /// Whether the fraction has the value zero.
    pub open spec fn is_zero(self) -> bool {
        self.num() == 0
    }

    /// Strict order of the values of two fractions.
    pub open spec fn less_than(self, other: Fraction) -> bool {
        self.num() * other.den() < other.num() * self.den()
    }

    /// Equality of the values of two fractions.
    pub open spec fn same_value(self, other: Fraction) -> bool {
        self.num() * other.den() == other.num() * self.den()
    }

    /// Order of the values of two fractions, equal values included.
    pub open spec fn at_most(self, other: Fraction) -> bool {
        self.num() * other.den() <= other.num() * self.den()
    }

    /// The smaller of two fractions; the first one where the values agree.
    pub open spec fn smaller(self, other: Fraction) -> Fraction {
        if other.less_than(self) {
            other
        } else {
            self
        }
    }

    /// The part of `amount` that the fraction selects, rounded down.
    pub open spec fn of(self, amount: nat) -> nat {
        (amount * self.num()) / self.den()
    }

    /// The fraction with the value one.
    pub fn one() -> (r: Fraction)
        ensures
            r.wf(),
            r.num() == 1,
            r.den() == 1,
    {
        Fraction { num: 1, den: 1 }
    }

    /// The fraction `num / den`, where that is a value between zero and one.
    pub fn new(num: u64, den: u64) -> (r: Option<Fraction>)
        ensures
            r.is_some() <==> (0 < den && num <= den),
            r.is_some() ==> r.unwrap().wf() && r.unwrap().num() == num && r.unwrap().den() == den,
    {
        if 0 < den && num <= den {
            Some(Fraction { num, den })
        } else {
            None
        }
    }

    /// The numerator.
    pub fn numerator(&self) -> (r: u64)
        ensures
            r == self.num(),
    {
        self.num
    }

    /// The denominator.
    pub fn denominator(&self) -> (r: u64)
        ensures
            r == self.den(),
    {
        self.den
    }

    /// Tells whether this fraction is strictly below `other` in value.
    pub fn is_less_than(&self, other: &Fraction) -> (r: bool)
        ensures
            r == self.less_than(*other),
    {
        let left: u128 = wide_product(self.num, other.den);
        let right: u128 = wide_product(other.num, self.den);
        left < right
    }

    /// The smaller of two fractions; this one where the values agree.
    pub fn min(self, other: Fraction) -> (r: Fraction)
        ensures
            r == self.smaller(other),
    {
        if other.is_less_than(&self) {
            other
        } else {
            self
        }
    }

    /// The part of `amount` that the fraction selects, rounded down.
    pub fn apply(&self, amount: u64) -> (r: u64)
        requires
            self.wf(),
        ensures
            r == self.of(amount as nat),
            r <= amount,
    {
        let wide: u128 = wide_product(amount, self.num);
        let den: u128 = self.den as u128;
        let part: u128 = wide / den;
        proof {
            lemma_of_at_most(*self, amount as nat);
        }
        part as u64
    }

    /// The value of the fraction in millionths, rounded down.
    pub fn as_millionths(&self) -> (r: u64)
        requires
            self.wf(),
        ensures
            r == self.of(UNIT as nat),
            r <= UNIT,
    {
        self.apply(UNIT)
    }
}

/// A rate of change in millionths of a unit per second of simulated time.
///
/// A positive rate adds to a stock and a negative rate takes from it.
#[derive(Clone, Copy, Debug, PartialEq, Eq, Structural)]
pub struct PerSecond(pub i64);

impl PerSecond {
    /// The change that the rate makes in one tick, rounded towards zero.
    pub open spec fn spec_per_tick(self) -> int {
        if self.0 >= 0 {
            self.0 as int / TICKS_PER_SECOND as int
        } else {
            -((-(self.0 as int)) / TICKS_PER_SECOND as int)
        }
    }

    /// The amount that the rate moves in one tick: nothing for a rate that
    /// is not positive.
    pub open spec fn tick_amount(self) -> nat {
        if self.0 > 0 {
            (self.0 as int / TICKS_PER_SECOND as int) as nat
        } else {
            0
        }
    }

    /// The rate of `whole` units per second.
    pub fn from_whole(whole: i32) -> (r: PerSecond)
        ensures
            r.0 == whole * UNIT,
    {
        let wide: i64 = whole as i64;
        PerSecond(wide * 1_000_000)
    }

    /// The change that the rate makes in one tick, rounded towards zero.
    pub fn per_tick(&self) -> (r: i64)
        ensures
            r == self.spec_per_tick(),
    {
        if self.0 >= 0 {
            self.0 / 20
        } else {
            let below: u64 = (-(self.0 + 1)) as u64;
            let size: u64 = below + 1;
            let quotient: u64 = size / 20;
            -(quotient as i64)
        }
    }

    /// The amount that the rate moves in one tick: nothing for a rate that
    /// is not positive.
    pub fn amount_per_tick(&self) -> (r: u64)
        ensures
            r == self.tick_amount(),
            r <= i64::MAX / 20,
    {
        if self.0 > 0 {
            (self.0 / 20) as u64
        } else {
            0
        }
    }

    /// Whether the rate is below zero.
    pub fn is_sign_negative(&self) -> (r: bool)
        ensures
            r == (self.0 < 0),
    {
        self.0 < 0
    }

    /// Whether the rate is zero or above.
    pub fn is_sign_positive(&self) -> (r: bool)
        ensures
            r == (self.0 >= 0),
    {
        self.0 >= 0
    }

    /// The opposite rate. The lowest rate, which has no opposite, gives the
    /// highest one.
    pub open spec fn spec_negated(self) -> PerSecond {
        PerSecond(clamp_rate(-(self.0 as int)))
    }

    /// The opposite rate. The lowest rate, which has no opposite, gives the
    /// highest one.
    pub fn negate(self) -> (r: PerSecond)
        ensures
            r == self.spec_negated(),
            self.0 > i64::MIN ==> r.0 == -self.0,
            self.0 == i64::MIN ==> r.0 == i64::MAX,
    {
        if self.0 == i64::MIN {
            PerSecond(i64::MAX)
        } else {
            PerSecond(-self.0)
        }
    }

    /// The rate of `count` actors that each work at this rate, held within
    /// the range of rates.
    pub open spec fn spec_times(self, count: u32) -> PerSecond {
        PerSecond(clamp_rate(self.0 * count))
    }

    /// The rate of `count` actors that each work at this rate, held within
    /// the range of rates.
    pub fn times(self, count: u32) -> (r: PerSecond)
        ensures
            r == self.spec_times(count),
    {
        assert(-0x8000_0000_0000_0000 * 0x1_0000_0000 <= self.0 * count
            <= 0x8000_0000_0000_0000 * 0x1_0000_0000) by (nonlinear_arith)
            requires
                -0x8000_0000_0000_0000 <= self.0 <= 0x8000_0000_0000_0000,
                0 <= count <= 0x1_0000_0000,
        ;
        let wide: i128 = (self.0 as i128) * (count as i128);
        PerSecond(clamp_to_rate(wide))
    }

    /// The rate scaled by a multiplier given in millionths, rounded towards
    /// zero and held within the range of rates.
    pub open spec fn spec_scaled(self, multiplier: u64) -> PerSecond {
        if self.0 >= 0 {
            PerSecond(clamp_rate((self.0 * multiplier) / UNIT as int))
        } else {
            PerSecond(clamp_rate(-(((-self.0) * multiplier) / UNIT as int)))
        }
    }

    /// The rate scaled by a multiplier given in millionths, rounded towards
    /// zero and held within the range of rates.
    pub fn scaled(self, multiplier: u64) -> (r: PerSecond)
        ensures
            r == self.spec_scaled(multiplier),
    {
        if self.0 >= 0 {
            let product: u128 = wide_product(self.0 as u64, multiplier);
            let quotient: u128 = product / 1_000_000;
            if quotient > 0x7FFF_FFFF_FFFF_FFFF {
                PerSecond(i64::MAX)
            } else {
                PerSecond(quotient as i64)
            }
        } else {
            let below: u64 = (-(self.0 + 1)) as u64;
            let size: u64 = below + 1;
            let product: u128 = wide_product(size, multiplier);
            let quotient: u128 = product / 1_000_000;
            if quotient > 0x8000_0000_0000_0000 {
                PerSecond(i64::MIN)
            } else if quotient == 0x8000_0000_0000_0000 {
                PerSecond(i64::MIN)
            } else {
                PerSecond(-(quotient as i64))
            }
        }
    }
}

/// The nearest value to `value` that a rate can hold.
pub open spec fn clamp_rate(value: int) -> i64 {
    if value > i64::MAX {
        i64::MAX
    } else if value < i64::MIN {
        i64::MIN
    } else {
        value as i64
    }
}

/// The nearest value to `value` that a rate can hold.
pub fn clamp_to_rate(value: i128) -> (r: i64)
    ensures
        r == clamp_rate(value as int),
{
    if value > 0x7FFF_FFFF_FFFF_FFFF {
        i64::MAX
    } else if value < -0x8000_0000_0000_0000 {
        i64::MIN
    } else {
        value as i64
    }
}

/// Something that can be read as a rate per second.
pub trait DotPerSecond {
    /// The rate that this value stands for.
    spec fn spec_per_second(self) -> PerSecond;

    /// The rate that this value stands for.
    fn per_second(self) -> (r: PerSecond)
        ensures
            r == self.spec_per_second(),
    ;
}

impl DotPerSecond for i32 {
    open spec fn spec_per_second(self) -> PerSecond {
        PerSecond((self * UNIT) as i64)
    }

    fn per_second(self) -> (r: PerSecond) {
        PerSecond::from_whole(self)
    }
}

impl DotPerSecond for PerSecond {
    open spec fn spec_per_second(self) -> PerSecond {
        self
    }

    fn per_second(self) -> (r: PerSecond) {
        self
    }
}

/// The product of two 64-bit numbers, which always fits in 128 bits.
pub fn wide_product(a: u64, b: u64) -> (r: u128)
    ensures
        r == a * b,
{
    assert(a * b <= 0xFFFF_FFFF_FFFF_FFFF * 0xFFFF_FFFF_FFFF_FFFF) by (nonlinear_arith)
        requires
            a <= 0xFFFF_FFFF_FFFF_FFFF,
            b <= 0xFFFF_FFFF_FFFF_FFFF,
    ;
    (a as u128) * (b as u128)
}

/// The part that a well-formed fraction selects never exceeds the whole.
pub proof fn lemma_of_at_most(f: Fraction, amount: nat)
    requires
        f.wf(),
    ensures
        f.of(amount) <= amount,
        f.is_one() ==> f.of(amount) == amount,
        f.is_zero() ==> f.of(amount) == 0,
{
    let n = f.num() as int;
    let d = f.den() as int;
    let a = amount as int;
    assert(a * n <= a * d) by (nonlinear_arith)
        requires
            0 <= a,
            0 <= n <= d,
    ;
    vstd::arithmetic::div_mod::lemma_div_is_ordered(a * n, a * d, d);
    vstd::arithmetic::div_mod::lemma_div_multiples_vanish(a, d);
    assert(a * d == d * a) by (nonlinear_arith);
    assert(a * 0 == 0) by (nonlinear_arith);
}

/// The smaller of two fractions is at most either of them.
pub proof fn lemma_smaller_at_most(a: Fraction, b: Fraction)
    requires
        a.wf(),
        b.wf(),
    ensures
        a.smaller(b).wf(),
        a.smaller(b).at_most(a),
        a.smaller(b).at_most(b),
        a.smaller(b) == a || a.smaller(b) == b,
{
    assert(a.num() * a.den() == a.num() * a.den());
    assert(b.num() * b.den() == b.num() * b.den());
}

/// The order of fractions by value is transitive.
pub proof fn lemma_at_most_transitive(a: Fraction, b: Fraction, c: Fraction)
    requires
        a.wf(),
        b.wf(),
        c.wf(),
        a.at_most(b),
        b.at_most(c),
    ensures
        a.at_most(c),
{
    let an = a.num() as int;
    let ad = a.den() as int;
    let bn = b.num() as int;
    let bd = b.den() as int;
    let cn = c.num() as int;
    let cd = c.den() as int;
    assert(an * cd <= cn * ad) by (nonlinear_arith)
        requires
            an * bd <= bn * ad,
            bn * cd <= cn * bd,
            0 < ad,
            0 < bd,
            0 < cd,
            0 <= an,
            0 <= bn,
            0 <= cn,
    {
        assert(an * bd * cd <= bn * ad * cd);
        assert(bn * cd * ad <= cn * bd * ad);
        assert(bn * ad * cd == bn * cd * ad);
        assert(an * cd * bd <= cn * ad * bd);
    }
}

/// A fraction of lesser value selects a lesser part of the same amount.
pub proof fn lemma_of_monotone(a: Fraction, b: Fraction, amount: nat)
    requires
        a.wf(),
        b.wf(),
        a.at_most(b),
    ensures
        a.of(amount) <= b.of(amount),
{
    let x = (amount * a.num()) as int;
    let y = (amount * b.num()) as int;
    let ad = a.den() as int;
    let bd = b.den() as int;
    let q = x / ad;
    vstd::arithmetic::div_mod::lemma_fundamental_div_mod(x, ad);
    vstd::arithmetic::div_mod::lemma_fundamental_div_mod(y, bd);
    vstd::arithmetic::div_mod::lemma_mod_bound(x, ad);
    vstd::arithmetic::div_mod::lemma_mod_bound(y, bd);
    let an = a.num() as int;
    let bn = b.num() as int;
    let m = amount as int;
    assert(x * bd <= y * ad) by (nonlinear_arith)
        requires
            x == m * an,
            y == m * bn,
            an * bd <= bn * ad,
            0 <= m,
    {
        assert(m * (an * bd) <= m * (bn * ad));
    }
    let r = y / bd;
    assert(q <= r) by (nonlinear_arith)
        requires
            x == ad * q + x % ad,
            y == bd * r + y % bd,
            0 <= x % ad < ad,
            0 <= y % bd < bd,
            x * bd <= y * ad,
            0 < ad,
            0 < bd,
    {
        assert(ad * q * bd <= x * bd);
        assert(y * ad < (bd * r + bd) * ad);
        assert(ad * bd * q < ad * bd * (r + 1));
    }
}

/// Fractions of equal value select equal parts of the same amount.
pub proof fn lemma_of_same_value(a: Fraction, b: Fraction, amount: nat)
    requires
        a.wf(),
        b.wf(),
        a.same_value(b),
    ensures
        a.of(amount) == b.of(amount),
{
    lemma_of_monotone(a, b, amount);
    lemma_of_monotone(b, a, amount);
}

/// The parts of two amounts together are at most the part of their sum.
pub proof fn lemma_of_superadditive(f: Fraction, x: nat, y: nat)
    requires
        f.wf(),
    ensures
        f.of(x) + f.of(y) <= f.of(x + y),
{
    let n = f.num() as int;
    let d = f.den() as int;
    let a = x as int * n;
    let b = y as int * n;
    assert((x + y) * n == a + b) by (nonlinear_arith)
        requires
            a == x as int * n,
            b == y as int * n,
    ;
    vstd::arithmetic::div_mod::lemma_fundamental_div_mod(a, d);
    vstd::arithmetic::div_mod::lemma_fundamental_div_mod(b, d);
    vstd::arithmetic::div_mod::lemma_fundamental_div_mod(a + b, d);
    vstd::arithmetic::div_mod::lemma_mod_bound(a, d);
    vstd::arithmetic::div_mod::lemma_mod_bound(b, d);
    vstd::arithmetic::div_mod::lemma_mod_bound(a + b, d);
    let qa = a / d;
    let qb = b / d;
    let qs = (a + b) / d;
    assert(qa + qb <= qs) by (nonlinear_arith)
        requires
            a == d * qa + a % d,
            b == d * qb + b % d,
            a + b == d * qs + (a + b) % d,
            0 <= a % d < d,
            0 <= b % d < d,
            0 <= (a + b) % d < d,
            0 < d,
    {
        assert(d * (qa + qb) <= d * qs + (a + b) % d);
        assert(d * (qa + qb) < d * (qs + 1));
    }
}

/// What is held over what is asked, taken of all that is asked, is what is
/// held.
pub proof fn lemma_of_whole(f: Fraction)
    requires
        f.wf(),
    ensures
        f.of(f.den()) == f.num(),
{
    let n = f.num() as int;
    let d = f.den() as int;
    vstd::arithmetic::div_mod::lemma_div_multiples_vanish(n, d);
    assert(d * n == n * d) by (nonlinear_arith);
}

} // verus!
