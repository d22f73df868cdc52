//! Builds a figure from a base, offsets and multipliers.
//!
//! All three are counted in millionths.

use vstd::prelude::*;
use crate::fixed::{clamp_rate, clamp_to_rate, UNIT};

verus! {

/// A figure in the making.
#[derive(Debug, Clone, Copy)]
pub struct StatsBuilder {
    pub base: i64,
    pub offset: i64,
    pub multiplier: i64,
}

impl StatsBuilder {
    /// The figure that the builder stands for: nothing without a base, and
    /// otherwise the base and the offsets together, times the multiplier,
    /// rounded towards zero. The sum and the product are held to what can
    /// be counted.
    pub open spec fn spec_calculate(self) -> i64 {
        if self.base == 0 {
            0
        } else {
            let product = clamp_rate(self.base + self.offset) * self.multiplier;
            if product >= 0 {
                clamp_rate(product / UNIT as int)
            } else {
                clamp_rate(-((-product) / UNIT as int))
            }
        }
    }

    /// The builder with its base raised to `base` where that is more.
    pub open spec fn with_base(self, base: i64) -> StatsBuilder {
        StatsBuilder {
            base: if base > self.base {
                base
            } else {
                self.base
            },
            ..self
        }
    }

    /// The builder with an offset added.
    pub open spec fn with_offset(self, offset: i64) -> StatsBuilder {
        StatsBuilder { offset: clamp_rate(self.offset + offset), ..self }
    }

    /// The builder with a multiplier added.
    pub open spec fn with_multiplier(self, multiplier: i64) -> StatsBuilder {
        StatsBuilder { multiplier: clamp_rate(self.multiplier + multiplier), ..self }
    }

    /// The builder with a multiplier added that is given in hundredths.
    pub open spec fn with_multiplier_percent(self, percent: i32) -> StatsBuilder {
        self.with_multiplier((percent * (UNIT / 100)) as i64)
    }

    /// The builder before anything is added: no base, no offset, and a
    /// multiplier of one.
    pub open spec fn spec_default() -> StatsBuilder {
        StatsBuilder { base: 0, offset: 0, multiplier: UNIT as i64 }
    }

    /// Raises the base to `base` where that is more.
    pub fn set_base(&mut self, base: i64)
        ensures
            *final(self) == old(self).with_base(base),
            final(self).base == if base > old(self).base {
                base
            } else {
                old(self).base
            },
            final(self).offset == old(self).offset,
            final(self).multiplier == old(self).multiplier,
    {
        if base > self.base {
            self.base = base;
        }
    }

    /// Adds an offset.
    pub fn add_offset(&mut self, offset: i64)
        ensures
            *final(self) == old(self).with_offset(offset),
            final(self).offset == clamp_rate(old(self).offset + offset),
            final(self).base == old(self).base,
            final(self).multiplier == old(self).multiplier,
    {
        self.offset = clamp_to_rate(self.offset as i128 + offset as i128);
    }

    /// Adds a multiplier. Multipliers are summed: two of a fifth each on
    /// the multiplier of one make one and two fifths.
    pub fn add_multiplier(&mut self, multiplier: i64)
        ensures
            *final(self) == old(self).with_multiplier(multiplier),
            final(self).multiplier == clamp_rate(old(self).multiplier + multiplier),
            final(self).base == old(self).base,
            final(self).offset == old(self).offset,
    {
        self.multiplier = clamp_to_rate(self.multiplier as i128 + multiplier as i128);
    }

    /// Adds a multiplier given in hundredths.
    pub fn add_multiplier_percent(&mut self, percent: i32)
        ensures
            *final(self) == old(self).with_multiplier_percent(percent),
            final(self).multiplier == clamp_rate(old(self).multiplier + percent * (UNIT / 100)),
            final(self).base == old(self).base,
            final(self).offset == old(self).offset,
    {
        let wide: i64 = percent as i64;
        self.add_multiplier(wide * 10_000);
    }

    /// The figure that the builder stands for.
    pub fn calculate(&self) -> (r: i64)
        ensures
            r == self.spec_calculate(),
    {
        if self.base == 0 {
            0
        } else {
            let sum: i128 = clamp_to_rate(self.base as i128 + self.offset as i128) as i128;
            let factor: i128 = self.multiplier as i128;
            assert(-0x8000_0000_0000_0000 * 0x8000_0000_0000_0000 <= sum * factor
                <= 0x8000_0000_0000_0000 * 0x8000_0000_0000_0000) by (nonlinear_arith)
                requires
                    -0x8000_0000_0000_0000 <= sum <= 0x8000_0000_0000_0000,
                    -0x8000_0000_0000_0000 <= factor <= 0x8000_0000_0000_0000,
            ;
            let product: i128 = sum * factor;
            if product >= 0 {
                clamp_to_rate(product / 1_000_000)
            } else {
                clamp_to_rate(-((-product) / 1_000_000))
            }
        }
    }
}

impl Default for StatsBuilder {
    /// No base, no offset, and a multiplier of one.
    fn default() -> (r: StatsBuilder)
        ensures
            r == StatsBuilder::spec_default(),
            r.base == 0,
            r.offset == 0,
            r.multiplier == UNIT,
    {
        StatsBuilder { base: 0, offset: 0, multiplier: 1_000_000 }
    }
}

} // verus!
