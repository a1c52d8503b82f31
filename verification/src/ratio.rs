//! Fixed-point ratios.

use vstd::prelude::*;

verus! {

/// The number of millionths in one whole.
pub const RATIO_SCALE: u64 = 1_000_000;

/// A non-negative number with six decimal places, held as a count of
/// millionths: `Ratio { millionths: 800_000 }` is 0.8.
#[derive(Debug, Clone, Copy, PartialEq, Eq, Structural)]
pub struct Ratio {
    pub millionths: u64,
}

impl Ratio {
    /// The ratio applied to an amount, rounded down.
    pub open spec fn of(self, amount: int) -> int {
        amount * (self.millionths as int) / (RATIO_SCALE as int)
    }

    /// The ratio applied to an amount, rounded down and capped at the largest
    /// `u64`.
    pub open spec fn of_capped(self, amount: u64) -> u64 {
        if self.of(amount as int) > u64::MAX as int {
            u64::MAX
        } else {
            self.of(amount as int) as u64
        }
    }

    /// Whether the ratio is at least one.
    pub open spec fn at_least_one(self) -> bool {
        self.millionths >= RATIO_SCALE
    }

    /// Whether the ratio is at most one.
    pub open spec fn at_most_one(self) -> bool {
        self.millionths <= RATIO_SCALE
    }

    /// The ratio of `millionths` millionths.
    pub fn from_millionths(millionths: u64) -> (ratio: Self)
        ensures
            ratio.millionths == millionths,
    {
        Ratio { millionths }
    }

    /// The ratio applied to `amount` without rounding to 64 bits.
    pub fn apply_wide(self, amount: u64) -> (scaled: u128)
        ensures
            scaled as int == self.of(amount as int),
    {
        let wide_amount: u128 = amount as u128;
        let wide_ratio: u128 = self.millionths as u128;
        assert(wide_amount * wide_ratio <= 0xFFFF_FFFF_FFFF_FFFF * 0xFFFF_FFFF_FFFF_FFFF)
            by (nonlinear_arith)
            requires
                wide_amount <= 0xFFFF_FFFF_FFFF_FFFF,
                wide_ratio <= 0xFFFF_FFFF_FFFF_FFFF,
        ;
        wide_amount * wide_ratio / 1_000_000
    }

    /// The ratio applied to `amount`, rounded down and capped at the largest
    /// `u64`.
    pub fn apply(self, amount: u64) -> (scaled: u64)
        ensures
            scaled == self.of_capped(amount),
    {
        let wide: u128 = self.apply_wide(amount);
        if wide > u64::MAX as u128 {
            u64::MAX
        } else {
            wide as u64
        }
    }
}

/// Applying a ratio of at least one never shrinks an amount.
pub proof fn lemma_ratio_at_least_one_grows(ratio: Ratio, amount: u64)
    requires
        ratio.at_least_one(),
    ensures
        ratio.of(amount as int) >= amount,
        ratio.of_capped(amount) >= amount,
{
    let a = amount as int;
    let m = ratio.millionths as int;
    assert(a * m >= a * 1_000_000) by (nonlinear_arith)
        requires
            a >= 0,
            m >= 1_000_000,
    ;
    assert(a * m / 1_000_000 >= a * 1_000_000 / 1_000_000) by (nonlinear_arith)
        requires
            a * m >= a * 1_000_000,
    ;
}

} // verus!
