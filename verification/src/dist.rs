//! The round statistics produced by the return-series generator.
//!
//! The generator itself draws an annualized Sharpe ratio uniformly from
//! [-3, 3], synthesizes `DAYS` normally distributed daily returns
//! consistent with it, and estimates the sample Sharpe ratio, its standard
//! error, and the descriptive statistics of the series. All of that is
//! floating-point arithmetic, which the verified core does not perform;
//! the surrounding program computes the numbers and stores them here as
//! IEEE-754 bit patterns. The core guarantees everything about how these
//! values flow through the game: the series length invariant, and that no
//! game operation ever alters a round's statistics except a recalculation,
//! which replaces them wholesale.

use vstd::prelude::*;

verus! {

/// Number of trading days in the generated series: two years at 252
/// trading days per year.
pub const DAYS: usize = 504;

/// Statistics of one round, all floating-point values as IEEE-754 bit
/// patterns.
pub struct Stats {
    /// Ground-truth annualized Sharpe ratio the series was generated from.
    pub acc_sharpe: u64,
    /// Annualized Sharpe ratio estimated from `return_series`.
    pub sample_sharpe: u64,
    /// Standard error of `sample_sharpe`; scales the guess tolerance.
    pub sharpe_error: u64,
    /// Mean of `return_series`.
    pub sample_mean: u64,
    /// Largest element of `return_series`.
    pub sample_max: u64,
    /// Smallest element of `return_series`.
    pub sample_min: u64,
    /// The synthetic daily returns, exactly `DAYS` of them.
    pub return_series: Vec<u64>,
}

impl Stats {
    /// The series length invariant: a well-formed round always holds
    /// exactly `DAYS` daily returns.
    pub open spec fn wf(self) -> bool {
        self.return_series@.len() == DAYS
    }

    /// Packages one round of generated numbers, establishing `wf`.
    pub fn new(
        acc_sharpe: u64,
        sample_sharpe: u64,
        sharpe_error: u64,
        sample_mean: u64,
        sample_max: u64,
        sample_min: u64,
        return_series: Vec<u64>,
    ) -> (r: Stats)
        requires
            return_series@.len() == DAYS,
        ensures
            r.wf(),
            r.acc_sharpe == acc_sharpe,
            r.sample_sharpe == sample_sharpe,
            r.sharpe_error == sharpe_error,
            r.sample_mean == sample_mean,
            r.sample_max == sample_max,
            r.sample_min == sample_min,
            r.return_series@ == return_series@,
    {
        Stats {
            acc_sharpe,
            sample_sharpe,
            sharpe_error,
            sample_mean,
            sample_max,
            sample_min,
            return_series,
        }
    }
}

} // verus!
