//! The failures a simulation can report.

use vstd::prelude::*;

verus! {

/// Why a configuration was rejected. A rejected configuration starts no run.
#[derive(Clone, Copy, Debug, PartialEq, Eq)]
pub enum ConfigError {
    /// The epoch count is zero or negative.
    EpochsNotPositive,
    /// The initial stake lies below the minimum the network starts with.
    InitialStakeTooLow,
    /// The initial stake, counted in the smallest unit, exceeds 64 bits.
    InitialStakeTooHigh,
    /// The final stake lies above the maximum that a sweep may reach.
    FinalStakeTooHigh,
    /// No probability of being online was given.
    ProbabilityMissing,
    /// So many probabilities were given that the runs of the sweep cannot be
    /// counted in 64 bits.
    TooManyProbabilities,
    /// A probability lies outside the interval [0, 1].
    ProbabilityOutOfRange,
    /// The report type is neither "epoch" nor "monthly".
    UnsupportedReportType,
    /// The output format is neither "csv" nor "json".
    UnsupportedOutputFormat,
}

/// Why an epoch, and with it the run, was abandoned.
#[derive(Clone, Copy, Debug, PartialEq, Eq)]
pub enum SimulationError {
    /// Fewer validators than one epoch has proposers are active and unslashed.
    InsufficientEligibleValidators,
    /// An aggregate that divides is zero: the total active balance of an
    /// epoch, or the number of epochs in a month.
    DivisionByZero,
    /// An amount or a total does not fit the 64 bits that hold balances.
    BalanceOverflow,
}

} // verus!
