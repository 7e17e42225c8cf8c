//! The constants of the protocol and the parameters of one simulation.

use super::error::ConfigError;
use super::probability::Probability;
use vstd::prelude::*;

verus! {

/// The largest effective balance of a validator, in the smallest unit.
pub const MAX_EFFECTIVE_BALANCE: u64 = 32_000_000_000;

/// The factor that scales every base reward.
pub const BASE_REWARD_FACTOR: u64 = 64;

/// The number of base rewards that a validator can earn in one epoch.
pub const BASE_REWARDS_PER_EPOCH: u64 = 4;

/// The part of a base reward that goes to the proposer who includes an
/// attestation is one in this many.
pub const PROPOSER_REWARD_QUOTIENT: u64 = 8;

/// The step in which effective balances move.
pub const EFFECTIVE_BALANCE_INCREMENT: u64 = 1_000_000_000;

/// The number of slots, and so of block proposers, in one epoch.
pub const SLOTS_PER_EPOCH: u64 = 32;

/// The largest byte that the proposer election draws.
pub const MAX_RANDOM_BYTE: u64 = 255;

/// The number of smallest units in one unit of stake.
pub const UNITS_PER_STAKE: u64 = 1_000_000_000;

/// The least initial stake, in whole units, that a simulation accepts.
pub const MIN_INITIAL_STAKE: u64 = 500_000;

/// The greatest final stake, in whole units, that a sweep may reach.
pub const MAX_FINAL_STAKE: u64 = 10_000_000;

/// What a report is made of.
#[derive(Clone, Copy, Debug, PartialEq, Eq)]
pub enum ReportType {
    /// One row for each epoch.
    Epoch,
    /// One row for each month of the simulated year.
    Monthly,
}

/// How a report is written out.
#[derive(Clone, Copy, Debug, PartialEq, Eq)]
pub enum OutputFormat {
    /// Comma-separated values.
    Csv,
    /// JSON.
    Json,
}

/// The report type that goes by `name`, if there is one.
pub open spec fn report_type_named(name: Seq<char>) -> Option<ReportType> {
    if name == "epoch"@ {
        Some(ReportType::Epoch)
    } else if name == "monthly"@ {
        Some(ReportType::Monthly)
    } else {
        None
    }
}

/// The output format that goes by `name`, if there is one.
pub open spec fn output_format_named(name: Seq<char>) -> Option<OutputFormat> {
    if name == "csv"@ {
        Some(OutputFormat::Csv)
    } else if name == "json"@ {
        Some(OutputFormat::Json)
    } else {
        None
    }
}

impl ReportType {
    /// Reads a report type from its name: "epoch" or "monthly".
    pub fn parse(name: &str) -> (result: Result<ReportType, ConfigError>)
        ensures
            result == match report_type_named(name@) {
                Some(report_type) => Ok::<ReportType, ConfigError>(report_type),
                None => Err(ConfigError::UnsupportedReportType),
            },
    {
        let given = name.to_owned();
        if given == "epoch".to_owned() {
            Ok(ReportType::Epoch)
        } else if given == "monthly".to_owned() {
            Ok(ReportType::Monthly)
        } else {
            Err(ConfigError::UnsupportedReportType)
        }
    }
}

impl OutputFormat {
    /// Reads an output format from its name: "csv" or "json".
    pub fn parse(name: &str) -> (result: Result<OutputFormat, ConfigError>)
        ensures
            result == match output_format_named(name@) {
                Some(output_format) => Ok::<OutputFormat, ConfigError>(output_format),
                None => Err(ConfigError::UnsupportedOutputFormat),
            },
    {
        let given = name.to_owned();
        if given == "csv".to_owned() {
            Ok(OutputFormat::Csv)
        } else if given == "json".to_owned() {
            Ok(OutputFormat::Json)
        } else {
            Err(ConfigError::UnsupportedOutputFormat)
        }
    }
}

/// The parameters of one simulation. They are checked once, by `Config::new`,
/// before any epoch runs.
#[derive(Clone, Debug)]
pub struct Config {
    /// What kind of report the run produces.
    pub report_type: ReportType,
    /// Where the report goes; empty for the console.
    pub output_file_name: String,
    /// How the report is written out.
    pub output_format: OutputFormat,
    /// How many epochs the run lasts.
    pub epochs: i32,
    /// The stake that the run starts with, in the smallest unit.
    pub total_at_stake_initial: u64,
    /// The stake at which a sweep of runs ends, in the smallest unit.
    pub final_stake: u64,
    /// How many runs a sweep is made of.
    pub number_of_simulations: u64,
    /// The probability that a validator is online when it has to vote.
    pub probability_online: Probability,
    /// The probability that a validator votes honestly.
    pub probability_honest: Probability,
    /// The expected value of timely inclusion, from which attesters are paid.
    pub exp_value_inclusion_prob: Probability,
}

/// The expected value of timely inclusion for a probability `online` of being
/// online. At both ends of the interval it is `online` itself; in between it
/// is `estimate`, which stands for `p·ln(p)/(p−1)`.
pub open spec fn expected_inclusion(online: Probability, estimate: Probability) -> Probability {
    if online.is_impossible() || online.is_certain() {
        online
    } else {
        estimate
    }
}

/// The first reason, if any, for which the parameters of a simulation are
/// rejected. The stakes are in whole units; `probabilities` is the number of
/// probabilities of being online that were given.
pub open spec fn rejection(
    report_type: Seq<char>,
    output_format: Seq<char>,
    epochs: int,
    initial_stake: int,
    final_stake: int,
    probabilities: int,
) -> Option<ConfigError> {
    if initial_stake < MIN_INITIAL_STAKE {
        Some(ConfigError::InitialStakeTooLow)
    } else if final_stake > MAX_FINAL_STAKE {
        Some(ConfigError::FinalStakeTooHigh)
    } else if epochs < 1 {
        Some(ConfigError::EpochsNotPositive)
    } else if probabilities == 0 {
        Some(ConfigError::ProbabilityMissing)
    } else if report_type_named(report_type) is None {
        Some(ConfigError::UnsupportedReportType)
    } else if output_format_named(output_format) is None {
        Some(ConfigError::UnsupportedOutputFormat)
    } else if initial_stake * UNITS_PER_STAKE > u64::MAX {
        Some(ConfigError::InitialStakeTooHigh)
    } else if simulations(initial_stake, final_stake, probabilities) > u64::MAX {
        Some(ConfigError::TooManyProbabilities)
    } else {
        None
    }
}

/// The number of runs of a sweep: one for each probability of being online
/// and each time that the initial stake goes into the final stake.
pub open spec fn simulations(initial_stake: int, final_stake: int, probabilities: int) -> int {
    (final_stake / initial_stake) * probabilities
}

/// Counts the runs of a sweep from an initial stake to a final stake, both in
/// whole units, over a number of probabilities of being online.
pub fn count_simulations(initial_stake: u64, final_stake: u64, probabilities: u64) -> (result: Result<
    u64,
    ConfigError,
>)
    ensures
        result == if initial_stake < MIN_INITIAL_STAKE {
            Err::<u64, ConfigError>(ConfigError::InitialStakeTooLow)
        } else if final_stake > MAX_FINAL_STAKE {
            Err(ConfigError::FinalStakeTooHigh)
        } else if simulations(initial_stake as int, final_stake as int, probabilities as int)
            > u64::MAX {
            Err(ConfigError::TooManyProbabilities)
        } else {
            Ok(
                simulations(initial_stake as int, final_stake as int, probabilities as int) as u64,
            )
        },
{
    if initial_stake < MIN_INITIAL_STAKE {
        return Err(ConfigError::InitialStakeTooLow);
    }
    if final_stake > MAX_FINAL_STAKE {
        return Err(ConfigError::FinalStakeTooHigh);
    }
    let runs_per_probability: u64 = final_stake / initial_stake;
    match runs_per_probability.checked_mul(probabilities) {
        Some(number) => Ok(number),
        None => Err(ConfigError::TooManyProbabilities),
    }
}

impl Config {
    /// What holds of every configuration that `Config::new` accepts.
    pub open spec fn wf(&self) -> bool {
        &&& self.epochs >= 1
        &&& self.total_at_stake_initial >= MIN_INITIAL_STAKE * UNITS_PER_STAKE
        &&& self.final_stake <= MAX_FINAL_STAKE * UNITS_PER_STAKE
        &&& self.probability_online.wf()
        &&& self.probability_honest.wf()
        &&& self.exp_value_inclusion_prob.wf()
    }

    /// Checks the parameters of a simulation and builds its configuration.
    ///
    /// The stakes are given in whole units. The first of `probabilities_online`
    /// is the probability of being online of the run; their number multiplies
    /// the runs of a sweep. `inclusion_estimate` is the caller's value of
    /// `p·ln(p)/(p−1)` for that first probability `p`, and is used only where
    /// `p` is neither 0 nor 1. Validators are honest with probability 1.
    pub fn new(
        report_type: &str,
        output_file_name: &str,
        output_format: &str,
        epochs: i32,
        initial_stake: u64,
        final_stake: u64,
        probabilities_online: &Vec<Probability>,
        inclusion_estimate: Probability,
    ) -> (result: Result<Config, ConfigError>)
        ensures
            match rejection(
                report_type@,
                output_format@,
                epochs as int,
                initial_stake as int,
                final_stake as int,
                probabilities_online@.len() as int,
            ) {
                Some(reason) => result == Err::<Config, ConfigError>(reason),
                None => {
                    &&& result is Ok
                    &&& result->Ok_0.wf()
                    &&& Some(result->Ok_0.report_type) == report_type_named(report_type@)
                    &&& result->Ok_0.output_file_name@ == output_file_name@
                    &&& Some(result->Ok_0.output_format) == output_format_named(output_format@)
                    &&& result->Ok_0.epochs == epochs
                    &&& result->Ok_0.total_at_stake_initial == initial_stake * UNITS_PER_STAKE
                    &&& result->Ok_0.final_stake == final_stake * UNITS_PER_STAKE
                    &&& result->Ok_0.number_of_simulations == simulations(
                        initial_stake as int,
                        final_stake as int,
                        probabilities_online@.len() as int,
                    )
                    &&& result->Ok_0.probability_online == probabilities_online@[0]
                    &&& result->Ok_0.probability_honest.is_certain()
                    &&& result->Ok_0.exp_value_inclusion_prob == expected_inclusion(
                        probabilities_online@[0],
                        inclusion_estimate,
                    )
                },
            },
    {
        if initial_stake < MIN_INITIAL_STAKE {
            return Err(ConfigError::InitialStakeTooLow);
        }
        if final_stake > MAX_FINAL_STAKE {
            return Err(ConfigError::FinalStakeTooHigh);
        }
        if epochs < 1 {
            return Err(ConfigError::EpochsNotPositive);
        }
        if probabilities_online.len() == 0 {
            return Err(ConfigError::ProbabilityMissing);
        }
        let report_type = match ReportType::parse(report_type) {
            Ok(report_type) => report_type,
            Err(reason) => {
                return Err(reason);
            },
        };
        let output_format = match OutputFormat::parse(output_format) {
            Ok(output_format) => output_format,
            Err(reason) => {
                return Err(reason);
            },
        };
        let total_at_stake_initial: u64 = match initial_stake.checked_mul(UNITS_PER_STAKE) {
            Some(total) => total,
            None => {
                return Err(ConfigError::InitialStakeTooHigh);
            },
        };
        let number_of_simulations: u64 = match count_simulations(
            initial_stake,
            final_stake,
            probabilities_online.len() as u64,
        ) {
            Ok(number) => number,
            Err(reason) => {
                return Err(reason);
            },
        };
        let probability_online = probabilities_online[0];
        let online_parts: u64 = probability_online.parts_per_billion();
        let exp_value_inclusion_prob = if online_parts == 0 || online_parts
            == super::probability::PROBABILITY_SCALE {
            probability_online
        } else {
            inclusion_estimate
        };
        proof {
            use_type_invariant(&probability_online);
            use_type_invariant(&inclusion_estimate);
        }
        Ok(
            Config {
                report_type,
                output_file_name: output_file_name.to_owned(),
                output_format,
                epochs,
                total_at_stake_initial,
                final_stake: final_stake * UNITS_PER_STAKE,
                number_of_simulations,
                probability_online,
                probability_honest: Probability::certain(),
                exp_value_inclusion_prob,
            },
        )
    }
}

} // verus!
