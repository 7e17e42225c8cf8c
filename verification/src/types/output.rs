//! What a simulation reports: one row for each epoch, and the monthly rollup
//! of those rows.

use super::config::Config;
use super::deltas::total_deltas;
use super::deltas::Component;
use super::deltas::Deltas;
use super::error::SimulationError;
use super::state::is_max_balance;
use super::state::is_min_balance;
use super::state::total;
use super::state::Aggregate;
use super::validator::Validator;
use vstd::prelude::*;

verus! {

/// The number of months in the year that a monthly report covers.
pub const MONTHS_PER_YEAR: i32 = 12;

/// The outcome of one epoch, summed over all validators.
#[derive(Clone, Copy, Debug, PartialEq, Eq)]
pub struct EpochReportRow {
    /// The number of the epoch; the first epoch is epoch 0.
    pub epoch_id: i32,
    /// The rewards for correct votes that were awarded in the epoch.
    pub deltas_head_ffg_rewards: u64,
    /// The penalties for missing or wrong votes that were charged in the epoch.
    pub deltas_head_ffg_penalties: u64,
    /// The proposers' rewards that were awarded in the epoch.
    pub deltas_proposer_rewards: u64,
    /// The attesters' rewards that were awarded in the epoch.
    pub deltas_attester_rewards: u64,
    /// The sum of all balances after the epoch.
    pub total_staked_balance: u64,
    /// The sum of the effective balances of the active validators after the epoch.
    pub total_effective_balance: u64,
    /// The greatest balance after the epoch.
    pub max_balance: u64,
    /// The least balance after the epoch.
    pub min_balance: u64,
    /// The number of validators.
    pub total_validators: u64,
    /// The number of active validators.
    pub total_active_validators: u64,
    /// The time that processing the epoch took, in microseconds.
    pub time_elapsed: u128,
}

impl EpochReportRow {
    /// The row of epoch 0 in which nothing is counted yet.
    pub open spec fn zero() -> EpochReportRow {
        EpochReportRow {
            epoch_id: 0,
            deltas_head_ffg_rewards: 0,
            deltas_head_ffg_penalties: 0,
            deltas_proposer_rewards: 0,
            deltas_attester_rewards: 0,
            total_staked_balance: 0,
            total_effective_balance: 0,
            max_balance: 0,
            min_balance: 0,
            total_validators: 0,
            total_active_validators: 0,
            time_elapsed: 0,
        }
    }

    /// The row with the given deltas added to its four sums of deltas.
    pub open spec fn with(self, deltas: Deltas) -> EpochReportRow {
        EpochReportRow {
            deltas_head_ffg_rewards: (self.deltas_head_ffg_rewards
                + deltas.head_ffg_reward) as u64,
            deltas_head_ffg_penalties: (self.deltas_head_ffg_penalties
                + deltas.head_ffg_penalty) as u64,
            deltas_proposer_rewards: (self.deltas_proposer_rewards + deltas.proposer_reward) as u64,
            deltas_attester_rewards: (self.deltas_attester_rewards + deltas.attester_reward) as u64,
            ..self
        }
    }

    /// Each of the four sums of deltas, with the given deltas added, still
    /// fits 64 bits.
    pub open spec fn has_room_for(self, deltas: Deltas) -> bool {
        &&& self.deltas_head_ffg_rewards + deltas.head_ffg_reward <= u64::MAX
        &&& self.deltas_head_ffg_penalties + deltas.head_ffg_penalty <= u64::MAX
        &&& self.deltas_proposer_rewards + deltas.proposer_reward <= u64::MAX
        &&& self.deltas_attester_rewards + deltas.attester_reward <= u64::MAX
    }

    /// The four sums of the row are the sums of the given deltas.
    pub open spec fn sums_up(self, deltas: Seq<Deltas>) -> bool {
        &&& self.deltas_head_ffg_rewards == total_deltas(deltas, Component::HeadFfgReward)
        &&& self.deltas_head_ffg_penalties == total_deltas(deltas, Component::HeadFfgPenalty)
        &&& self.deltas_proposer_rewards == total_deltas(deltas, Component::ProposerReward)
        &&& self.deltas_attester_rewards == total_deltas(deltas, Component::AttesterReward)
    }

    /// The row reports the epoch `epoch_id` in which the validators earned and
    /// lost `deltas` and after which they stand as `validators`. The time that
    /// the epoch took is not part of this.
    pub open spec fn reports(self, epoch_id: i32, deltas: Seq<Deltas>, validators: Seq<Validator>) -> bool {
        &&& self.epoch_id == epoch_id
        &&& self.sums_up(deltas)
        &&& self.total_staked_balance == total(validators, Aggregate::StakedBalance)
        &&& self.total_effective_balance == total(validators, Aggregate::ActiveBalance)
        &&& is_max_balance(validators, self.max_balance)
        &&& is_min_balance(validators, self.min_balance)
        &&& self.total_validators == validators.len()
        &&& self.total_active_validators == total(validators, Aggregate::ActiveValidators)
    }

    /// The row of epoch 0 in which nothing is counted yet.
    pub fn new() -> (row: EpochReportRow)
        ensures
            row == EpochReportRow::zero(),
    {
        EpochReportRow {
            epoch_id: 0,
            deltas_head_ffg_rewards: 0,
            deltas_head_ffg_penalties: 0,
            deltas_proposer_rewards: 0,
            deltas_attester_rewards: 0,
            total_staked_balance: 0,
            total_effective_balance: 0,
            max_balance: 0,
            min_balance: 0,
            total_validators: 0,
            total_active_validators: 0,
            time_elapsed: 0,
        }
    }

    /// Whether the deltas can be added to the four sums of the row.
    pub fn can_aggregate(&self, deltas: &Deltas) -> (room: bool)
        ensures
            room == self.has_room_for(*deltas),
    {
        deltas.head_ffg_reward <= u64::MAX - self.deltas_head_ffg_rewards
            && deltas.head_ffg_penalty <= u64::MAX - self.deltas_head_ffg_penalties
            && deltas.proposer_reward <= u64::MAX - self.deltas_proposer_rewards
            && deltas.attester_reward <= u64::MAX - self.deltas_attester_rewards
    }

    /// Adds the deltas of one validator to the four sums of the row.
    pub fn aggregate(&mut self, deltas: &Deltas)
        requires
            old(self).has_room_for(*deltas),
        ensures
            *final(self) == old(self).with(*deltas),
    {
        self.deltas_head_ffg_rewards = self.deltas_head_ffg_rewards + deltas.head_ffg_reward;
        self.deltas_head_ffg_penalties = self.deltas_head_ffg_penalties + deltas.head_ffg_penalty;
        self.deltas_proposer_rewards = self.deltas_proposer_rewards + deltas.proposer_reward;
        self.deltas_attester_rewards = self.deltas_attester_rewards + deltas.attester_reward;
    }
}

/// A share of a whole, in percent: `100 × numerator / denominator`. The
/// share may be negative, and may exceed the whole.
#[derive(Clone, Copy, Debug, PartialEq, Eq)]
pub struct Percentage {
    /// The share.
    pub numerator: i128,
    /// The whole.
    pub denominator: u64,
}

/// What the network gained and lost up to the end of one month, as shares of
/// the stake that the simulation started with.
#[derive(Clone, Copy, Debug, PartialEq, Eq)]
pub struct MonthlyReportRow {
    /// The number of the month; the first month is month 1.
    pub month_number: u32,
    /// The change of the total staked balance since the start.
    pub network_percentage_rewards: Percentage,
    /// The penalties charged in the epoch that ends the month.
    pub network_percentage_penalties: Percentage,
    /// The rewards less the penalties.
    pub network_percentage_net_rewards: Percentage,
}

/// The number of epochs in a month of a year of `epochs` epochs.
pub open spec fn epochs_per_month(epochs: int) -> int {
    epochs / (MONTHS_PER_YEAR as int)
}

/// The epoch with which the month `month` ends, in months of `per_month`
/// epochs.
pub open spec fn month_end(month: int, per_month: int) -> int {
    month * per_month
}

/// The number of rows of the monthly report of a year of `epochs` epochs: one
/// for each end of a month that lies before the last epoch.
pub open spec fn months_reported(epochs: int) -> int {
    (epochs - 1) / epochs_per_month(epochs)
}

/// The row of the monthly report for the month `month_number`, which ends
/// with the epoch that `row` reports.
pub open spec fn monthly_row(row: EpochReportRow, month_number: int, initial_stake: u64) -> MonthlyReportRow {
    MonthlyReportRow {
        month_number: month_number as u32,
        network_percentage_rewards: Percentage {
            numerator: (row.total_staked_balance - initial_stake) as i128,
            denominator: initial_stake,
        },
        network_percentage_penalties: Percentage {
            numerator: row.deltas_head_ffg_penalties as i128,
            denominator: initial_stake,
        },
        network_percentage_net_rewards: Percentage {
            numerator: (row.total_staked_balance - initial_stake
                - row.deltas_head_ffg_penalties) as i128,
            denominator: initial_stake,
        },
    }
}

/// `month` is the row of the month `month_number` in the rollup of `rows`, in
/// months of `per_month` epochs.
pub open spec fn is_row_of_month(
    month: MonthlyReportRow,
    rows: Seq<EpochReportRow>,
    month_number: int,
    per_month: int,
    initial_stake: u64,
) -> bool {
    month == monthly_row(rows[month_end(month_number, per_month)], month_number, initial_stake)
}

/// `report` is the monthly rollup of `rows`, as far as it goes: its row at
/// place `m` is that of month `m + 1`.
pub open spec fn is_monthly_report(
    report: Seq<MonthlyReportRow>,
    rows: Seq<EpochReportRow>,
    per_month: int,
    initial_stake: u64,
) -> bool {
    forall|m: int|
        0 <= m < report.len() ==> is_row_of_month(
            #[trigger] report[m],
            rows,
            m + 1,
            per_month,
            initial_stake,
        )
}

/// The rows that a simulation has reported, one for each epoch, in order.
pub struct Output {
    /// The rows; the row of epoch `i` stands at place `i`.
    pub rows: Vec<EpochReportRow>,
}

impl Output {
    /// An output without rows.
    pub fn new() -> (output: Output)
        ensures
            output.rows@.len() == 0,
    {
        Output { rows: Vec::new() }
    }

    /// Appends the row of the next epoch.
    pub fn push(&mut self, row: EpochReportRow)
        ensures
            final(self).rows@ == old(self).rows@.push(row),
    {
        self.rows.push(row);
    }

    /// A copy of the rows.
    pub fn get_rows(&self) -> (rows: Vec<EpochReportRow>)
        ensures
            rows@ == self.rows@,
    {
        let count: usize = self.rows.len();
        let mut rows: Vec<EpochReportRow> = Vec::new();
        let mut i: usize = 0;
        while i < count
            invariant
                count == self.rows@.len(),
                i <= count,
                rows@ == self.rows@.take(i as int),
            decreases count - i,
        {
            rows.push(self.rows[i]);
            proof {
                assert(self.rows@.take(i as int).push(self.rows@[i as int]) =~= self.rows@.take(
                    i + 1,
                ));
            }
            i = i + 1;
        }
        proof {
            assert(self.rows@.take(count as int) =~= self.rows@);
        }
        rows
    }

    /// The monthly rollup of the epochs of one year, the year being as long as
    /// the run that the configuration describes.
    ///
    /// A month has a twelfth of the epochs of the year, rounded down. The
    /// report has one row for each month that ends before the last epoch: month
    /// `m` is taken from the row of epoch `m × epochs per month`. A year of less
    /// than twelve epochs has months of no epoch, and the rollup fails.
    pub fn get_monthly_report(&self, config: &Config) -> (result: Result<
        Vec<MonthlyReportRow>,
        SimulationError,
    >)
        requires
            config.epochs >= MONTHS_PER_YEAR ==> self.rows@.len() >= config.epochs,
        ensures
            config.epochs < MONTHS_PER_YEAR ==> result == Err::<
                Vec<MonthlyReportRow>,
                SimulationError,
            >(SimulationError::DivisionByZero),
            config.epochs >= MONTHS_PER_YEAR ==> {
                &&& result is Ok
                &&& result->Ok_0@.len() == months_reported(config.epochs as int)
                &&& is_monthly_report(
                    result->Ok_0@,
                    self.rows@,
                    epochs_per_month(config.epochs as int),
                    config.total_at_stake_initial,
                )
            },
    {
        if config.epochs < MONTHS_PER_YEAR {
            return Err(SimulationError::DivisionByZero);
        }
        let epochs_per_year: i64 = config.epochs as i64;
        let month_length: i64 = epochs_per_year / (MONTHS_PER_YEAR as i64);
        let months: i64 = (epochs_per_year - 1) / month_length;
        let initial_stake: u64 = config.total_at_stake_initial;
        let mut monthly_report: Vec<MonthlyReportRow> = Vec::new();
        let mut month: i64 = 1;
        while month <= months
            invariant
                12 <= epochs_per_year <= i32::MAX,
                epochs_per_year == config.epochs,
                month_length == epochs_per_month(epochs_per_year as int),
                months == months_reported(epochs_per_year as int),
                initial_stake == config.total_at_stake_initial,
                self.rows@.len() >= epochs_per_year,
                1 <= month <= months + 1,
                monthly_report@.len() == month - 1,
                is_monthly_report(monthly_report@, self.rows@, month_length as int, initial_stake),
            decreases months + 1 - month,
        {
            proof {
                lemma_month_ends_in_year(epochs_per_year as int, month_length as int, month as int);
            }
            let epoch: i64 = month * month_length;
            let current_item: &EpochReportRow = &self.rows[epoch as usize];
            let ghost before = monthly_report@;
            let rewards: i128 = current_item.total_staked_balance as i128 - initial_stake as i128;
            let penalties: i128 = current_item.deltas_head_ffg_penalties as i128;
            monthly_report.push(
                MonthlyReportRow {
                    month_number: month as u32,
                    network_percentage_rewards: Percentage {
                        numerator: rewards,
                        denominator: initial_stake,
                    },
                    network_percentage_penalties: Percentage {
                        numerator: penalties,
                        denominator: initial_stake,
                    },
                    network_percentage_net_rewards: Percentage {
                        numerator: rewards - penalties,
                        denominator: initial_stake,
                    },
                },
            );
            proof {
                assert forall|m: int| 0 <= m < monthly_report@.len() implies is_row_of_month(
                    #[trigger] monthly_report@[m],
                    self.rows@,
                    m + 1,
                    month_length as int,
                    initial_stake,
                ) by {
                    if m < before.len() {
                        assert(monthly_report@[m] == before[m]);
                    }
                }
            }
            month = month + 1;
        }
        Ok(monthly_report)
    }
}

/// Where the months divide the year evenly, the monthly report of a year of
/// at least twelve epochs has one row less than the year has months of
/// epochs: `epochs / epochs per month − 1`.
pub proof fn law_monthly_report_length(epochs: int)
    requires
        epochs >= MONTHS_PER_YEAR,
        epochs % epochs_per_month(epochs) == 0,
    ensures
        months_reported(epochs) == epochs / epochs_per_month(epochs) - 1,
{
    let per_month = epochs_per_month(epochs);
    let months = epochs / per_month;
    assert(per_month >= 1);
    vstd::arithmetic::div_mod::lemma_fundamental_div_mod(epochs, per_month);
    assert(epochs == per_month * months);
    assert(months >= 1) by (nonlinear_arith)
        requires
            epochs == per_month * months,
            epochs >= 12,
            per_month >= 1,
    ;
    assert(epochs - 1 == per_month * (months - 1) + (per_month - 1)) by (nonlinear_arith)
        requires
            epochs == per_month * months,
    ;
    vstd::arithmetic::div_mod::lemma_fundamental_div_mod_converse(
        epochs - 1,
        per_month,
        months - 1,
        per_month - 1,
    );
}

/// Each month of the report ends with an epoch of the year, and no month has
/// a number beyond that of its last epoch.
pub proof fn lemma_month_ends_in_year(epochs: int, per_month: int, month: int)
    requires
        1 <= per_month,
        1 <= month <= (epochs - 1) / per_month,
    ensures
        month <= month_end(month, per_month) < epochs,
{
    let months = (epochs - 1) / per_month;
    vstd::arithmetic::div_mod::lemma_fundamental_div_mod(epochs - 1, per_month);
    vstd::arithmetic::div_mod::lemma_mod_bound(epochs - 1, per_month);
    assert(month * per_month <= per_month * months) by (nonlinear_arith)
        requires
            1 <= month <= months,
            1 <= per_month,
    ;
    assert(month <= month * per_month) by (nonlinear_arith)
        requires
            1 <= month,
            1 <= per_month,
    ;
}

} // verus!
