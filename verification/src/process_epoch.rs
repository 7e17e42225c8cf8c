//! The processing of one epoch: from the state before it to the state after
//! it, and to the row that reports it.
//!
//! - `apply_deltas`: the effect of rewards and penalties on a balance
//! - `get_attestation_deltas`: the reward calculus of one validator

pub mod apply_deltas;
pub mod get_attestation_deltas;

pub use apply_deltas::apply_deltas;
pub use get_attestation_deltas::get_attestation_deltas;

use crate::types::config::Config;
use crate::types::config::SLOTS_PER_EPOCH;
use crate::types::deltas::lemma_total_deltas_prefix;
use crate::types::deltas::lemma_total_deltas_push;
use crate::types::deltas::total_deltas;
use crate::types::deltas::Component;
use crate::types::deltas::Deltas;
use crate::types::dice::is_proposer_set;
use crate::types::dice::Dice;
use crate::types::error::SimulationError;
use crate::types::output::EpochReportRow;
use crate::types::output::Output;
use crate::types::state::lemma_matching_at_most_active;
use crate::types::state::total;
use crate::types::state::Aggregate;
use crate::types::state::State;
use crate::types::validator::base_reward_of;
use crate::types::validator::effective_balance_after;
use crate::types::validator::Validator;
use apply_deltas::balance_after;
use apply_deltas::checked_apply_deltas;
use get_attestation_deltas::attestation_deltas;
use get_attestation_deltas::compute_attestation_deltas;
use get_attestation_deltas::draw_participation;
use get_attestation_deltas::may_participate;
use integer_sqrt::IntegerSquareRoot;
use std::time::Duration;
use std::time::Instant;
use vstd::prelude::*;

verus! {

/// A point in time of the clock of `std`. Nothing is known of it.
#[verifier::external_type_specification]
#[verifier::external_body]
pub struct ExInstant(Instant);

/// `Instant::now`: the present point in time. Nothing is claimed of it.
pub assume_specification[ Instant::now ]() -> (now: Instant)
;

/// `Instant::elapsed`: the time that has passed since a point in time.
/// Nothing is claimed of it.
pub assume_specification[ Instant::elapsed ](start: &Instant) -> (elapsed: Duration)
;

/// `Duration::as_micros`: a span of time in whole microseconds. Nothing is
/// claimed of the number.
pub assume_specification[ Duration::as_micros ](duration: &Duration) -> (micros: u128)
;

/// `root` is the integer square root of `n`: the greatest number whose square
/// is at most `n`.
pub open spec fn is_integer_sqrt(n: int, root: int) -> bool {
    0 <= root && root * root <= n < (root + 1) * (root + 1)
}

/// The integer square root of `n`.
pub open spec fn integer_sqrt(n: int) -> int {
    choose|root: int| is_integer_sqrt(n, root)
}

/// `IntegerSquareRoot::integer_sqrt` of the crate `integer_sqrt`, on 64 bits:
/// the integer square root of `n`, that is, the greatest number whose square
/// is at most `n`.
#[verifier::external_body]
fn integer_sqrt_of(n: u64) -> (root: u64)
    ensures
        is_integer_sqrt(n as int, root as int),
{
    n.integer_sqrt()
}

/// The base reward of the validator at place `i`, for the total active
/// balance of the state it stands in.
pub open spec fn base_reward_at(validators: Seq<Validator>, i: int) -> int {
    base_reward_of(
        validators[i].effective_balance as int,
        integer_sqrt(total(validators, Aggregate::ActiveBalance) as int),
    )
}

/// The rewards and penalties of the validator at place `i` in the epoch that
/// starts from `validators`, with the given proposers, where `participation`
/// says of each validator whether it was online and honest.
pub open spec fn deltas_at(
    validators: Seq<Validator>,
    config: Config,
    proposers: Seq<usize>,
    participation: Seq<bool>,
    i: int,
) -> Result<Deltas, SimulationError> {
    if base_reward_at(validators, i) > u64::MAX {
        Err(SimulationError::BalanceOverflow)
    } else {
        attestation_deltas(
            validators[i],
            proposers.contains(i as usize),
            participation[i],
            base_reward_at(validators, i) as u64,
            config,
            total(validators, Aggregate::ActiveBalance) as u64,
            total(validators, Aggregate::ActiveValidators) as u64,
            total(validators, Aggregate::MatchingBalance) as u64,
        )
    }
}

/// A validator after an epoch in which it earned and lost `deltas`: the
/// deltas are applied to its balance, and its effective balance follows.
pub open spec fn validator_after(validator: Validator, deltas: Deltas) -> Validator {
    let balance = balance_after(validator.balance as int, deltas);
    Validator {
        balance: balance as u64,
        effective_balance: effective_balance_after(
            balance,
            validator.effective_balance as int,
        ) as u64,
        is_active: validator.is_active,
        is_slashed: validator.is_slashed,
    }
}

/// The validator at place `i` after the epoch; an error where its deltas
/// fail or its new balance exceeds 64 bits.
pub open spec fn validator_at(
    validators: Seq<Validator>,
    config: Config,
    proposers: Seq<usize>,
    participation: Seq<bool>,
    i: int,
) -> Result<Validator, SimulationError> {
    match deltas_at(validators, config, proposers, participation, i) {
        Ok(deltas) => if balance_after(validators[i].balance as int, deltas) > u64::MAX {
            Err(SimulationError::BalanceOverflow)
        } else {
            Ok(validator_after(validators[i], deltas))
        },
        Err(reason) => Err(reason),
    }
}

/// The deltas of all validators in the epoch, in the order of the validators.
pub open spec fn epoch_deltas(
    validators: Seq<Validator>,
    config: Config,
    proposers: Seq<usize>,
    participation: Seq<bool>,
) -> Seq<Deltas> {
    Seq::new(
        validators.len(),
        |i: int| deltas_at(validators, config, proposers, participation, i)->Ok_0,
    )
}

/// The validators after the epoch.
pub open spec fn epoch_validators(
    validators: Seq<Validator>,
    config: Config,
    proposers: Seq<usize>,
    participation: Seq<bool>,
) -> Seq<Validator> {
    Seq::new(
        validators.len(),
        |i: int| validator_at(validators, config, proposers, participation, i)->Ok_0,
    )
}

/// Every amount of the epoch fits 64 bits: the deltas and the new balance of
/// each validator, the sums of the deltas, and the totals of the new balances.
pub open spec fn epoch_fits(
    validators: Seq<Validator>,
    config: Config,
    proposers: Seq<usize>,
    participation: Seq<bool>,
) -> bool {
    let deltas = epoch_deltas(validators, config, proposers, participation);
    let after = epoch_validators(validators, config, proposers, participation);
    &&& forall|i: int|
        0 <= i < validators.len() ==> (#[trigger] validator_at(
            validators,
            config,
            proposers,
            participation,
            i,
        )) is Ok
    &&& total_deltas(deltas, Component::HeadFfgReward) <= u64::MAX
    &&& total_deltas(deltas, Component::HeadFfgPenalty) <= u64::MAX
    &&& total_deltas(deltas, Component::ProposerReward) <= u64::MAX
    &&& total_deltas(deltas, Component::AttesterReward) <= u64::MAX
    &&& total(after, Aggregate::StakedBalance) <= u64::MAX
    &&& total(after, Aggregate::ActiveBalance) <= u64::MAX
}

/// Why the epoch fails, if it does: its total active balance exceeds 64 bits
/// or is zero, or an amount of the epoch exceeds 64 bits.
pub open spec fn epoch_failure(
    validators: Seq<Validator>,
    config: Config,
    proposers: Seq<usize>,
    participation: Seq<bool>,
) -> Option<SimulationError> {
    if total(validators, Aggregate::ActiveBalance) > u64::MAX {
        Some(SimulationError::BalanceOverflow)
    } else if total(validators, Aggregate::ActiveBalance) == 0 {
        Some(SimulationError::DivisionByZero)
    } else if !epoch_fits(validators, config, proposers, participation) {
        Some(SimulationError::BalanceOverflow)
    } else {
        None
    }
}

/// `participation` holds, for each validator, a possible outcome of the coins
/// that decide whether it is online and honest.
pub open spec fn is_participation(
    validators: Seq<Validator>,
    config: Config,
    participation: Seq<bool>,
) -> bool {
    &&& participation.len() == validators.len()
    &&& forall|i: int|
        0 <= i < validators.len() ==> may_participate(
            validators[i],
            config,
            #[trigger] participation[i],
        )
}

/// The epoch `epoch_id` that starts from `validators` ends, for the given
/// proposers and participation, as `outcome` says: with an error, or with
/// the validators of the next state and the row that reports the epoch.
pub open spec fn is_epoch_outcome(
    validators: Seq<Validator>,
    config: Config,
    epoch_id: i32,
    proposers: Seq<usize>,
    participation: Seq<bool>,
    outcome: Result<(Seq<Validator>, EpochReportRow), SimulationError>,
) -> bool {
    match epoch_failure(validators, config, proposers, participation) {
        Some(reason) => outcome == Err::<(Seq<Validator>, EpochReportRow), SimulationError>(reason),
        None => {
            &&& outcome is Ok
            &&& outcome->Ok_0.0 == epoch_validators(validators, config, proposers, participation)
            &&& outcome->Ok_0.1.reports(
                epoch_id,
                epoch_deltas(validators, config, proposers, participation),
                outcome->Ok_0.0,
            )
        },
    }
}

/// The two states have the same validators in the same flags: who is
/// active, and who is slashed, does not change from one to the other.
pub open spec fn same_registry(before: Seq<Validator>, after: Seq<Validator>) -> bool {
    &&& before.len() == after.len()
    &&& forall|i: int|
        0 <= i < before.len() ==> (#[trigger] after[i]).is_active == before[i].is_active
            && after[i].is_slashed == before[i].is_slashed
}

/// Processes one epoch for proposers and participation that are given: the
/// part of `process_epoch` that no chance enters.
///
/// Each validator, in order, gets its base reward and its deltas; the deltas
/// are applied to its balance, its effective balance follows, and the deltas
/// are added to the row of the epoch. The row then takes the totals of the
/// new state. The time that the epoch took is left at zero.
pub fn advance_epoch(
    pre_state: State,
    epoch_id: i32,
    proposer_indices: &Vec<usize>,
    participation: &Vec<bool>,
) -> (result: Result<(State, EpochReportRow), SimulationError>)
    requires
        participation@.len() == pre_state.validators@.len(),
    ensures
        is_epoch_outcome(
            pre_state.validators@,
            pre_state.config,
            epoch_id,
            proposer_indices@,
            participation@,
            match result {
                Ok((post_state, row)) => Ok((post_state.validators@, row)),
                Err(reason) => Err(reason),
            },
        ),
        result is Ok ==> result->Ok_0.0.config == pre_state.config,
        result is Ok ==> result->Ok_0.1.time_elapsed == 0,
        result is Ok ==> same_registry(pre_state.validators@, result->Ok_0.0.validators@),
        result is Ok && pre_state.wf() ==> result->Ok_0.0.wf(),
{
    let ghost before = pre_state.validators@;
    let ghost config = pre_state.config;
    let ghost proposers = proposer_indices@;
    let ghost outcomes = participation@;
    let count: usize = pre_state.validators.len();

    // the values that stay the same throughout the epoch
    let total_active_balance: u64 = match pre_state.checked_total(Aggregate::ActiveBalance) {
        Some(sum) => sum,
        None => {
            return Err(SimulationError::BalanceOverflow);
        },
    };
    if total_active_balance == 0 {
        return Err(SimulationError::DivisionByZero);
    }
    let sqrt_total_active_balance: u64 = integer_sqrt_of(total_active_balance);
    proof {
        lemma_integer_sqrt(total_active_balance as int, sqrt_total_active_balance as int);
        lemma_matching_at_most_active(before);
    }
    let total_active_validators: u64 = pre_state.get_total_active_validators();
    let matching_balance: u64 = pre_state.get_matching_balance();

    let mut epoch_report_row: EpochReportRow = EpochReportRow::new();
    epoch_report_row.epoch_id = epoch_id;
    let mut post_state_validators: Vec<Validator> = Vec::new();
    let ghost mut all_deltas: Seq<Deltas> = Seq::empty();
    let mut validator_index: usize = 0;
    while validator_index < count
        invariant
            before == pre_state.validators@,
            config == pre_state.config,
            proposers == proposer_indices@,
            outcomes == participation@,
            outcomes.len() == before.len(),
            count == before.len(),
            validator_index <= count,
            total_active_balance == total(before, Aggregate::ActiveBalance),
            total_active_balance > 0,
            sqrt_total_active_balance == integer_sqrt(total_active_balance as int),
            sqrt_total_active_balance > 0,
            total_active_validators == total(before, Aggregate::ActiveValidators),
            matching_balance == total(before, Aggregate::MatchingBalance),
            post_state_validators@.len() == validator_index,
            all_deltas.len() == validator_index,
            forall|j: int|
                0 <= j < validator_index ==> #[trigger] deltas_at(
                    before,
                    config,
                    proposers,
                    outcomes,
                    j,
                ) == Ok::<Deltas, SimulationError>(all_deltas[j]),
            forall|j: int|
                0 <= j < validator_index ==> #[trigger] validator_at(
                    before,
                    config,
                    proposers,
                    outcomes,
                    j,
                ) == Ok::<Validator, SimulationError>(post_state_validators@[j]),
            forall|j: int|
                0 <= j < validator_index ==> (#[trigger] post_state_validators@[j]).is_active
                    == before[j].is_active && post_state_validators@[j].is_slashed
                    == before[j].is_slashed,
            forall|j: int|
                0 <= j < validator_index && before[j].wf() ==> (
                #[trigger] post_state_validators@[j]).wf(),
            epoch_report_row.sums_up(all_deltas),
            epoch_report_row == (EpochReportRow {
                epoch_id,
                deltas_head_ffg_rewards: epoch_report_row.deltas_head_ffg_rewards,
                deltas_head_ffg_penalties: epoch_report_row.deltas_head_ffg_penalties,
                deltas_proposer_rewards: epoch_report_row.deltas_proposer_rewards,
                deltas_attester_rewards: epoch_report_row.deltas_attester_rewards,
                ..EpochReportRow::zero()
            }),
        decreases count - validator_index,
    {
        let validator: &Validator = &pre_state.validators[validator_index];
        let ghost place = validator_index as int;
        let base_reward: u64 = match validator.checked_base_reward(sqrt_total_active_balance) {
            Some(reward) => reward,
            None => {
                proof {
                    assert(!(validator_at(before, config, proposers, outcomes, place) is Ok));
                }
                return Err(SimulationError::BalanceOverflow);
            },
        };
        let deltas: Deltas = match compute_attestation_deltas(
            validator,
            &validator_index,
            base_reward,
            &pre_state.config,
            total_active_balance,
            total_active_validators,
            matching_balance,
            proposer_indices,
            participation[validator_index],
        ) {
            Ok(deltas) => deltas,
            Err(reason) => {
                proof {
                    assert(!(validator_at(before, config, proposers, outcomes, place) is Ok));
                }
                return Err(reason);
            },
        };
        let mut new_validator: Validator = match checked_apply_deltas(validator, &deltas) {
            Some(new_validator) => new_validator,
            None => {
                proof {
                    assert(!(validator_at(before, config, proposers, outcomes, place) is Ok));
                }
                return Err(SimulationError::BalanceOverflow);
            },
        };
        new_validator.update_effective_balance();
        if !epoch_report_row.can_aggregate(&deltas) {
            proof {
                assert(all_deltas.push(deltas).drop_last() =~= all_deltas);
                lemma_sums_exceed(
                    before,
                    config,
                    proposers,
                    outcomes,
                    all_deltas.push(deltas),
                    epoch_report_row,
                    deltas,
                );
            }
            return Err(SimulationError::BalanceOverflow);
        }
        epoch_report_row.aggregate(&deltas);
        post_state_validators.push(new_validator);
        proof {
            lemma_total_deltas_push(all_deltas, Component::HeadFfgReward, deltas);
            lemma_total_deltas_push(all_deltas, Component::HeadFfgPenalty, deltas);
            lemma_total_deltas_push(all_deltas, Component::ProposerReward, deltas);
            lemma_total_deltas_push(all_deltas, Component::AttesterReward, deltas);
            all_deltas = all_deltas.push(deltas);
        }
        validator_index = validator_index + 1;
    }

    // the new state and its totals
    let post_state = State { config: pre_state.config, validators: post_state_validators };
    proof {
        assert(all_deltas =~= epoch_deltas(before, config, proposers, outcomes));
        assert(post_state.validators@ =~= epoch_validators(before, config, proposers, outcomes));
    }
    let total_staked_balance: u64 = match post_state.checked_total(Aggregate::StakedBalance) {
        Some(sum) => sum,
        None => {
            return Err(SimulationError::BalanceOverflow);
        },
    };
    let total_effective_balance: u64 = match post_state.checked_total(Aggregate::ActiveBalance) {
        Some(sum) => sum,
        None => {
            return Err(SimulationError::BalanceOverflow);
        },
    };
    epoch_report_row.total_staked_balance = total_staked_balance;
    epoch_report_row.total_effective_balance = total_effective_balance;
    epoch_report_row.max_balance = post_state.get_max_balance();
    epoch_report_row.min_balance = post_state.get_min_balance();
    epoch_report_row.total_validators = count as u64;
    epoch_report_row.total_active_validators = post_state.get_total_active_validators();
    Ok((post_state, epoch_report_row))
}

/// Throws, for each validator in order, the coins that decide whether it is
/// online and honest in the epoch.
pub fn draw_participations(state: &State, dice: &mut Dice) -> (participation: Vec<bool>)
    ensures
        is_participation(state.validators@, state.config, participation@),
{
    let count: usize = state.validators.len();
    let mut participation: Vec<bool> = Vec::new();
    let mut i: usize = 0;
    while i < count
        invariant
            count == state.validators@.len(),
            i <= count,
            participation@.len() == i,
            forall|j: int|
                0 <= j < i ==> may_participate(
                    state.validators@[j],
                    state.config,
                    #[trigger] participation@[j],
                ),
        decreases count - i,
    {
        let participates: bool = draw_participation(&state.validators[i], &state.config, dice);
        participation.push(participates);
        i = i + 1;
    }
    participation
}

/// Processes one epoch: elects the proposers, decides for each validator
/// whether it is online and honest, computes and applies the deltas of each
/// validator, and appends the row that reports the epoch to `output`.
///
/// The epoch fails if fewer validators are active and unslashed than an epoch
/// has proposers; what else can fail is stated by `epoch_failure`. An epoch
/// that fails leaves `output` as it was.
pub fn process_epoch(pre_state: State, epoch_id: i32, output: &mut Output, dice: &mut Dice) -> (result:
    Result<State, SimulationError>)
    ensures
        pre_state.eligible_validators() < SLOTS_PER_EPOCH ==> result is Err && result->Err_0
            == SimulationError::InsufficientEligibleValidators,
        pre_state.eligible_validators() >= SLOTS_PER_EPOCH ==> exists|
            proposers: Seq<usize>,
            participation: Seq<bool>,
        |
            #![trigger
                is_proposer_set(pre_state.validators@, proposers),
                is_participation(pre_state.validators@, pre_state.config, participation),
            ]
            {
                &&& is_proposer_set(pre_state.validators@, proposers)
                &&& is_participation(pre_state.validators@, pre_state.config, participation)
                &&& is_epoch_outcome(
                    pre_state.validators@,
                    pre_state.config,
                    epoch_id,
                    proposers,
                    participation,
                    match result {
                        Ok(post_state) => Ok(
                            (
                                post_state.validators@,
                                (EpochReportRow {
                                    time_elapsed: 0,
                                    ..final(output).rows@.last()
                                }),
                            ),
                        ),
                        Err(reason) => Err(reason),
                    },
                )
            },
        match result {
            Ok(post_state) => {
                &&& final(output).rows@.len() == old(output).rows@.len() + 1
                &&& final(output).rows@.drop_last() == old(output).rows@
                &&& final(output).rows@.last().epoch_id == epoch_id
                &&& final(output).rows@.last().total_validators == pre_state.validators@.len()
                &&& post_state.config == pre_state.config
                &&& same_registry(pre_state.validators@, post_state.validators@)
                &&& pre_state.wf() ==> post_state.wf()
            },
            Err(_) => final(output).rows@ == old(output).rows@,
        },
{
    let epoch_processing_start: Instant = Instant::now();

    // pick the block proposers
    let proposer_indices: Vec<usize> = match dice.pick_epoch_proposers(&pre_state) {
        Ok(proposer_indices) => proposer_indices,
        Err(reason) => {
            return Err(reason);
        },
    };
    let participation: Vec<bool> = draw_participations(&pre_state, dice);
    let ghost before = pre_state.validators@;
    let ghost config = pre_state.config;
    match advance_epoch(pre_state, epoch_id, &proposer_indices, &participation) {
        Ok((post_state, row)) => {
            let mut epoch_report_row: EpochReportRow = row;
            epoch_report_row.time_elapsed = epoch_processing_start.elapsed().as_micros();
            output.push(epoch_report_row);
            proof {
                assert(output.rows@.last() == epoch_report_row);
                assert(output.rows@.drop_last() =~= old(output).rows@);
                assert((EpochReportRow { time_elapsed: 0, ..output.rows@.last() }) == row);
                assert(is_epoch_outcome(
                    before,
                    config,
                    epoch_id,
                    proposer_indices@,
                    participation@,
                    Ok((post_state.validators@, row)),
                ));
            }
            Ok(post_state)
        },
        Err(reason) => {
            proof {
                assert(is_epoch_outcome(
                    before,
                    config,
                    epoch_id,
                    proposer_indices@,
                    participation@,
                    Err(reason),
                ));
            }
            Err(reason)
        },
    }
}

/// States with the same validators in the same flags have as many active
/// validators, and as many eligible ones.
pub proof fn lemma_same_registry(before: Seq<Validator>, after: Seq<Validator>)
    requires
        same_registry(before, after),
    ensures
        total(after, Aggregate::ActiveValidators) == total(before, Aggregate::ActiveValidators),
        total(after, Aggregate::EligibleValidators) == total(
            before,
            Aggregate::EligibleValidators,
        ),
    decreases before.len(),
{
    if before.len() > 0 {
        assert(after.last().is_active == before.last().is_active);
        assert forall|i: int| 0 <= i < before.drop_last().len() implies (#[trigger] after.drop_last()[i]).is_active
            == before.drop_last()[i].is_active && after.drop_last()[i].is_slashed
            == before.drop_last()[i].is_slashed by {
            assert(after[i].is_active == before[i].is_active);
        }
        lemma_same_registry(before.drop_last(), after.drop_last());
    }
}

/// A number has one integer square root only.
pub proof fn lemma_integer_sqrt(n: int, root: int)
    requires
        is_integer_sqrt(n, root),
    ensures
        integer_sqrt(n) == root,
        n > 0 ==> root > 0,
{
    let other = integer_sqrt(n);
    assert(is_integer_sqrt(n, other));
    if other < root {
        assert((other + 1) * (other + 1) <= root * root) by (nonlinear_arith)
            requires
                0 <= other,
                other + 1 <= root,
        ;
    }
    if root < other {
        assert((root + 1) * (root + 1) <= other * other) by (nonlinear_arith)
            requires
                0 <= root,
                root + 1 <= other,
        ;
    }
}

/// Where the deltas of the first validators add up to more than a row can
/// hold, the epoch does not fit.
pub proof fn lemma_sums_exceed(
    validators: Seq<Validator>,
    config: Config,
    proposers: Seq<usize>,
    participation: Seq<bool>,
    first_deltas: Seq<Deltas>,
    row: EpochReportRow,
    last: Deltas,
)
    requires
        0 < first_deltas.len() <= validators.len(),
        forall|j: int|
            0 <= j < first_deltas.len() ==> #[trigger] deltas_at(
                validators,
                config,
                proposers,
                participation,
                j,
            ) == Ok::<Deltas, SimulationError>(first_deltas[j]),
        row.sums_up(first_deltas.drop_last()),
        last == first_deltas.last(),
        !row.has_room_for(last),
    ensures
        !epoch_fits(validators, config, proposers, participation),
{
    let all = epoch_deltas(validators, config, proposers, participation);
    let length = first_deltas.len() as int;
    assert(all.take(length) =~= first_deltas);
    lemma_total_deltas_prefix(all, Component::HeadFfgReward, length);
    lemma_total_deltas_prefix(all, Component::HeadFfgPenalty, length);
    lemma_total_deltas_prefix(all, Component::ProposerReward, length);
    lemma_total_deltas_prefix(all, Component::AttesterReward, length);
}

} // verus!
