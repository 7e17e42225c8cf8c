//! A run of the simulation: one epoch after the other, each from the state
//! that the one before has left.

use crate::process_epoch::is_epoch_outcome;
use crate::process_epoch::is_participation;
use crate::process_epoch::lemma_same_registry;
use crate::process_epoch::process_epoch;
use crate::types::config::Config;
use crate::types::config::MAX_EFFECTIVE_BALANCE;
use crate::types::config::SLOTS_PER_EPOCH;
use crate::types::dice::is_proposer_set;
use crate::types::dice::Dice;
use crate::types::error::SimulationError;
use crate::types::output::EpochReportRow;
use crate::types::output::Output;
use crate::types::state::genesis_validator;
use crate::types::state::lemma_genesis_is_eligible;
use crate::types::state::total;
use crate::types::state::Aggregate;
use crate::types::state::State;
use crate::types::validator::Validator;
use vstd::prelude::*;

verus! {

/// The number of validators that a run with the given configuration has.
pub open spec fn validators_of(config: Config) -> int {
    config.total_at_stake_initial as int / MAX_EFFECTIVE_BALANCE as int
}

/// The validators that a run with the given configuration starts with.
pub open spec fn genesis_validators(config: Config) -> Seq<Validator> {
    Seq::new(validators_of(config) as nat, |i: int| genesis_validator())
}

/// The epoch `epoch_id` leads from the validators `before` to the validators
/// `after` and is reported by `row`, for some proposers that were elected
/// among `before` and some way in which the coins of the validators fell.
/// The time that the row reports for the epoch is free.
pub open spec fn is_epoch_step(
    before: Seq<Validator>,
    config: Config,
    epoch_id: i32,
    after: Seq<Validator>,
    row: EpochReportRow,
) -> bool {
    exists|proposers: Seq<usize>, participation: Seq<bool>|
        #![trigger
            is_proposer_set(before, proposers),
            is_participation(before, config, participation),
        ]
        {
            &&& is_proposer_set(before, proposers)
            &&& is_participation(before, config, participation)
            &&& is_epoch_outcome(
                before,
                config,
                epoch_id,
                proposers,
                participation,
                Ok((after, (EpochReportRow { time_elapsed: 0, ..row }))),
            )
        }
}

/// The epoch `epoch_id` that starts from the validators `before` fails for
/// `reason`: for want of eligible validators, or, for some proposers and
/// some way in which the coins fell, as `epoch_failure` says.
pub open spec fn is_failed_step(
    before: Seq<Validator>,
    config: Config,
    epoch_id: i32,
    reason: SimulationError,
) -> bool {
    if total(before, Aggregate::EligibleValidators) < SLOTS_PER_EPOCH {
        reason == SimulationError::InsufficientEligibleValidators
    } else {
        exists|proposers: Seq<usize>, participation: Seq<bool>|
            #![trigger
                is_proposer_set(before, proposers),
                is_participation(before, config, participation),
            ]
            {
                &&& is_proposer_set(before, proposers)
                &&& is_participation(before, config, participation)
                &&& is_epoch_outcome(
                    before,
                    config,
                    epoch_id,
                    proposers,
                    participation,
                    Err(reason),
                )
            }
    }
}

/// The rows report a run of as many epochs as they are, numbered from 0, of
/// which `states` holds the validators before the first epoch and after each
/// epoch: each epoch starts from the validators that the epoch before it has
/// left.
pub open spec fn is_run(
    states: Seq<Seq<Validator>>,
    config: Config,
    rows: Seq<EpochReportRow>,
) -> bool {
    &&& states.len() == rows.len() + 1
    &&& forall|i: int|
        0 <= i < rows.len() ==> is_epoch_step(
            states[i],
            config,
            i as i32,
            states[i + 1],
            #[trigger] rows[i],
        )
}

/// The rows report a run that starts as the configuration says: with the
/// validators of `State::new`.
pub open spec fn is_run_of(
    config: Config,
    states: Seq<Seq<Validator>>,
    rows: Seq<EpochReportRow>,
) -> bool {
    is_run(states, config, rows) && states[0] == genesis_validators(config)
}

/// Runs the simulation that the configuration describes, and returns the
/// rows that report its epochs.
///
/// The run starts from the state of `State::new` and processes `epochs`
/// epochs in order; an epoch that fails ends the run with its error. A run
/// fails for want of eligible validators if and only if it has an epoch to
/// process and fewer validators than an epoch has proposers.
pub fn start_simulation(config: Config, dice: &mut Dice) -> (result: Result<Output, SimulationError>)
    ensures
        result is Ok ==> result->Ok_0.rows@.len() == if config.epochs > 0 {
            config.epochs as int
        } else {
            0
        },
        result is Ok ==> forall|i: int|
            0 <= i < result->Ok_0.rows@.len() ==> (#[trigger] result->Ok_0.rows@[i]).epoch_id == i
                && result->Ok_0.rows@[i].total_validators == validators_of(config),
        result is Ok ==> exists|states: Seq<Seq<Validator>>| #[trigger]
            is_run_of(config, states, result->Ok_0.rows@),
        result is Err ==> exists|states: Seq<Seq<Validator>>, rows: Seq<EpochReportRow>|
            {
                &&& #[trigger] is_run_of(config, states, rows)
                &&& rows.len() < config.epochs
                &&& is_failed_step(states.last(), config, rows.len() as i32, result->Err_0)
            },
        (result is Err && result->Err_0 == SimulationError::InsufficientEligibleValidators)
            <==> (config.epochs > 0 && validators_of(config) < SLOTS_PER_EPOCH),
{
    let epochs: i32 = config.epochs;
    let ghost count = validators_of(config);
    let ghost start = genesis_validators(config);
    let mut state: State = State::new(config);
    let mut output: Output = Output::new();
    proof {
        lemma_genesis_is_eligible(state.validators@);
        assert(state.validators@ =~= start);
    }
    let ghost mut states: Seq<Seq<Validator>> = seq![start];
    let mut i: i32 = 0;
    while i < epochs
        invariant
            epochs == config.epochs,
            count == validators_of(config),
            start == genesis_validators(config),
            state.config == config,
            i == 0 || i <= epochs,
            0 <= i,
            i > 0 ==> count >= SLOTS_PER_EPOCH,
            state.validators@.len() == count,
            state.eligible_validators() == count,
            output.rows@.len() == i,
            forall|j: int|
                0 <= j < output.rows@.len() ==> (#[trigger] output.rows@[j]).epoch_id == j
                    && output.rows@[j].total_validators == count,
            states[0] == start,
            states.last() == state.validators@,
            is_run(states, config, output.rows@),
        decreases epochs - i,
    {
        let ghost rows_before = output.rows@;
        let ghost validators_before = state.validators@;
        match process_epoch(state, i, &mut output, dice) {
            Ok(next_state) => {
                proof {
                    lemma_same_registry(validators_before, next_state.validators@);
                    assert forall|j: int| 0 <= j < output.rows@.len() implies (
                    #[trigger] output.rows@[j]).epoch_id == j && output.rows@[j].total_validators
                        == count by {
                        if j < rows_before.len() {
                            assert(output.rows@[j] == output.rows@.drop_last()[j]);
                        }
                    }
                    let longer = states.push(next_state.validators@);
                    assert forall|j: int| 0 <= j < output.rows@.len() implies is_epoch_step(
                        longer[j],
                        config,
                        j as i32,
                        longer[j + 1],
                        #[trigger] output.rows@[j],
                    ) by {
                        if j < rows_before.len() {
                            assert(output.rows@[j] == output.rows@.drop_last()[j]);
                            assert(is_epoch_step(
                                states[j],
                                config,
                                j as i32,
                                states[j + 1],
                                rows_before[j],
                            ));
                        } else {
                            assert(output.rows@[j] == output.rows@.last());
                            assert(is_epoch_step(
                                validators_before,
                                config,
                                i,
                                next_state.validators@,
                                output.rows@.last(),
                            ));
                        }
                    }
                    states = longer;
                }
                state = next_state;
            },
            Err(reason) => {
                proof {
                    assert(is_failed_step(states.last(), config, rows_before.len() as i32, reason));
                    assert(is_run_of(config, states, rows_before));
                }
                return Err(reason);
            },
        }
        i = i + 1;
    }
    let result: Result<Output, SimulationError> = Ok(output);
    proof {
        assert(is_run_of(config, states, result->Ok_0.rows@));
    }
    result
}

} // verus!
