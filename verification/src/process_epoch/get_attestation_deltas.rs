//! The reward calculus of one validator in one epoch.

use crate::types::config::Config;
use crate::types::config::PROPOSER_REWARD_QUOTIENT;
use crate::types::config::SLOTS_PER_EPOCH;
use crate::types::deltas::Deltas;
use crate::types::dice::is_chosen;
use crate::types::dice::Dice;
use crate::types::error::SimulationError;
use crate::types::probability::Probability;
use crate::types::probability::PROBABILITY_SCALE;
use crate::types::validator::Validator;
use vstd::prelude::*;

verus! {

/// The reward for a correct vote on head and both checkpoints: three base
/// rewards, scaled by the part of the active balance that voted alike.
pub open spec fn head_ffg_reward_of(
    base_reward: int,
    matching_balance: int,
    total_active_balance: int,
) -> int {
    3 * base_reward * matching_balance / total_active_balance
}

/// The penalty for a vote on head and both checkpoints that was missed or
/// wrong: three base rewards.
pub open spec fn head_ffg_penalty_of(base_reward: int) -> int {
    3 * base_reward
}

/// What a proposer earns for each attestation it includes.
pub open spec fn proposer_reward_amount(base_reward: int) -> int {
    base_reward / (PROPOSER_REWARD_QUOTIENT as int)
}

/// The number of attestations that a proposer expects in its block: the
/// active validators of one slot that are online and honest, rounded down.
pub open spec fn expected_attesters(
    total_active_validators: int,
    online: Probability,
    honest: Probability,
) -> int {
    (total_active_validators / (SLOTS_PER_EPOCH as int)) * online.parts() * honest.parts() / (
    PROBABILITY_SCALE * PROBABILITY_SCALE)
}

/// What a proposer earns in one epoch.
pub open spec fn proposer_reward_of(
    base_reward: int,
    total_active_validators: int,
    online: Probability,
    honest: Probability,
) -> int {
    proposer_reward_amount(base_reward) * expected_attesters(
        total_active_validators,
        online,
        honest,
    )
}

/// What an attester earns in one epoch: the base reward less the proposer's
/// part, scaled by the expected value of timely inclusion, rounded down.
pub open spec fn attester_reward_of(base_reward: int, inclusion: Probability) -> int {
    inclusion.share_of(base_reward - proposer_reward_amount(base_reward))
}

/// The rewards and penalties of one validator in one epoch.
///
/// `participates` says whether the validator was online and honest when it
/// had to vote; it counts only for a validator that is active and unslashed.
/// - An inactive validator earns and loses nothing.
/// - An active validator that is slashed or does not participate pays the
///   penalty, and earns nothing.
/// - Any other validator earns the reward for its vote and the attester's
///   reward, and the proposer's reward if it is among the proposers.
///
/// The calculation fails where it would divide by a total active balance of
/// zero, and where an amount that it awards exceeds 64 bits.
pub open spec fn attestation_deltas(
    validator: Validator,
    is_proposer: bool,
    participates: bool,
    base_reward: u64,
    config: Config,
    total_active_balance: u64,
    total_active_validators: u64,
    matching_balance: u64,
) -> Result<Deltas, SimulationError> {
    if !validator.is_active {
        Ok(Deltas::zero())
    } else if validator.is_slashed || !participates {
        let penalty = head_ffg_penalty_of(base_reward as int);
        if penalty > u64::MAX {
            Err(SimulationError::BalanceOverflow)
        } else {
            Ok(
                Deltas {
                    head_ffg_reward: 0,
                    head_ffg_penalty: penalty as u64,
                    proposer_reward: 0,
                    attester_reward: 0,
                },
            )
        }
    } else if total_active_balance == 0 {
        Err(SimulationError::DivisionByZero)
    } else {
        let head = head_ffg_reward_of(
            base_reward as int,
            matching_balance as int,
            total_active_balance as int,
        );
        let proposer = if is_proposer {
            proposer_reward_of(
                base_reward as int,
                total_active_validators as int,
                config.probability_online,
                config.probability_honest,
            )
        } else {
            0
        };
        let attester = attester_reward_of(base_reward as int, config.exp_value_inclusion_prob);
        if head > u64::MAX || proposer > u64::MAX {
            Err(SimulationError::BalanceOverflow)
        } else {
            Ok(
                Deltas {
                    head_ffg_reward: head as u64,
                    head_ffg_penalty: 0,
                    proposer_reward: proposer as u64,
                    attester_reward: attester as u64,
                },
            )
        }
    }
}

/// Whether `participates` is a possible outcome of the two coins, online and
/// honest, that are thrown for a validator. No coin is thrown for a validator
/// that is inactive or slashed, which then does not participate. A coin that
/// is certain always shows heads, one that is impossible never.
pub open spec fn may_participate(validator: Validator, config: Config, participates: bool) -> bool {
    &&& participates ==> validator.is_eligible()
    &&& participates ==> !config.probability_online.is_impossible()
    &&& participates ==> !config.probability_honest.is_impossible()
    &&& validator.is_eligible() && config.probability_online.is_certain()
        && config.probability_honest.is_certain() ==> participates
}

/// No chance enters the rewards of the configuration: each of its two
/// probabilities, of being online and of being honest, is 0 or 1.
pub open spec fn is_decided(config: Config) -> bool {
    &&& config.probability_online.is_certain() || config.probability_online.is_impossible()
    &&& config.probability_honest.is_certain() || config.probability_honest.is_impossible()
}

/// Whether a validator participates under a configuration that no chance
/// enters: it does if it is active and unslashed and both probabilities are 1.
pub open spec fn decided_participation(validator: Validator, config: Config) -> bool {
    validator.is_eligible() && config.probability_online.is_certain()
        && config.probability_honest.is_certain()
}

/// The number of attestations that a proposer expects in its block.
pub fn get_expected_attesters(total_active_validators: u64, online: Probability, honest: Probability) -> (
    attesters: u64)
    ensures
        attesters == expected_attesters(total_active_validators as int, online, honest),
        attesters <= total_active_validators / SLOTS_PER_EPOCH,
{
    let per_slot: u64 = total_active_validators / SLOTS_PER_EPOCH;
    let online_parts: u64 = online.parts_per_billion();
    let honest_parts: u64 = honest.parts_per_billion();
    proof {
        lemma_expected_attesters_bounds(per_slot as int, online_parts as int, honest_parts as int);
    }
    let weighted: u128 = (per_slot as u128) * (online_parts as u128) * (honest_parts as u128);
    let scale: u128 = (PROBABILITY_SCALE as u128) * (PROBABILITY_SCALE as u128);
    (weighted / scale) as u64
}

/// The reward for a correct vote on head and both checkpoints, where it fits
/// 64 bits.
pub fn get_head_ffg_reward(base_reward: u64, matching_balance: u64, total_active_balance: u64) -> (
    reward: Option<u64>)
    requires
        total_active_balance > 0,
    ensures
        match reward {
            Some(reward) => reward == head_ffg_reward_of(
                base_reward as int,
                matching_balance as int,
                total_active_balance as int,
            ),
            None => head_ffg_reward_of(
                base_reward as int,
                matching_balance as int,
                total_active_balance as int,
            ) > u64::MAX,
        },
{
    proof {
        lemma_head_ffg_reward_split(
            base_reward as int,
            matching_balance as int,
            total_active_balance as int,
        );
    }
    let product: u128 = (base_reward as u128) * (matching_balance as u128);
    let quotient: u128 = product / (total_active_balance as u128);
    let remainder: u128 = product % (total_active_balance as u128);
    if quotient > (u64::MAX / 3) as u128 {
        return None;
    }
    let reward: u128 = 3 * quotient + 3 * remainder / (total_active_balance as u128);
    if reward <= u64::MAX as u128 {
        Some(reward as u64)
    } else {
        None
    }
}

/// The rewards and penalties of one validator in one epoch, given whether it
/// was online and honest when it had to vote.
pub fn compute_attestation_deltas(
    validator: &Validator,
    validator_index: &usize,
    base_reward: u64,
    config: &Config,
    total_active_balance: u64,
    total_active_validators: u64,
    matching_balance: u64,
    proposer_indices: &Vec<usize>,
    participates: bool,
) -> (result: Result<Deltas, SimulationError>)
    ensures
        result == attestation_deltas(
            *validator,
            proposer_indices@.contains(*validator_index),
            participates,
            base_reward,
            *config,
            total_active_balance,
            total_active_validators,
            matching_balance,
        ),
{
    if !validator.is_active {
        return Ok(Deltas::new());
    }
    if validator.is_slashed || !participates {
        return match base_reward.checked_mul(3) {
            Some(penalty) => Ok(
                Deltas {
                    head_ffg_reward: 0,
                    head_ffg_penalty: penalty,
                    proposer_reward: 0,
                    attester_reward: 0,
                },
            ),
            None => Err(SimulationError::BalanceOverflow),
        };
    }
    if total_active_balance == 0 {
        return Err(SimulationError::DivisionByZero);
    }
    let head_ffg_reward: u64 = match get_head_ffg_reward(
        base_reward,
        matching_balance,
        total_active_balance,
    ) {
        Some(reward) => reward,
        None => {
            return Err(SimulationError::BalanceOverflow);
        },
    };
    let amount: u64 = base_reward / PROPOSER_REWARD_QUOTIENT;
    let mut proposer_reward: u64 = 0;
    if is_chosen(proposer_indices, *validator_index) {
        let attesters: u64 = get_expected_attesters(
            total_active_validators,
            config.probability_online,
            config.probability_honest,
        );
        proposer_reward =
        match amount.checked_mul(attesters) {
            Some(reward) => reward,
            None => {
                return Err(SimulationError::BalanceOverflow);
            },
        };
    }
    let maximum_attester_reward: u64 = base_reward - amount;
    let attester_reward: u64 = config.exp_value_inclusion_prob.scale(maximum_attester_reward);
    Ok(
        Deltas {
            head_ffg_reward,
            head_ffg_penalty: 0,
            proposer_reward,
            attester_reward,
        },
    )
}

/// Throws the coins that decide whether a validator is online and honest
/// when it has to vote. For a validator that is inactive or slashed no coin is
/// thrown; the second coin is thrown only after the first has shown heads.
pub fn draw_participation(validator: &Validator, config: &Config, dice: &mut Dice) -> (participates:
    bool)
    ensures
        may_participate(*validator, *config, participates),
{
    if !validator.eligible() {
        return false;
    }
    if !dice.throw_dice(config.probability_online) {
        return false;
    }
    dice.throw_dice(config.probability_honest)
}

/// Computes the rewards and penalties of one validator in one epoch, and
/// writes them to `deltas`.
///
/// Whether the validator was online and honest is decided by two throws of
/// the dice, see `draw_participation`; what follows from the outcome is stated
/// by `attestation_deltas`. On failure `deltas` is left as it was.
pub fn get_attestation_deltas(
    validator: &Validator,
    validator_index: &usize,
    base_reward: u64,
    config: &Config,
    total_active_balance: u64,
    total_active_validators: u64,
    matching_balance: u64,
    proposer_indices: &Vec<usize>,
    deltas: &mut Deltas,
    dice: &mut Dice,
) -> (result: Result<(), SimulationError>)
    ensures
        exists|participates: bool|
            #![trigger may_participate(*validator, *config, participates)]
            may_participate(*validator, *config, participates) && match attestation_deltas(
                *validator,
                proposer_indices@.contains(*validator_index),
                participates,
                base_reward,
                *config,
                total_active_balance,
                total_active_validators,
                matching_balance,
            ) {
                Ok(computed) => result is Ok && *final(deltas) == computed,
                Err(reason) => result == Err::<(), SimulationError>(reason) && *final(deltas)
                    == *old(deltas),
            },
        !validator.is_active ==> result is Ok && *final(deltas) == Deltas::zero(),
        validator.is_active && validator.is_slashed && head_ffg_penalty_of(base_reward as int)
            <= u64::MAX ==> result is Ok && *final(deltas) == (Deltas {
            head_ffg_penalty: head_ffg_penalty_of(base_reward as int) as u64,
            ..Deltas::zero()
        }),
        is_decided(*config) ==> match attestation_deltas(
            *validator,
            proposer_indices@.contains(*validator_index),
            decided_participation(*validator, *config),
            base_reward,
            *config,
            total_active_balance,
            total_active_validators,
            matching_balance,
        ) {
            Ok(computed) => result is Ok && *final(deltas) == computed,
            Err(reason) => result == Err::<(), SimulationError>(reason),
        },
        result is Err ==> *final(deltas) == *old(deltas),
{
    let participates: bool = draw_participation(validator, config, dice);
    match compute_attestation_deltas(
        validator,
        validator_index,
        base_reward,
        config,
        total_active_balance,
        total_active_validators,
        matching_balance,
        proposer_indices,
        participates,
    ) {
        Ok(computed) => {
            *deltas = computed;
            Ok(())
        },
        Err(reason) => Err(reason),
    }
}

/// An inactive validator earns and loses nothing, whatever else holds of it.
pub proof fn law_inactive_validator_earns_nothing(
    validator: Validator,
    is_proposer: bool,
    participates: bool,
    base_reward: u64,
    config: Config,
    total_active_balance: u64,
    total_active_validators: u64,
    matching_balance: u64,
)
    requires
        !validator.is_active,
    ensures
        attestation_deltas(
            validator,
            is_proposer,
            participates,
            base_reward,
            config,
            total_active_balance,
            total_active_validators,
            matching_balance,
        ) == Ok::<Deltas, SimulationError>(Deltas::zero()),
{
}

/// An active validator that is slashed pays exactly three base rewards, and
/// earns nothing, as long as three base rewards fit 64 bits.
pub proof fn law_slashed_validator_pays_penalty(
    validator: Validator,
    is_proposer: bool,
    participates: bool,
    base_reward: u64,
    config: Config,
    total_active_balance: u64,
    total_active_validators: u64,
    matching_balance: u64,
)
    requires
        validator.is_active,
        validator.is_slashed,
        3 * base_reward <= u64::MAX,
    ensures
        attestation_deltas(
            validator,
            is_proposer,
            participates,
            base_reward,
            config,
            total_active_balance,
            total_active_validators,
            matching_balance,
        ) == Ok::<Deltas, SimulationError>(
            Deltas {
                head_ffg_reward: 0,
                head_ffg_penalty: (3 * base_reward) as u64,
                proposer_reward: 0,
                attester_reward: 0,
            },
        ),
{
}

/// Where validators are online and honest with probability 1, a validator
/// that is active and unslashed participates, pays no penalty, and earns
/// exactly `3 × base reward × matching balance / total active balance` for
/// its vote, as long as the total active balance is not zero and the rewards
/// fit 64 bits.
pub proof fn law_certain_participation_earns_reward(
    validator: Validator,
    is_proposer: bool,
    participates: bool,
    base_reward: u64,
    config: Config,
    total_active_balance: u64,
    total_active_validators: u64,
    matching_balance: u64,
)
    requires
        validator.is_eligible(),
        config.probability_online.is_certain(),
        config.probability_honest.is_certain(),
        may_participate(validator, config, participates),
        total_active_balance > 0,
        attestation_deltas(
            validator,
            is_proposer,
            participates,
            base_reward,
            config,
            total_active_balance,
            total_active_validators,
            matching_balance,
        ) is Ok,
    ensures
        participates,
        attestation_deltas(
            validator,
            is_proposer,
            participates,
            base_reward,
            config,
            total_active_balance,
            total_active_validators,
            matching_balance,
        )->Ok_0.head_ffg_reward == 3 * base_reward * matching_balance / (total_active_balance as int),
        attestation_deltas(
            validator,
            is_proposer,
            participates,
            base_reward,
            config,
            total_active_balance,
            total_active_validators,
            matching_balance,
        )->Ok_0.head_ffg_penalty == 0,
{
}

/// Under a configuration that no chance enters, the coins of a validator can
/// fall in one way only.
pub proof fn law_decided_participation(validator: Validator, config: Config, participates: bool)
    requires
        is_decided(config),
        may_participate(validator, config, participates),
    ensures
        participates == decided_participation(validator, config),
{
}

/// Under a configuration that no chance enters, the calculation gives the
/// same result every time it is made on the same inputs: whatever two ways the
/// coins may have fallen, the deltas agree.
pub proof fn law_decided_rewards_repeat(
    validator: Validator,
    is_proposer: bool,
    first: bool,
    second: bool,
    base_reward: u64,
    config: Config,
    total_active_balance: u64,
    total_active_validators: u64,
    matching_balance: u64,
)
    requires
        is_decided(config),
        may_participate(validator, config, first),
        may_participate(validator, config, second),
    ensures
        attestation_deltas(
            validator,
            is_proposer,
            first,
            base_reward,
            config,
            total_active_balance,
            total_active_validators,
            matching_balance,
        ) == attestation_deltas(
            validator,
            is_proposer,
            second,
            base_reward,
            config,
            total_active_balance,
            total_active_validators,
            matching_balance,
        ),
{
    law_decided_participation(validator, config, first);
    law_decided_participation(validator, config, second);
}

/// The product from which the expected attesters are cut fits 128 bits, and
/// what is cut from it is at most the validators of one slot.
pub proof fn lemma_expected_attesters_bounds(per_slot: int, online_parts: int, honest_parts: int)
    requires
        0 <= per_slot <= u64::MAX / SLOTS_PER_EPOCH,
        0 <= online_parts <= PROBABILITY_SCALE,
        0 <= honest_parts <= PROBABILITY_SCALE,
    ensures
        0 <= per_slot * online_parts <= u128::MAX,
        0 <= per_slot * online_parts * honest_parts <= u128::MAX,
        PROBABILITY_SCALE * PROBABILITY_SCALE == 1_000_000_000_000_000_000,
        0 <= per_slot * online_parts * honest_parts / (PROBABILITY_SCALE * PROBABILITY_SCALE)
            <= per_slot,
{
    let scale: int = 1_000_000_000;
    let once = per_slot * online_parts;
    assert(0 <= once <= per_slot * scale) by (nonlinear_arith)
        requires
            once == per_slot * online_parts,
            0 <= per_slot,
            0 <= online_parts <= scale,
    ;
    let twice = once * honest_parts;
    assert(0 <= twice <= per_slot * (scale * scale)) by (nonlinear_arith)
        requires
            twice == once * honest_parts,
            0 <= once <= per_slot * scale,
            0 <= honest_parts <= scale,
    ;
    assert(scale * scale == 1_000_000_000_000_000_000) by (nonlinear_arith)
        requires
            scale == 1_000_000_000,
    ;
    assert(0 <= twice / (scale * scale) <= per_slot) by (nonlinear_arith)
        requires
            0 <= twice <= per_slot * (scale * scale),
            scale * scale == 1_000_000_000_000_000_000,
    ;
}

/// Three times a product, divided: the quotient and the remainder of the
/// product itself give the result, in numbers that fit 128 bits.
pub proof fn lemma_head_ffg_reward_split(base_reward: int, matching_balance: int, total: int)
    requires
        0 <= base_reward <= u64::MAX,
        0 <= matching_balance <= u64::MAX,
        0 < total <= u64::MAX,
    ensures
        0 <= base_reward * matching_balance <= u128::MAX,
        0 <= (base_reward * matching_balance) % total < total,
        0 <= (base_reward * matching_balance) / total,
        3 * ((base_reward * matching_balance) % total) / total <= 2,
        head_ffg_reward_of(base_reward, matching_balance, total) == 3 * ((base_reward
            * matching_balance) / total) + 3 * ((base_reward * matching_balance) % total) / total,
{
    let product = base_reward * matching_balance;
    assert(0 <= product <= 0xffff_ffff_ffff_ffff * 0xffff_ffff_ffff_ffff) by (nonlinear_arith)
        requires
            product == base_reward * matching_balance,
            0 <= base_reward <= 0xffff_ffff_ffff_ffff,
            0 <= matching_balance <= 0xffff_ffff_ffff_ffff,
    ;
    let quotient = product / total;
    let remainder = product % total;
    vstd::arithmetic::div_mod::lemma_fundamental_div_mod(product, total);
    vstd::arithmetic::div_mod::lemma_mod_bound(product, total);
    assert(0 <= quotient) by (nonlinear_arith)
        requires
            quotient == product / total,
            0 <= product,
            0 < total,
    ;
    vstd::arithmetic::div_mod::lemma_hoist_over_denominator(3 * remainder, 3 * quotient, total as nat);
    assert(3 * remainder + 3 * quotient * total == 3 * product) by (nonlinear_arith)
        requires
            product == total * quotient + remainder,
    ;
    assert(3 * base_reward * matching_balance == 3 * product) by (nonlinear_arith)
        requires
            product == base_reward * matching_balance,
    ;
    assert(3 * remainder / total <= 2) by (nonlinear_arith)
        requires
            0 <= remainder < total,
    ;
}

} // verus!
