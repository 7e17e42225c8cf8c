//! The source of randomness of a simulation: biased coins and the election
//! of the block proposers of an epoch.

use super::config::MAX_EFFECTIVE_BALANCE;
use super::config::MAX_RANDOM_BYTE;
use super::config::SLOTS_PER_EPOCH;
use super::error::SimulationError;
use super::probability::Probability;
use super::probability::PROBABILITY_SCALE;
use super::state::eligible_indices;
use super::state::total;
use super::state::Aggregate;
use super::state::State;
use super::validator::Validator;
use rand::rngs::ThreadRng;
use rand::Rng;
use vstd::prelude::*;

verus! {

/// The generator of `rand` that each thread keeps for itself. Nothing is
/// known of the state of a generator.
#[verifier::external_type_specification]
#[verifier::external_body]
pub struct ExThreadRng(ThreadRng);

/// `rand::thread_rng`: a handle to the generator of the calling thread, which
/// the system seeds when the thread first asks for it. Nothing is claimed of
/// the handle.
pub assume_specification[ rand::thread_rng ]() -> (rng: ThreadRng)
;

/// The number of candidates that one election draws at most. A loop that
/// draws until chance fills every slot has no bound on its length; this one
/// gives it an end that no election comes near. An election that has drawn so
/// often gives the slots that are still empty to the first eligible
/// validators, in the order of their indices, that hold none.
pub const MAX_PROPOSER_DRAWS: u64 = 0xffff_ffff_ffff_ffff;

/// Whether a candidate with the given effective balance passes the test
/// against a random byte: the higher the effective balance, the more bytes
/// it passes.
pub open spec fn accepts(effective_balance: int, random_byte: int) -> bool {
    effective_balance * MAX_RANDOM_BYTE >= random_byte * MAX_EFFECTIVE_BALANCE
}

/// The chosen indices are distinct, and each is the index of a validator
/// that is active and unslashed.
pub open spec fn is_selection(validators: Seq<Validator>, chosen: Seq<usize>) -> bool {
    &&& chosen.no_duplicates()
    &&& forall|k: int|
        0 <= k < chosen.len() ==> (#[trigger] chosen[k]) < validators.len()
            && validators[chosen[k] as int].is_eligible()
}

/// The chosen indices are the proposers of one epoch: one for each slot, all
/// distinct, each active and unslashed.
pub open spec fn is_proposer_set(validators: Seq<Validator>, chosen: Seq<usize>) -> bool {
    &&& chosen.len() == SLOTS_PER_EPOCH
    &&& is_selection(validators, chosen)
}

/// Whether a candidate with the given effective balance passes the test
/// against a random byte.
pub fn accepts_candidate(effective_balance: u64, random_byte: u64) -> (accepted: bool)
    ensures
        accepted == accepts(effective_balance as int, random_byte as int),
{
    assert(effective_balance * MAX_RANDOM_BYTE <= u128::MAX && random_byte * MAX_EFFECTIVE_BALANCE
        <= u128::MAX) by (nonlinear_arith)
        requires
            effective_balance <= u64::MAX,
            random_byte <= u64::MAX,
            MAX_RANDOM_BYTE == 255,
            MAX_EFFECTIVE_BALANCE == 32_000_000_000,
    ;
    let weight: u128 = (effective_balance as u128) * (MAX_RANDOM_BYTE as u128);
    let threshold: u128 = (random_byte as u128) * (MAX_EFFECTIVE_BALANCE as u128);
    weight >= threshold
}

/// Whether `index` is among `chosen`.
pub fn is_chosen(chosen: &Vec<usize>, index: usize) -> (found: bool)
    ensures
        found == chosen@.contains(index),
{
    let count: usize = chosen.len();
    let mut k: usize = 0;
    while k < count
        invariant
            count == chosen@.len(),
            k <= count,
            forall|j: int| 0 <= j < k ==> chosen@[j] != index,
        decreases count - k,
    {
        if chosen[k] == index {
            return true;
        }
        k = k + 1;
    }
    false
}

/// The source of randomness of a simulation.
pub struct Dice {
    rng: ThreadRng,
}

impl Dice {
    /// Dice that draw from the generator of the calling thread.
    pub fn new() -> (dice: Dice) {
        Dice { rng: rand::thread_rng() }
    }

    /// `Rng::gen_range(0, bound)` on the generator: a number drawn uniformly
    /// from those below `bound`. The contract claims the range only, which
    /// holds of every draw; `gen_range` panics on an empty range, which a
    /// `bound` of 0 would make.
    #[verifier::external_body]
    fn uniform_below(&mut self, bound: u64) -> (drawn: u64)
        requires
            bound > 0,
        ensures
            drawn < bound,
    {
        self.rng.gen_range(0, bound)
    }

    /// Throws a coin that shows heads with the given probability. A certain
    /// coin always shows heads, an impossible one never.
    pub fn throw_dice(&mut self, probability: Probability) -> (heads: bool)
        ensures
            probability.is_certain() ==> heads,
            probability.is_impossible() ==> !heads,
    {
        let drawn: u64 = self.uniform_below(PROBABILITY_SCALE);
        drawn < probability.parts_per_billion()
    }

    /// Elects the block proposers of one epoch among the validators that are
    /// active and unslashed, with a bias towards high effective balances.
    ///
    /// A candidate index is drawn uniformly. A candidate that is inactive,
    /// slashed or already elected is passed over. Otherwise a byte is drawn,
    /// and the candidate is elected if it passes the test against it, see
    /// `accepts`. This is repeated until every slot has its proposer, or
    /// `MAX_PROPOSER_DRAWS` candidates have been drawn.
    ///
    /// The election fails if and only if fewer validators are eligible than an
    /// epoch has slots.
    pub fn pick_epoch_proposers(&mut self, state: &State) -> (result: Result<
        Vec<usize>,
        SimulationError,
    >)
        ensures
            match result {
                Ok(proposers) => {
                    &&& state.eligible_validators() >= SLOTS_PER_EPOCH
                    &&& is_proposer_set(state.validators@, proposers@)
                },
                Err(reason) => {
                    &&& state.eligible_validators() < SLOTS_PER_EPOCH
                    &&& reason == SimulationError::InsufficientEligibleValidators
                },
            },
    {
        self.pick_epoch_proposers_within(state, MAX_PROPOSER_DRAWS)
    }

    /// The election of `pick_epoch_proposers`, with at most `draws` candidates
    /// drawn. Slots that are empty after the last draw go to the first eligible
    /// validators, in the order of their indices, that are not yet elected: with
    /// no draw at all, the proposers are the first eligible validators.
    pub fn pick_epoch_proposers_within(&mut self, state: &State, draws: u64) -> (result: Result<
        Vec<usize>,
        SimulationError,
    >)
        ensures
            match result {
                Ok(proposers) => {
                    &&& state.eligible_validators() >= SLOTS_PER_EPOCH
                    &&& is_proposer_set(state.validators@, proposers@)
                    &&& draws == 0 ==> proposers@ == eligible_indices(state.validators@).take(
                        SLOTS_PER_EPOCH as int,
                    )
                },
                Err(reason) => {
                    &&& state.eligible_validators() < SLOTS_PER_EPOCH
                    &&& reason == SimulationError::InsufficientEligibleValidators
                },
            },
    {
        if state.get_eligible_validators() < SLOTS_PER_EPOCH {
            return Err(SimulationError::InsufficientEligibleValidators);
        }
        let count: usize = state.validators.len();
        let mut proposers: Vec<usize> = Vec::new();
        let mut draws_left: u64 = draws;
        while (proposers.len() as u64) < SLOTS_PER_EPOCH && draws_left > 0
            invariant
                count == state.validators@.len(),
                count > 0,
                proposers@.len() <= SLOTS_PER_EPOCH,
                is_selection(state.validators@, proposers@),
                draws_left <= draws,
                draws == 0 ==> proposers@.len() == 0,
            decreases draws_left,
        {
            draws_left = draws_left - 1;
            let candidate: usize = self.uniform_below(count as u64) as usize;
            let effective_balance: u64 = state.validators[candidate].effective_balance;
            if state.validators[candidate].eligible() && !is_chosen(&proposers, candidate) {
                let random_byte: u64 = self.uniform_below(MAX_RANDOM_BYTE + 1);
                if accepts_candidate(effective_balance, random_byte) {
                    proof {
                        lemma_selection_grows(state.validators@, proposers@, candidate);
                    }
                    proposers.push(candidate);
                }
            }
        }
        if (proposers.len() as u64) < SLOTS_PER_EPOCH {
            fill_empty_slots(state, &mut proposers);
        }
        Ok(proposers)
    }
}

/// Gives the slots that are still empty to the first eligible validators, in
/// the order of their indices, that are not yet among the proposers.
fn fill_empty_slots(state: &State, proposers: &mut Vec<usize>)
    requires
        state.eligible_validators() >= SLOTS_PER_EPOCH,
        old(proposers)@.len() < SLOTS_PER_EPOCH,
        is_selection(state.validators@, old(proposers)@),
    ensures
        is_proposer_set(state.validators@, final(proposers)@),
        old(proposers)@.len() == 0 ==> final(proposers)@ == eligible_indices(
            state.validators@,
        ).take(SLOTS_PER_EPOCH as int),
{
    let eligible: Vec<usize> = state.eligible_indices();
    let pool: usize = eligible.len();
    let length: usize = state.validators.len();
    let ghost empty_before = proposers@.len() == 0;
    proof {
        lemma_eligible_indices(state.validators@);
    }
    let mut next: usize = 0;
    while (proposers.len() as u64) < SLOTS_PER_EPOCH && next < pool
        invariant
            pool == eligible@.len(),
            pool >= SLOTS_PER_EPOCH,
            next <= pool,
            eligible@ == eligible_indices(state.validators@),
            is_selection(state.validators@, eligible@),
            forall|a: int, b: int| 0 <= a < b < eligible@.len() ==> eligible@[a] < eligible@[b],
            proposers@.len() <= SLOTS_PER_EPOCH,
            is_selection(state.validators@, proposers@),
            forall|j: int| 0 <= j < next ==> proposers@.contains(#[trigger] eligible@[j]),
            empty_before ==> proposers@ =~= eligible@.take(next as int),
        decreases pool - next,
    {
        let candidate: usize = eligible[next];
        let ghost before = proposers@;
        if !is_chosen(proposers, candidate) {
            proof {
                lemma_selection_grows(state.validators@, proposers@, candidate);
            }
            proposers.push(candidate);
        } else {
            proof {
                if empty_before {
                    let place = choose|k: int| 0 <= k < before.len() && before[k] == candidate;
                    assert(eligible@[place] == eligible@[next as int]);
                }
            }
        }
        proof {
            assert forall|j: int| 0 <= j < next + 1 implies proposers@.contains(
                #[trigger] eligible@[j],
            ) by {
                if j < next {
                    let place = choose|k: int| 0 <= k < before.len() && before[k] == eligible@[j];
                    assert(proposers@[place] == eligible@[j]);
                } else {
                    if before.contains(candidate) {
                        let place = choose|k: int| 0 <= k < before.len() && before[k] == candidate;
                        assert(proposers@[place] == candidate);
                    } else {
                        assert(proposers@[before.len() as int] == candidate);
                    }
                }
            }
        }
        next = next + 1;
    }
    proof {
        if proposers@.len() < SLOTS_PER_EPOCH {
            lemma_selection_within_pool(eligible@, proposers@);
        }
    }
}

/// A selection stays one when an eligible validator that it lacks joins it.
pub proof fn lemma_selection_grows(validators: Seq<Validator>, chosen: Seq<usize>, index: usize)
    requires
        is_selection(validators, chosen),
        index < validators.len(),
        validators[index as int].is_eligible(),
        !chosen.contains(index),
    ensures
        is_selection(validators, chosen.push(index)),
{
    let grown = chosen.push(index);
    assert forall|i: int, j: int|
        0 <= i < grown.len() && 0 <= j < grown.len() && i != j implies grown[i] != grown[j] by {
        if i < chosen.len() && j < chosen.len() {
            assert(chosen[i] != chosen[j]);
        } else if i < chosen.len() {
            assert(chosen[i] != index);
        } else {
            assert(chosen[j] != index);
        }
    }
    assert forall|k: int| 0 <= k < grown.len() implies (#[trigger] grown[k]) < validators.len()
        && validators[grown[k] as int].is_eligible() by {
        if k < chosen.len() {
            assert(grown[k] == chosen[k]);
        }
    }
}

/// Distinct indices that all occur in a sequence are at most as many as the
/// sequence is long.
pub proof fn lemma_selection_within_pool(pool: Seq<usize>, chosen: Seq<usize>)
    requires
        pool.no_duplicates(),
        forall|j: int| 0 <= j < pool.len() ==> chosen.contains(#[trigger] pool[j]),
    ensures
        pool.len() <= chosen.len(),
{
    broadcast use vstd::seq_lib::seq_to_set_is_finite;

    pool.unique_seq_to_set();
    chosen.lemma_cardinality_of_set();
    assert(pool.to_set().subset_of(chosen.to_set())) by {
        assert forall|index: usize| pool.to_set().contains(index) implies chosen.to_set().contains(
            index,
        ) by {
            let j = choose|j: int| 0 <= j < pool.len() && pool[j] == index;
            assert(chosen.contains(pool[j]));
        }
    }
    vstd::set_lib::lemma_len_subset(pool.to_set(), chosen.to_set());
}

/// The eligible indices of a state are as many as it has eligible validators;
/// they increase, each is the index of an eligible validator, and none is
/// missing.
pub proof fn lemma_eligible_indices(validators: Seq<Validator>)
    requires
        validators.len() <= usize::MAX,
    ensures
        eligible_indices(validators).len() == total(validators, Aggregate::EligibleValidators),
        is_selection(validators, eligible_indices(validators)),
        forall|a: int, b: int|
            0 <= a < b < eligible_indices(validators).len() ==> eligible_indices(validators)[a]
                < eligible_indices(validators)[b],
        forall|i: int|
            0 <= i < validators.len() && (#[trigger] validators[i]).is_eligible()
                ==> eligible_indices(validators).contains(i as usize),
    decreases validators.len(),
{
    let indices = eligible_indices(validators);
    if validators.len() > 0 {
        let shorter = validators.drop_last();
        let before = eligible_indices(shorter);
        let last = (validators.len() - 1) as usize;
        lemma_eligible_indices(shorter);
        assert forall|k: int| 0 <= k < indices.len() implies (#[trigger] indices[k])
            < validators.len() && validators[indices[k] as int].is_eligible() by {
            if k < before.len() {
                assert(indices[k] == before[k]);
                assert(validators[before[k] as int] == shorter[before[k] as int]);
            }
        }
        assert forall|a: int, b: int| 0 <= a < b < indices.len() implies indices[a]
            < indices[b] by {
            assert(indices[a] == before[a]);
            if b < before.len() {
                assert(indices[b] == before[b]);
            }
        }
        assert forall|i: int|
            0 <= i < validators.len() && (#[trigger] validators[i]).is_eligible()
                implies indices.contains(i as usize) by {
            if i < shorter.len() {
                assert(shorter[i].is_eligible());
                let place = choose|k: int| 0 <= k < before.len() && before[k] == i as usize;
                assert(indices[place] == i as usize);
            } else {
                assert(indices[indices.len() - 1] == last);
            }
        }
    }
}

} // verus!
