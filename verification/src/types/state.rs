//! The state of the simulation at an epoch boundary: the configuration and
//! the validators, in the order that gives each its index.

use super::config::Config;
use super::config::MAX_EFFECTIVE_BALANCE;
use super::validator::Validator;
use vstd::prelude::*;

verus! {

/// A quantity that is added up over the validators of a state.
#[derive(Clone, Copy, Debug, PartialEq, Eq)]
pub enum Aggregate {
    /// The balance of every validator.
    StakedBalance,
    /// The effective balance of every active validator.
    ActiveBalance,
    /// The effective balance of every validator that is active and unslashed.
    MatchingBalance,
    /// One for every active validator.
    ActiveValidators,
    /// One for every validator that is active and unslashed.
    EligibleValidators,
}

impl Aggregate {
    /// What one validator adds to the aggregate.
    pub open spec fn of(self, validator: Validator) -> nat {
        match self {
            Aggregate::StakedBalance => validator.balance as nat,
            Aggregate::ActiveBalance => if validator.is_active {
                validator.effective_balance as nat
            } else {
                0
            },
            Aggregate::MatchingBalance => if validator.is_eligible() {
                validator.effective_balance as nat
            } else {
                0
            },
            Aggregate::ActiveValidators => if validator.is_active {
                1
            } else {
                0
            },
            Aggregate::EligibleValidators => if validator.is_eligible() {
                1
            } else {
                0
            },
        }
    }

    /// What one validator adds to the aggregate.
    pub fn measure(&self, validator: &Validator) -> (part: u64)
        ensures
            part == self.of(*validator),
    {
        match self {
            Aggregate::StakedBalance => validator.balance,
            Aggregate::ActiveBalance => if validator.is_active {
                validator.effective_balance
            } else {
                0
            },
            Aggregate::MatchingBalance => if validator.is_active && !validator.is_slashed {
                validator.effective_balance
            } else {
                0
            },
            Aggregate::ActiveValidators => if validator.is_active {
                1
            } else {
                0
            },
            Aggregate::EligibleValidators => if validator.is_active && !validator.is_slashed {
                1
            } else {
                0
            },
        }
    }
}

/// The sum of an aggregate over a sequence of validators.
pub open spec fn total(validators: Seq<Validator>, aggregate: Aggregate) -> nat
    decreases validators.len(),
{
    if validators.len() == 0 {
        0
    } else {
        total(validators.drop_last(), aggregate) + aggregate.of(validators.last())
    }
}

/// `bound` is the greatest balance among the validators, or 0 where there is
/// no validator.
pub open spec fn is_max_balance(validators: Seq<Validator>, bound: u64) -> bool {
    &&& forall|i: int| 0 <= i < validators.len() ==> validators[i].balance <= bound
    &&& validators.len() == 0 ==> bound == 0
    &&& validators.len() > 0 ==> exists|i: int|
        0 <= i < validators.len() && validators[i].balance == bound
}

/// `bound` is the least balance among the validators, or the greatest number
/// of 64 bits where there is no validator.
pub open spec fn is_min_balance(validators: Seq<Validator>, bound: u64) -> bool {
    &&& forall|i: int| 0 <= i < validators.len() ==> validators[i].balance >= bound
    &&& validators.len() == 0 ==> bound == u64::MAX
    &&& validators.len() > 0 ==> exists|i: int|
        0 <= i < validators.len() && validators[i].balance == bound
}

/// The validator that every simulation starts with: active, unslashed, with
/// the maximum effective balance as its balance.
pub open spec fn genesis_validator() -> Validator {
    Validator {
        balance: MAX_EFFECTIVE_BALANCE,
        effective_balance: MAX_EFFECTIVE_BALANCE,
        is_active: true,
        is_slashed: false,
    }
}

/// The indices of the validators that are active and unslashed, in
/// increasing order.
pub open spec fn eligible_indices(validators: Seq<Validator>) -> Seq<usize>
    decreases validators.len(),
{
    if validators.len() == 0 {
        Seq::empty()
    } else {
        let before = eligible_indices(validators.drop_last());
        if validators.last().is_eligible() {
            before.push((validators.len() - 1) as usize)
        } else {
            before
        }
    }
}

/// The state of the simulation at an epoch boundary.
pub struct State {
    /// The parameters of the run.
    pub config: Config,
    /// The validators; the index of each is its identity.
    pub validators: Vec<Validator>,
}

impl State {
    /// Every validator of the state is well formed.
    pub open spec fn wf(&self) -> bool {
        forall|i: int| 0 <= i < self.validators@.len() ==> (#[trigger] self.validators@[i]).wf()
    }

    /// The sum of all balances.
    pub open spec fn total_staked_balance(&self) -> nat {
        total(self.validators@, Aggregate::StakedBalance)
    }

    /// The sum of the effective balances of the active validators.
    pub open spec fn total_active_balance(&self) -> nat {
        total(self.validators@, Aggregate::ActiveBalance)
    }

    /// The number of active validators.
    pub open spec fn total_active_validators(&self) -> nat {
        total(self.validators@, Aggregate::ActiveValidators)
    }

    /// The sum of the effective balances of the validators that are active and
    /// unslashed.
    pub open spec fn matching_balance(&self) -> nat {
        total(self.validators@, Aggregate::MatchingBalance)
    }

    /// The number of validators that are active and unslashed.
    pub open spec fn eligible_validators(&self) -> nat {
        total(self.validators@, Aggregate::EligibleValidators)
    }

    /// The state that a simulation starts from: as many validators as the
    /// initial stake holds maximum effective balances.
    pub fn new(config: Config) -> (state: State)
        ensures
            state.config == config,
            state.validators@.len() == config.total_at_stake_initial / MAX_EFFECTIVE_BALANCE,
            forall|i: int|
                0 <= i < state.validators@.len() ==> state.validators@[i] == genesis_validator(),
            state.wf(),
    {
        let number_of_validators: u64 = config.total_at_stake_initial / MAX_EFFECTIVE_BALANCE;
        let mut validators: Vec<Validator> = Vec::new();
        let mut made: u64 = 0;
        while made < number_of_validators
            invariant
                made <= number_of_validators,
                number_of_validators <= u64::MAX / MAX_EFFECTIVE_BALANCE,
                validators@.len() == made,
                forall|i: int|
                    0 <= i < validators@.len() ==> validators@[i] == genesis_validator(),
            decreases number_of_validators - made,
        {
            validators.push(
                Validator {
                    balance: MAX_EFFECTIVE_BALANCE,
                    effective_balance: MAX_EFFECTIVE_BALANCE,
                    is_active: true,
                    is_slashed: false,
                },
            );
            made = made + 1;
        }
        State { config, validators }
    }

    /// The sum of an aggregate over the validators, where it fits 64 bits.
    pub fn checked_total(&self, aggregate: Aggregate) -> (sum: Option<u64>)
        ensures
            match sum {
                Some(sum) => sum == total(self.validators@, aggregate),
                None => total(self.validators@, aggregate) > u64::MAX,
            },
    {
        let count: usize = self.validators.len();
        let mut sum: u128 = 0;
        let mut i: usize = 0;
        while i < count
            invariant
                count == self.validators@.len(),
                i <= count,
                sum == total(self.validators@.take(i as int), aggregate),
                sum <= i * u64::MAX,
            decreases count - i,
        {
            let part: u64 = aggregate.measure(&self.validators[i]);
            proof {
                lemma_total_take(self.validators@, aggregate, i as int);
                assert((i + 1) * u64::MAX == i * u64::MAX + u64::MAX) by (nonlinear_arith);
                assert(i * u64::MAX <= usize::MAX * u64::MAX) by (nonlinear_arith)
                    requires
                        i <= usize::MAX,
                ;
            }
            sum = sum + part as u128;
            i = i + 1;
        }
        proof {
            assert(self.validators@.take(count as int) =~= self.validators@);
        }
        if sum <= u64::MAX as u128 {
            Some(sum as u64)
        } else {
            None
        }
    }

    /// The sum of all balances.
    pub fn get_total_staked_balance(&self) -> (sum: u64)
        requires
            self.total_staked_balance() <= u64::MAX,
        ensures
            sum == self.total_staked_balance(),
    {
        match self.checked_total(Aggregate::StakedBalance) {
            Some(sum) => sum,
            None => 0,
        }
    }

    /// The sum of the effective balances of the active validators.
    pub fn get_total_active_balance(&self) -> (sum: u64)
        requires
            self.total_active_balance() <= u64::MAX,
        ensures
            sum == self.total_active_balance(),
    {
        match self.checked_total(Aggregate::ActiveBalance) {
            Some(sum) => sum,
            None => 0,
        }
    }

    /// The number of active validators.
    pub fn get_total_active_validators(&self) -> (count: u64)
        ensures
            count == self.total_active_validators(),
            count <= self.validators@.len(),
    {
        let length: usize = self.validators.len();
        proof {
            lemma_count_at_most_length(self.validators@, Aggregate::ActiveValidators);
        }
        match self.checked_total(Aggregate::ActiveValidators) {
            Some(count) => count,
            None => 0,
        }
    }

    /// The sum of the effective balances of the validators that are active and
    /// unslashed.
    pub fn get_matching_balance(&self) -> (sum: u64)
        requires
            self.matching_balance() <= u64::MAX,
        ensures
            sum == self.matching_balance(),
            sum <= self.total_active_balance(),
    {
        proof {
            lemma_matching_at_most_active(self.validators@);
        }
        match self.checked_total(Aggregate::MatchingBalance) {
            Some(sum) => sum,
            None => 0,
        }
    }

    /// The number of validators that are active and unslashed.
    pub fn get_eligible_validators(&self) -> (count: u64)
        ensures
            count == self.eligible_validators(),
            count <= self.validators@.len(),
    {
        let length: usize = self.validators.len();
        proof {
            lemma_count_at_most_length(self.validators@, Aggregate::EligibleValidators);
        }
        match self.checked_total(Aggregate::EligibleValidators) {
            Some(count) => count,
            None => 0,
        }
    }

    /// The indices of the validators that are active and unslashed, in
    /// increasing order.
    pub fn eligible_indices(&self) -> (indices: Vec<usize>)
        ensures
            indices@ == eligible_indices(self.validators@),
    {
        let count: usize = self.validators.len();
        let mut indices: Vec<usize> = Vec::new();
        let mut i: usize = 0;
        while i < count
            invariant
                count == self.validators@.len(),
                i <= count,
                indices@ == eligible_indices(self.validators@.take(i as int)),
            decreases count - i,
        {
            proof {
                assert(self.validators@.take(i + 1).drop_last() =~= self.validators@.take(i as int));
            }
            if self.validators[i].eligible() {
                indices.push(i);
            }
            i = i + 1;
        }
        proof {
            assert(self.validators@.take(count as int) =~= self.validators@);
        }
        indices
    }

    /// The greatest balance; 0 where there is no validator.
    pub fn get_max_balance(&self) -> (bound: u64)
        ensures
            is_max_balance(self.validators@, bound),
    {
        let count: usize = self.validators.len();
        let mut bound: u64 = 0;
        let mut i: usize = 0;
        while i < count
            invariant
                count == self.validators@.len(),
                i <= count,
                is_max_balance(self.validators@.take(i as int), bound),
            decreases count - i,
        {
            let ghost before = self.validators@.take(i as int);
            let ghost after = self.validators@.take(i + 1);
            let balance: u64 = self.validators[i].balance;
            proof {
                assert forall|j: int| 0 <= j < i implies after[j] == before[j] by {}
                if i > 0 && balance <= bound {
                    let witness = choose|j: int| 0 <= j < before.len() && before[j].balance == bound;
                    assert(after[witness].balance == bound);
                }
            }
            if balance > bound {
                bound = balance;
            }
            proof {
                assert(after[i as int].balance == balance);
                assert forall|j: int| 0 <= j < after.len() implies after[j].balance <= bound by {
                    if j < i {
                        assert(after[j] == before[j]);
                    }
                }
            }
            i = i + 1;
        }
        proof {
            assert(self.validators@.take(count as int) =~= self.validators@);
        }
        bound
    }

    /// The least balance; the greatest number of 64 bits where there is no
    /// validator.
    pub fn get_min_balance(&self) -> (bound: u64)
        ensures
            is_min_balance(self.validators@, bound),
    {
        let count: usize = self.validators.len();
        let mut bound: u64 = u64::MAX;
        let mut i: usize = 0;
        while i < count
            invariant
                count == self.validators@.len(),
                i <= count,
                is_min_balance(self.validators@.take(i as int), bound),
            decreases count - i,
        {
            let ghost before = self.validators@.take(i as int);
            let ghost after = self.validators@.take(i + 1);
            let balance: u64 = self.validators[i].balance;
            proof {
                assert forall|j: int| 0 <= j < i implies after[j] == before[j] by {}
                if i > 0 && balance >= bound {
                    let witness = choose|j: int| 0 <= j < before.len() && before[j].balance == bound;
                    assert(after[witness].balance == bound);
                }
            }
            if balance < bound {
                bound = balance;
            }
            proof {
                assert(after[i as int].balance == balance);
                assert forall|j: int| 0 <= j < after.len() implies after[j].balance >= bound by {
                    if j < i {
                        assert(after[j] == before[j]);
                    }
                }
            }
            i = i + 1;
        }
        proof {
            assert(self.validators@.take(count as int) =~= self.validators@);
        }
        bound
    }
}

/// The total over one validator more is the total so far and what that
/// validator adds.
pub proof fn lemma_total_take(validators: Seq<Validator>, aggregate: Aggregate, i: int)
    requires
        0 <= i < validators.len(),
    ensures
        total(validators.take(i + 1), aggregate) == total(validators.take(i), aggregate)
            + aggregate.of(validators[i]),
{
    assert(validators.take(i + 1).drop_last() =~= validators.take(i));
}

/// A count of validators is at most their number.
pub proof fn lemma_count_at_most_length(validators: Seq<Validator>, aggregate: Aggregate)
    requires
        aggregate == Aggregate::ActiveValidators || aggregate == Aggregate::EligibleValidators,
    ensures
        total(validators, aggregate) <= validators.len(),
    decreases validators.len(),
{
    if validators.len() > 0 {
        lemma_count_at_most_length(validators.drop_last(), aggregate);
    }
}

/// Validators that are all as at the start are all eligible.
pub proof fn lemma_genesis_is_eligible(validators: Seq<Validator>)
    requires
        forall|i: int| 0 <= i < validators.len() ==> validators[i] == genesis_validator(),
    ensures
        total(validators, Aggregate::EligibleValidators) == validators.len(),
        total(validators, Aggregate::ActiveValidators) == validators.len(),
    decreases validators.len(),
{
    if validators.len() > 0 {
        lemma_genesis_is_eligible(validators.drop_last());
    }
}

/// The matching balance is a part of the total active balance, and the
/// eligible validators are among the active ones.
pub proof fn lemma_matching_at_most_active(validators: Seq<Validator>)
    ensures
        total(validators, Aggregate::MatchingBalance) <= total(
            validators,
            Aggregate::ActiveBalance,
        ),
        total(validators, Aggregate::EligibleValidators) <= total(
            validators,
            Aggregate::ActiveValidators,
        ),
    decreases validators.len(),
{
    if validators.len() > 0 {
        lemma_matching_at_most_active(validators.drop_last());
    }
}

} // verus!
