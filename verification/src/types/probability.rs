//! Fixed-point probabilities.

use super::error::ConfigError;
use vstd::prelude::*;

verus! {

/// The number of parts that make up certainty: probabilities are counted in
/// parts per billion.
pub const PROBABILITY_SCALE: u64 = 1_000_000_000;

/// A probability in [0, 1], held as a whole number of parts per billion.
#[derive(Clone, Copy, Debug, PartialEq, Eq)]
pub struct Probability {
    parts_per_billion: u64,
}

impl Probability {
    /// Every value of the type lies in the unit interval.
    #[verifier::type_invariant]
    pub closed spec fn wf(self) -> bool {
        self.parts_per_billion <= PROBABILITY_SCALE
    }

    /// The numerator of the probability over `PROBABILITY_SCALE`.
    pub closed spec fn parts(self) -> nat {
        self.parts_per_billion as nat
    }

    /// The event always happens.
    pub open spec fn is_certain(self) -> bool {
        self.parts() == PROBABILITY_SCALE
    }

    /// The event never happens.
    pub open spec fn is_impossible(self) -> bool {
        self.parts() == 0
    }

    /// `floor(amount × p)`, the share of `amount` that the probability stands for.
    pub open spec fn share_of(self, amount: int) -> int {
        amount * self.parts() / (PROBABILITY_SCALE as int)
    }

    /// The probability of `parts` in a billion; rejected above one billion.
    pub fn from_parts_per_billion(parts: u64) -> (result: Result<Probability, ConfigError>)
        ensures
            parts <= PROBABILITY_SCALE ==> result is Ok && result->Ok_0.parts() == parts,
            parts > PROBABILITY_SCALE ==> result == Err::<Probability, ConfigError>(
                ConfigError::ProbabilityOutOfRange,
            ),
            result is Ok ==> result->Ok_0.wf(),
    {
        if parts <= PROBABILITY_SCALE {
            Ok(Probability { parts_per_billion: parts })
        } else {
            Err(ConfigError::ProbabilityOutOfRange)
        }
    }

    /// The probability 1.
    pub fn certain() -> (p: Probability)
        ensures
            p.is_certain(),
            p.wf(),
    {
        Probability { parts_per_billion: PROBABILITY_SCALE }
    }

    /// The probability 0.
    pub fn impossible() -> (p: Probability)
        ensures
            p.is_impossible(),
            p.wf(),
    {
        Probability { parts_per_billion: 0 }
    }

    /// The numerator of the probability over `PROBABILITY_SCALE`.
    pub fn parts_per_billion(&self) -> (parts: u64)
        ensures
            parts == self.parts(),
            parts <= PROBABILITY_SCALE,
    {
        proof {
            use_type_invariant(self);
        }
        self.parts_per_billion
    }

    /// The share of `amount` that the probability stands for, rounded down.
    pub fn scale(&self, amount: u64) -> (share: u64)
        ensures
            share == self.share_of(amount as int),
            share <= amount,
    {
        proof {
            use_type_invariant(self);
            lemma_share_bounds(amount as int, self.parts_per_billion as int);
        }
        let wide: u128 = (amount as u128) * (self.parts_per_billion as u128);
        let share: u128 = wide / (PROBABILITY_SCALE as u128);
        share as u64
    }
}

/// The share that a probability takes of an amount lies between nothing and
/// the amount, and the product it is cut from fits 128 bits.
pub proof fn lemma_share_bounds(amount: int, parts: int)
    requires
        0 <= amount <= u64::MAX,
        0 <= parts <= PROBABILITY_SCALE,
    ensures
        0 <= amount * parts <= u128::MAX,
        0 <= amount * parts / (PROBABILITY_SCALE as int) <= amount,
{
    assert(0 <= amount * parts <= amount * 1_000_000_000) by (nonlinear_arith)
        requires
            0 <= amount,
            0 <= parts <= 1_000_000_000,
    ;
    assert(amount * parts / 1_000_000_000 <= amount) by (nonlinear_arith)
        requires
            0 <= amount * parts <= amount * 1_000_000_000,
    ;
    assert(0 <= amount * parts / 1_000_000_000) by (nonlinear_arith)
        requires
            0 <= amount * parts,
    ;
}

} // verus!
