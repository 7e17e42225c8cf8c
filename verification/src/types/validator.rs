//! A validator of the simulated network.

use super::config::BASE_REWARDS_PER_EPOCH;
use super::config::BASE_REWARD_FACTOR;
use super::config::EFFECTIVE_BALANCE_INCREMENT;
use super::config::MAX_EFFECTIVE_BALANCE;
use vstd::prelude::*;

verus! {

/// A staking participant. Its place in the state is its identity.
#[derive(Clone, Copy, Debug, PartialEq, Eq)]
pub struct Validator {
    /// What the validator owns, in the smallest unit.
    pub balance: u64,
    /// The balance that rewards are computed from: a multiple of the
    /// increment, at most the maximum, that follows the balance with a lag.
    pub effective_balance: u64,
    /// The validator was active during the previous epoch.
    pub is_active: bool,
    /// The validator was slashed.
    pub is_slashed: bool,
}

/// The base reward of an effective balance, given the integer square root of
/// the total active balance: `effective_balance × factor / sqrt / rewards per epoch`,
/// each division rounded down.
pub open spec fn base_reward_of(effective_balance: int, sqrt_total_active_balance: int) -> int {
    effective_balance * BASE_REWARD_FACTOR / sqrt_total_active_balance / (
    BASE_REWARDS_PER_EPOCH as int)
}

/// A balance is too far from an effective balance when it lies below it, or
/// more than one and a half increments above it.
pub open spec fn out_of_range(balance: int, effective_balance: int) -> bool {
    balance < effective_balance || effective_balance + 3 * (EFFECTIVE_BALANCE_INCREMENT / 2)
        < balance
}

/// A balance rounded down to the increment and capped at the maximum.
pub open spec fn rounded_and_capped(balance: int) -> int {
    let rounded = balance - balance % (EFFECTIVE_BALANCE_INCREMENT as int);
    if rounded <= MAX_EFFECTIVE_BALANCE {
        rounded
    } else {
        MAX_EFFECTIVE_BALANCE as int
    }
}

/// The effective balance that follows from a balance and the effective
/// balance so far: unchanged while the balance stays in range, else the
/// balance rounded down and capped.
pub open spec fn effective_balance_after(balance: int, effective_balance: int) -> int {
    if out_of_range(balance, effective_balance) {
        rounded_and_capped(balance)
    } else {
        effective_balance
    }
}

impl Validator {
    /// The effective balance is a multiple of the increment and at most the
    /// maximum.
    pub open spec fn wf(&self) -> bool {
        &&& self.effective_balance <= MAX_EFFECTIVE_BALANCE
        &&& self.effective_balance % EFFECTIVE_BALANCE_INCREMENT == 0
    }

    /// The validator takes part in the epoch: it is active and not slashed.
    pub open spec fn is_eligible(&self) -> bool {
        self.is_active && !self.is_slashed
    }

    /// The base reward of the validator, as a number.
    pub open spec fn base_reward(&self, sqrt_total_active_balance: u64) -> int {
        base_reward_of(self.effective_balance as int, sqrt_total_active_balance as int)
    }

    /// Whether the validator is active and not slashed.
    pub fn eligible(&self) -> (eligible: bool)
        ensures
            eligible == self.is_eligible(),
    {
        self.is_active && !self.is_slashed
    }

    /// The base reward of the validator, where it fits 64 bits.
    pub fn checked_base_reward(&self, sqrt_total_active_balance: u64) -> (reward: Option<u64>)
        requires
            sqrt_total_active_balance > 0,
        ensures
            match reward {
                Some(reward) => reward == self.base_reward(sqrt_total_active_balance),
                None => self.base_reward(sqrt_total_active_balance) > u64::MAX,
            },
    {
        let scaled: u128 = (self.effective_balance as u128) * (BASE_REWARD_FACTOR as u128);
        let reward: u128 = scaled / (sqrt_total_active_balance as u128) / (
        BASE_REWARDS_PER_EPOCH as u128);
        if reward <= u64::MAX as u128 {
            Some(reward as u64)
        } else {
            None
        }
    }

    /// The base reward of the validator for the given integer square root of
    /// the total active balance.
    pub fn get_base_reward(&self, sqrt_total_active_balance: u64) -> (reward: u64)
        requires
            sqrt_total_active_balance > 0,
            self.base_reward(sqrt_total_active_balance) <= u64::MAX,
        ensures
            reward == self.base_reward(sqrt_total_active_balance),
    {
        let scaled: u128 = (self.effective_balance as u128) * (BASE_REWARD_FACTOR as u128);
        let reward: u128 = scaled / (sqrt_total_active_balance as u128) / (
        BASE_REWARDS_PER_EPOCH as u128);
        reward as u64
    }

    /// Lets the effective balance follow the balance, with hysteresis.
    pub fn update_effective_balance(&mut self)
        ensures
            final(self).effective_balance == effective_balance_after(
                old(self).balance as int,
                old(self).effective_balance as int,
            ),
            final(self).balance == old(self).balance,
            final(self).is_active == old(self).is_active,
            final(self).is_slashed == old(self).is_slashed,
            old(self).wf() ==> final(self).wf(),
            final(self).effective_balance <= final(self).balance || final(self).effective_balance
                == old(self).effective_balance,
    {
        let half_increment: u64 = EFFECTIVE_BALANCE_INCREMENT / 2;
        let upper: u128 = self.effective_balance as u128 + 3 * (half_increment as u128);
        if self.balance < self.effective_balance || upper < self.balance as u128 {
            let rounded: u64 = self.balance - self.balance % EFFECTIVE_BALANCE_INCREMENT;
            if rounded <= MAX_EFFECTIVE_BALANCE {
                self.effective_balance = rounded;
            } else {
                self.effective_balance = MAX_EFFECTIVE_BALANCE;
            }
        }
    }
}

} // verus!
