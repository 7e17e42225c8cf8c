//! The effect of rewards and penalties on the balance of a validator.

use crate::types::deltas::Deltas;
use crate::types::validator::Validator;
use vstd::prelude::*;

verus! {

/// The balance that follows from a balance and the deltas of one epoch: the
/// rewards are added and the penalty is taken off. A penalty that exceeds
/// what is there leaves a balance of zero: balances never turn negative, and
/// no epoch fails for a penalty.
pub open spec fn balance_after(balance: int, deltas: Deltas) -> int {
    let raised = balance + deltas.rewards();
    if raised < deltas.head_ffg_penalty {
        0
    } else {
        raised - deltas.head_ffg_penalty
    }
}

/// The validator with the deltas of one epoch applied to its balance, where
/// the new balance fits 64 bits. The effective balance and both flags pass
/// through unchanged.
pub fn checked_apply_deltas(old_validator: &Validator, deltas: &Deltas) -> (new_validator: Option<
    Validator,
>)
    ensures
        match new_validator {
            Some(new_validator) => {
                &&& new_validator.balance == balance_after(old_validator.balance as int, *deltas)
                &&& new_validator.effective_balance == old_validator.effective_balance
                &&& new_validator.is_active == old_validator.is_active
                &&& new_validator.is_slashed == old_validator.is_slashed
            },
            None => balance_after(old_validator.balance as int, *deltas) > u64::MAX,
        },
{
    let raised: u128 = old_validator.balance as u128 + deltas.head_ffg_reward as u128
        + deltas.proposer_reward as u128 + deltas.attester_reward as u128;
    let penalty: u128 = deltas.head_ffg_penalty as u128;
    let balance: u128 = if raised < penalty {
        0
    } else {
        raised - penalty
    };
    if balance <= u64::MAX as u128 {
        Some(
            Validator {
                balance: balance as u64,
                effective_balance: old_validator.effective_balance,
                is_active: old_validator.is_active,
                is_slashed: old_validator.is_slashed,
            },
        )
    } else {
        None
    }
}

/// The validator with the deltas of one epoch applied to its balance. The
/// effective balance and both flags pass through unchanged.
pub fn apply_deltas(old_validator: &Validator, deltas: &Deltas) -> (new_validator: Validator)
    requires
        balance_after(old_validator.balance as int, *deltas) <= u64::MAX,
    ensures
        new_validator.balance == balance_after(old_validator.balance as int, *deltas),
        new_validator.effective_balance == old_validator.effective_balance,
        new_validator.is_active == old_validator.is_active,
        new_validator.is_slashed == old_validator.is_slashed,
{
    match checked_apply_deltas(old_validator, deltas) {
        Some(new_validator) => new_validator,
        None => *old_validator,
    }
}

} // verus!
