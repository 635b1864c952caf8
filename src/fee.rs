use vstd::prelude::*;
use crate::types::TokenError;

verus! {

/// Percentage of a transfer taken as fees.
pub const FEE_PERCENT: u64 = 4;

/// The three parts of a transfer: what the recipient gets and the two fees.
#[derive(Clone, Copy, Debug, PartialEq, Eq, Structural)]
pub struct FeeSplit {
    pub net_amount: u64,
    pub ecosystem_fee: u64,
    pub reward_fee: u64,
}

/// The total fee on `amount`: four percent, rounded down.
pub open spec fn total_fee(amount: nat) -> nat {
    amount * 4 / 100
}

/// The split of `amount`; the reward fee takes the odd unit of the fee.
pub open spec fn fee_split(amount: u64) -> FeeSplit {
    let fee = total_fee(amount as nat);
    FeeSplit {
        net_amount: (amount - fee) as u64,
        ecosystem_fee: (fee / 2) as u64,
        reward_fee: (fee - fee / 2) as u64,
    }
}

/// Largest amount whose fee can be computed in 64 bits.
pub open spec fn max_splittable() -> nat {
    (u64::MAX / 4) as nat
}

/// What `split` returns on `amount`.
pub open spec fn split_spec(amount: u64) -> Result<FeeSplit, TokenError> {
    if amount > max_splittable() {
        Err(TokenError::AmountOverflow)
    } else {
        Ok(fee_split(amount))
    }
}

proof fn lemma_fee_bounds(amount: nat)
    ensures
        total_fee(amount) <= amount,
        amount < 25 ==> total_fee(amount) == 0,
{
    assert(amount * 4 / 100 <= amount) by (nonlinear_arith);
    assert(amount < 25 ==> amount * 4 / 100 == 0) by (nonlinear_arith);
}

/// Splits `amount` into the net payment, the ecosystem fee and the reward fee.
pub fn split(amount: u64) -> (r: Result<FeeSplit, TokenError>)
    ensures
        r == split_spec(amount),
{
    if amount > u64::MAX / 4 {
        return Err(TokenError::AmountOverflow);
    }
    proof {
        lemma_fee_bounds(amount as nat);
    }
    let fee: u64 = amount * FEE_PERCENT / 100;
    let ecosystem_fee: u64 = fee / 2;
    Ok(FeeSplit { net_amount: amount - fee, ecosystem_fee, reward_fee: fee - ecosystem_fee })
}

/// Every amount below 2^62 splits without error, and the three parts add up
/// to the amount exactly: no token is lost or made by rounding.
pub proof fn lemma_split_conserves(amount: u64)
    requires
        amount < 0x4000_0000_0000_0000,
    ensures
        split_spec(amount) is Ok,
        split_spec(amount)->Ok_0.net_amount + split_spec(amount)->Ok_0.ecosystem_fee
            + split_spec(amount)->Ok_0.reward_fee == amount,
        split_spec(amount)->Ok_0.ecosystem_fee <= split_spec(amount)->Ok_0.reward_fee,
{
    lemma_fee_bounds(amount as nat);
}

/// An amount below 25 carries no fee: it passes through whole.
pub proof fn lemma_small_amount_no_fee(amount: u64)
    requires
        amount < 25,
    ensures
        split_spec(amount) == Ok::<FeeSplit, TokenError>(
            FeeSplit { net_amount: amount, ecosystem_fee: 0, reward_fee: 0 },
        ),
{
    lemma_fee_bounds(amount as nat);
}

} // verus!
