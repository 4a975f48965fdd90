//! Metering: what a relayed transaction takes from an allowance.
use vstd::prelude::*;

verus! {

/// The allowance in gas that an account must have left for a transaction of its own to be relayed.
pub const TXN_GAS_ALLOWANCE: u64 = 10_000_000_000_000;

/// The price of one unit of gas, in yoctoNEAR.
pub const YN_TO_GAS: u128 = 1_000_000_000;

/// The sum of some amounts.
pub open spec fn sum(amounts: Seq<u128>) -> nat
    decreases amounts.len(),
{
    if amounts.len() == 0 {
        0
    } else {
        sum(amounts.drop_last()) + amounts.last() as nat
    }
}

/// An amount, or the largest one that a `u128` holds where that is less.
pub open spec fn capped(amount: nat) -> nat {
    if amount <= u128::MAX {
        amount
    } else {
        u128::MAX as nat
    }
}

/// The tokens that a transaction burnt, in yoctoNEAR: those of the transaction itself and those of
/// its receipts.
pub fn calculate_total_gas_burned(transaction: u128, receipts: &Vec<u128>) -> (total: u128)
    ensures
        total == capped(transaction as nat + sum(receipts@)),
{
    let mut total: u128 = transaction;
    for i in 0..receipts.len()
        invariant
            total == capped(transaction as nat + sum(receipts@.take(i as int))),
    {
        let burnt: u128 = receipts[i];
        assert(receipts@.take(i + 1).drop_last() == receipts@.take(i as int));
        if burnt <= u128::MAX - total {
            total = total + burnt;
        } else {
            total = u128::MAX;
        }
    }
    assert(receipts@.take(receipts@.len() as int) == receipts@);
    total
}

/// What is left of an allowance in gas after a transaction that burnt some tokens: never less than
/// nothing.
pub open spec fn allowance_left(gas_used_in_yn: u128, allowance: u64) -> u64 {
    if allowance as int <= gas_used_in_yn as int / YN_TO_GAS as int {
        0
    } else {
        (allowance - gas_used_in_yn as int / YN_TO_GAS as int) as u64
    }
}

/// Takes the gas that a transaction used from an allowance.
pub fn remaining_allowance(gas_used_in_yn: u128, allowance: u64) -> (left: u64)
    ensures
        left == allowance_left(gas_used_in_yn, allowance),
{
    let gas_used: u128 = gas_used_in_yn / YN_TO_GAS;
    if allowance as u128 <= gas_used {
        0
    } else {
        allowance - gas_used as u64
    }
}

} // verus!
