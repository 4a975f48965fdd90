//! What a transaction costs: every receipt counts, and the allowance pays for the gas.
use vstd::prelude::*;

use crate::gas::{calculate_total_gas_burned, remaining_allowance, sum};

verus! {

/// Every receipt counts: without receipts a transaction burns what it burns itself, and one more
/// receipt adds what it burns, up to the largest amount that can be written.
pub proof fn law_every_receipt_counts(
    transaction: u128,
    receipts: &Vec<u128>,
    total: u128,
    burnt: u128,
    more: &Vec<u128>,
    more_total: u128,
)
    requires
        call_ensures(calculate_total_gas_burned, (transaction, receipts), total),
        call_ensures(calculate_total_gas_burned, (transaction, more), more_total),
        more@ == receipts@.push(burnt),
    ensures
        receipts@.len() == 0 ==> total == transaction,
        total + burnt <= u128::MAX ==> more_total == total + burnt,
        total + burnt > u128::MAX ==> more_total == u128::MAX,
{
    assert(more@.drop_last() == receipts@);
}

/// What the transaction itself burns counts like a receipt: where nothing overflows, raising it
/// raises the total by as much.
pub proof fn law_transaction_counts(
    less: u128,
    more: u128,
    receipts: &Vec<u128>,
    less_total: u128,
    more_total: u128,
)
    requires
        call_ensures(calculate_total_gas_burned, (less, receipts), less_total),
        call_ensures(calculate_total_gas_burned, (more, receipts), more_total),
        less <= more,
    ensures
        less_total + (more - less) <= u128::MAX ==> more_total == less_total + (more - less),
        less_total + (more - less) > u128::MAX ==> more_total == u128::MAX,
{
}

/// The sum of amounts counts each: nothing for none, and one more adds itself.
pub proof fn law_sum_counts_each(amounts: Seq<u128>, amount: u128)
    ensures
        sum(Seq::empty()) == 0,
        sum(amounts.push(amount)) == sum(amounts) + amount,
{
    assert(amounts.push(amount).drop_last() == amounts);
}

/// The sum of two lists is the sum of the one and of the other.
pub proof fn law_sum_of_lists(first: Seq<u128>, second: Seq<u128>)
    ensures
        sum(first + second) == sum(first) + sum(second),
    decreases second.len(),
{
    if second.len() == 0 {
        assert(first + second == first);
        law_sum_counts_each(first, 0);
        assert(second == Seq::<u128>::empty());
    } else {
        law_sum_of_lists(first, second.drop_last());
        assert((first + second).drop_last() == first + second.drop_last());
        law_sum_counts_each(first + second.drop_last(), second.last());
        law_sum_counts_each(second.drop_last(), second.last());
        assert(first + second == (first + second.drop_last()).push(second.last()));
        assert(second == second.drop_last().push(second.last()));
    }
}

/// A unit of gas costs a billion yoctoNEAR. As long as the allowance covers the gas exactly that is
/// taken from it, and otherwise nothing is left.
pub proof fn law_allowance_pays_for_gas(gas_used_in_yn: u128, allowance: u64, left: u64)
    requires
        call_ensures(remaining_allowance, (gas_used_in_yn, allowance), left),
    ensures
        gas_used_in_yn <= allowance * 1_000_000_000 + 999_999_999 ==> (allowance - left)
            * 1_000_000_000 <= gas_used_in_yn < (allowance - left + 1) * 1_000_000_000,
        gas_used_in_yn >= allowance * 1_000_000_000 ==> left == 0,
{
}

} // verus!
