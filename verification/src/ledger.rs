//! The depositor balance arithmetic that every vault program shares.
use vstd::prelude::*;

verus! {

/// What a withdrawal of `amount` pays out of `balance`: the amount asked
/// for, or the whole balance when less is there.
pub open spec fn payout(balance: u64, amount: u64) -> u64 {
    if balance < amount {
        balance
    } else {
        amount
    }
}

/// The amount a withdrawal of `amount` pays out of `balance`; `None` when
/// the balance is empty and the withdrawal is refused.
pub fn withdrawal_amount(balance: u64, amount: u64) -> (r: Option<u64>)
    ensures
        balance == 0 ==> r is None,
        balance > 0 ==> r == Some(payout(balance, amount)),
{
    if balance <= 0 {
        return None;
    }
    let mut paid = amount;
    if balance < amount {
        paid = balance;
    }
    Some(paid)
}

/// A withdrawal never pays out more than the balance or more than was asked,
/// and what it pays plus what stays is the balance it started from.
pub proof fn lemma_payout_bounded(balance: u64, amount: u64)
    ensures
        payout(balance, amount) <= balance,
        payout(balance, amount) <= amount,
        payout(balance, amount) + (balance - payout(balance, amount)) == balance,
        amount >= balance ==> balance - payout(balance, amount) == 0,
        amount <= balance ==> payout(balance, amount) == amount,
{
}

/// Withdrawing what was just deposited pays it all out and leaves the
/// balance where it was before the deposit.
pub proof fn lemma_deposit_then_withdraw(balance: u64, amount: u64)
    requires
        balance + amount <= u64::MAX,
        balance + amount > 0,
    ensures
        payout((balance + amount) as u64, amount) == amount,
        (balance + amount) as u64 - payout((balance + amount) as u64, amount) == balance,
{
}

} // verus!
