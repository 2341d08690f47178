//! Payment lists: their total, and the checks made before a release pays.

use vstd::prelude::*;
use crate::error::EscrowError;
use crate::state::MAX_PAYMENT_TARGETS;

verus! {

/// The sum of the first `n` amounts.
pub open spec fn sum_upto(amounts: Seq<u64>, n: int) -> int
    decreases n,
{
    if n <= 0 {
        0
    } else {
        sum_upto(amounts, n - 1) + amounts[n - 1]
    }
}

/// The sum of all amounts, as a mathematical integer: it never wraps.
pub open spec fn total(amounts: Seq<u64>) -> int {
    sum_upto(amounts, amounts.len() as int)
}

/// A longer prefix never sums to less.
pub proof fn lemma_sum_monotone(amounts: Seq<u64>, n: int, m: int)
    requires
        0 <= n <= m,
    ensures
        0 <= sum_upto(amounts, n) <= sum_upto(amounts, m),
    decreases m,
{
    if n < m {
        lemma_sum_monotone(amounts, n, m - 1);
    } else if n > 0 {
        lemma_sum_monotone(amounts, n - 1, n - 1);
        lemma_sum_monotone(amounts, n - 1, m - 1);
    }
}

/// Why a payment list is refused against a balance of `limit`, if it is:
/// more than four payments, none at all, a payment of zero, or a total above
/// the balance, in this order.
pub open spec fn payment_refusal(amounts: Seq<u64>, limit: u64) -> Option<EscrowError> {
    if amounts.len() > 4 {
        Some(EscrowError::TooManyRecipients)
    } else if amounts.len() == 0 {
        Some(EscrowError::InvalidPaymentParameters)
    } else if exists|i: int| 0 <= i < amounts.len() && amounts[i] == 0 {
        Some(EscrowError::ZeroPaymentAmount)
    } else if total(amounts) > limit {
        Some(EscrowError::PaymentAmountExceedsEscrow)
    } else {
        None
    }
}

/// Whether some amount is zero.
pub fn has_zero(amounts: &[u64]) -> (r: bool)
    ensures
        r == exists|i: int| 0 <= i < amounts@.len() && amounts@[i] == 0,
{
    let mut i: usize = 0;
    while i < amounts.len()
        invariant
            i <= amounts.len(),
            forall|j: int| 0 <= j < i ==> amounts@[j] != 0,
        decreases amounts.len() - i,
    {
        if amounts[i] == 0 {
            return true;
        }
        i += 1;
    }
    false
}

/// The total of `amounts` if it is at most `limit`, else `None`.
pub fn total_within(amounts: &[u64], limit: u64) -> (r: Option<u64>)
    ensures
        match r {
            Some(sum) => sum == total(amounts@) && sum <= limit,
            None => total(amounts@) > limit,
        },
{
    let mut sum: u64 = 0;
    let mut i: usize = 0;
    while i < amounts.len()
        invariant
            i <= amounts.len(),
            sum == sum_upto(amounts@, i as int),
            sum <= limit,
        decreases amounts.len() - i,
    {
        if amounts[i] > limit - sum {
            proof {
                lemma_sum_monotone(amounts@, i + 1, amounts@.len() as int);
            }
            return None;
        }
        sum = sum + amounts[i];
        i += 1;
    }
    Some(sum)
}

/// Checks a payment list against the balance `limit`.
pub fn check_payments(amounts: &[u64], limit: u64) -> (r: Result<u64, EscrowError>)
    ensures
        match r {
            Ok(sum) => payment_refusal(amounts@, limit) is None && sum == total(amounts@),
            Err(e) => payment_refusal(amounts@, limit) == Some(e),
        },
{
    if amounts.len() > MAX_PAYMENT_TARGETS {
        return Err(EscrowError::TooManyRecipients);
    }
    if amounts.len() == 0 {
        return Err(EscrowError::InvalidPaymentParameters);
    }
    if has_zero(amounts) {
        return Err(EscrowError::ZeroPaymentAmount);
    }
    match total_within(amounts, limit) {
        Some(sum) => Ok(sum),
        None => Err(EscrowError::PaymentAmountExceedsEscrow),
    }
}

} // verus!
