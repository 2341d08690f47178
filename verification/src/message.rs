//! The message that the parties sign: the escrow's identifier followed by the
//! payments, each as the recipient's 32 bytes and the amount's 8 bytes.

use vstd::prelude::*;
use crate::address::{lemma_address_eq, Address};
use crate::bytes::{append_address, append_u64, le64, lemma_le64};
use crate::layout::lemma_holds_concat;

verus! {

/// The number of payments that a message carries: the pairs of `recipients`
/// and `amounts` from index `from` up to the end of the shorter list or the
/// first empty recipient slot.
pub open spec fn payout_end(recipients: Seq<Option<Address>>, amounts: Seq<u64>, from: int) -> int
    decreases recipients.len() - from,
{
    if from < 0 || from >= recipients.len() || from >= amounts.len() || recipients[from] is None {
        from
    } else {
        payout_end(recipients, amounts, from + 1)
    }
}

/// The number of payments that a message carries.
pub open spec fn payout_count(recipients: Seq<Option<Address>>, amounts: Seq<u64>) -> int {
    payout_end(recipients, amounts, 0)
}

/// The bytes of one payment: 32 bytes of the recipient, 8 of the amount.
pub open spec fn payment_bytes(recipient: Address, amount: u64) -> Seq<u8> {
    recipient@ + le64(amount)
}

/// The bytes of the first `n` payments.
pub open spec fn payments_bytes(recipients: Seq<Option<Address>>, amounts: Seq<u64>, n: int) -> Seq<
    u8,
>
    decreases n,
{
    if n <= 0 {
        Seq::<u8>::empty()
    } else {
        payments_bytes(recipients, amounts, n - 1) + payment_bytes(
            recipients[n - 1].unwrap(),
            amounts[n - 1],
        )
    }
}

/// The signed message: the identifier, then the payments it carries.
pub open spec fn message_bytes(
    unique_id: Seq<u8>,
    recipients: Seq<Option<Address>>,
    amounts: Seq<u64>,
) -> Seq<u8> {
    unique_id + payments_bytes(recipients, amounts, payout_count(recipients, amounts))
}

/// The end of the payments lies within both lists, every slot before it is
/// filled, and the slot at it, if there is one in both lists, is empty.
pub proof fn lemma_payout_end(recipients: Seq<Option<Address>>, amounts: Seq<u64>, from: int)
    requires
        0 <= from <= recipients.len(),
        from <= amounts.len(),
    ensures
        from <= payout_end(recipients, amounts, from) <= recipients.len(),
        payout_end(recipients, amounts, from) <= amounts.len(),
        forall|i: int|
            from <= i < payout_end(recipients, amounts, from) ==> recipients[i] is Some,
        payout_end(recipients, amounts, from) < recipients.len() && payout_end(
            recipients,
            amounts,
            from,
        ) < amounts.len() ==> recipients[payout_end(recipients, amounts, from)] is None,
    decreases recipients.len() - from,
{
    if from >= recipients.len() || from >= amounts.len() || recipients[from] is None {
    } else {
        lemma_payout_end(recipients, amounts, from + 1);
    }
}

/// `n` payments take `40 * n` bytes.
pub proof fn lemma_payments_len(recipients: Seq<Option<Address>>, amounts: Seq<u64>, n: int)
    requires
        0 <= n,
    ensures
        payments_bytes(recipients, amounts, n).len() == 40 * n,
    decreases n,
{
    if n > 0 {
        lemma_payments_len(recipients, amounts, n - 1);
        lemma_address_eq(recipients[n - 1].unwrap(), recipients[n - 1].unwrap());
        lemma_le64(amounts[n - 1], amounts[n - 1]);
    }
}

/// Two lists of `n` payments with the same bytes are the same payments.
pub proof fn lemma_payments_unique(
    r1: Seq<Option<Address>>,
    a1: Seq<u64>,
    r2: Seq<Option<Address>>,
    a2: Seq<u64>,
    n: int,
)
    requires
        0 <= n,
        n <= r1.len() && n <= a1.len() && n <= r2.len() && n <= a2.len(),
        forall|i: int| 0 <= i < n ==> r1[i] is Some && r2[i] is Some,
        payments_bytes(r1, a1, n) == payments_bytes(r2, a2, n),
    ensures
        forall|i: int| 0 <= i < n ==> r1[i] == r2[i] && a1[i] == a2[i],
    decreases n,
{
    if n > 0 {
        let whole = payments_bytes(r1, a1, n);
        let k1 = r1[n - 1].unwrap();
        let k2 = r2[n - 1].unwrap();
        lemma_payments_len(r1, a1, n - 1);
        lemma_payments_len(r2, a2, n - 1);
        lemma_payments_len(r1, a1, n);
        lemma_holds_concat(whole, 0, payments_bytes(r1, a1, n - 1), payment_bytes(k1, a1[n - 1]));
        lemma_holds_concat(whole, 0, payments_bytes(r2, a2, n - 1), payment_bytes(k2, a2[n - 1]));
        assert(whole.subrange(0, whole.len() as int) =~= whole);
        assert(payments_bytes(r1, a1, n - 1) == payments_bytes(r2, a2, n - 1));
        lemma_payments_unique(r1, a1, r2, a2, n - 1);
        lemma_address_eq(k1, k2);
        lemma_le64(a1[n - 1], a2[n - 1]);
        lemma_le64(a2[n - 1], a1[n - 1]);
        let at = 40 * (n - 1);
        lemma_holds_concat(whole, at, k1@, le64(a1[n - 1]));
        lemma_holds_concat(whole, at, k2@, le64(a2[n - 1]));
    }
}

/// Builds the message to be signed for a release of escrow `unique_id` that
/// pays `amounts[i]` to `recipients[i]`.
pub fn construct_message(unique_id: &[u8; 20], recipients: &[Option<Address>], amounts: &[u64]) -> (message:
    Vec<u8>)
    ensures
        message@ == message_bytes(unique_id@, recipients@, amounts@),
        message@.len() == 20 + 40 * payout_count(recipients@, amounts@),
{
    let mut message: Vec<u8> = Vec::new();
    message.extend_from_slice(unique_id.as_slice());
    let len: usize = if amounts.len() < recipients.len() {
        amounts.len()
    } else {
        recipients.len()
    };
    let mut i: usize = 0;
    proof {
        lemma_payout_end(recipients@, amounts@, 0);
        assert(message@ =~= unique_id@ + payments_bytes(recipients@, amounts@, 0));
    }
    while i < len
        invariant
            i <= len,
            len <= recipients.len(),
            len <= amounts.len(),
            len == recipients.len() || len == amounts.len(),
            payout_end(recipients@, amounts@, i as int) == payout_count(recipients@, amounts@),
            message@ == unique_id@ + payments_bytes(recipients@, amounts@, i as int),
        ensures
            i as int == payout_count(recipients@, amounts@),
            message@ == unique_id@ + payments_bytes(recipients@, amounts@, i as int),
        decreases len - i,
    {
        match &recipients[i] {
            None => {
                break ;
            },
            Some(recipient) => {
                append_address(&mut message, recipient);
                append_u64(&mut message, amounts[i]);
                assert(message@ =~= unique_id@ + payments_bytes(recipients@, amounts@, i + 1));
            },
        }
        i += 1;
    }
    proof {
        lemma_payments_len(recipients@, amounts@, i as int);
    }
    message
}

/// Builds the message to be signed when every recipient slot is filled:
/// `amounts[i]` goes to `recipients[i]`.
pub fn create_signature_message(unique_id: &[u8; 20], recipients: &[Address], amounts: &[u64]) -> (message:
    Vec<u8>)
    requires
        amounts.len() <= recipients.len(),
    ensures
        message@ == message_bytes(
            unique_id@,
            recipients@.map_values(|a: Address| Some(a)),
            amounts@,
        ),
        message@.len() == 20 + 40 * amounts.len(),
{
    let ghost filled = recipients@.map_values(|a: Address| Some(a));
    let mut message: Vec<u8> = Vec::new();
    message.extend_from_slice(unique_id.as_slice());
    let mut i: usize = 0;
    proof {
        lemma_payout_end(filled, amounts@, 0);
        assert(message@ =~= unique_id@ + payments_bytes(filled, amounts@, 0));
    }
    while i < amounts.len()
        invariant
            i <= amounts.len(),
            amounts.len() <= recipients.len(),
            filled == recipients@.map_values(|a: Address| Some(a)),
            payout_end(filled, amounts@, i as int) == payout_count(filled, amounts@),
            message@ == unique_id@ + payments_bytes(filled, amounts@, i as int),
        decreases amounts.len() - i,
    {
        assert(filled[i as int] == Some(recipients@[i as int]));
        append_address(&mut message, &recipients[i]);
        append_u64(&mut message, amounts[i]);
        assert(message@ =~= unique_id@ + payments_bytes(filled, amounts@, i + 1));
        i += 1;
    }
    proof {
        lemma_payments_len(filled, amounts@, i as int);
    }
    message
}

} // verus!
