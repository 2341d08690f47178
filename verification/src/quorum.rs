//! The release rule: a quorum of the escrow's parties before the timelock
//! expires, the seller alone once it has.

use vstd::prelude::*;
use crate::address::Address;
use crate::error::EscrowError;

verus! {

/// The parties that may authorize a release.
#[derive(Clone, Copy, Debug, PartialEq, Eq)]
pub struct Roles {
    pub buyer: Address,
    pub seller: Address,
    pub moderator: Option<Address>,
}

impl Roles {
    /// The set of distinct parties: buyer, seller and, if there is one, the moderator.
    pub open spec fn parties(self) -> Set<Address> {
        match self.moderator {
            Some(m) => set![self.buyer, self.seller, m],
            None => set![self.buyer, self.seller],
        }
    }

    /// The number of distinct parties that are among `signers`.
    pub open spec fn signed_count(self, signers: Set<Address>) -> nat {
        self.parties().intersect(signers).len()
    }
}

/// Whether a timelock is set (`unlock_time > 0`) and has been reached.
pub open spec fn timelock_expired(unlock_time: i64, current_time: i64) -> bool {
    unlock_time > 0 && current_time >= unlock_time
}

/// Whether at least `required` distinct parties are among `signers`.
pub open spec fn quorum_met(signers: Set<Address>, roles: Roles, required: u8) -> bool {
    roles.signed_count(signers) >= required
}

/// The release rule. Once the timelock has expired the seller must be among the
/// signers, and nothing else counts; until then, and always when no timelock is
/// set, the quorum must be met.
pub open spec fn release_authorized(
    signers: Set<Address>,
    roles: Roles,
    required: u8,
    unlock_time: i64,
    current_time: i64,
) -> bool {
    if timelock_expired(unlock_time, current_time) {
        signers.contains(roles.seller)
    } else {
        quorum_met(signers, roles, required)
    }
}

/// The count of signed parties written out party by party, each distinct party once.
pub open spec fn count_by_party(roles: Roles, signers: Set<Address>) -> nat {
    let buyer: nat = if signers.contains(roles.buyer) { 1 } else { 0 };
    let seller: nat = if roles.seller != roles.buyer && signers.contains(roles.seller) { 1 } else { 0 };
    let moderator: nat = match roles.moderator {
        Some(m) => if m != roles.buyer && m != roles.seller && signers.contains(m) { 1 } else { 0 },
        None => 0,
    };
    buyer + seller + moderator
}

/// The cardinality of "parties that signed" equals the party-by-party count.
pub proof fn lemma_signed_count(roles: Roles, signers: Set<Address>)
    ensures
        roles.parties().finite(),
        roles.signed_count(signers) == count_by_party(roles, signers),
        roles.signed_count(signers) <= 3,
        roles.moderator is None ==> roles.signed_count(signers) <= 2,
{
    let none = Set::<Address>::empty();
    let t1 = if signers.contains(roles.buyer) { none.insert(roles.buyer) } else { none };
    let t2 = if signers.contains(roles.seller) { t1.insert(roles.seller) } else { t1 };
    let t3 = match roles.moderator {
        Some(m) => if signers.contains(m) { t2.insert(m) } else { t2 },
        None => t2,
    };
    assert(roles.parties().intersect(signers) =~= t3);
}

/// Whether `key` occurs in `list`.
pub fn contains_address(list: &[Address], key: &Address) -> (found: bool)
    ensures
        found == list@.contains(*key),
        found == list@.to_set().contains(*key),
{
    let mut i: usize = 0;
    while i < list.len()
        invariant
            i <= list.len(),
            forall|j: int| 0 <= j < i ==> list@[j] != *key,
        decreases list.len() - i,
    {
        if list[i] == *key {
            return true;
        }
        i += 1;
    }
    false
}

/// Counts the distinct parties that occur in `signers`.
pub fn count_signed_parties(signers: &[Address], roles: &Roles) -> (count: u8)
    ensures
        count == roles.signed_count(signers@.to_set()),
        count <= 3,
{
    proof {
        lemma_signed_count(*roles, signers@.to_set());
    }
    let mut count: u8 = 0;
    if contains_address(signers, &roles.buyer) {
        count += 1;
    }
    if roles.seller != roles.buyer && contains_address(signers, &roles.seller) {
        count += 1;
    }
    match roles.moderator {
        Some(m) => {
            if m != roles.buyer && m != roles.seller && contains_address(signers, &m) {
                count += 1;
            }
        },
        None => {},
    }
    count
}

/// Decides whether `signers` authorize a release at `current_time`.
pub fn authorize(
    signers: &[Address],
    roles: &Roles,
    required_signatures: u8,
    unlock_time: i64,
    current_time: i64,
) -> (r: Result<(), EscrowError>)
    ensures
        r is Ok <==> release_authorized(
            signers@.to_set(),
            *roles,
            required_signatures,
            unlock_time,
            current_time,
        ),
        r is Err ==> r == Err::<(), EscrowError>(EscrowError::InsufficientSignatures),
        !timelock_expired(unlock_time, current_time) ==> (r is Ok <==> roles.parties().intersect(
            signers@.to_set(),
        ).len() >= required_signatures),
        timelock_expired(unlock_time, current_time) ==> (r is Ok <==> signers@.contains(
            roles.seller,
        )),
        unlock_time == 0 ==> !timelock_expired(unlock_time, current_time),
{
    if unlock_time > 0 && current_time >= unlock_time {
        if contains_address(signers, &roles.seller) {
            Ok(())
        } else {
            Err(EscrowError::InsufficientSignatures)
        }
    } else if count_signed_parties(signers, roles) >= required_signatures {
        Ok(())
    } else {
        Err(EscrowError::InsufficientSignatures)
    }
}

} // verus!
