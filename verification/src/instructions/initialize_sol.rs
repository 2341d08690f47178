//! Opening an escrow of the native coin.

use vstd::prelude::*;
use crate::address::Address;
use crate::error::EscrowError;
use crate::processor::{unlock_time, unlock_time_for};
use crate::state::{threshold_valid, EscrowAccount, SolEscrow};

verus! {

/// The accounts of the instruction, and what the ledger tells it.
#[derive(Clone, Copy, Debug, PartialEq, Eq)]
pub struct InitializeSol {
    /// Who pays the deposit and the rent.
    pub payer: Address,
    pub buyer: Address,
    pub seller: Address,
    /// The bump seed of the escrow account's derived address.
    pub bump: u8,
    /// The ledger's clock.
    pub unix_timestamp: i64,
}

/// The terms of an escrow opened by `payer` at `now`, or why it is refused:
/// `AmountOverflow` if the unlock time does not fit, then
/// `InvalidRequiredSignatures` if the threshold is zero or above the number
/// of parties.
pub open spec fn opened_terms(
    payer: Address,
    buyer: Address,
    seller: Address,
    bump: u8,
    now: i64,
    moderator: Option<Address>,
    unique_id: [u8; 20],
    required_signatures: u8,
    unlock_hours: u64,
    amount: u64,
) -> Result<EscrowAccount, EscrowError> {
    match unlock_time_for(now, unlock_hours) {
        None => Err(EscrowError::AmountOverflow),
        Some(unlock_time) => if !threshold_valid(required_signatures, moderator) {
            Err(EscrowError::InvalidRequiredSignatures)
        } else {
            Ok(
                EscrowAccount {
                    is_initialized: true,
                    buyer,
                    seller,
                    moderator,
                    payer_address: payer,
                    required_signatures,
                    unlock_time,
                    unique_id,
                    amount,
                    bump,
                },
            )
        },
    }
}

/// Builds and checks the terms of a new escrow.
pub fn open_terms(
    payer: Address,
    buyer: Address,
    seller: Address,
    bump: u8,
    now: i64,
    moderator: Option<Address>,
    unique_id: [u8; 20],
    required_signatures: u8,
    unlock_hours: u64,
    amount: u64,
) -> (r: Result<EscrowAccount, EscrowError>)
    ensures
        r == opened_terms(
            payer,
            buyer,
            seller,
            bump,
            now,
            moderator,
            unique_id,
            required_signatures,
            unlock_hours,
            amount,
        ),
{
    let unlock: i64 = match unlock_time(now, unlock_hours) {
        Some(t) => t,
        None => {
            return Err(EscrowError::AmountOverflow);
        },
    };
    let base = EscrowAccount::new(
        buyer,
        seller,
        moderator,
        payer,
        required_signatures,
        unlock,
        unique_id,
        amount,
        bump,
    );
    match base.validate_required_signatures() {
        Ok(_) => Ok(base),
        Err(e) => Err(e),
    }
}

/// Opens an escrow of the native coin holding `amount`, which the payer
/// transfers to the escrow account. The escrow unlocks `unlock_hours` after
/// the ledger's time, or never if the hours are zero.
pub fn handler(
    ctx: &InitializeSol,
    moderator: Option<Address>,
    unique_id: [u8; 20],
    required_signatures: u8,
    unlock_hours: u64,
    amount: u64,
) -> (r: Result<SolEscrow, EscrowError>)
    ensures
        match r {
            Ok(escrow) => opened_terms(
                ctx.payer,
                ctx.buyer,
                ctx.seller,
                ctx.bump,
                ctx.unix_timestamp,
                moderator,
                unique_id,
                required_signatures,
                unlock_hours,
                amount,
            ) == Ok::<EscrowAccount, EscrowError>(escrow.base),
            Err(e) => opened_terms(
                ctx.payer,
                ctx.buyer,
                ctx.seller,
                ctx.bump,
                ctx.unix_timestamp,
                moderator,
                unique_id,
                required_signatures,
                unlock_hours,
                amount,
            ) == Err::<EscrowAccount, EscrowError>(e),
        },
{
    match open_terms(
        ctx.payer,
        ctx.buyer,
        ctx.seller,
        ctx.bump,
        ctx.unix_timestamp,
        moderator,
        unique_id,
        required_signatures,
        unlock_hours,
        amount,
    ) {
        Ok(base) => Ok(SolEscrow { base }),
        Err(e) => Err(e),
    }
}

} // verus!
