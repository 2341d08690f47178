//! Recording a party's approval, once.

use vstd::prelude::*;
use crate::address::Address;
use crate::error::EscrowError;
use crate::instructions::deposit::is_party;
use crate::state::{Escrow, EscrowState};

verus! {

/// The accounts of the instruction.
#[derive(Clone, Copy, Debug, PartialEq, Eq)]
pub struct Sign {
    pub escrow_account: Escrow,
    pub signer: Address,
}

/// Whether the signature of `signer` is already recorded: the flag of the
/// first of buyer, seller and moderator that `signer` is.
pub open spec fn has_signed(escrow: Escrow, signer: Address) -> bool {
    if signer == escrow.buyer {
        escrow.buyer_signed
    } else if signer == escrow.seller {
        escrow.seller_signed
    } else {
        escrow.moderator == Some(signer) && escrow.moderator_signed
    }
}

/// The record after the signature, or why it is refused: the account must
/// hold a record (`InvalidAccountData`) of an active escrow
/// (`AlreadyCompleted`), the signer must be a party (`InvalidSigner`) and must
/// not have signed before (`AlreadySigned`).
pub open spec fn sign_outcome(ctx: Sign) -> Result<Escrow, EscrowError> {
    let escrow = ctx.escrow_account;
    if !escrow.is_initialized {
        Err(EscrowError::InvalidAccountData)
    } else if escrow.state != EscrowState::Active {
        Err(EscrowError::AlreadyCompleted)
    } else if !is_party(escrow, ctx.signer) {
        Err(EscrowError::InvalidSigner)
    } else if has_signed(escrow, ctx.signer) {
        Err(EscrowError::AlreadySigned)
    } else if ctx.signer == escrow.buyer {
        Ok(Escrow { buyer_signed: true, ..escrow })
    } else if ctx.signer == escrow.seller {
        Ok(Escrow { seller_signed: true, ..escrow })
    } else {
        Ok(Escrow { moderator_signed: true, ..escrow })
    }
}

/// Records the approval of the signer, who must be a party that has not signed yet.
pub fn handler(ctx: &Sign) -> (r: Result<Escrow, EscrowError>)
    ensures
        r == sign_outcome(*ctx),
{
    let escrow = &ctx.escrow_account;
    if !escrow.is_initialized {
        return Err(EscrowError::InvalidAccountData);
    }
    if !matches!(escrow.state, EscrowState::Active) {
        return Err(EscrowError::AlreadyCompleted);
    }
    if ctx.signer == escrow.buyer {
        if escrow.buyer_signed {
            return Err(EscrowError::AlreadySigned);
        }
        Ok(Escrow { buyer_signed: true, ..*escrow })
    } else if ctx.signer == escrow.seller {
        if escrow.seller_signed {
            return Err(EscrowError::AlreadySigned);
        }
        Ok(Escrow { seller_signed: true, ..*escrow })
    } else {
        match escrow.moderator {
            Some(m) => {
                if ctx.signer != m {
                    return Err(EscrowError::InvalidSigner);
                }
                if escrow.moderator_signed {
                    return Err(EscrowError::AlreadySigned);
                }
                Ok(Escrow { moderator_signed: true, ..*escrow })
            },
            None => Err(EscrowError::InvalidSigner),
        }
    }
}

} // verus!
