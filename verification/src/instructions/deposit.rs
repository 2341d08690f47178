//! Adding to the balance of an escrow whose parties sign on chain.

use vstd::prelude::*;
use crate::address::Address;
use crate::error::EscrowError;
use crate::instructions::release_token::TokenAccountView;
use crate::state::{Escrow, EscrowState, TokenType};

verus! {

/// The accounts of the instruction.
#[derive(Clone, Copy, Debug, PartialEq, Eq)]
pub struct Deposit {
    pub depositor: Address,
    pub escrow_account: Escrow,
    /// The token account that the deposit comes from, for an escrow of tokens.
    pub source: Option<TokenAccountView>,
    /// The token account that the deposit goes to, for an escrow of tokens.
    pub destination: Option<TokenAccountView>,
}

/// Whether `key` is the buyer, the seller or the moderator of `escrow`.
pub open spec fn is_party(escrow: Escrow, key: Address) -> bool {
    key == escrow.buyer || key == escrow.seller || escrow.moderator == Some(key)
}

/// Whether the token accounts of a deposit fit the escrow: for an escrow of
/// tokens both must be given and hold its mint.
pub open spec fn token_accounts_fit(ctx: Deposit) -> bool {
    match ctx.escrow_account.token_type {
        TokenType::Sol => true,
        TokenType::Spl(mint) => {
            &&& ctx.source matches Some(source) && source.mint == mint
            &&& ctx.destination matches Some(destination) && destination.mint == mint
        },
    }
}

/// The record after the deposit, or why it is refused: the account must hold
/// a record (`InvalidAccountData`) of an active escrow (`AlreadyCompleted`) of
/// which the depositor is a party (`InvalidSigner`); the amount must be
/// positive (`ZeroAmount`); the token accounts must fit (`InvalidTokenAccount`);
/// and the new balance must fit in 64 bits (`AmountOverflow`).
pub open spec fn deposit_outcome(ctx: Deposit, amount: u64) -> Result<Escrow, EscrowError> {
    let escrow = ctx.escrow_account;
    if !escrow.is_initialized {
        Err(EscrowError::InvalidAccountData)
    } else if escrow.state != EscrowState::Active {
        Err(EscrowError::AlreadyCompleted)
    } else if !is_party(escrow, ctx.depositor) {
        Err(EscrowError::InvalidSigner)
    } else if amount == 0 {
        Err(EscrowError::ZeroAmount)
    } else if !token_accounts_fit(ctx) {
        Err(EscrowError::InvalidTokenAccount)
    } else if escrow.amount + amount > u64::MAX {
        Err(EscrowError::AmountOverflow)
    } else {
        Ok(Escrow { amount: (escrow.amount + amount) as u64, ..escrow })
    }
}

/// Whether `key` is a party of `escrow`.
pub fn party(escrow: &Escrow, key: &Address) -> (r: bool)
    ensures
        r == is_party(*escrow, *key),
{
    if *key == escrow.buyer || *key == escrow.seller {
        return true;
    }
    match escrow.moderator {
        Some(m) => *key == m,
        None => false,
    }
}

/// Accepts a deposit of `amount`, which the depositor transfers to the
/// escrow, and adds it to the balance.
pub fn handler(ctx: &Deposit, amount: u64) -> (r: Result<Escrow, EscrowError>)
    ensures
        r == deposit_outcome(*ctx, amount),
{
    let escrow = &ctx.escrow_account;
    if !escrow.is_initialized {
        return Err(EscrowError::InvalidAccountData);
    }
    if !matches!(escrow.state, EscrowState::Active) {
        return Err(EscrowError::AlreadyCompleted);
    }
    if !party(escrow, &ctx.depositor) {
        return Err(EscrowError::InvalidSigner);
    }
    if amount == 0 {
        return Err(EscrowError::ZeroAmount);
    }
    match escrow.token_type {
        TokenType::Spl(mint) => {
            match ctx.source {
                Some(source) => {
                    if source.mint != mint {
                        return Err(EscrowError::InvalidTokenAccount);
                    }
                },
                None => {
                    return Err(EscrowError::InvalidTokenAccount);
                },
            }
            match ctx.destination {
                Some(destination) => {
                    if destination.mint != mint {
                        return Err(EscrowError::InvalidTokenAccount);
                    }
                },
                None => {
                    return Err(EscrowError::InvalidTokenAccount);
                },
            }
        },
        TokenType::Sol => {},
    }
    match escrow.amount.checked_add(amount) {
        Some(sum) => Ok(Escrow { amount: sum, ..*escrow }),
        None => Err(EscrowError::AmountOverflow),
    }
}

} // verus!
