//! Opening and funding an escrow whose parties sign on chain.

use vstd::prelude::*;
use crate::address::Address;
use crate::error::EscrowError;
use crate::instructions::release_token::TokenAccountView;
use crate::processor::{unlock_time, unlock_time_for};
use crate::state::{threshold_valid, Escrow, EscrowState, TokenType, MAX_REQUIRED_SIGNATURES};

verus! {

/// The accounts of the instruction, and what the ledger tells it.
#[derive(Clone, Copy, Debug, PartialEq, Eq)]
pub struct Initialize {
    pub buyer: Address,
    pub seller: Address,
    /// The bump seed of the escrow account's derived address.
    pub bump: u8,
    /// The ledger's clock.
    pub unix_timestamp: i64,
    /// The mint, for an escrow of tokens.
    pub token_mint: Option<Address>,
    /// The token account that the deposit comes from, for an escrow of tokens.
    pub buyer_token_account: Option<TokenAccountView>,
    /// The token account that the deposit goes to, for an escrow of tokens.
    pub escrow_token_account: Option<TokenAccountView>,
}

/// Whether the token accounts fit the asset: for tokens the mint and both
/// token accounts must be given, and the mint must be the asset's.
pub open spec fn token_accounts_fit(ctx: Initialize, token_type: TokenType) -> bool {
    match token_type {
        TokenType::Sol => true,
        TokenType::Spl(mint) => {
            &&& ctx.token_mint == Some(mint)
            &&& ctx.buyer_token_account is Some
            &&& ctx.escrow_token_account is Some
        },
    }
}

/// The record of the escrow that the instruction opens, or why it is
/// refused: the threshold must be at least one and at most the number of
/// parties (`InvalidRequiredSignatures`); the amount must be positive
/// (`ZeroAmount`); the unlock time must fit (`AmountOverflow`); and the token
/// accounts must fit the asset (`InvalidTokenAccount`).
pub open spec fn initialize_outcome(
    ctx: Initialize,
    moderator: Option<Address>,
    unique_id: [u8; 20],
    required_signatures: u8,
    unlock_hours: u64,
    token_type: TokenType,
    amount: u64,
) -> Result<Escrow, EscrowError> {
    if !threshold_valid(required_signatures, moderator) {
        Err(EscrowError::InvalidRequiredSignatures)
    } else if amount == 0 {
        Err(EscrowError::ZeroAmount)
    } else {
        match unlock_time_for(ctx.unix_timestamp, unlock_hours) {
            None => Err(EscrowError::AmountOverflow),
            Some(unlock_time) => if !token_accounts_fit(ctx, token_type) {
                Err(EscrowError::InvalidTokenAccount)
            } else {
                Ok(
                    Escrow {
                        state: EscrowState::Active,
                        buyer: ctx.buyer,
                        seller: ctx.seller,
                        moderator,
                        token_type,
                        amount,
                        unlock_time,
                        required_signatures,
                        buyer_signed: false,
                        seller_signed: false,
                        moderator_signed: false,
                        is_initialized: true,
                        unique_id,
                        bump_seed: ctx.bump,
                    },
                )
            },
        }
    }
}

/// Opens an escrow holding `amount`, which the buyer transfers to the escrow.
pub fn handler(
    ctx: &Initialize,
    moderator: Option<Address>,
    unique_id: [u8; 20],
    required_signatures: u8,
    unlock_hours: u64,
    token_type: TokenType,
    amount: u64,
) -> (r: Result<Escrow, EscrowError>)
    ensures
        r == initialize_outcome(
            *ctx,
            moderator,
            unique_id,
            required_signatures,
            unlock_hours,
            token_type,
            amount,
        ),
{
    let max_possible: u8 = if moderator.is_some() {
        MAX_REQUIRED_SIGNATURES + 1
    } else {
        MAX_REQUIRED_SIGNATURES
    };
    if required_signatures == 0 || required_signatures > max_possible {
        return Err(EscrowError::InvalidRequiredSignatures);
    }
    if amount == 0 {
        return Err(EscrowError::ZeroAmount);
    }
    let unlock: i64 = match unlock_time(ctx.unix_timestamp, unlock_hours) {
        Some(t) => t,
        None => {
            return Err(EscrowError::AmountOverflow);
        },
    };
    match token_type {
        TokenType::Spl(mint) => {
            let mint_fits = match ctx.token_mint {
                Some(given) => given == mint,
                None => false,
            };
            if !mint_fits || ctx.buyer_token_account.is_none()
                || ctx.escrow_token_account.is_none() {
                return Err(EscrowError::InvalidTokenAccount);
            }
        },
        TokenType::Sol => {},
    }
    Ok(
        Escrow {
            state: EscrowState::Active,
            buyer: ctx.buyer,
            seller: ctx.seller,
            moderator,
            token_type,
            amount,
            unlock_time: unlock,
            required_signatures,
            buyer_signed: false,
            seller_signed: false,
            moderator_signed: false,
            is_initialized: true,
            unique_id,
            bump_seed: ctx.bump,
        },
    )
}

} // verus!
