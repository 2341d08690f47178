//! The instructions of the escrow programs built on account declarations:
//! each takes the accounts it was given as plain values.

pub mod deposit;
pub mod initialize;
pub mod initialize_pool;
pub mod initialize_sol;
pub mod initialize_sol_record;
pub mod initialize_token;
pub mod initialize_token_pool;
pub mod initialize_token_record;
pub mod release;
pub mod release_sol;
pub mod release_sol_record;
pub mod release_token;
pub mod release_token_record;
pub mod sign;
