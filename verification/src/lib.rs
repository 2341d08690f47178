//! Escrow release authorization and disbursement rules.

pub mod address;
pub mod bytes;
pub mod contract_manager;
pub mod ed25519;
pub mod error;
pub mod instruction;
pub mod instructions;
pub mod laws;
pub mod layout;
pub mod message;
pub mod payment;
pub mod pool;
pub mod processor;
pub mod quorum;
pub mod state;
pub mod text;
pub mod token;
pub mod utils;
