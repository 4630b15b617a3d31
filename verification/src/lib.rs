//! An escrow workflow for transferring units of a permissioned (restricted)
//! asset class between two parties, gated by an asset administrator.
//!
//! A transfer is created by escrowing funds with the contract, then resolved
//! exactly once: approved by an administrator (funds go to the recipient),
//! rejected by an administrator, or cancelled by the sender (funds return to
//! the sender in both cases).

pub mod auth;
pub mod contract;
pub mod error;
pub mod instantiate;
pub mod laws;
pub mod migrate;
pub mod msg;
pub mod state;

pub use error::ContractError;
