//! Governance state-machine core: derived account addresses, the governing-token
//! escrow, the entity records and the proposal lifecycle.

pub mod addin;
pub mod address;
pub mod error;
pub mod escrow;
pub mod instruction;
pub mod loader;
pub mod proposal;
pub mod registry;
pub mod state;
pub mod timelock;
pub mod token;
pub mod voting;
