//! Invoice escrow state machine: investors fund a tokenized invoice, the SME
//! settles or withdraws, investors claim pro-rata payouts, and governance
//! controls (legal hold, allowlist, caps, attestations) gate each step.

pub mod contract;
pub mod errors;
pub mod events;
pub mod laws;
pub mod model;
pub mod payout;
pub mod state;
pub mod symbol;
pub mod transfer;
pub mod types;
pub mod validation;

pub use errors::EscrowError;
