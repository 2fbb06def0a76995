//! A two-party escrow payment protocol over a shared ledger.
//!
//! A payer deposits funds into a joint account whose identifier is derived
//! deterministically from the participant identities; both parties then
//! confirm against the recorded intent, and only a matching confirmation
//! releases the funds to the payee.

pub mod balances;
pub mod hashing;
pub mod helper;
pub mod multi_id;
pub mod payment;
pub mod primitive;
pub mod register;
