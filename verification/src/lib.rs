//! Validator coordination for a multi-chain network segment: a registry of
//! validator identities bound to credential commitments, a time-locked
//! restaking ledger, and a credential-gated ledger of administrative fill/kill
//! operations, all behind a layered error-correction gate.

pub mod correction;
pub mod hash;
pub mod pallet;
pub mod types;
pub mod verification;

pub use hash::commit;
pub use pallet::Pallet;
