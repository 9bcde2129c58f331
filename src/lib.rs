//! Delegated spend authorization for an owner-controlled wallet: bounded
//! operator delegation, per-intent and rolling daily limits, two-phase
//! spend intents, and a keyless derived signing authority.

pub mod authority;
pub mod error;
pub mod events;
pub mod identity;
pub mod intent;
pub mod laws;
pub mod marketplace;
pub mod policy;
pub mod wallet;
