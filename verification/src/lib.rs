//! A two-party escrow protocol for conditional value transfer on an
//! append-only ledger.
//!
//! A buyer deposits funds that are held by a custodial vault until release
//! conditions (milestone completion, or expiry with auto-release enabled)
//! are satisfied, or refunded to the buyer if the deal expires without
//! auto-release. Side channels record a reputation score between two
//! parties and an advisory oracle attestation tied to a contract.
//!
//! The crate models the host ledger's records as plain values: identities
//! are 32-byte keys, balances are unsigned integers, and the current ledger
//! time is a parameter of every instruction. The host's duties — account
//! storage, signature verification, and atomic execution of one instruction
//! at a time — stay outside; every rule the instructions enforce is stated
//! in their contracts and proved.

pub mod codec;
pub mod errors;
pub mod events;
pub mod instructions;
pub mod laws;
pub mod ledger;
pub mod state;
