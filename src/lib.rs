//! A piggy bank contract: deposits are accepted while the bank is intact, the
//! owner may smash it once to take out the whole balance, and anyone may view it.
//!
//! The decisions of every entry point are verified functions over plain values.
//! The host (storage, the balance ledger, transfers) runs them and carries out
//! what they decide.

pub mod address;
pub mod bank;
pub mod laws;
