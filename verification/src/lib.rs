//! A shielded-balance token run on an account-based chain, with its
//! sequencing verified: create a mint with the confidential-transfer
//! extension, configure an associated account with generated encryption
//! keys, mint public tokens, deposit them into the shielded balance, apply
//! the pending balance, withdraw through two proof-holding accounts, and
//! close those accounts.
//!
//! The library decides and verifies: the order of the steps and of the
//! instructions inside the bootstrap transaction, the amounts and their
//! one-way flow, what a key file's contents mean, and that a failure stops
//! the run. Submitting transactions and reading files is left to the
//! program around it, which asks the library before every step.

use vstd::prelude::*;

pub mod account_setup;
pub mod addresses;
pub mod amounts;
pub mod keyfile;
pub mod plan;

verus! {

} // verus!
