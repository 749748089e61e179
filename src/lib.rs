//! A verified model of an NFT program: minting certification and collection
//! tokens, and transferring them, with a single-use gate on certifications.
//!
//! `metadata` holds the records and their decoding, `ledger` the
//! model of the accounts that the operations act on, `program` the transfer
//! gate and the three operations, and
//! `laws` what holds of them over any sequence of operations.
use vstd::prelude::*;

pub mod error;
pub mod laws;
pub mod ledger;
pub mod metadata;
pub mod program;

verus! {

} // verus!
