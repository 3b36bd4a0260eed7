//! Accounting core of a creator-token ledger: issuance, balances with
//! time-locked vesting, patronage accrual, timed sales and whitelists proved
//! by Merkle paths.
//!
//! Every quantity that depends on time is computed from stored anchors and
//! the block number that the caller hands in; nothing here keeps a clock.
//!
//! Beside the token ledger stand a few rules of the runtime around it: which
//! balance locks are in conflict, what a heartbeat weighs, when what a
//! storage provider announced expires, and where the rest of an unstaked
//! stake goes.

use vstd::prelude::*;

pub mod account;
pub mod discovery;
pub mod error;
pub mod fixed_point;
pub mod locks;
pub mod merkle;
pub mod sale;
pub mod staking_events;
pub mod sums;
pub mod token;
pub mod transfers;
pub mod vesting;
pub mod weights;

verus! {

/// An amount of the token.
pub type Balance = u128;

/// An amount of the settlement asset.
pub type JoyBalance = u128;

/// A block number: the only notion of time.
pub type BlockNumber = u32;

/// The number of a sale of one token.
pub type TokenSaleId = u32;

} // verus!
