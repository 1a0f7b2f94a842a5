//! A multi-party construction escrow: funds deposited by a buyer are paid to a
//! seller in full or by milestones once an M-of-N oracle quorum confirms
//! delivery, less platform fees, an insurance cut, a retention held back until
//! a warranty window ends, and late-delivery penalties. An arbiter can split a
//! disputed balance.
//!
//! The library is the lifecycle engine only. It never moves funds: every
//! operation that pays out returns the list of transfers that the host must
//! perform, and the host supplies the current time and the vault balance.

pub mod config;
pub mod dispute;
pub mod error;
pub mod escrow;
pub mod identity;
pub mod milestone;
pub mod payout;
pub mod quorum;
pub mod release;
