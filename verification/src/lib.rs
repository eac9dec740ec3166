//! A time-locked withdrawal controller.
//!
//! The controller keeps custody of funds for one beneficiary. The beneficiary
//! asks for a withdrawal, waits for the configured delay, and then claims the
//! whole balance. A separate privileged channel can burn the balance or send
//! part of it elsewhere at any time.
//!
//! The controller never moves funds itself: every operation returns the
//! instructions that the host ledger is to carry out. Nor does it store
//! anything itself, or ask the host anything: its state, the ledger's answer
//! and the host's verdict on an identity are arguments of its operations.

pub mod addr;
pub mod coin;
pub mod contract;
pub mod decimal;
pub mod env;
pub mod error;
pub mod laws;
pub mod ledger;
pub mod msg;
pub mod response;
pub mod state;
pub mod timestamp;

pub use crate::error::ContractError;
