//! Verified core of three on-chain programs: an application marketplace, an
//! inheritance vault with trading and multisig governance, and a token swap
//! with randomized bonus vesting.  Every operation is a function from account
//! state and caller-supplied values to the next state and an event record.

pub mod app_factory;
pub mod arith;
pub mod estate;
pub mod hashing;
pub mod merkle;
pub mod swap;
pub mod types;
pub mod vesting;
