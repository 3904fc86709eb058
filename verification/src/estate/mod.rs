//! Inheritance vaults: liveness tracking, beneficiary payout, a joint trading
//! sub-ledger, multisig governance, emergency locks and recovery.

pub mod claims;
pub mod emergency;
pub mod laws;
pub mod lifecycle;
pub mod multisig;
pub mod recovery;
pub mod risk_management;
pub mod rwa;
pub mod state;
pub mod trading;
