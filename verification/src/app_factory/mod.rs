//! Application marketplace: registration, purchase with a platform fee,
//! refund within a day, and reviews by buyers.

pub mod authority;
pub mod factory;
pub mod laws;
pub mod purchase_app;
pub mod purchase_with_init;
pub mod refund;
pub mod reviews;
pub mod state;
pub mod update_app;
