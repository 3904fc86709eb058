//! Token swap for bonus NFTs: tiered prices, a per-user escalating tax, a
//! randomized bonus that vests linearly, and whitelisted airdrops.

pub mod admin;
pub mod airdrop;
pub mod bonus;
pub mod nft;
pub mod randomness;
pub mod state;
pub mod swaps;
pub mod tax;
pub mod vrf;
