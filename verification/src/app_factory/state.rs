//! Records, constants, errors and events of the application marketplace.

use vstd::prelude::*;
use crate::types::{text_len, Pubkey};

verus! {

/// Greatest length of an application's metadata URI, in bytes.
pub const MAX_METADATA_URI_LEN: usize = 100;

/// Greatest length of a review's comment reference, in bytes.
pub const MAX_COMMENT_CID_LEN: usize = 46;

/// Seconds after a purchase in which it can be refunded.
pub const REFUND_WINDOW: i64 = 86_400;

/// Decimals of the token that applications are paid in.
pub const DEFAI_DECIMALS: u8 = 6;

/// Marketplace-wide settings.
#[derive(Clone, Copy, Debug, PartialEq, Eq)]
pub struct AppFactory {
    pub authority: Pubkey,
    pub defai_mint: Pubkey,
    pub treasury: Pubkey,
    pub master_collection: Pubkey,
    pub platform_fee_bps: u16,
    pub total_apps: u64,
    pub bump: u8,
    pub pending_authority: Option<Pubkey>,
}

/// An application on sale.
#[derive(Clone, Debug, PartialEq, Eq)]
pub struct AppRegistration {
    pub app_id: u64,
    pub creator: Pubkey,
    pub sft_mint: Pubkey,
    pub price: u64,
    pub max_supply: u64,
    pub current_supply: u64,
    pub is_active: bool,
    pub metadata_uri: String,
    pub created_at: i64,
    pub bump: u8,
}

/// Proof that a user has bought an application.
#[derive(Clone, Copy, Debug, PartialEq, Eq)]
pub struct UserAppAccess {
    pub user: Pubkey,
    pub app_id: u64,
    pub sft_token_account: Pubkey,
    pub purchased_at: i64,
    pub bump: u8,
}

/// A user's rating of an application.
#[derive(Clone, Debug, PartialEq, Eq)]
pub struct AppReview {
    pub app_id: u64,
    pub reviewer: Pubkey,
    pub rating: u8,
    pub comment_cid: String,
    pub timestamp: i64,
    pub bump: u8,
}

/// What the marketplace reads of a token mint.
#[derive(Clone, Copy, Debug, PartialEq, Eq)]
pub struct Mint {
    pub mint_authority: Option<Pubkey>,
    pub freeze_authority: Option<Pubkey>,
    pub supply: u64,
    pub decimals: u8,
}

/// Whether the platform fee is at most 100%.
pub open spec fn factory_wf(factory: AppFactory) -> bool {
    factory.platform_fee_bps <= 10_000
}

/// Whether an application has a price, a metadata URI of at most 100 bytes,
/// and no more copies sold than it can supply.
pub open spec fn listing_wf(app: AppRegistration) -> bool {
    &&& app.price > 0
    &&& app.current_supply <= app.max_supply
    &&& text_len(app.metadata_uri@) <= MAX_METADATA_URI_LEN
}

/// Why an operation of the marketplace is refused.
#[derive(Clone, Copy, Debug, PartialEq, Eq, Structural)]
pub enum AppFactoryError {
    InvalidPlatformFee,
    InvalidPrice,
    InvalidMaxSupply,
    MetadataUriTooLong,
    AppNotActive,
    MaxSupplyReached,
    MathOverflow,
    UnauthorizedCreator,
    UnauthorizedAuthority,
    InvalidCreator,
    InvalidTreasury,
    InvalidDefaiMint,
    InvalidMintAuthority,
    InvalidFreezeAuthority,
    MintAlreadyInUse,
    InvalidMintDecimals,
    InvalidCollection,
    InsufficientBalance,
    NotPendingAuthority,
    MustOwnAppToReview,
    UnauthorizedReviewer,
    NoSftToRefund,
    InsufficientCreatorBalance,
}

/// Why a refund is refused.
#[derive(Clone, Copy, Debug, PartialEq, Eq, Structural)]
pub enum RefundError {
    RefundWindowExpired,
    NoSftToRefund,
    InsufficientCreatorBalance,
}

/// Why a review is refused.
#[derive(Clone, Copy, Debug, PartialEq, Eq, Structural)]
pub enum ReviewError {
    InvalidRating,
    MustOwnAppToReview,
    UnauthorizedReviewer,
    CommentCidTooLong,
}

/// Why a change of authority is refused.
#[derive(Clone, Copy, Debug, PartialEq, Eq, Structural)]
pub enum AuthorityError {
    NotPendingAuthority,
}

/// Why an operation is refused, by the rules of whichever part of the
/// marketplace it belongs to.
#[derive(Clone, Copy, Debug, PartialEq, Eq, Structural)]
pub enum Failure {
    Factory(AppFactoryError),
    Refund(RefundError),
    Review(ReviewError),
    Authority(AuthorityError),
}

#[derive(Clone, Copy, Debug, PartialEq, Eq)]
pub struct AppRegistered {
    pub app_id: u64,
    pub creator: Pubkey,
    pub sft_mint: Pubkey,
    pub price: u64,
    pub max_supply: u64,
    pub timestamp: i64,
}

#[derive(Clone, Copy, Debug, PartialEq, Eq)]
pub struct AppPurchased {
    pub app_id: u64,
    pub user: Pubkey,
    pub price: u64,
    pub platform_fee: u64,
    pub creator_amount: u64,
    pub timestamp: i64,
}

#[derive(Clone, Copy, Debug, PartialEq, Eq)]
pub struct AppStatusChanged {
    pub app_id: u64,
    pub is_active: bool,
    pub timestamp: i64,
}

#[derive(Clone, Copy, Debug, PartialEq, Eq)]
pub struct PlatformSettingsUpdated {
    pub platform_fee_bps: Option<u16>,
    pub treasury: Option<Pubkey>,
    pub timestamp: i64,
}

#[derive(Clone, Debug, PartialEq, Eq)]
pub struct AppRefunded {
    pub app_id: u64,
    pub user: Pubkey,
    pub refund_amount: u64,
    pub reason: String,
    pub timestamp: i64,
}

#[derive(Clone, Debug, PartialEq, Eq)]
pub struct ReviewSubmitted {
    pub app_id: u64,
    pub reviewer: Pubkey,
    pub rating: u8,
    pub comment_cid: String,
    pub timestamp: i64,
}

#[derive(Clone, Debug, PartialEq, Eq)]
pub struct ReviewUpdated {
    pub app_id: u64,
    pub reviewer: Pubkey,
    pub new_rating: u8,
    pub new_comment_cid: String,
    pub timestamp: i64,
}

#[derive(Clone, Debug, PartialEq, Eq)]
pub struct AppUpdated {
    pub app_id: u64,
    pub new_price: Option<u64>,
    pub new_metadata_uri: Option<String>,
    pub timestamp: i64,
}

#[derive(Clone, Copy, Debug, PartialEq, Eq)]
pub struct AuthorityTransferInitiated {
    pub from: Pubkey,
    pub to: Pubkey,
    pub timestamp: i64,
}

#[derive(Clone, Copy, Debug, PartialEq, Eq)]
pub struct AuthorityTransferAccepted {
    pub new_authority: Pubkey,
    pub timestamp: i64,
}

#[derive(Clone, Copy, Debug, PartialEq, Eq)]
pub struct AuthorityTransferCancelled {
    pub timestamp: i64,
}

} // verus!
