//! Records, constants, errors and events of the swap program.

use vstd::prelude::*;
use crate::types::Pubkey;

verus! {

/// Tax rate of a user's first swap, in basis points.
pub const INITIAL_TAX_BPS: u16 = 500;

/// By how much a taxed swap raises the user's rate.
pub const TAX_INCREMENT_BPS: u16 = 100;

/// The highest tax rate.
pub const TAX_CAP_BPS: u16 = 3000;

/// Seconds without a swap after which a user's rate starts over.
pub const TAX_RESET_DURATION: i64 = 86_400;

/// Seconds between proposing a new admin and accepting it.
pub const ADMIN_TIMELOCK_DURATION: i64 = 172_800;

/// Seconds over which a bonus vests.
pub const VESTING_DURATION: i64 = 7_776_000;

/// Seconds after the start of a schedule in which nothing can be claimed.
pub const CLIFF_DURATION: i64 = 172_800;

pub const TIER_0_MIN_BONUS: u16 = 0;

pub const TIER_0_MAX_BONUS: u16 = 0;

pub const TIER_1_MIN_BONUS: u16 = 0;

pub const TIER_1_MAX_BONUS: u16 = 1500;

pub const TIER_2_MIN_BONUS: u16 = 1500;

pub const TIER_2_MAX_BONUS: u16 = 5000;

pub const TIER_3_MIN_BONUS: u16 = 2000;

pub const TIER_3_MAX_BONUS: u16 = 10000;

pub const TIER_4_MIN_BONUS: u16 = 5000;

pub const TIER_4_MAX_BONUS: u16 = 30000;

/// Root of the whitelist of early NFT holders.
pub const WHITELIST_ROOT: [u8; 32] = [
    75, 45, 118, 95, 221, 195, 106, 5, 187, 186, 56, 74, 112, 138, 19, 108, 59, 243, 44, 140, 228,
    10, 199, 125, 41, 242, 223, 102, 191, 115, 73, 142,
];

/// Program-wide settings.
#[derive(Clone, Copy, Debug, PartialEq, Eq)]
pub struct Config {
    pub admin: Pubkey,
    pub old_mint: Pubkey,
    pub new_mint: Pubkey,
    pub collection: Pubkey,
    pub treasury: Pubkey,
    pub prices: [u64; 5],
    pub paused: bool,
    pub pending_admin: Option<Pubkey>,
    pub admin_change_timestamp: i64,
    pub vrf_enabled: bool,
}

/// The authority that holds escrowed tokens.
#[derive(Clone, Copy, Debug, PartialEq, Eq)]
pub struct Escrow {
    pub bump: u8,
}

/// Program-wide tax record created at initialization.
#[derive(Clone, Copy, Debug, PartialEq, Eq)]
pub struct TaxState {
    pub current_bps: u16,
    pub bump: u8,
    pub last_reset_ts: i64,
}

/// A change that waits for its timelock.
#[derive(Clone, Copy, Debug, PartialEq, Eq)]
pub enum ProposalType {
    UpdatePrices { prices: [u64; 5] },
    UpdateTreasury { new_treasury: Pubkey },
}

/// A timelocked proposal record.
#[derive(Clone, Copy, Debug, PartialEq, Eq)]
pub struct TimelockProposal {
    pub proposer: Pubkey,
    pub proposal_type: ProposalType,
    pub execute_after: i64,
    pub executed: bool,
    pub cancelled: bool,
}

/// Settings of the NFT collection: per-tier prices and supplies, and the two
/// whitelist roots.
#[derive(Clone, Debug, PartialEq, Eq)]
pub struct CollectionConfig {
    pub authority: Pubkey,
    pub collection_mint: Pubkey,
    pub treasury: Pubkey,
    pub defai_mint: Pubkey,
    pub old_defai_mint: Pubkey,
    pub tier_names: Vec<String>,
    pub tier_symbols: Vec<String>,
    pub tier_prices: [u64; 5],
    pub tier_supplies: [u16; 5],
    pub tier_minted: [u16; 5],
    pub tier_uri_prefixes: Vec<String>,
    pub og_tier_0_merkle_root: [u8; 32],
    pub airdrop_merkle_root: [u8; 32],
    pub og_tier_0_supply: u16,
    pub og_tier_0_minted: u16,
}

/// The randomized bonus of one NFT.
#[derive(Clone, Copy, Debug, PartialEq, Eq)]
pub struct BonusStateV6 {
    pub mint: Pubkey,
    pub tier: u8,
    pub bonus_bps: u16,
    pub vesting_start: i64,
    pub vesting_duration: i64,
    pub claimed: bool,
    pub fee_deducted: u64,
}

/// The vesting schedule of one NFT's bonus.
#[derive(Clone, Copy, Debug, PartialEq, Eq)]
pub struct VestingStateV6 {
    pub mint: Pubkey,
    pub total_amount: u64,
    pub released_amount: u64,
    pub start_timestamp: i64,
    pub end_timestamp: i64,
    pub last_claimed_timestamp: i64,
}

/// A user's escalating tax rate.
#[derive(Clone, Copy, Debug, PartialEq, Eq)]
pub struct UserTaxState {
    pub user: Pubkey,
    pub tax_rate_bps: u16,
    pub last_swap_timestamp: i64,
    pub swap_count: u32,
}

/// A whitelist root and the number of claims made against it.
#[derive(Clone, Copy, Debug, PartialEq, Eq)]
pub struct Whitelist {
    pub root: [u8; 32],
    pub claimed_count: u32,
}

/// Whether a whitelisted holder has taken the tier-0 NFT.
#[derive(Clone, Copy, Debug, PartialEq, Eq)]
pub struct OgTier0Claim {
    pub claimer: Pubkey,
    pub claimed: bool,
}

/// The vesting schedule of an airdrop.
#[derive(Clone, Copy, Debug, PartialEq, Eq)]
pub struct AirdropVesting {
    pub beneficiary: Pubkey,
    pub total_amount: u64,
    pub released_amount: u64,
    pub start_timestamp: i64,
    pub end_timestamp: i64,
    pub last_claimed_timestamp: i64,
}

/// Why an operation of the swap program is refused.
#[derive(Clone, Copy, Debug, PartialEq, Eq, Structural)]
pub enum ErrorCode {
    InsufficientOldTokens,
    InsufficientDefaiTokens,
    NoLiquidity,
    InvalidCollection,
    MathOverflow,
    NftAlreadyRedeemed,
    NoNft,
    InvalidInput,
    InvalidTreasury,
    Unauthorized,
    InvalidTier,
    AlreadyClaimed,
    InvalidMerkleProof,
    StillInCliff,
    NothingToClaim,
    TaxResetTooEarly,
    AlreadyPaused,
    NotPaused,
    ProtocolPaused,
    InvalidMint,
    InsufficientDefaiForReroll,
    NoPendingAdminChange,
    TimelockNotExpired,
    NotOnOgWhitelist,
    OgTier0AlreadyClaimed,
    InvalidNft,
    VrfAlreadyEnabled,
    VrfNotReady,
}

/// A swap went through.
#[derive(Clone, Copy, Debug, PartialEq, Eq)]
pub struct SwapExecuted {
    pub user: Pubkey,
    pub tier: u8,
    pub price: u64,
    pub tax_amount: u64,
    pub bonus_bps: u16,
    pub nft_mint: Pubkey,
    pub timestamp: i64,
}

/// An NFT was redeemed for its base amount.
#[derive(Clone, Copy, Debug, PartialEq, Eq)]
pub struct RedemptionExecuted {
    pub user: Pubkey,
    pub nft_mint: Pubkey,
    pub amount_returned: u64,
    pub fees_deducted: u64,
    pub timestamp: i64,
}

/// Vested bonus tokens were paid out.
#[derive(Clone, Copy, Debug, PartialEq, Eq)]
pub struct VestingClaimed {
    pub user: Pubkey,
    pub nft_mint: Pubkey,
    pub amount_claimed: u64,
    pub total_vested: u64,
    pub timestamp: i64,
}

/// The bonus of an NFT was drawn again.
#[derive(Clone, Copy, Debug, PartialEq, Eq)]
pub struct BonusRerolled {
    pub user: Pubkey,
    pub nft_mint: Pubkey,
    pub old_bonus_bps: u16,
    pub new_bonus_bps: u16,
    pub tax_paid: u64,
    pub timestamp: i64,
}

/// What an admin did, with the address or the amount it was about.  Where
/// the event is put on record, the action is written out as a sentence.
#[derive(Clone, Copy, Debug, PartialEq, Eq)]
pub enum AdminActionKind {
    Pause,
    Unpause,
    ProposeAdminChange { new_admin: Pubkey },
    AdminChanged { new_admin: Pubkey },
    EnableVrf,
    Withdraw { amount: u64 },
    WithdrawToken2022 { amount: u64 },
}

/// An admin action was carried out.
#[derive(Clone, Copy, Debug, PartialEq, Eq)]
pub struct AdminAction {
    pub admin: Pubkey,
    pub action: AdminActionKind,
    pub timestamp: i64,
}

/// A user's tax rate was reset.
#[derive(Clone, Copy, Debug, PartialEq, Eq)]
pub struct TaxReset {
    pub user: Pubkey,
    pub old_rate_bps: u16,
    pub new_rate_bps: u16,
    pub timestamp: i64,
}

/// An airdrop schedule was opened.
#[derive(Clone, Copy, Debug, PartialEq, Eq)]
pub struct AirdropClaimed {
    pub user: Pubkey,
    pub amount: u64,
    pub vesting_start: i64,
    pub vesting_end: i64,
}

/// Vested airdrop tokens were paid out.
#[derive(Clone, Copy, Debug, PartialEq, Eq)]
pub struct AirdropVestingClaimed {
    pub user: Pubkey,
    pub amount_claimed: u64,
    pub total_vested: u64,
    pub timestamp: i64,
}

} // verus!
