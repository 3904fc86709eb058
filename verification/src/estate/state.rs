//! Records, constants, errors and events of the estate program.

use vstd::prelude::*;
use crate::estate::risk_management::RiskManagementSettings;
use crate::types::Pubkey;

verus! {

/// Shortest time without a check-in after which inheritance can start.
pub const MIN_INACTIVITY_PERIOD: i64 = 86_400;

/// Longest inactivity period: 300 years.
pub const MAX_INACTIVITY_PERIOD: i64 = 9_460_800_000;

/// Shortest grace period after the inactivity period.
pub const MIN_GRACE_PERIOD: i64 = 86_400;

/// Longest grace period: 90 days.
pub const MAX_GRACE_PERIOD: i64 = 7_776_000;

/// How many beneficiaries an estate can name.
pub const MAX_BENEFICIARIES: u8 = 10;

/// Fee for creating an estate, in lamports.
pub const ESTATE_FEE: u64 = 100_000_000;

/// Fee for recording a real-world asset, in lamports.
pub const RWA_FEE: u64 = 10_000_000;

/// Lamports that stay in the estate account and are never paid out.
pub const MIN_RENT_BALANCE: u64 = 890_880;

/// Greatest share of trading profits that the AI agent can get, in percent.
pub const MAX_PROFIT_SHARE: u8 = 50;

/// Shortest delay of an emergency withdrawal, in hours.
pub const MIN_EMERGENCY_DELAY: u32 = 24;

/// Longest delay of an emergency withdrawal, in hours.
pub const MAX_EMERGENCY_DELAY: u32 = 168;

/// Seconds between proposing a new multisig admin and accepting it.
pub const ADMIN_TIMELOCK_DURATION: i64 = 172_800;

/// Most signers of a multisig.
pub const MAX_SIGNERS: usize = 10;

/// Fewest signers of a multisig.
pub const MIN_SIGNERS: usize = 2;

/// Most proposals kept per multisig.
pub const MAX_PROPOSALS: usize = 20;

/// Seconds an estate must have been claimable before recovery can start.
pub const RECOVERY_WAIT: i64 = 2_592_000;

/// Seconds between starting a recovery and carrying it out.
pub const RECOVERY_DELAY: i64 = 604_800;

/// Someone who inherits a share of an estate.
#[derive(Clone, Copy, Debug, PartialEq, Eq)]
pub struct Beneficiary {
    pub address: Pubkey,
    pub email_hash: [u8; 32],
    pub share_percentage: u8,
    pub claimed: bool,
    pub notification_sent: bool,
}

/// How boldly the AI agent trades.
#[derive(Clone, Copy, Debug, PartialEq, Eq, Structural)]
pub enum TradingStrategy {
    Conservative,
    Balanced,
    Aggressive,
}

/// An inheritance vault with its trading sub-ledger.
#[derive(Clone, Debug, PartialEq, Eq)]
pub struct Estate {
    pub estate_id: Pubkey,
    pub owner: Pubkey,
    pub owner_email_hash: [u8; 32],
    pub last_active: i64,
    pub inactivity_period: i64,
    pub grace_period: i64,
    pub beneficiaries: Vec<Beneficiary>,
    pub total_beneficiaries: u8,
    pub creation_time: i64,
    pub estate_value: u64,
    pub is_locked: bool,
    pub is_claimable: bool,
    pub total_rwas: u32,
    pub estate_number: u64,
    pub total_claims: u8,
    pub trading_enabled: bool,
    pub ai_agent: Option<Pubkey>,
    pub trading_strategy: Option<TradingStrategy>,
    pub human_contribution: u64,
    pub ai_contribution: u64,
    pub trading_value: u64,
    pub trading_profit: i64,
    pub high_water_mark: u64,
    pub human_share: u8,
    pub ai_share: u8,
    pub stop_loss: Option<u8>,
    pub emergency_delay_hours: u32,
    pub emergency_withdrawal_initiated: bool,
    pub emergency_withdrawal_time: i64,
    pub last_trading_update: i64,
    pub multisig: Option<Pubkey>,
    pub risk_settings: Option<RiskManagementSettings>,
}

/// Counts the estates created so far.
#[derive(Clone, Copy, Debug, PartialEq, Eq)]
pub struct GlobalCounter {
    pub count: u64,
}

/// A real-world asset recorded in an estate.
#[derive(Clone, Debug, PartialEq, Eq)]
pub struct RWA {
    pub estate: Pubkey,
    pub rwa_type: String,
    pub name: String,
    pub description: String,
    pub value: String,
    pub metadata_uri: String,
    pub created_at: i64,
    pub is_active: bool,
    pub rwa_number: u32,
    pub current_owner: Pubkey,
}

/// Tokens of one mint that a beneficiary has taken.
#[derive(Clone, Copy, Debug, PartialEq, Eq)]
pub struct TokenClaim {
    pub mint: Pubkey,
    pub amount: u64,
}

/// What one beneficiary has taken out of an estate.
#[derive(Clone, Debug, PartialEq, Eq)]
pub struct ClaimRecord {
    pub estate: Pubkey,
    pub beneficiary: Pubkey,
    pub claim_time: i64,
    pub sol_amount: u64,
    pub share_percentage: u8,
    pub tokens_claimed: Vec<TokenClaim>,
    pub nfts_claimed: Vec<Pubkey>,
}

/// A snapshot of what an estate holds.
#[derive(Clone, Copy, Debug, PartialEq, Eq)]
pub struct AssetSummary {
    pub estate: Pubkey,
    pub scan_time: i64,
    pub sol_balance: u64,
    pub total_rwas: u32,
    pub active_rwas: u32,
}

/// A pending hand-over of an abandoned estate.
#[derive(Clone, Debug, PartialEq, Eq)]
pub struct Recovery {
    pub estate: Pubkey,
    pub initiator: Pubkey,
    /// Who gets the estate when the recovery is carried out.
    pub recovery_address: Pubkey,
    pub initiation_time: i64,
    pub execution_time: i64,
    pub reason: String,
    pub is_executed: bool,
}

/// A group of signers of whom a threshold must approve a proposal.
#[derive(Clone, Debug, PartialEq, Eq)]
pub struct Multisig {
    pub signers: Vec<Pubkey>,
    pub threshold: u8,
    pub proposal_count: u64,
    pub admin: Pubkey,
    pub pending_admin: Option<Pubkey>,
    pub admin_change_timestamp: i64,
}

/// What a proposal asks for.
#[derive(Clone, Debug, PartialEq, Eq)]
pub enum ProposalAction {
    UpdateBeneficiaries { beneficiaries: Vec<Beneficiary> },
    CreateRWA {
        rwa_type: String,
        name: String,
        description: String,
        value: String,
        metadata_uri: String,
    },
    DeleteRWA { rwa_id: Pubkey },
    EmergencyLock,
    EmergencyUnlock { verification_code: [u8; 32] },
    EnableTrading {
        ai_agent: Pubkey,
        human_share: u8,
        strategy: TradingStrategy,
        stop_loss: Option<u8>,
        emergency_delay_hours: u32,
    },
}

/// A governance action that waits for approvals.
#[derive(Clone, Debug, PartialEq, Eq)]
pub struct Proposal {
    pub multisig: Pubkey,
    pub proposer: Pubkey,
    pub target_estate: Pubkey,
    pub action: ProposalAction,
    pub approvals: Vec<Pubkey>,
    pub executed: bool,
    pub created_at: i64,
    pub proposal_id: u64,
}

/// Why an operation of the estate program is refused.
#[derive(Clone, Copy, Debug, PartialEq, Eq, Structural)]
pub enum EstateError {
    InvalidInactivityPeriod,
    InvalidGracePeriod,
    EstateLocked,
    UnauthorizedAccess,
    EstateClaimable,
    TooManyBeneficiaries,
    InvalidBeneficiaryShares,
    AlreadyClaimable,
    NotYetClaimable,
    NotClaimable,
    InvalidBeneficiaryIndex,
    UnauthorizedBeneficiary,
    AlreadyClaimed,
    AlreadyLocked,
    NotLocked,
    RWAAlreadyDeleted,
    InvalidClaimRecord,
    InvalidRWA,
    NotAllClaimed,
    MustClaimInheritanceFirst,
    TokenAlreadyClaimed,
    NFTAlreadyClaimed,
    InvalidNFTAmount,
    InvalidTokenMint,
    InvalidTokenOwner,
    TradingNotInitialized,
    RecoveryTooEarly,
    RecoveryAlreadyExecuted,
    RecoveryNotReady,
    TradingAlreadyEnabled,
    TradingNotEnabled,
    InvalidProfitShare,
    InvalidEmergencyDelay,
    UnauthorizedContributor,
    NoProfitsToDistribute,
    EmergencyWithdrawalAlreadyInitiated,
    EmergencyWithdrawalNotInitiated,
    EmergencyWithdrawalNotReady,
    InvalidSignerCount,
    InvalidThreshold,
    UnauthorizedSigner,
    AlreadyApproved,
    ProposalAlreadyExecuted,
    InsufficientApprovals,
    MultisigAlreadyAttached,
    NoPendingAdminChange,
    TimelockNotExpired,
    /// A sum, product or time does not fit its field.
    MathOverflow,
    /// A payout exceeds what the paying account holds.
    InsufficientFunds,
    EmergencyLockCooldown,
    InvalidLockReason,
    UnlockTooEarly,
    MaxUnlockAttemptsExceeded,
    InvalidVerificationCode,
    InvalidEmergencyState,
    NoMultisigAttached,
    InvalidMultisig,
    InvalidProposal,
    ProposalNotExecuted,
    InvalidProposalType,
    InvalidProposalEstate,
    ProposerNotExecutor,
    NotEnoughApprovals,
    InvalidRiskParameter,
    InvalidStrategyMix,
    MaxDrawdownExceeded,
    MaxDailyLossExceeded,
}

#[derive(Clone, Debug, PartialEq, Eq)]
pub struct MultisigCreated {
    pub multisig_address: Pubkey,
    pub signers: Vec<Pubkey>,
    pub threshold: u8,
    pub timestamp: i64,
}

#[derive(Clone, Copy, Debug, PartialEq, Eq)]
pub struct AdminChangeProposed {
    pub old_admin: Pubkey,
    pub new_admin: Pubkey,
    pub execute_after: i64,
    pub timestamp: i64,
}

#[derive(Clone, Copy, Debug, PartialEq, Eq)]
pub struct AdminChangeExecuted {
    pub old_admin: Pubkey,
    pub new_admin: Pubkey,
    pub timestamp: i64,
}

#[derive(Clone, Debug, PartialEq, Eq)]
pub struct ProposalCreated {
    pub proposal_id: u64,
    pub proposer: Pubkey,
    pub target_estate: Pubkey,
    pub action: ProposalAction,
    pub timestamp: i64,
}

#[derive(Clone, Copy, Debug, PartialEq, Eq)]
pub struct ProposalApproved {
    pub proposal_id: u64,
    pub approver: Pubkey,
    pub total_approvals: u8,
    pub timestamp: i64,
}

#[derive(Clone, Copy, Debug, PartialEq, Eq)]
pub struct ProposalExecuted {
    pub proposal_id: u64,
    pub executor: Pubkey,
    pub timestamp: i64,
}

#[derive(Clone, Copy, Debug, PartialEq, Eq)]
pub struct MultisigAttached {
    pub estate_id: Pubkey,
    pub multisig_address: Pubkey,
    pub timestamp: i64,
}

#[derive(Clone, Copy, Debug, PartialEq, Eq)]
pub struct EstateCreated {
    pub estate_id: Pubkey,
    pub owner: Pubkey,
    pub estate_number: u64,
    pub inactivity_period: i64,
    pub grace_period: i64,
    pub timestamp: i64,
}

#[derive(Clone, Copy, Debug, PartialEq, Eq)]
pub struct BeneficiaryAdded {
    pub estate_id: Pubkey,
    pub beneficiary_address: Pubkey,
    pub share_percentage: u8,
    pub total_beneficiaries: u8,
    pub timestamp: i64,
}

#[derive(Clone, Copy, Debug, PartialEq, Eq)]
pub struct BeneficiaryRemoved {
    pub estate_id: Pubkey,
    pub beneficiary_address: Pubkey,
    pub index: u8,
    pub timestamp: i64,
}

#[derive(Clone, Copy, Debug, PartialEq, Eq)]
pub struct EstateCheckedIn {
    pub estate_id: Pubkey,
    pub owner: Pubkey,
    pub timestamp: i64,
}

/// An estate became claimable or was frozen.
#[derive(Clone, Copy, Debug, PartialEq, Eq)]
pub struct EstateLocked {
    pub estate_id: Pubkey,
    pub timestamp: i64,
}

#[derive(Clone, Copy, Debug, PartialEq, Eq)]
pub struct EstateUnlocked {
    pub estate_id: Pubkey,
    pub timestamp: i64,
}

#[derive(Clone, Copy, Debug, PartialEq, Eq)]
pub struct InheritanceClaimed {
    pub estate_id: Pubkey,
    pub beneficiary: Pubkey,
    pub share_percentage: u8,
    pub claim_number: u64,
    pub timestamp: i64,
}

#[derive(Clone, Debug, PartialEq, Eq)]
pub struct RWAAdded {
    pub estate_id: Pubkey,
    pub rwa_id: Pubkey,
    pub metadata_uri: String,
    pub timestamp: i64,
}

#[derive(Clone, Copy, Debug, PartialEq, Eq)]
pub struct RWADeleted {
    pub estate_id: Pubkey,
    pub rwa_id: Pubkey,
    pub timestamp: i64,
}

#[derive(Clone, Copy, Debug, PartialEq, Eq)]
pub struct RecoveryInitiated {
    pub estate_id: Pubkey,
    pub admin: Pubkey,
    pub recovery_address: Pubkey,
    pub execute_after: i64,
    pub timestamp: i64,
}

#[derive(Clone, Copy, Debug, PartialEq, Eq)]
pub struct RecoveryExecuted {
    pub estate_id: Pubkey,
    pub old_owner: Pubkey,
    pub new_owner: Pubkey,
    pub timestamp: i64,
}

#[derive(Clone, Copy, Debug, PartialEq, Eq)]
pub struct TradingEnabled {
    pub estate_id: Pubkey,
    pub ai_agent: Pubkey,
    pub human_share: u8,
    pub ai_share: u8,
    pub strategy: TradingStrategy,
    pub timestamp: i64,
}

#[derive(Clone, Copy, Debug, PartialEq, Eq)]
pub struct TradingPaused {
    pub estate_id: Pubkey,
    pub timestamp: i64,
}

#[derive(Clone, Copy, Debug, PartialEq, Eq)]
pub struct TradingResumed {
    pub estate_id: Pubkey,
    pub timestamp: i64,
}

#[derive(Clone, Copy, Debug, PartialEq, Eq)]
pub struct TradingContribution {
    pub estate_id: Pubkey,
    pub contributor: Pubkey,
    pub amount: u64,
    pub is_human: bool,
    pub total_value: u64,
    pub timestamp: i64,
}

#[derive(Clone, Copy, Debug, PartialEq, Eq)]
pub struct TradingValueUpdated {
    pub estate_id: Pubkey,
    pub old_value: u64,
    pub new_value: u64,
    pub profit: i64,
    pub timestamp: i64,
}

#[derive(Clone, Copy, Debug, PartialEq, Eq)]
pub struct ProfitsDistributed {
    pub estate_id: Pubkey,
    pub human_withdrawal: u64,
    pub ai_withdrawal: u64,
    pub remaining_value: u64,
    pub timestamp: i64,
}

#[derive(Clone, Copy, Debug, PartialEq, Eq)]
pub struct EmergencyWithdrawalInitiated {
    pub estate_id: Pubkey,
    pub initiator: Pubkey,
    pub execute_after: i64,
    pub timestamp: i64,
}

#[derive(Clone, Copy, Debug, PartialEq, Eq)]
pub struct EmergencyWithdrawalExecuted {
    pub estate_id: Pubkey,
    pub human_withdrawal: u64,
    pub ai_withdrawal: u64,
    pub timestamp: i64,
}

} // verus!
