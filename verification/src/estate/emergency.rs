//! Emergency locks.  A lock freezes an estate and stops its trading.  The
//! one who locks commits to a verification code; to unlock, the same code
//! must be presented.  Every wrong code is counted, and once the count
//! reaches its cap only the estate's multisig can lift the lock.

use vstd::prelude::*;
use crate::estate::multisig::quorum_met;
use crate::estate::state::{Estate, EstateError, Multisig, Proposal, ProposalAction};
use crate::estate::trading::lock_suspends_trading;
use crate::hashing::{append_bytes, append_i64_le, i64_le_bytes, sha256, sha256_hash};
use crate::merkle::digest_eq;
use crate::types::{all_zero, byte_len, is_some_key, text_bytes, text_len, Pubkey};

verus! {

/// Seconds that must pass between two locks of one estate.
pub const EMERGENCY_LOCK_COOLDOWN: i64 = 3600;

/// Seconds that a lock stands before it can be lifted with the code.
pub const MIN_UNLOCK_DELAY: i64 = 300;

/// Wrong codes after which the code no longer lifts the lock.
pub const MAX_UNLOCK_ATTEMPTS: u8 = 5;

/// Least length of a lock's reason, exclusive, in bytes.
pub const MIN_REASON_LEN: usize = 10;

/// Greatest length of a lock's reason, in bytes.
pub const MAX_REASON_LEN: usize = 128;

/// Why an estate is locked, which decides who may lock and unlock it.
#[derive(Clone, Copy, Debug, PartialEq, Eq, Structural)]
pub enum LockType {
    SecurityBreach,
    SuspiciousActivity,
    UserInitiated,
    MultisigInitiated,
    Recovery,
}

/// The record of an estate's current or last lock.
#[derive(Clone, Debug, PartialEq, Eq)]
pub struct EmergencyLockState {
    pub estate: Pubkey,
    pub lock_timestamp: i64,
    pub unlock_timestamp: Option<i64>,
    pub lock_reason: String,
    pub lock_count: u32,
    pub last_lock_time: i64,
    pub verification_hash: [u8; 32],
    pub failed_unlock_attempts: u8,
    pub max_unlock_attempts: u8,
    pub lock_type: LockType,
    pub initiated_by: Pubkey,
    pub bump: u8,
}

#[derive(Clone, Debug, PartialEq, Eq)]
pub struct EmergencyLockInitiated {
    pub estate: Pubkey,
    pub lock_type: LockType,
    pub reason: String,
    pub initiated_by: Pubkey,
    pub lock_timestamp: i64,
    pub lock_count: u32,
}

#[derive(Clone, Copy, Debug, PartialEq, Eq)]
pub struct EmergencyUnlockSuccessful {
    pub estate: Pubkey,
    pub unlocked_by: Pubkey,
    pub unlock_timestamp: i64,
    pub lock_duration: i64,
}

#[derive(Clone, Copy, Debug, PartialEq, Eq)]
pub struct EmergencyUnlockFailed {
    pub estate: Pubkey,
    pub attempted_by: Pubkey,
    pub failed_attempts: u8,
    pub timestamp: i64,
}

#[derive(Clone, Copy, Debug, PartialEq, Eq)]
pub struct EmergencyForceUnlock {
    pub estate: Pubkey,
    pub multisig: Pubkey,
    pub proposal: Pubkey,
    pub timestamp: i64,
}

/// How an attempt to unlock with a code ended.
#[derive(Clone, Copy, Debug, PartialEq, Eq)]
pub enum UnlockOutcome {
    /// The code was right and the lock is lifted.
    Unlocked(EmergencyUnlockSuccessful),
    /// The code was wrong; the attempt is counted and the lock stands.
    Rejected(EmergencyUnlockFailed),
}

/// The governance decision that backs a lock or an unlock by multisig.
pub struct Governance<'a> {
    pub multisig: &'a Multisig,
    pub multisig_address: Pubkey,
    pub proposal: &'a Proposal,
    pub proposal_address: Pubkey,
    /// Who submits the transaction.
    pub executor: Pubkey,
}

/// Whether `authority` may lock the estate for the given reason: the owner
/// for the owner's kinds of lock; for a lock by multisig the estate must
/// have a multisig attached, and the governance decision is checked apart.
pub open spec fn may_lock(estate: Estate, authority: Pubkey, lock_type: LockType) -> bool {
    match lock_type {
        LockType::UserInitiated | LockType::SecurityBreach | LockType::SuspiciousActivity => {
            estate.owner == authority
        },
        LockType::MultisigInitiated => estate.multisig is Some,
        LockType::Recovery => false,
    }
}

/// Whether `authority` may lift a lock of the given kind with the code:
/// the owner for the owner's kinds of lock, and no one for the others.
pub open spec fn may_unlock(estate: Estate, authority: Pubkey, lock_type: LockType) -> bool {
    match lock_type {
        LockType::UserInitiated | LockType::SecurityBreach | LockType::SuspiciousActivity => {
            estate.owner == authority
        },
        LockType::MultisigInitiated => false,
        LockType::Recovery => false,
    }
}

pub fn validate_lock_authority(estate: &Estate, authority: &Pubkey, lock_type: &LockType) -> (allowed:
    bool)
    ensures
        allowed == may_lock(*estate, *authority, *lock_type),
{
    match lock_type {
        LockType::UserInitiated | LockType::SecurityBreach | LockType::SuspiciousActivity => {
            estate.owner == *authority
        },
        LockType::MultisigInitiated => estate.multisig.is_some(),
        LockType::Recovery => false,
    }
}

pub fn validate_unlock_authority(estate: &Estate, authority: &Pubkey, lock_type: &LockType) -> (allowed:
    bool)
    ensures
        allowed == may_unlock(*estate, *authority, *lock_type),
{
    match lock_type {
        LockType::UserInitiated | LockType::SecurityBreach | LockType::SuspiciousActivity => {
            estate.owner == *authority
        },
        LockType::MultisigInitiated => false,
        LockType::Recovery => false,
    }
}

/// The bytes that a lock commits to: the estate's address, the hash of the
/// owner's e-mail address, the time of the lock and the code.
pub open spec fn verification_preimage(
    estate_address: Pubkey,
    owner_email_hash: [u8; 32],
    lock_timestamp: i64,
    code: Seq<char>,
) -> Seq<u8> {
    estate_address.bytes@ + owner_email_hash@ + i64_le_bytes(lock_timestamp) + text_bytes(code)
}

/// The commitment of a lock: the SHA-256 digest of what it commits to.
pub open spec fn verification_hash(
    estate_address: Pubkey,
    owner_email_hash: [u8; 32],
    lock_timestamp: i64,
    code: Seq<char>,
) -> Seq<u8> {
    sha256(verification_preimage(estate_address, owner_email_hash, lock_timestamp, code))
}

/// Computes the commitment of a lock.
pub fn generate_verification_hash(
    estate_key: &Pubkey,
    owner_email_hash: &[u8; 32],
    lock_timestamp: i64,
    code: &str,
) -> (digest: [u8; 32])
    ensures
        digest@ == verification_hash(*estate_key, *owner_email_hash, lock_timestamp, code@),
{
    let mut data: Vec<u8> = Vec::new();
    append_bytes(&mut data, estate_key.bytes.as_slice());
    append_bytes(&mut data, owner_email_hash.as_slice());
    append_i64_le(&mut data, lock_timestamp);
    append_bytes(&mut data, code.as_bytes());
    assert(data@ == verification_preimage(*estate_key, *owner_email_hash, lock_timestamp, code@));
    sha256_hash(data.as_slice())
}

/// A lock record of an estate that has never been locked: every count and
/// time is zero, the addresses and the commitment are all zero, the reason is
/// empty, and no unlock is on record.  The first lock on such a record meets
/// no cool-down and keeps the bump it is asked with.
pub fn unused_lock_state() -> (state: EmergencyLockState)
    ensures
        never_locked(state),
{
    EmergencyLockState {
        estate: Pubkey::zero(),
        lock_timestamp: 0,
        unlock_timestamp: None,
        lock_reason: String::new(),
        lock_count: 0,
        last_lock_time: 0,
        verification_hash: [0u8; 32],
        failed_unlock_attempts: 0,
        max_unlock_attempts: 0,
        lock_type: LockType::UserInitiated,
        initiated_by: Pubkey::zero(),
        bump: 0,
    }
}

/// Whether a lock record is the record of an estate that has never been
/// locked.
pub open spec fn never_locked(state: EmergencyLockState) -> bool {
    &&& state.lock_reason@ == Seq::<char>::empty()
    &&& all_zero(state.verification_hash)
    &&& state == (EmergencyLockState {
        estate: Pubkey::spec_zero(),
        lock_timestamp: 0,
        unlock_timestamp: None,
        lock_reason: state.lock_reason,
        lock_count: 0,
        last_lock_time: 0,
        verification_hash: state.verification_hash,
        failed_unlock_attempts: 0,
        max_unlock_attempts: 0,
        lock_type: LockType::UserInitiated,
        initiated_by: Pubkey::spec_zero(),
        bump: 0,
    })
}

/// The first check on a governance decision that fails, if any.  The
/// decision must come from the estate's own multisig, be an executed
/// proposal of the wanted kind that targets this estate, be submitted by its
/// proposer, and carry the multisig's threshold of approvals.
pub open spec fn governance_error(
    estate: Estate,
    estate_address: Pubkey,
    multisig: Multisig,
    multisig_address: Pubkey,
    proposal: Proposal,
    executor: Pubkey,
    for_unlock: bool,
) -> Option<EstateError> {
    if estate.multisig is None {
        Some(EstateError::NoMultisigAttached)
    } else if estate.multisig != Some(multisig_address) {
        Some(EstateError::InvalidMultisig)
    } else if proposal.multisig != multisig_address {
        Some(EstateError::InvalidProposal)
    } else if !proposal.executed {
        Some(EstateError::ProposalNotExecuted)
    } else if for_unlock && !(proposal.action is EmergencyUnlock) {
        Some(EstateError::InvalidProposalType)
    } else if !for_unlock && !(proposal.action is EmergencyLock) {
        Some(EstateError::InvalidProposalType)
    } else if proposal.target_estate != estate_address {
        Some(EstateError::InvalidProposalEstate)
    } else if proposal.proposer != executor {
        Some(EstateError::ProposerNotExecutor)
    } else if !quorum_met(multisig, proposal) {
        Some(EstateError::NotEnoughApprovals)
    } else {
        None
    }
}

/// Checks a governance decision.
pub fn check_governance(
    estate: &Estate,
    estate_address: Pubkey,
    governance: &Governance,
    for_unlock: bool,
) -> (outcome: Result<(), EstateError>)
    ensures
        match outcome {
            Ok(_) => governance_error(
                *estate,
                estate_address,
                *governance.multisig,
                governance.multisig_address,
                *governance.proposal,
                governance.executor,
                for_unlock,
            ) is None,
            Err(e) => governance_error(
                *estate,
                estate_address,
                *governance.multisig,
                governance.multisig_address,
                *governance.proposal,
                governance.executor,
                for_unlock,
            ) == Some(e),
        },
{
    if estate.multisig.is_none() {
        return Err(EstateError::NoMultisigAttached);
    }
    if !is_some_key(estate.multisig, governance.multisig_address) {
        return Err(EstateError::InvalidMultisig);
    }
    if governance.proposal.multisig != governance.multisig_address {
        return Err(EstateError::InvalidProposal);
    }
    if !governance.proposal.executed {
        return Err(EstateError::ProposalNotExecuted);
    }
    let right_kind = match &governance.proposal.action {
        ProposalAction::EmergencyUnlock { .. } => for_unlock,
        ProposalAction::EmergencyLock => !for_unlock,
        _ => false,
    };
    if !right_kind {
        return Err(EstateError::InvalidProposalType);
    }
    if governance.proposal.target_estate != estate_address {
        return Err(EstateError::InvalidProposalEstate);
    }
    if governance.proposal.proposer != governance.executor {
        return Err(EstateError::ProposerNotExecutor);
    }
    if governance.proposal.approvals.len() < governance.multisig.threshold as usize {
        return Err(EstateError::NotEnoughApprovals);
    }
    Ok(())
}

/// What a lock is asked with.
pub struct EmergencyLockContext<'a> {
    pub authority: Pubkey,
    pub reason: String,
    pub lock_type: LockType,
    pub verification_code: &'a str,
    /// The decision behind a lock by multisig; not read for other locks.
    pub governance: Option<Governance<'a>>,
    /// Bump of the lock record, kept when the record is first used.
    pub bump: u8,
}

/// The first check on the governance side of a lock that fails, if any: a
/// lock by multisig needs a decision, and the decision must hold.
pub open spec fn lock_governance_error(
    estate: Estate,
    estate_address: Pubkey,
    request: EmergencyLockContext,
) -> Option<EstateError> {
    if request.lock_type != LockType::MultisigInitiated {
        None
    } else if request.governance is None {
        Some(EstateError::UnauthorizedAccess)
    } else {
        governance_error(
            estate,
            estate_address,
            *request.governance->0.multisig,
            request.governance->0.multisig_address,
            *request.governance->0.proposal,
            request.governance->0.executor,
            false,
        )
    }
}

/// The first check that fails when an estate is locked, if any.
pub open spec fn lock_error(
    estate: Estate,
    state: EmergencyLockState,
    estate_address: Pubkey,
    request: EmergencyLockContext,
    now: i64,
) -> Option<EstateError> {
    if !may_lock(estate, request.authority, request.lock_type) {
        Some(EstateError::UnauthorizedAccess)
    } else if estate.is_locked {
        Some(EstateError::AlreadyLocked)
    } else if lock_governance_error(estate, estate_address, request) is Some {
        lock_governance_error(estate, estate_address, request)
    } else if state.last_lock_time > 0 && now - state.last_lock_time < EMERGENCY_LOCK_COOLDOWN {
        Some(EstateError::EmergencyLockCooldown)
    } else if text_len(request.reason@) <= MIN_REASON_LEN || text_len(request.reason@)
        > MAX_REASON_LEN {
        Some(EstateError::InvalidLockReason)
    } else {
        None
    }
}

/// The number of locks after one more, which stops counting at its limit.
pub open spec fn next_lock_count(count: u32) -> u32 {
    if count == u32::MAX {
        count
    } else {
        (count + 1) as u32
    }
}

/// Whether `post` is the lock record of a lock that `request` set at `now`.
pub open spec fn lock_recorded(
    estate: Estate,
    pre: EmergencyLockState,
    post: EmergencyLockState,
    estate_address: Pubkey,
    request: EmergencyLockContext,
    now: i64,
) -> bool {
    &&& post.verification_hash@ == verification_hash(
        estate_address,
        estate.owner_email_hash,
        now,
        request.verification_code@,
    )
    &&& post == (EmergencyLockState {
        estate: estate_address,
        lock_timestamp: now,
        unlock_timestamp: None,
        lock_reason: request.reason,
        lock_count: next_lock_count(pre.lock_count),
        last_lock_time: now,
        verification_hash: post.verification_hash,
        failed_unlock_attempts: 0,
        max_unlock_attempts: MAX_UNLOCK_ATTEMPTS,
        lock_type: request.lock_type,
        initiated_by: request.authority,
        bump: if pre.lock_count == 0 {
            request.bump
        } else {
            pre.bump
        },
    })
}

/// Locks an estate and stops its trading.  The owner may lock for the
/// owner's kinds of reason; a lock by multisig needs an executed proposal to
/// lock this estate.  An estate cannot be locked while it is locked, nor
/// within an hour of its last lock, and the reason must be longer than 10
/// and at most 128 bytes.  The lock commits to the verification code.
pub fn emergency_lock_impl(
    estate: &mut Estate,
    state: &mut EmergencyLockState,
    estate_address: Pubkey,
    request: EmergencyLockContext,
    now: i64,
) -> (outcome: Result<EmergencyLockInitiated, EstateError>)
    ensures
        match outcome {
            Ok(event) => {
                &&& lock_error(*old(estate), *old(state), estate_address, request, now) is None
                &&& *final(estate) == (Estate {
                    is_locked: true,
                    trading_enabled: false,
                    ..*old(estate)
                })
                &&& lock_recorded(
                    *old(estate),
                    *old(state),
                    *final(state),
                    estate_address,
                    request,
                    now,
                )
                &&& event == (EmergencyLockInitiated {
                    estate: estate_address,
                    lock_type: request.lock_type,
                    reason: request.reason,
                    initiated_by: request.authority,
                    lock_timestamp: now,
                    lock_count: next_lock_count(old(state).lock_count),
                })
            },
            Err(e) => {
                &&& lock_error(*old(estate), *old(state), estate_address, request, now) == Some(e)
                &&& *final(estate) == *old(estate)
                &&& *final(state) == *old(state)
            },
        },
        old(estate).is_locked ==> outcome is Err,
        outcome is Ok ==> lock_suspends_trading(*final(estate)),
        lock_suspends_trading(*old(estate)) ==> lock_suspends_trading(*final(estate)),
{
    if !validate_lock_authority(estate, &request.authority, &request.lock_type) {
        return Err(EstateError::UnauthorizedAccess);
    }
    if estate.is_locked {
        return Err(EstateError::AlreadyLocked);
    }
    match request.lock_type {
        LockType::MultisigInitiated => {
            match &request.governance {
                None => {
                    return Err(EstateError::UnauthorizedAccess);
                },
                Some(governance) => {
                    check_governance(estate, estate_address, governance, false)?;
                },
            }
        },
        _ => {},
    }
    if state.last_lock_time > 0 && (now as i128 - state.last_lock_time as i128)
        < EMERGENCY_LOCK_COOLDOWN as i128 {
        return Err(EstateError::EmergencyLockCooldown);
    }
    let reason_len = byte_len(&request.reason);
    if reason_len <= MIN_REASON_LEN || reason_len > MAX_REASON_LEN {
        return Err(EstateError::InvalidLockReason);
    }
    let is_new = state.lock_count == 0;
    let announced_reason = request.reason.clone();
    let digest = generate_verification_hash(
        &estate_address,
        &estate.owner_email_hash,
        now,
        request.verification_code,
    );
    estate.is_locked = true;
    estate.trading_enabled = false;
    state.estate = estate_address;
    state.lock_timestamp = now;
    state.unlock_timestamp = None;
    state.lock_reason = request.reason;
    state.lock_count = state.lock_count.saturating_add(1);
    state.last_lock_time = now;
    state.verification_hash = digest;
    state.failed_unlock_attempts = 0;
    state.max_unlock_attempts = MAX_UNLOCK_ATTEMPTS;
    state.lock_type = request.lock_type;
    state.initiated_by = request.authority;
    if is_new {
        state.bump = request.bump;
    }
    Ok(
        EmergencyLockInitiated {
            estate: estate_address,
            lock_type: request.lock_type,
            reason: announced_reason,
            initiated_by: request.authority,
            lock_timestamp: now,
            lock_count: state.lock_count,
        },
    )
}

/// The first check that fails before the code of an unlock is looked at,
/// if any.
pub open spec fn unlock_error(
    estate: Estate,
    state: EmergencyLockState,
    estate_address: Pubkey,
    authority: Pubkey,
    now: i64,
) -> Option<EstateError> {
    if !estate.is_locked {
        Some(EstateError::NotLocked)
    } else if !may_unlock(estate, authority, state.lock_type) {
        Some(EstateError::UnauthorizedAccess)
    } else if state.estate != estate_address {
        Some(EstateError::InvalidEmergencyState)
    } else if now - state.lock_timestamp < MIN_UNLOCK_DELAY {
        Some(EstateError::UnlockTooEarly)
    } else if state.failed_unlock_attempts >= state.max_unlock_attempts {
        Some(EstateError::MaxUnlockAttemptsExceeded)
    } else if now - state.lock_timestamp > i64::MAX {
        Some(EstateError::MathOverflow)
    } else {
        None
    }
}

/// Whether `code` is the code that the lock committed to.
pub open spec fn code_matches(
    estate: Estate,
    state: EmergencyLockState,
    estate_address: Pubkey,
    code: Seq<char>,
) -> bool {
    verification_hash(estate_address, estate.owner_email_hash, state.lock_timestamp, code)
        == state.verification_hash@
}

/// Tries to lift a lock with the verification code.  The lock must have
/// stood for five minutes and fewer wrong codes than the cap must have been
/// counted.  The right code lifts the lock and clears the count; a wrong
/// code is counted and the lock stands.  Once the count has reached the cap
/// every further attempt is refused, whatever the code.
pub fn emergency_unlock_impl(
    estate: &mut Estate,
    state: &mut EmergencyLockState,
    estate_address: Pubkey,
    authority: Pubkey,
    verification_code: &str,
    now: i64,
) -> (outcome: Result<UnlockOutcome, EstateError>)
    ensures
        match outcome {
            Ok(UnlockOutcome::Unlocked(event)) => {
                &&& unlock_error(*old(estate), *old(state), estate_address, authority, now) is None
                &&& code_matches(*old(estate), *old(state), estate_address, verification_code@)
                &&& *final(estate) == (Estate { is_locked: false, ..*old(estate) })
                &&& *final(state) == (EmergencyLockState {
                    unlock_timestamp: Some(now),
                    failed_unlock_attempts: 0,
                    ..*old(state)
                })
                &&& event == (EmergencyUnlockSuccessful {
                    estate: estate_address,
                    unlocked_by: authority,
                    unlock_timestamp: now,
                    lock_duration: (now - old(state).lock_timestamp) as i64,
                })
            },
            Ok(UnlockOutcome::Rejected(event)) => {
                &&& unlock_error(*old(estate), *old(state), estate_address, authority, now) is None
                &&& !code_matches(*old(estate), *old(state), estate_address, verification_code@)
                &&& *final(estate) == *old(estate)
                &&& final(estate).is_locked
                &&& *final(state) == (EmergencyLockState {
                    failed_unlock_attempts: (old(state).failed_unlock_attempts + 1) as u8,
                    ..*old(state)
                })
                &&& event == (EmergencyUnlockFailed {
                    estate: estate_address,
                    attempted_by: authority,
                    failed_attempts: (old(state).failed_unlock_attempts + 1) as u8,
                    timestamp: now,
                })
            },
            Err(e) => {
                &&& unlock_error(*old(estate), *old(state), estate_address, authority, now) == Some(
                    e,
                )
                &&& *final(estate) == *old(estate)
                &&& *final(state) == *old(state)
            },
        },
        lock_suspends_trading(*old(estate)) ==> lock_suspends_trading(*final(estate)),
{
    if !estate.is_locked {
        return Err(EstateError::NotLocked);
    }
    if !validate_unlock_authority(estate, &authority, &state.lock_type) {
        return Err(EstateError::UnauthorizedAccess);
    }
    if state.estate != estate_address {
        return Err(EstateError::InvalidEmergencyState);
    }
    let lock_duration: i128 = now as i128 - state.lock_timestamp as i128;
    if lock_duration < MIN_UNLOCK_DELAY as i128 {
        return Err(EstateError::UnlockTooEarly);
    }
    if state.failed_unlock_attempts >= state.max_unlock_attempts {
        return Err(EstateError::MaxUnlockAttemptsExceeded);
    }
    if lock_duration > i64::MAX as i128 {
        return Err(EstateError::MathOverflow);
    }
    let expected = generate_verification_hash(
        &estate_address,
        &estate.owner_email_hash,
        state.lock_timestamp,
        verification_code,
    );
    if !digest_eq(&expected, &state.verification_hash) {
        state.failed_unlock_attempts = state.failed_unlock_attempts + 1;
        return Ok(
            UnlockOutcome::Rejected(
                EmergencyUnlockFailed {
                    estate: estate_address,
                    attempted_by: authority,
                    failed_attempts: state.failed_unlock_attempts,
                    timestamp: now,
                },
            ),
        );
    }
    estate.is_locked = false;
    state.unlock_timestamp = Some(now);
    state.failed_unlock_attempts = 0;
    Ok(
        UnlockOutcome::Unlocked(
            EmergencyUnlockSuccessful {
                estate: estate_address,
                unlocked_by: authority,
                unlock_timestamp: now,
                lock_duration: lock_duration as i64,
            },
        ),
    )
}

/// The first check that fails when a multisig lifts a lock, if any.
pub open spec fn force_unlock_error(
    estate: Estate,
    state: EmergencyLockState,
    estate_address: Pubkey,
    multisig: Multisig,
    multisig_address: Pubkey,
    proposal: Proposal,
    executor: Pubkey,
) -> Option<EstateError> {
    if !estate.is_locked {
        Some(EstateError::NotLocked)
    } else if state.estate != estate_address {
        Some(EstateError::InvalidEmergencyState)
    } else {
        governance_error(
            estate,
            estate_address,
            multisig,
            multisig_address,
            proposal,
            executor,
            true,
        )
    }
}

/// Lifts a lock on the strength of a governance decision: an executed
/// proposal of the estate's own multisig to unlock this very estate, with
/// the threshold of approvals, submitted by its proposer.  This works
/// whatever the kind of lock and however many wrong codes were counted.
pub fn force_unlock_by_multisig(
    estate: &mut Estate,
    state: &mut EmergencyLockState,
    estate_address: Pubkey,
    governance: &Governance,
    now: i64,
) -> (outcome: Result<EmergencyForceUnlock, EstateError>)
    ensures
        match outcome {
            Ok(event) => {
                &&& force_unlock_error(
                    *old(estate),
                    *old(state),
                    estate_address,
                    *governance.multisig,
                    governance.multisig_address,
                    *governance.proposal,
                    governance.executor,
                ) is None
                &&& *final(estate) == (Estate { is_locked: false, ..*old(estate) })
                &&& *final(state) == (EmergencyLockState {
                    unlock_timestamp: Some(now),
                    failed_unlock_attempts: 0,
                    ..*old(state)
                })
                &&& event == (EmergencyForceUnlock {
                    estate: estate_address,
                    multisig: governance.multisig_address,
                    proposal: governance.proposal_address,
                    timestamp: now,
                })
            },
            Err(e) => {
                &&& force_unlock_error(
                    *old(estate),
                    *old(state),
                    estate_address,
                    *governance.multisig,
                    governance.multisig_address,
                    *governance.proposal,
                    governance.executor,
                ) == Some(e)
                &&& *final(estate) == *old(estate)
                &&& *final(state) == *old(state)
            },
        },
        lock_suspends_trading(*old(estate)) ==> lock_suspends_trading(*final(estate)),
{
    if !estate.is_locked {
        return Err(EstateError::NotLocked);
    }
    if state.estate != estate_address {
        return Err(EstateError::InvalidEmergencyState);
    }
    check_governance(estate, estate_address, governance, true)?;
    estate.is_locked = false;
    state.unlock_timestamp = Some(now);
    state.failed_unlock_attempts = 0;
    Ok(
        EmergencyForceUnlock {
            estate: estate_address,
            multisig: governance.multisig_address,
            proposal: governance.proposal_address,
            timestamp: now,
        },
    )
}

/// Locks an estate; see [`emergency_lock_impl`].
pub fn emergency_lock(
    estate: &mut Estate,
    state: &mut EmergencyLockState,
    estate_address: Pubkey,
    request: EmergencyLockContext,
    now: i64,
) -> (outcome: Result<EmergencyLockInitiated, EstateError>)
    ensures
        match outcome {
            Ok(event) => {
                &&& lock_error(*old(estate), *old(state), estate_address, request, now) is None
                &&& *final(estate) == (Estate {
                    is_locked: true,
                    trading_enabled: false,
                    ..*old(estate)
                })
                &&& lock_recorded(
                    *old(estate),
                    *old(state),
                    *final(state),
                    estate_address,
                    request,
                    now,
                )
                &&& event == (EmergencyLockInitiated {
                    estate: estate_address,
                    lock_type: request.lock_type,
                    reason: request.reason,
                    initiated_by: request.authority,
                    lock_timestamp: now,
                    lock_count: next_lock_count(old(state).lock_count),
                })
            },
            Err(e) => {
                &&& lock_error(*old(estate), *old(state), estate_address, request, now) == Some(e)
                &&& *final(estate) == *old(estate)
                &&& *final(state) == *old(state)
            },
        },
{
    emergency_lock_impl(estate, state, estate_address, request, now)
}

/// Tries to lift a lock with the verification code; see
/// [`emergency_unlock_impl`].
pub fn emergency_unlock(
    estate: &mut Estate,
    state: &mut EmergencyLockState,
    estate_address: Pubkey,
    authority: Pubkey,
    verification_code: &str,
    now: i64,
) -> (outcome: Result<UnlockOutcome, EstateError>)
    ensures
        match outcome {
            Ok(UnlockOutcome::Unlocked(event)) => {
                &&& unlock_error(*old(estate), *old(state), estate_address, authority, now) is None
                &&& code_matches(*old(estate), *old(state), estate_address, verification_code@)
                &&& *final(estate) == (Estate { is_locked: false, ..*old(estate) })
                &&& *final(state) == (EmergencyLockState {
                    unlock_timestamp: Some(now),
                    failed_unlock_attempts: 0,
                    ..*old(state)
                })
                &&& event == (EmergencyUnlockSuccessful {
                    estate: estate_address,
                    unlocked_by: authority,
                    unlock_timestamp: now,
                    lock_duration: (now - old(state).lock_timestamp) as i64,
                })
            },
            Ok(UnlockOutcome::Rejected(event)) => {
                &&& unlock_error(*old(estate), *old(state), estate_address, authority, now) is None
                &&& !code_matches(*old(estate), *old(state), estate_address, verification_code@)
                &&& *final(estate) == *old(estate)
                &&& *final(state) == (EmergencyLockState {
                    failed_unlock_attempts: (old(state).failed_unlock_attempts + 1) as u8,
                    ..*old(state)
                })
                &&& event == (EmergencyUnlockFailed {
                    estate: estate_address,
                    attempted_by: authority,
                    failed_attempts: (old(state).failed_unlock_attempts + 1) as u8,
                    timestamp: now,
                })
            },
            Err(e) => {
                &&& unlock_error(*old(estate), *old(state), estate_address, authority, now) == Some(
                    e,
                )
                &&& *final(estate) == *old(estate)
                &&& *final(state) == *old(state)
            },
        },
{
    emergency_unlock_impl(estate, state, estate_address, authority, verification_code, now)
}

/// Once the count of wrong codes has reached its cap, the code no longer
/// lifts the lock: every attempt is refused before the code is looked at.
pub proof fn lemma_attempts_exhausted(
    estate: Estate,
    state: EmergencyLockState,
    estate_address: Pubkey,
    authority: Pubkey,
    now: i64,
)
    requires
        state.failed_unlock_attempts >= state.max_unlock_attempts,
    ensures
        unlock_error(estate, state, estate_address, authority, now) is Some,
        unlock_error(estate, state, estate_address, authority, now) != Some(
            EstateError::MathOverflow,
        ),
{
}

} // verus!
