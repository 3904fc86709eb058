use defai_core::estate::emergency::{
    check_governance, emergency_lock, emergency_lock_impl, emergency_unlock,
    emergency_unlock_impl, force_unlock_by_multisig, generate_verification_hash,
    unused_lock_state, validate_lock_authority, validate_unlock_authority, EmergencyForceUnlock,
    EmergencyLockInitiated, EmergencyLockState, EmergencyUnlockFailed, EmergencyUnlockSuccessful,
    Governance, EmergencyLockContext, LockType, UnlockOutcome,
};
use defai_core::estate::lifecycle::{check_in, create_estate, initialize_global_counter};
use defai_core::estate::multisig::{approve_proposal, create_proposal, execute_proposal, initialize_multisig};
use defai_core::estate::state::{Estate, EstateError, Multisig, Proposal, ProposalAction};
use defai_core::types::Pubkey;

const DAY: i64 = 86_400;
const T0: i64 = 1_700_000_000;
const REASON: &str = "keys may be stolen";

fn ek(tag: u8) -> Pubkey {
    Pubkey::new([tag; 32])
}

fn lockable_estate() -> Estate {
    let mut counter = initialize_global_counter();
    create_estate(&mut counter, ek(1), ek(2), DAY, DAY, [6; 32], 0).unwrap().0
}

fn owner_request<'a>(code: &'a str) -> EmergencyLockContext<'a> {
    EmergencyLockContext {
        authority: ek(1),
        reason: REASON.to_string(),
        lock_type: LockType::UserInitiated,
        verification_code: code,
        governance: None,
        bump: 250,
    }
}

fn locked() -> (Estate, EmergencyLockState) {
    let mut estate = lockable_estate();
    let mut state = unused_lock_state();
    emergency_lock_impl(&mut estate, &mut state, ek(5), owner_request("open sesame"), T0).unwrap();
    (estate, state)
}

fn executed_proposal(action: ProposalAction) -> (Multisig, Proposal) {
    let (mut multisig, _) = initialize_multisig(ek(100), ek(90), vec![ek(11), ek(12), ek(13)], 2, 0).unwrap();
    let (mut proposal, _) = create_proposal(&mut multisig, ek(90), ek(11), ek(5), action, 1).unwrap();
    approve_proposal(&multisig, ek(90), &mut proposal, ek(12), 2).unwrap();
    execute_proposal(&multisig, ek(90), &mut proposal, ek(11), 3).unwrap();
    (multisig, proposal)
}

#[test]
fn verification_hash_is_a_known_digest() {
    assert_eq!(
        generate_verification_hash(&ek(5), &[6; 32], T0, "open sesame"),
        [
            131, 2, 56, 101, 9, 119, 129, 5, 57, 113, 96, 20, 35, 231, 238, 143, 199, 85, 62, 218,
            3, 175, 32, 81, 221, 85, 84, 190, 213, 48, 47, 199
        ]
    );
    assert_eq!(
        generate_verification_hash(&ek(5), &[6; 32], -5, "café"),
        [
            4, 251, 104, 26, 203, 134, 188, 66, 172, 12, 243, 60, 158, 45, 34, 250, 197, 24, 57,
            179, 19, 124, 17, 136, 75, 137, 31, 105, 221, 206, 33, 70
        ]
    );
    assert_ne!(
        generate_verification_hash(&ek(5), &[6; 32], T0, "open sesame"),
        generate_verification_hash(&ek(5), &[6; 32], T0, "open sesamf")
    );
}

#[test]
fn unused_lock_record_is_all_zero() {
    assert_eq!(
        unused_lock_state(),
        EmergencyLockState {
            estate: Pubkey::zero(),
            lock_timestamp: 0,
            unlock_timestamp: None,
            lock_reason: String::new(),
            lock_count: 0,
            last_lock_time: 0,
            verification_hash: [0; 32],
            failed_unlock_attempts: 0,
            max_unlock_attempts: 0,
            lock_type: LockType::UserInitiated,
            initiated_by: Pubkey::zero(),
            bump: 0,
        }
    );
}

#[test]
fn lock_authority_depends_on_the_kind_of_lock() {
    let mut estate = lockable_estate();
    for kind in [LockType::UserInitiated, LockType::SecurityBreach, LockType::SuspiciousActivity] {
        assert!(validate_lock_authority(&estate, &ek(1), &kind));
        assert!(!validate_lock_authority(&estate, &ek(9), &kind));
        assert!(validate_unlock_authority(&estate, &ek(1), &kind));
        assert!(!validate_unlock_authority(&estate, &ek(9), &kind));
    }
    assert!(!validate_lock_authority(&estate, &ek(1), &LockType::MultisigInitiated));
    assert!(!validate_lock_authority(&estate, &ek(1), &LockType::Recovery));
    assert!(!validate_unlock_authority(&estate, &ek(1), &LockType::MultisigInitiated));
    assert!(!validate_unlock_authority(&estate, &ek(1), &LockType::Recovery));
    estate.multisig = Some(ek(90));
    assert!(validate_lock_authority(&estate, &ek(9), &LockType::MultisigInitiated));
    assert!(!validate_unlock_authority(&estate, &ek(9), &LockType::MultisigInitiated));
}

#[test]
fn lock_freezes_the_estate_and_stops_trading() {
    let mut estate = lockable_estate();
    estate.trading_enabled = true;
    let mut state = unused_lock_state();
    let event = emergency_lock_impl(&mut estate, &mut state, ek(5), owner_request("open sesame"), T0).unwrap();
    assert_eq!(
        event,
        EmergencyLockInitiated {
            estate: ek(5),
            lock_type: LockType::UserInitiated,
            reason: REASON.to_string(),
            initiated_by: ek(1),
            lock_timestamp: T0,
            lock_count: 1
        }
    );
    assert!(estate.is_locked);
    assert!(!estate.trading_enabled);
    assert_eq!(
        state,
        EmergencyLockState {
            estate: ek(5),
            lock_timestamp: T0,
            unlock_timestamp: None,
            lock_reason: REASON.to_string(),
            lock_count: 1,
            last_lock_time: T0,
            verification_hash: generate_verification_hash(&ek(5), &[6; 32], T0, "open sesame"),
            failed_unlock_attempts: 0,
            max_unlock_attempts: 5,
            lock_type: LockType::UserInitiated,
            initiated_by: ek(1),
            bump: 250,
        }
    );
    assert_eq!(check_in(&mut estate, ek(1), T0 + 1), Err(EstateError::EstateLocked));
}

#[test]
fn lock_is_refused_in_order_of_its_checks() {
    let mut estate = lockable_estate();
    let mut state = unused_lock_state();
    let mut stranger = owner_request("c");
    stranger.authority = ek(9);
    assert_eq!(emergency_lock_impl(&mut estate, &mut state, ek(5), stranger, T0), Err(EstateError::UnauthorizedAccess));
    let mut recovery = owner_request("c");
    recovery.lock_type = LockType::Recovery;
    assert_eq!(emergency_lock_impl(&mut estate, &mut state, ek(5), recovery, T0), Err(EstateError::UnauthorizedAccess));
    let mut short = owner_request("c");
    short.reason = "0123456789".to_string();
    assert_eq!(emergency_lock_impl(&mut estate, &mut state, ek(5), short, T0), Err(EstateError::InvalidLockReason));
    let mut long = owner_request("c");
    long.reason = "x".repeat(129);
    assert_eq!(emergency_lock_impl(&mut estate, &mut state, ek(5), long, T0), Err(EstateError::InvalidLockReason));
    assert_eq!(estate, lockable_estate());
    assert_eq!(state, unused_lock_state());
    let mut eleven = owner_request("c");
    eleven.reason = "0123456789a".to_string();
    assert!(emergency_lock_impl(&mut estate, &mut state, ek(5), eleven, T0).is_ok());
    assert_eq!(
        emergency_lock_impl(&mut estate, &mut state, ek(5), owner_request("c"), T0 + 10_000),
        Err(EstateError::AlreadyLocked)
    );
    let mut other = lockable_estate();
    let mut fresh = unused_lock_state();
    let mut full = owner_request("c");
    full.reason = "x".repeat(128);
    assert!(emergency_lock(&mut other, &mut fresh, ek(5), full, T0).is_ok());
}

#[test]
fn second_lock_waits_for_the_cool_down_and_keeps_the_bump() {
    let (mut estate, mut state) = locked();
    assert!(matches!(
        emergency_unlock_impl(&mut estate, &mut state, ek(5), ek(1), "open sesame", T0 + 300),
        Ok(UnlockOutcome::Unlocked(_))
    ));
    let mut again = owner_request("second");
    again.bump = 7;
    again.lock_type = LockType::SecurityBreach;
    assert_eq!(
        emergency_lock_impl(&mut estate, &mut state, ek(5), again, T0 + 3_599),
        Err(EstateError::EmergencyLockCooldown)
    );
    let mut again = owner_request("second");
    again.bump = 7;
    again.lock_type = LockType::SecurityBreach;
    let event = emergency_lock_impl(&mut estate, &mut state, ek(5), again, T0 + 3_600).unwrap();
    assert_eq!(event.lock_count, 2);
    assert_eq!(state.lock_count, 2);
    assert_eq!(state.bump, 250);
    assert_eq!(state.lock_type, LockType::SecurityBreach);
    assert_eq!(state.unlock_timestamp, None);
    assert_eq!(state.verification_hash, generate_verification_hash(&ek(5), &[6; 32], T0 + 3_600, "second"));
}

#[test]
fn right_code_lifts_the_lock_after_five_minutes() {
    let (mut estate, mut state) = locked();
    assert_eq!(
        emergency_unlock_impl(&mut estate, &mut state, ek(5), ek(1), "open sesame", T0 + 299),
        Err(EstateError::UnlockTooEarly)
    );
    assert_eq!(
        emergency_unlock_impl(&mut estate, &mut state, ek(5), ek(9), "open sesame", T0 + 300),
        Err(EstateError::UnauthorizedAccess)
    );
    assert_eq!(
        emergency_unlock_impl(&mut estate, &mut state, ek(4), ek(1), "open sesame", T0 + 300),
        Err(EstateError::InvalidEmergencyState)
    );
    assert!(estate.is_locked);
    assert_eq!(
        emergency_unlock(&mut estate, &mut state, ek(5), ek(1), "open sesame", T0 + 300),
        Ok(UnlockOutcome::Unlocked(EmergencyUnlockSuccessful {
            estate: ek(5),
            unlocked_by: ek(1),
            unlock_timestamp: T0 + 300,
            lock_duration: 300
        }))
    );
    assert!(!estate.is_locked);
    assert_eq!(state.unlock_timestamp, Some(T0 + 300));
    assert_eq!(state.failed_unlock_attempts, 0);
    assert_eq!(
        emergency_unlock_impl(&mut estate, &mut state, ek(5), ek(1), "open sesame", T0 + 301),
        Err(EstateError::NotLocked)
    );
}

#[test]
fn wrong_codes_are_counted_until_the_code_is_barred() {
    let (mut estate, mut state) = locked();
    for attempt in 1u8..=4 {
        assert_eq!(
            emergency_unlock_impl(&mut estate, &mut state, ek(5), ek(1), "guess", T0 + 400),
            Ok(UnlockOutcome::Rejected(EmergencyUnlockFailed {
                estate: ek(5),
                attempted_by: ek(1),
                failed_attempts: attempt,
                timestamp: T0 + 400
            }))
        );
        assert!(estate.is_locked);
        assert_eq!(state.failed_unlock_attempts, attempt);
    }
    let (mut estate2, mut state2) = (estate.clone(), state.clone());
    assert!(matches!(
        emergency_unlock_impl(&mut estate2, &mut state2, ek(5), ek(1), "open sesame", T0 + 500),
        Ok(UnlockOutcome::Unlocked(_))
    ));
    assert_eq!(state2.failed_unlock_attempts, 0);
    assert!(matches!(
        emergency_unlock_impl(&mut estate, &mut state, ek(5), ek(1), "guess", T0 + 400),
        Ok(UnlockOutcome::Rejected(_))
    ));
    assert_eq!(state.failed_unlock_attempts, 5);
    assert_eq!(
        emergency_unlock_impl(&mut estate, &mut state, ek(5), ek(1), "open sesame", T0 + 500),
        Err(EstateError::MaxUnlockAttemptsExceeded)
    );
    assert_eq!(
        emergency_unlock_impl(&mut estate, &mut state, ek(5), ek(1), "guess", T0 + 500),
        Err(EstateError::MaxUnlockAttemptsExceeded)
    );
    assert!(estate.is_locked);
    assert_eq!(state.failed_unlock_attempts, 5);
}

#[test]
fn multisig_lifts_a_lock_that_the_code_no_longer_lifts() {
    let (mut estate, mut state) = locked();
    estate.multisig = Some(ek(90));
    state.failed_unlock_attempts = 5;
    let (multisig, proposal) = executed_proposal(ProposalAction::EmergencyUnlock { verification_code: [0; 32] });
    let governance = Governance {
        multisig: &multisig,
        multisig_address: ek(90),
        proposal: &proposal,
        proposal_address: ek(91),
        executor: ek(11),
    };
    assert_eq!(
        force_unlock_by_multisig(&mut estate, &mut state, ek(5), &governance, T0 + 50),
        Ok(EmergencyForceUnlock { estate: ek(5), multisig: ek(90), proposal: ek(91), timestamp: T0 + 50 })
    );
    assert!(!estate.is_locked);
    assert_eq!(state.unlock_timestamp, Some(T0 + 50));
    assert_eq!(state.failed_unlock_attempts, 0);
    assert_eq!(
        force_unlock_by_multisig(&mut estate, &mut state, ek(5), &governance, T0 + 51),
        Err(EstateError::NotLocked)
    );
}

#[test]
fn governance_decision_is_checked_in_order() {
    let (mut estate, state) = locked();
    let (multisig, proposal) = executed_proposal(ProposalAction::EmergencyUnlock { verification_code: [0; 32] });
    let gov = Governance { multisig: &multisig, multisig_address: ek(90), proposal: &proposal, proposal_address: ek(91), executor: ek(11) };
    assert_eq!(check_governance(&estate, ek(5), &gov, true), Err(EstateError::NoMultisigAttached));
    estate.multisig = Some(ek(89));
    assert_eq!(check_governance(&estate, ek(5), &gov, true), Err(EstateError::InvalidMultisig));
    estate.multisig = Some(ek(90));
    assert_eq!(check_governance(&estate, ek(5), &gov, true), Ok(()));
    assert_eq!(check_governance(&estate, ek(5), &gov, false), Err(EstateError::InvalidProposalType));
    assert_eq!(check_governance(&estate, ek(4), &gov, true), Err(EstateError::InvalidProposalEstate));
    let by_other = Governance { executor: ek(12), ..Governance { multisig: &multisig, multisig_address: ek(90), proposal: &proposal, proposal_address: ek(91), executor: ek(11) } };
    assert_eq!(check_governance(&estate, ek(5), &by_other, true), Err(EstateError::ProposerNotExecutor));
    let foreign = Proposal { multisig: ek(80), ..proposal.clone() };
    let gov = Governance { multisig: &multisig, multisig_address: ek(90), proposal: &foreign, proposal_address: ek(91), executor: ek(11) };
    assert_eq!(check_governance(&estate, ek(5), &gov, true), Err(EstateError::InvalidProposal));
    let open = Proposal { executed: false, ..proposal.clone() };
    let gov = Governance { multisig: &multisig, multisig_address: ek(90), proposal: &open, proposal_address: ek(91), executor: ek(11) };
    assert_eq!(check_governance(&estate, ek(5), &gov, true), Err(EstateError::ProposalNotExecuted));
    let thin = Proposal { approvals: vec![ek(11)], ..proposal.clone() };
    let gov = Governance { multisig: &multisig, multisig_address: ek(90), proposal: &thin, proposal_address: ek(91), executor: ek(11) };
    assert_eq!(check_governance(&estate, ek(5), &gov, true), Err(EstateError::NotEnoughApprovals));
    let wrong = Proposal { action: ProposalAction::DeleteRWA { rwa_id: ek(3) }, ..proposal.clone() };
    let gov = Governance { multisig: &multisig, multisig_address: ek(90), proposal: &wrong, proposal_address: ek(91), executor: ek(11) };
    assert_eq!(check_governance(&estate, ek(5), &gov, true), Err(EstateError::InvalidProposalType));
    assert_eq!(check_governance(&estate, ek(5), &gov, false), Err(EstateError::InvalidProposalType));
    let mut other_state = state.clone();
    other_state.estate = ek(4);
    let gov = Governance { multisig: &multisig, multisig_address: ek(90), proposal: &proposal, proposal_address: ek(91), executor: ek(11) };
    assert_eq!(
        force_unlock_by_multisig(&mut estate, &mut other_state, ek(5), &gov, T0),
        Err(EstateError::InvalidEmergencyState)
    );
    assert!(estate.is_locked);
}

#[test]
fn lock_by_multisig_needs_an_executed_proposal_to_lock() {
    let mut estate = lockable_estate();
    estate.multisig = Some(ek(90));
    let mut state = unused_lock_state();
    let bare = EmergencyLockContext {
        authority: ek(11),
        reason: REASON.to_string(),
        lock_type: LockType::MultisigInitiated,
        verification_code: "code",
        governance: None,
        bump: 1,
    };
    assert_eq!(emergency_lock_impl(&mut estate, &mut state, ek(5), bare, T0), Err(EstateError::UnauthorizedAccess));
    let (multisig, unlock) = executed_proposal(ProposalAction::EmergencyUnlock { verification_code: [0; 32] });
    let with_unlock = EmergencyLockContext {
        authority: ek(11),
        reason: REASON.to_string(),
        lock_type: LockType::MultisigInitiated,
        verification_code: "code",
        governance: Some(Governance {
            multisig: &multisig,
            multisig_address: ek(90),
            proposal: &unlock,
            proposal_address: ek(91),
            executor: ek(11),
        }),
        bump: 1,
    };
    assert_eq!(
        emergency_lock_impl(&mut estate, &mut state, ek(5), with_unlock, T0),
        Err(EstateError::InvalidProposalType)
    );
    let (multisig, lock) = executed_proposal(ProposalAction::EmergencyLock);
    let with_lock = EmergencyLockContext {
        authority: ek(11),
        reason: REASON.to_string(),
        lock_type: LockType::MultisigInitiated,
        verification_code: "code",
        governance: Some(Governance {
            multisig: &multisig,
            multisig_address: ek(90),
            proposal: &lock,
            proposal_address: ek(91),
            executor: ek(11),
        }),
        bump: 1,
    };
    assert!(emergency_lock_impl(&mut estate, &mut state, ek(5), with_lock, T0).is_ok());
    assert!(estate.is_locked);
    assert_eq!(state.lock_type, LockType::MultisigInitiated);
    assert_eq!(
        emergency_unlock_impl(&mut estate, &mut state, ek(5), ek(1), "code", T0 + 1_000),
        Err(EstateError::UnauthorizedAccess)
    );
    let no_multisig = EmergencyLockContext {
        authority: ek(11),
        reason: REASON.to_string(),
        lock_type: LockType::MultisigInitiated,
        verification_code: "code",
        governance: None,
        bump: 1,
    };
    let mut plain = lockable_estate();
    assert_eq!(
        emergency_lock_impl(&mut plain, &mut unused_lock_state(), ek(5), no_multisig, T0),
        Err(EstateError::UnauthorizedAccess)
    );
}
