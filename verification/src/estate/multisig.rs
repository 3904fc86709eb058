//! Threshold governance: a proposal is created by a signer, gathers
//! approvals of distinct signers, and can be marked executed once, when the
//! threshold is met.  Marking a proposal executed performs nothing by itself:
//! whoever acts on a proposal must check its action and its target.

use vstd::prelude::*;
use crate::estate::state::{
    AdminChangeExecuted,
    AdminChangeProposed,
    Beneficiary,
    EstateError,
    Multisig,
    MultisigCreated,
    Proposal,
    ProposalAction,
    ProposalApproved,
    ProposalCreated,
    ProposalExecuted,
    ADMIN_TIMELOCK_DURATION,
    MAX_SIGNERS,
    MIN_SIGNERS,
};
use crate::types::{add_seconds, contains_key, Pubkey};

verus! {

/// Whether a multisig has between two and ten signers and a threshold that
/// at least one and at most all of them can meet.
pub open spec fn multisig_wf(multisig: Multisig) -> bool {
    &&& MIN_SIGNERS <= multisig.signers@.len() <= MAX_SIGNERS
    &&& 0 < multisig.threshold <= multisig.signers@.len()
}

/// Whether no signer has approved a proposal twice.
pub open spec fn proposal_wf(proposal: Proposal) -> bool {
    proposal.approvals@.no_duplicates()
}

/// Whether a proposal has gathered the approvals that its multisig asks for.
pub open spec fn quorum_met(multisig: Multisig, proposal: Proposal) -> bool {
    proposal.approvals@.len() >= multisig.threshold
}

/// Copies a list of addresses.
pub fn copy_keys(keys: &Vec<Pubkey>) -> (copy: Vec<Pubkey>)
    ensures
        copy@ == keys@,
{
    let mut copy: Vec<Pubkey> = Vec::new();
    let mut i: usize = 0;
    while i < keys.len()
        invariant
            i <= keys.len(),
            copy@ == keys@.subrange(0, i as int),
        decreases keys.len() - i,
    {
        copy.push(keys[i]);
        i = i + 1;
    }
    assert(keys@.subrange(0, keys@.len() as int) == keys@);
    copy
}

/// Copies a list of beneficiaries.
pub fn copy_beneficiaries(list: &Vec<Beneficiary>) -> (copy: Vec<Beneficiary>)
    ensures
        copy@ == list@,
{
    let mut copy: Vec<Beneficiary> = Vec::new();
    let mut i: usize = 0;
    while i < list.len()
        invariant
            i <= list.len(),
            copy@ == list@.subrange(0, i as int),
        decreases list.len() - i,
    {
        copy.push(list[i]);
        i = i + 1;
    }
    assert(list@.subrange(0, list@.len() as int) == list@);
    copy
}

/// Whether two actions ask for the same thing.
pub open spec fn same_action(a: ProposalAction, b: ProposalAction) -> bool {
    match (a, b) {
        (
            ProposalAction::UpdateBeneficiaries { beneficiaries: x },
            ProposalAction::UpdateBeneficiaries { beneficiaries: y },
        ) => x@ == y@,
        (
            ProposalAction::CreateRWA {
                rwa_type: t1,
                name: n1,
                description: d1,
                value: v1,
                metadata_uri: m1,
            },
            ProposalAction::CreateRWA {
                rwa_type: t2,
                name: n2,
                description: d2,
                value: v2,
                metadata_uri: m2,
            },
        ) => t1 == t2 && n1 == n2 && d1 == d2 && v1 == v2 && m1 == m2,
        (ProposalAction::DeleteRWA { rwa_id: x }, ProposalAction::DeleteRWA { rwa_id: y }) => x
            == y,
        (ProposalAction::EmergencyLock, ProposalAction::EmergencyLock) => true,
        (
            ProposalAction::EmergencyUnlock { verification_code: x },
            ProposalAction::EmergencyUnlock { verification_code: y },
        ) => x == y,
        (
            ProposalAction::EnableTrading {
                ai_agent: a1,
                human_share: h1,
                strategy: s1,
                stop_loss: l1,
                emergency_delay_hours: e1,
            },
            ProposalAction::EnableTrading {
                ai_agent: a2,
                human_share: h2,
                strategy: s2,
                stop_loss: l2,
                emergency_delay_hours: e2,
            },
        ) => a1 == a2 && h1 == h2 && s1 == s2 && l1 == l2 && e1 == e2,
        _ => false,
    }
}

/// Copies an action.
pub fn copy_action(action: &ProposalAction) -> (copy: ProposalAction)
    ensures
        same_action(*action, copy),
{
    match action {
        ProposalAction::UpdateBeneficiaries { beneficiaries } => {
            ProposalAction::UpdateBeneficiaries { beneficiaries: copy_beneficiaries(beneficiaries) }
        },
        ProposalAction::CreateRWA { rwa_type, name, description, value, metadata_uri } => {
            ProposalAction::CreateRWA {
                rwa_type: rwa_type.clone(),
                name: name.clone(),
                description: description.clone(),
                value: value.clone(),
                metadata_uri: metadata_uri.clone(),
            }
        },
        ProposalAction::DeleteRWA { rwa_id } => ProposalAction::DeleteRWA { rwa_id: *rwa_id },
        ProposalAction::EmergencyLock => ProposalAction::EmergencyLock,
        ProposalAction::EmergencyUnlock { verification_code } => {
            ProposalAction::EmergencyUnlock { verification_code: *verification_code }
        },
        ProposalAction::EnableTrading {
            ai_agent,
            human_share,
            strategy,
            stop_loss,
            emergency_delay_hours,
        } => ProposalAction::EnableTrading {
            ai_agent: *ai_agent,
            human_share: *human_share,
            strategy: *strategy,
            stop_loss: *stop_loss,
            emergency_delay_hours: *emergency_delay_hours,
        },
    }
}

/// Why a group of signers with a threshold is not acceptable, if it is not.
pub open spec fn initialize_error(signers: Seq<Pubkey>, threshold: u8) -> Option<EstateError> {
    if signers.len() < MIN_SIGNERS || signers.len() > MAX_SIGNERS {
        Some(EstateError::InvalidSignerCount)
    } else if threshold == 0 || threshold > signers.len() {
        Some(EstateError::InvalidThreshold)
    } else {
        None
    }
}

/// Creates a multisig of two to ten signers, of whom `threshold` must
/// approve a proposal.  The caller becomes its admin.
pub fn initialize_multisig(
    admin: Pubkey,
    multisig_address: Pubkey,
    signers: Vec<Pubkey>,
    threshold: u8,
    now: i64,
) -> (outcome: Result<(Multisig, MultisigCreated), EstateError>)
    ensures
        match outcome {
            Ok((multisig, event)) => {
                &&& initialize_error(signers@, threshold) is None
                &&& multisig == (Multisig {
                    signers,
                    threshold,
                    proposal_count: 0,
                    admin,
                    pending_admin: None,
                    admin_change_timestamp: 0,
                })
                &&& multisig_wf(multisig)
                &&& event.signers@ == signers@
                &&& event == (MultisigCreated {
                    multisig_address,
                    signers: event.signers,
                    threshold,
                    timestamp: now,
                })
            },
            Err(e) => initialize_error(signers@, threshold) == Some(e),
        },
{
    if signers.len() < MIN_SIGNERS || signers.len() > MAX_SIGNERS {
        return Err(EstateError::InvalidSignerCount);
    }
    if threshold == 0 || threshold as usize > signers.len() {
        return Err(EstateError::InvalidThreshold);
    }
    let listed = copy_keys(&signers);
    Ok(
        (
            Multisig {
                signers,
                threshold,
                proposal_count: 0,
                admin,
                pending_admin: None,
                admin_change_timestamp: 0,
            },
            MultisigCreated { multisig_address, signers: listed, threshold, timestamp: now },
        ),
    )
}

/// The first check that fails when a new admin is proposed, if any.
pub open spec fn propose_admin_error(multisig: Multisig, signer: Pubkey, now: i64) -> Option<
    EstateError,
> {
    if signer != multisig.admin {
        Some(EstateError::UnauthorizedAccess)
    } else if now + ADMIN_TIMELOCK_DURATION > i64::MAX {
        Some(EstateError::MathOverflow)
    } else {
        None
    }
}

/// Proposes a new admin.  Only the admin may propose; the change can be
/// accepted once the timelock has run out.
pub fn propose_admin_change(multisig: &mut Multisig, signer: Pubkey, new_admin: Pubkey, now: i64) -> (outcome:
    Result<AdminChangeProposed, EstateError>)
    ensures
        match outcome {
            Ok(event) => {
                &&& propose_admin_error(*old(multisig), signer, now) is None
                &&& *final(multisig) == (Multisig {
                    pending_admin: Some(new_admin),
                    admin_change_timestamp: (now + ADMIN_TIMELOCK_DURATION) as i64,
                    ..*old(multisig)
                })
                &&& event == (AdminChangeProposed {
                    old_admin: old(multisig).admin,
                    new_admin,
                    execute_after: (now + ADMIN_TIMELOCK_DURATION) as i64,
                    timestamp: now,
                })
            },
            Err(e) => propose_admin_error(*old(multisig), signer, now) == Some(e) && *final(multisig) == *old(multisig),
        },
{
    if signer != multisig.admin {
        return Err(EstateError::UnauthorizedAccess);
    }
    let execute_after = match add_seconds(now, ADMIN_TIMELOCK_DURATION) {
        Some(t) => t,
        None => {
            return Err(EstateError::MathOverflow);
        },
    };
    multisig.pending_admin = Some(new_admin);
    multisig.admin_change_timestamp = execute_after;
    Ok(AdminChangeProposed { old_admin: multisig.admin, new_admin, execute_after, timestamp: now })
}

/// The first check that fails when a proposed admin change is accepted, if any.
pub open spec fn accept_admin_error(multisig: Multisig, now: i64) -> Option<EstateError> {
    if multisig.pending_admin is None {
        Some(EstateError::NoPendingAdminChange)
    } else if now < multisig.admin_change_timestamp {
        Some(EstateError::TimelockNotExpired)
    } else {
        None
    }
}

/// Hands the admin key to the proposed admin once the timelock has run out.
/// Anyone may carry the hand-over out; what it does was fixed by the admin
/// who proposed it.
pub fn accept_admin_change(multisig: &mut Multisig, now: i64) -> (outcome: Result<
    AdminChangeExecuted,
    EstateError,
>)
    ensures
        match outcome {
            Ok(event) => {
                &&& accept_admin_error(*old(multisig), now) is None
                &&& *final(multisig) == (Multisig {
                    admin: old(multisig).pending_admin->0,
                    pending_admin: None,
                    admin_change_timestamp: 0,
                    ..*old(multisig)
                })
                &&& event == (AdminChangeExecuted {
                    old_admin: old(multisig).admin,
                    new_admin: old(multisig).pending_admin->0,
                    timestamp: now,
                })
            },
            Err(e) => accept_admin_error(*old(multisig), now) == Some(e) && *final(multisig)
                == *old(multisig),
        },
{
    let new_admin = match multisig.pending_admin {
        None => {
            return Err(EstateError::NoPendingAdminChange);
        },
        Some(key) => key,
    };
    if now < multisig.admin_change_timestamp {
        return Err(EstateError::TimelockNotExpired);
    }
    let old_admin = multisig.admin;
    multisig.admin = new_admin;
    multisig.pending_admin = None;
    multisig.admin_change_timestamp = 0;
    Ok(AdminChangeExecuted { old_admin, new_admin, timestamp: now })
}

/// The first check that fails when a proposal is created, if any.
pub open spec fn create_error(multisig: Multisig, proposer: Pubkey) -> Option<EstateError> {
    if !multisig.signers@.contains(proposer) {
        Some(EstateError::UnauthorizedSigner)
    } else if multisig.proposal_count == u64::MAX {
        Some(EstateError::MathOverflow)
    } else {
        None
    }
}

/// Creates a proposal.  Only a signer may propose, and the proposer's
/// approval is counted from the start.
pub fn create_proposal(
    multisig: &mut Multisig,
    multisig_address: Pubkey,
    proposer: Pubkey,
    target_estate: Pubkey,
    action: ProposalAction,
    now: i64,
) -> (outcome: Result<(Proposal, ProposalCreated), EstateError>)
    ensures
        match outcome {
            Ok((proposal, event)) => {
                &&& create_error(*old(multisig), proposer) is None
                &&& *final(multisig) == (Multisig {
                    proposal_count: (old(multisig).proposal_count + 1) as u64,
                    ..*old(multisig)
                })
                &&& proposal.approvals@ == seq![proposer]
                &&& proposal == (Proposal {
                    multisig: multisig_address,
                    proposer,
                    target_estate,
                    action,
                    approvals: proposal.approvals,
                    executed: false,
                    created_at: now,
                    proposal_id: old(multisig).proposal_count,
                })
                &&& proposal_wf(proposal)
                &&& same_action(action, event.action)
                &&& event == (ProposalCreated {
                    proposal_id: old(multisig).proposal_count,
                    proposer,
                    target_estate,
                    action: event.action,
                    timestamp: now,
                })
            },
            Err(e) => create_error(*old(multisig), proposer) == Some(e) && *final(multisig) == *old(multisig),
        },
{
    if !contains_key(&multisig.signers, proposer) {
        return Err(EstateError::UnauthorizedSigner);
    }
    if multisig.proposal_count == u64::MAX {
        return Err(EstateError::MathOverflow);
    }
    let proposal_id = multisig.proposal_count;
    let announced = copy_action(&action);
    let mut approvals: Vec<Pubkey> = Vec::new();
    approvals.push(proposer);
    assert(approvals@ =~= seq![proposer]);
    multisig.proposal_count = proposal_id + 1;
    Ok(
        (
            Proposal {
                multisig: multisig_address,
                proposer,
                target_estate,
                action,
                approvals,
                executed: false,
                created_at: now,
                proposal_id,
            },
            ProposalCreated {
                proposal_id,
                proposer,
                target_estate,
                action: announced,
                timestamp: now,
            },
        ),
    )
}

/// The first check that fails when a proposal is approved, if any.
pub open spec fn approve_error(
    multisig: Multisig,
    multisig_address: Pubkey,
    proposal: Proposal,
    signer: Pubkey,
) -> Option<EstateError> {
    if proposal.multisig != multisig_address {
        Some(EstateError::InvalidProposal)
    } else if !multisig.signers@.contains(signer) {
        Some(EstateError::UnauthorizedSigner)
    } else if proposal.approvals@.contains(signer) {
        Some(EstateError::AlreadyApproved)
    } else if proposal.executed {
        Some(EstateError::ProposalAlreadyExecuted)
    } else {
        None
    }
}

/// The number of approvals as an event reports it.
pub open spec fn reported_approvals(approvals: Seq<Pubkey>) -> u8 {
    if approvals.len() > u8::MAX {
        u8::MAX
    } else {
        approvals.len() as u8
    }
}

/// Adds a signer's approval to a proposal of the signer's multisig.  A
/// signer approves at most once, and an executed proposal takes no more
/// approvals.
pub fn approve_proposal(
    multisig: &Multisig,
    multisig_address: Pubkey,
    proposal: &mut Proposal,
    signer: Pubkey,
    now: i64,
) -> (outcome: Result<ProposalApproved, EstateError>)
    ensures
        match outcome {
            Ok(event) => {
                &&& approve_error(*multisig, multisig_address, *old(proposal), signer) is None
                &&& final(proposal).approvals@ == old(proposal).approvals@.push(signer)
                &&& *final(proposal) == (Proposal {
                    approvals: final(proposal).approvals,
                    ..*old(proposal)
                })
                &&& event == (ProposalApproved {
                    proposal_id: old(proposal).proposal_id,
                    approver: signer,
                    total_approvals: reported_approvals(final(proposal).approvals@),
                    timestamp: now,
                })
            },
            Err(e) => approve_error(*multisig, multisig_address, *old(proposal), signer) == Some(e)
                && *final(proposal) == *old(proposal),
        },
        proposal_wf(*old(proposal)) ==> proposal_wf(*final(proposal)),
{
    if proposal.multisig != multisig_address {
        return Err(EstateError::InvalidProposal);
    }
    if !contains_key(&multisig.signers, signer) {
        return Err(EstateError::UnauthorizedSigner);
    }
    if contains_key(&proposal.approvals, signer) {
        return Err(EstateError::AlreadyApproved);
    }
    if proposal.executed {
        return Err(EstateError::ProposalAlreadyExecuted);
    }
    proposal.approvals.push(signer);
    proof {
        if proposal_wf(*old(proposal)) {
            let before = old(proposal).approvals@;
            let after = proposal.approvals@;
            assert forall|i: int, j: int|
                0 <= i < after.len() && 0 <= j < after.len() && i != j implies after[i]
                != after[j] by {
                if i < before.len() && j < before.len() {
                    assert(before[i] != before[j]);
                } else if i < before.len() {
                    assert(before.contains(before[i]));
                } else {
                    assert(before.contains(before[j]));
                }
            }
        }
    }
    let total: u8 = if proposal.approvals.len() > 255 {
        255
    } else {
        proposal.approvals.len() as u8
    };
    Ok(
        ProposalApproved {
            proposal_id: proposal.proposal_id,
            approver: signer,
            total_approvals: total,
            timestamp: now,
        },
    )
}

/// The first check that fails when a proposal is executed, if any.
pub open spec fn execute_error(multisig: Multisig, multisig_address: Pubkey, proposal: Proposal) -> Option<
    EstateError,
> {
    if proposal.multisig != multisig_address {
        Some(EstateError::InvalidProposal)
    } else if !quorum_met(multisig, proposal) {
        Some(EstateError::InsufficientApprovals)
    } else if proposal.executed {
        Some(EstateError::ProposalAlreadyExecuted)
    } else {
        None
    }
}

/// Marks a proposal executed.  It must have gathered its multisig's
/// threshold of approvals and must not have been executed before.
pub fn execute_proposal(
    multisig: &Multisig,
    multisig_address: Pubkey,
    proposal: &mut Proposal,
    executor: Pubkey,
    now: i64,
) -> (outcome: Result<ProposalExecuted, EstateError>)
    ensures
        match outcome {
            Ok(event) => {
                &&& execute_error(*multisig, multisig_address, *old(proposal)) is None
                &&& *final(proposal) == (Proposal { executed: true, ..*old(proposal) })
                &&& event == (ProposalExecuted {
                    proposal_id: old(proposal).proposal_id,
                    executor,
                    timestamp: now,
                })
            },
            Err(e) => execute_error(*multisig, multisig_address, *old(proposal)) == Some(e)
                && *final(proposal) == *old(proposal),
        },
        old(proposal).executed ==> final(proposal).executed,
{
    if proposal.multisig != multisig_address {
        return Err(EstateError::InvalidProposal);
    }
    if proposal.approvals.len() < multisig.threshold as usize {
        return Err(EstateError::InsufficientApprovals);
    }
    if proposal.executed {
        return Err(EstateError::ProposalAlreadyExecuted);
    }
    proposal.executed = true;
    Ok(ProposalExecuted { proposal_id: proposal.proposal_id, executor, timestamp: now })
}

/// A proposal of this multisig is executed at most once: with fewer
/// approvals than the threshold execution fails; with the threshold met it
/// succeeds while the proposal is open, and fails ever after.
pub proof fn lemma_executed_once(multisig: Multisig, multisig_address: Pubkey, proposal: Proposal)
    requires
        proposal.multisig == multisig_address,
    ensures
        proposal.approvals@.len() < multisig.threshold ==> execute_error(
            multisig,
            multisig_address,
            proposal,
        ) == Some(EstateError::InsufficientApprovals),
        proposal.approvals@.len() >= multisig.threshold && !proposal.executed ==> execute_error(
            multisig,
            multisig_address,
            proposal,
        ) is None,
        proposal.approvals@.len() >= multisig.threshold ==> execute_error(
            multisig,
            multisig_address,
            Proposal { executed: true, ..proposal },
        ) == Some(EstateError::ProposalAlreadyExecuted),
{
}

} // verus!
