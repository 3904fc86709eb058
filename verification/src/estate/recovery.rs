//! Recovery of an abandoned estate.  Recovery overrides everything else: it
//! hands the estate to a new owner, lifts its lock and strikes its
//! beneficiaries.  So only the admin of the multisig attached to the estate
//! can start it, and only once the estate has been claimable for thirty
//! days; the new owner is named at the start and cannot be changed; and only
//! the admin who started it can carry it out, seven days later.

use vstd::prelude::*;
use crate::estate::lifecycle::{beneficiaries_wf, grace_ends};
use crate::estate::state::{
    Beneficiary,
    Estate,
    EstateError,
    Multisig,
    Recovery,
    RecoveryExecuted,
    RecoveryInitiated,
    RECOVERY_DELAY,
    RECOVERY_WAIT,
};
use crate::estate::trading::lock_suspends_trading;
use crate::types::{add_seconds, is_some_key, Pubkey};

verus! {

/// The first check that fails when a recovery is started, if any.
pub open spec fn initiate_recovery_error(
    estate: Estate,
    multisig: Multisig,
    multisig_address: Pubkey,
    admin: Pubkey,
    now: i64,
) -> Option<EstateError> {
    if estate.multisig is None {
        Some(EstateError::NoMultisigAttached)
    } else if estate.multisig != Some(multisig_address) {
        Some(EstateError::InvalidMultisig)
    } else if admin != multisig.admin {
        Some(EstateError::UnauthorizedAccess)
    } else if !estate.is_claimable {
        Some(EstateError::NotClaimable)
    } else if now - grace_ends(estate) < RECOVERY_WAIT {
        Some(EstateError::RecoveryTooEarly)
    } else if now + RECOVERY_DELAY > i64::MAX {
        Some(EstateError::MathOverflow)
    } else {
        None
    }
}

/// Starts the recovery of an estate that has been claimable for at least
/// thirty days, in favour of `recovery_address`.  Only the admin of the
/// multisig attached to the estate may start it.  The recovery can be
/// carried out seven days later.
pub fn initiate_recovery(
    estate: &Estate,
    estate_address: Pubkey,
    multisig: &Multisig,
    multisig_address: Pubkey,
    admin: Pubkey,
    recovery_address: Pubkey,
    reason: String,
    now: i64,
) -> (outcome: Result<(Recovery, RecoveryInitiated), EstateError>)
    ensures
        match outcome {
            Ok((recovery, event)) => {
                &&& initiate_recovery_error(*estate, *multisig, multisig_address, admin, now)
                    is None
                &&& recovery == (Recovery {
                    estate: estate_address,
                    initiator: admin,
                    recovery_address,
                    initiation_time: now,
                    execution_time: (now + RECOVERY_DELAY) as i64,
                    reason,
                    is_executed: false,
                })
                &&& event == (RecoveryInitiated {
                    estate_id: estate.estate_id,
                    admin,
                    recovery_address,
                    execute_after: (now + RECOVERY_DELAY) as i64,
                    timestamp: now,
                })
            },
            Err(e) => initiate_recovery_error(*estate, *multisig, multisig_address, admin, now)
                == Some(e),
        },
{
    if estate.multisig.is_none() {
        return Err(EstateError::NoMultisigAttached);
    }
    if !is_some_key(estate.multisig, multisig_address) {
        return Err(EstateError::InvalidMultisig);
    }
    if admin != multisig.admin {
        return Err(EstateError::UnauthorizedAccess);
    }
    if !estate.is_claimable {
        return Err(EstateError::NotClaimable);
    }
    let claimable_for: i128 = now as i128 - estate.last_active as i128
        - estate.inactivity_period as i128 - estate.grace_period as i128;
    if claimable_for < RECOVERY_WAIT as i128 {
        return Err(EstateError::RecoveryTooEarly);
    }
    let execution_time = match add_seconds(now, RECOVERY_DELAY) {
        Some(t) => t,
        None => {
            return Err(EstateError::MathOverflow);
        },
    };
    Ok(
        (
            Recovery {
                estate: estate_address,
                initiator: admin,
                recovery_address,
                initiation_time: now,
                execution_time,
                reason,
                is_executed: false,
            },
            RecoveryInitiated {
                estate_id: estate.estate_id,
                admin,
                recovery_address,
                execute_after: execution_time,
                timestamp: now,
            },
        ),
    )
}

/// The first check that fails when a recovery is carried out, if any.
pub open spec fn execute_recovery_error(
    recovery: Recovery,
    estate_address: Pubkey,
    admin: Pubkey,
    now: i64,
) -> Option<EstateError> {
    if recovery.estate != estate_address {
        Some(EstateError::UnauthorizedAccess)
    } else if admin != recovery.initiator {
        Some(EstateError::UnauthorizedAccess)
    } else if recovery.is_executed {
        Some(EstateError::RecoveryAlreadyExecuted)
    } else if now < recovery.execution_time {
        Some(EstateError::RecoveryNotReady)
    } else {
        None
    }
}

/// Whether `post` is `pre` handed over to `new_owner`: neither locked nor
/// claimable, and with no beneficiaries.
pub open spec fn recovered(pre: Estate, post: Estate, new_owner: Pubkey) -> bool {
    &&& post.beneficiaries@ == Seq::<Beneficiary>::empty()
    &&& post == (Estate {
        owner: new_owner,
        is_claimable: false,
        is_locked: false,
        beneficiaries: post.beneficiaries,
        total_beneficiaries: 0,
        ..pre
    })
}

/// Carries a recovery out, once, when its delay has run out.  Only the
/// admin who started the recovery may do so.  The estate passes to the
/// address that was named when the recovery was started, its lock and its
/// claimable state are lifted, and its beneficiaries are struck.  Besides
/// the two unlocks this is the one operation that changes a locked estate:
/// it is what lifts the lock of an estate that no one else can unlock.
pub fn execute_recovery(
    estate: &mut Estate,
    estate_address: Pubkey,
    recovery: &mut Recovery,
    admin: Pubkey,
    now: i64,
) -> (outcome: Result<RecoveryExecuted, EstateError>)
    ensures
        match outcome {
            Ok(event) => {
                &&& execute_recovery_error(*old(recovery), estate_address, admin, now) is None
                &&& *final(recovery) == (Recovery { is_executed: true, ..*old(recovery) })
                &&& recovered(*old(estate), *final(estate), old(recovery).recovery_address)
                &&& event == (RecoveryExecuted {
                    estate_id: old(estate).estate_id,
                    old_owner: old(estate).owner,
                    new_owner: old(recovery).recovery_address,
                    timestamp: now,
                })
            },
            Err(e) => {
                &&& execute_recovery_error(*old(recovery), estate_address, admin, now) == Some(e)
                &&& *final(recovery) == *old(recovery)
                &&& *final(estate) == *old(estate)
            },
        },
        outcome is Ok ==> beneficiaries_wf(*final(estate)),
        lock_suspends_trading(*old(estate)) ==> lock_suspends_trading(*final(estate)),
{
    if recovery.estate != estate_address {
        return Err(EstateError::UnauthorizedAccess);
    }
    if admin != recovery.initiator {
        return Err(EstateError::UnauthorizedAccess);
    }
    if recovery.is_executed {
        return Err(EstateError::RecoveryAlreadyExecuted);
    }
    if now < recovery.execution_time {
        return Err(EstateError::RecoveryNotReady);
    }
    recovery.is_executed = true;
    let old_owner = estate.owner;
    estate.owner = recovery.recovery_address;
    estate.is_claimable = false;
    estate.is_locked = false;
    estate.beneficiaries.clear();
    estate.total_beneficiaries = 0;
    Ok(
        RecoveryExecuted {
            estate_id: estate.estate_id,
            old_owner,
            new_owner: recovery.recovery_address,
            timestamp: now,
        },
    )
}

} // verus!
