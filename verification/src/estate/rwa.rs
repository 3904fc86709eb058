//! Real-world assets on record in an estate.

use vstd::prelude::*;
use crate::estate::lifecycle::owner_or_multisig;
use crate::estate::state::{Estate, EstateError, RWAAdded, RWADeleted, RWA};
use crate::types::{is_some_key, Pubkey};

verus! {

/// What is written down about a new asset.
#[derive(Clone, Debug, PartialEq, Eq)]
pub struct RwaDetails {
    pub rwa_type: String,
    pub name: String,
    pub description: String,
    pub value: String,
    pub metadata_uri: String,
}

/// The first check that fails when an asset is recorded, if any.
pub open spec fn create_rwa_error(estate: Estate, caller: Pubkey) -> Option<EstateError> {
    if estate.is_locked {
        Some(EstateError::EstateLocked)
    } else if estate.is_claimable {
        Some(EstateError::EstateClaimable)
    } else if !owner_or_multisig(estate, caller) {
        Some(EstateError::UnauthorizedAccess)
    } else if estate.total_rwas == u32::MAX {
        Some(EstateError::MathOverflow)
    } else {
        None
    }
}

/// Records an asset in an estate and gives it the next number.  Only the
/// owner or the attached multisig may do so, and only while the estate is
/// neither locked nor claimable.  The asset belongs to the estate's owner.
pub fn create_rwa(
    estate: &mut Estate,
    estate_address: Pubkey,
    rwa_address: Pubkey,
    caller: Pubkey,
    details: RwaDetails,
    now: i64,
) -> (outcome: Result<(RWA, RWAAdded), EstateError>)
    ensures
        match outcome {
            Ok((rwa, event)) => {
                &&& create_rwa_error(*old(estate), caller) is None
                &&& *final(estate) == (Estate {
                    total_rwas: (old(estate).total_rwas + 1) as u32,
                    ..*old(estate)
                })
                &&& rwa == (RWA {
                    estate: estate_address,
                    rwa_type: details.rwa_type,
                    name: details.name,
                    description: details.description,
                    value: details.value,
                    metadata_uri: details.metadata_uri,
                    created_at: now,
                    is_active: true,
                    rwa_number: old(estate).total_rwas,
                    current_owner: old(estate).owner,
                })
                &&& event == (RWAAdded {
                    estate_id: old(estate).estate_id,
                    rwa_id: rwa_address,
                    metadata_uri: details.metadata_uri,
                    timestamp: now,
                })
            },
            Err(e) => create_rwa_error(*old(estate), caller) == Some(e) && *final(estate) == *old(estate),
        },
{
    if estate.is_locked {
        return Err(EstateError::EstateLocked);
    }
    if estate.is_claimable {
        return Err(EstateError::EstateClaimable);
    }
    if !(caller == estate.owner || is_some_key(estate.multisig, caller)) {
        return Err(EstateError::UnauthorizedAccess);
    }
    if estate.total_rwas == u32::MAX {
        return Err(EstateError::MathOverflow);
    }
    let rwa_number = estate.total_rwas;
    let announced_uri = details.metadata_uri.clone();
    estate.total_rwas = rwa_number + 1;
    Ok(
        (
            RWA {
                estate: estate_address,
                rwa_type: details.rwa_type,
                name: details.name,
                description: details.description,
                value: details.value,
                metadata_uri: details.metadata_uri,
                created_at: now,
                is_active: true,
                rwa_number,
                current_owner: estate.owner,
            },
            RWAAdded {
                estate_id: estate.estate_id,
                rwa_id: rwa_address,
                metadata_uri: announced_uri,
                timestamp: now,
            },
        ),
    )
}

/// The first check that fails when an asset is struck off, if any.
pub open spec fn delete_rwa_error(estate: Estate, estate_address: Pubkey, rwa: RWA, owner: Pubkey) -> Option<
    EstateError,
> {
    if estate.is_locked {
        Some(EstateError::EstateLocked)
    } else if estate.is_claimable {
        Some(EstateError::EstateClaimable)
    } else if owner != estate.owner {
        Some(EstateError::UnauthorizedAccess)
    } else if rwa.estate != estate_address {
        Some(EstateError::UnauthorizedAccess)
    } else if !rwa.is_active {
        Some(EstateError::RWAAlreadyDeleted)
    } else {
        None
    }
}

/// Strikes an asset off the record.  The asset stays on file, marked
/// inactive.  Only the owner may do so.
pub fn delete_rwa(
    estate: &Estate,
    estate_address: Pubkey,
    rwa: &mut RWA,
    rwa_address: Pubkey,
    owner: Pubkey,
    now: i64,
) -> (outcome: Result<RWADeleted, EstateError>)
    ensures
        match outcome {
            Ok(event) => {
                &&& delete_rwa_error(*estate, estate_address, *old(rwa), owner) is None
                &&& *final(rwa) == (RWA { is_active: false, ..*old(rwa) })
                &&& event == (RWADeleted {
                    estate_id: estate.estate_id,
                    rwa_id: rwa_address,
                    timestamp: now,
                })
            },
            Err(e) => delete_rwa_error(*estate, estate_address, *old(rwa), owner) == Some(e)
                && *final(rwa) == *old(rwa),
        },
{
    if estate.is_locked {
        return Err(EstateError::EstateLocked);
    }
    if estate.is_claimable {
        return Err(EstateError::EstateClaimable);
    }
    if owner != estate.owner {
        return Err(EstateError::UnauthorizedAccess);
    }
    if rwa.estate != estate_address {
        return Err(EstateError::UnauthorizedAccess);
    }
    if !rwa.is_active {
        return Err(EstateError::RWAAlreadyDeleted);
    }
    rwa.is_active = false;
    Ok(RWADeleted { estate_id: estate.estate_id, rwa_id: rwa_address, timestamp: now })
}

} // verus!
