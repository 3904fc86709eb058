//! Hand-over of the marketplace's authority in two steps: the authority
//! names a successor, and the successor accepts.

use vstd::prelude::*;
use crate::app_factory::state::{
    AppFactory,
    AppFactoryError,
    AuthorityError,
    AuthorityTransferAccepted,
    AuthorityTransferCancelled,
    AuthorityTransferInitiated,
    Failure,
};
use crate::types::{is_some_key, Pubkey};

verus! {

/// Names a successor.  Only the authority may do so; a later naming
/// replaces an earlier one.
pub fn transfer_authority(factory: &mut AppFactory, authority: Pubkey, new_authority: Pubkey, now: i64) -> (outcome:
    Result<AuthorityTransferInitiated, AppFactoryError>)
    ensures
        match outcome {
            Ok(event) => {
                &&& authority == old(factory).authority
                &&& *final(factory) == (AppFactory {
                    pending_authority: Some(new_authority),
                    ..*old(factory)
                })
                &&& event == (AuthorityTransferInitiated {
                    from: authority,
                    to: new_authority,
                    timestamp: now,
                })
            },
            Err(e) => authority != old(factory).authority && e
                == AppFactoryError::UnauthorizedAuthority && *final(factory) == *old(factory),
        },
{
    if authority != factory.authority {
        return Err(AppFactoryError::UnauthorizedAuthority);
    }
    factory.pending_authority = Some(new_authority);
    Ok(AuthorityTransferInitiated { from: authority, to: new_authority, timestamp: now })
}

/// Takes the authority over.  Only the named successor may do so.
pub fn accept_authority(factory: &mut AppFactory, new_authority: Pubkey, now: i64) -> (outcome: Result<
    AuthorityTransferAccepted,
    AppFactoryError,
>)
    ensures
        match outcome {
            Ok(event) => {
                &&& old(factory).pending_authority == Some(new_authority)
                &&& *final(factory) == (AppFactory {
                    authority: new_authority,
                    pending_authority: None,
                    ..*old(factory)
                })
                &&& event == (AuthorityTransferAccepted { new_authority, timestamp: now })
            },
            Err(e) => old(factory).pending_authority != Some(new_authority) && e
                == AppFactoryError::NotPendingAuthority && *final(factory) == *old(factory),
        },
{
    if !is_some_key(factory.pending_authority, new_authority) {
        return Err(AppFactoryError::NotPendingAuthority);
    }
    factory.authority = new_authority;
    factory.pending_authority = None;
    Ok(AuthorityTransferAccepted { new_authority, timestamp: now })
}

/// The first check that fails when a hand-over is called off, if any.
pub open spec fn cancel_error(factory: AppFactory, authority: Pubkey) -> Option<Failure> {
    if authority != factory.authority {
        Some(Failure::Factory(AppFactoryError::UnauthorizedAuthority))
    } else if factory.pending_authority is None {
        Some(Failure::Authority(AuthorityError::NotPendingAuthority))
    } else {
        None
    }
}

/// Calls a hand-over off.  Only the authority may do so, and only while a
/// successor is named.
pub fn cancel_authority_transfer(factory: &mut AppFactory, authority: Pubkey, now: i64) -> (outcome:
    Result<AuthorityTransferCancelled, Failure>)
    ensures
        match outcome {
            Ok(event) => {
                &&& cancel_error(*old(factory), authority) is None
                &&& *final(factory) == (AppFactory { pending_authority: None, ..*old(factory) })
                &&& event == (AuthorityTransferCancelled { timestamp: now })
            },
            Err(e) => cancel_error(*old(factory), authority) == Some(e) && *final(factory) == *old(factory),
        },
{
    if authority != factory.authority {
        return Err(Failure::Factory(AppFactoryError::UnauthorizedAuthority));
    }
    if factory.pending_authority.is_none() {
        return Err(Failure::Authority(AuthorityError::NotPendingAuthority));
    }
    factory.pending_authority = None;
    Ok(AuthorityTransferCancelled { timestamp: now })
}

} // verus!
