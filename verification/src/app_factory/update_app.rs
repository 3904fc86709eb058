//! Changes to an application on sale.

use vstd::prelude::*;
use crate::app_factory::state::{
    listing_wf,
    AppFactoryError,
    AppRegistration,
    AppUpdated,
    MAX_METADATA_URI_LEN,
};
use crate::types::{byte_len, text_len, Pubkey};

verus! {

/// The first check that fails when an application is changed, if any.
pub open spec fn update_metadata_error(
    app: AppRegistration,
    creator: Pubkey,
    new_metadata_uri: Option<String>,
    new_price: Option<u64>,
) -> Option<AppFactoryError> {
    if creator != app.creator {
        Some(AppFactoryError::UnauthorizedCreator)
    } else if new_price == Some(0u64) {
        Some(AppFactoryError::InvalidPrice)
    } else if new_metadata_uri is Some && text_len(new_metadata_uri->0@) > MAX_METADATA_URI_LEN {
        Some(AppFactoryError::MetadataUriTooLong)
    } else {
        None
    }
}

/// The application after a change: each of the price and the metadata URI
/// is replaced where a new one is given, and stays where none is.
pub open spec fn metadata_updated(
    app: AppRegistration,
    new_metadata_uri: Option<String>,
    new_price: Option<u64>,
) -> AppRegistration {
    AppRegistration {
        price: match new_price {
            Some(price) => price,
            None => app.price,
        },
        metadata_uri: match new_metadata_uri {
            Some(uri) => uri,
            None => app.metadata_uri,
        },
        ..app
    }
}

/// Changes the price, the metadata URI, or both.  Only the creator may do
/// so; the price must not be zero and the URI must be at most 100 bytes.
pub fn update_app_metadata(
    app: &mut AppRegistration,
    creator: Pubkey,
    new_metadata_uri: Option<String>,
    new_price: Option<u64>,
    now: i64,
) -> (outcome: Result<AppUpdated, AppFactoryError>)
    ensures
        match outcome {
            Ok(event) => {
                &&& update_metadata_error(*old(app), creator, new_metadata_uri, new_price) is None
                &&& *final(app) == metadata_updated(*old(app), new_metadata_uri, new_price)
                &&& event == (AppUpdated {
                    app_id: old(app).app_id,
                    new_price,
                    new_metadata_uri,
                    timestamp: now,
                })
            },
            Err(e) => update_metadata_error(*old(app), creator, new_metadata_uri, new_price)
                == Some(e) && *final(app) == *old(app),
        },
        listing_wf(*old(app)) ==> listing_wf(*final(app)),
{
    if creator != app.creator {
        return Err(AppFactoryError::UnauthorizedCreator);
    }
    match new_price {
        Some(price) => {
            if price == 0 {
                return Err(AppFactoryError::InvalidPrice);
            }
        },
        None => {},
    }
    let announced_uri: Option<String> = match &new_metadata_uri {
        Some(uri) => {
            if byte_len(uri) > MAX_METADATA_URI_LEN {
                return Err(AppFactoryError::MetadataUriTooLong);
            }
            Some(uri.clone())
        },
        None => None,
    };
    match new_price {
        Some(price) => {
            app.price = price;
        },
        None => {},
    }
    match new_metadata_uri {
        Some(uri) => {
            app.metadata_uri = uri;
        },
        None => {},
    }
    Ok(AppUpdated { app_id: app.app_id, new_price, new_metadata_uri: announced_uri, timestamp: now })
}

} // verus!
