//! Purchase in one transaction, in which the token accounts of the creator
//! and of the treasury are opened where they are missing.

use vstd::prelude::*;
use crate::app_factory::purchase_app::{
    pre_validation_error,
    purchase_app_access_v2,
    purchase_receipt,
    sold_one,
    PurchaseAppAccessOptimized,
    PurchaseReceipt,
};
use crate::app_factory::state::{listing_wf, AppFactory, AppFactoryError, AppRegistration};
use crate::types::{Pubkey, TokenAccount};

verus! {

/// What a buyer presents for a purchase that opens token accounts.
#[derive(Clone, Copy, Debug, PartialEq, Eq)]
pub struct PurchaseAppWithInit {
    pub user: Pubkey,
    pub user_sft_ata: Pubkey,
    pub user_defai_ata: TokenAccount,
    /// The wallet that the buyer claims to be the creator's.
    pub creator: Pubkey,
    /// The wallet that the buyer claims to be the treasury.
    pub treasury: Pubkey,
    pub defai_mint: Pubkey,
    pub bump: u8,
}

/// The same purchase without the two wallets.
pub open spec fn plain_purchase(accounts: PurchaseAppWithInit) -> PurchaseAppAccessOptimized {
    PurchaseAppAccessOptimized {
        user: accounts.user,
        user_sft_ata: accounts.user_sft_ata,
        user_defai_ata: accounts.user_defai_ata,
        defai_mint: accounts.defai_mint,
        bump: accounts.bump,
    }
}

/// The first check that fails for a purchase that opens token accounts, if
/// any.
pub open spec fn purchase_with_init_error(
    factory: AppFactory,
    app: AppRegistration,
    accounts: PurchaseAppWithInit,
) -> Option<AppFactoryError> {
    if accounts.user_defai_ata.amount < app.price {
        Some(AppFactoryError::InsufficientBalance)
    } else if accounts.creator != app.creator {
        Some(AppFactoryError::InvalidCreator)
    } else if accounts.treasury != factory.treasury {
        Some(AppFactoryError::InvalidTreasury)
    } else if accounts.defai_mint != factory.defai_mint {
        Some(AppFactoryError::InvalidDefaiMint)
    } else {
        pre_validation_error(app, factory)
    }
}

/// Sells one copy of an application to a buyer who names the creator and
/// the treasury, so that their token accounts can be opened.  Apart from the
/// check of those two names this is the plain purchase.
pub fn purchase_app_with_init(
    factory: &AppFactory,
    app: &mut AppRegistration,
    accounts: &PurchaseAppWithInit,
    now: i64,
) -> (outcome: Result<PurchaseReceipt, AppFactoryError>)
    ensures
        match outcome {
            Ok(receipt) => {
                &&& purchase_with_init_error(*factory, *old(app), *accounts) is None
                &&& receipt == purchase_receipt(
                    *factory,
                    *old(app),
                    plain_purchase(*accounts),
                    now,
                )
                &&& receipt.platform_fee + receipt.creator_amount == old(app).price
                &&& sold_one(*old(app), *final(app))
                &&& final(app).current_supply <= final(app).max_supply
            },
            Err(e) => purchase_with_init_error(*factory, *old(app), *accounts) == Some(e)
                && *final(app) == *old(app),
        },
        old(app).current_supply == old(app).max_supply ==> outcome is Err,
        listing_wf(*old(app)) ==> listing_wf(*final(app)),
{
    if accounts.user_defai_ata.amount < app.price {
        return Err(AppFactoryError::InsufficientBalance);
    }
    if accounts.creator != app.creator {
        return Err(AppFactoryError::InvalidCreator);
    }
    if accounts.treasury != factory.treasury {
        return Err(AppFactoryError::InvalidTreasury);
    }
    let plain = PurchaseAppAccessOptimized {
        user: accounts.user,
        user_sft_ata: accounts.user_sft_ata,
        user_defai_ata: accounts.user_defai_ata,
        defai_mint: accounts.defai_mint,
        bump: accounts.bump,
    };
    purchase_app_access_v2(factory, app, &plain, now)
}

} // verus!
