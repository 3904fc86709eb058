//! Purchase of an application.  The price is split into the platform fee,
//! which goes to the treasury, and the remainder, which goes to the creator;
//! the buyer gets one access token and a record of the purchase.

use vstd::prelude::*;
use crate::app_factory::state::{
    factory_wf,
    listing_wf,
    AppFactory,
    AppFactoryError,
    AppPurchased,
    AppRegistration,
    UserAppAccess,
};
use crate::arith::{bps_share, lemma_split_exact, split};
use crate::types::{Pubkey, TokenAccount};

verus! {

/// The platform's part of a price.
pub open spec fn platform_fee_of(price: u64, platform_fee_bps: u16) -> int {
    bps_share(price as int, platform_fee_bps as int)
}

/// The creator's part of a price.
pub open spec fn creator_amount_of(price: u64, platform_fee_bps: u16) -> int {
    price - platform_fee_of(price, platform_fee_bps)
}

/// Why an application cannot be bought, if it cannot.
pub open spec fn pre_validation_error(app: AppRegistration, factory: AppFactory) -> Option<
    AppFactoryError,
> {
    if !app.is_active {
        Some(AppFactoryError::AppNotActive)
    } else if app.current_supply >= app.max_supply {
        Some(AppFactoryError::MaxSupplyReached)
    } else if platform_fee_of(app.price, factory.platform_fee_bps) > app.price {
        Some(AppFactoryError::MathOverflow)
    } else {
        None
    }
}

/// Checks that an application is on sale and not sold out, and works the
/// split of its price out.  On success `price`, `platform_fee` and
/// `creator_amount` hold the price and its two parts; on failure they are
/// left as they were.
pub fn purchase_app_pre_validation(
    app_registration: &AppRegistration,
    app_factory: &AppFactory,
    price: &mut u64,
    platform_fee: &mut u64,
    creator_amount: &mut u64,
) -> (outcome: Result<(), AppFactoryError>)
    ensures
        match outcome {
            Ok(_) => {
                &&& pre_validation_error(*app_registration, *app_factory) is None
                &&& *final(price) == app_registration.price
                &&& *final(platform_fee) == platform_fee_of(
                    app_registration.price,
                    app_factory.platform_fee_bps,
                )
                &&& *final(creator_amount) == creator_amount_of(
                    app_registration.price,
                    app_factory.platform_fee_bps,
                )
                &&& *final(platform_fee) + *final(creator_amount) == *final(price)
            },
            Err(e) => {
                &&& pre_validation_error(*app_registration, *app_factory) == Some(e)
                &&& *final(price) == *old(price)
                &&& *final(platform_fee) == *old(platform_fee)
                &&& *final(creator_amount) == *old(creator_amount)
            },
        },
        factory_wf(*app_factory) ==> pre_validation_error(*app_registration, *app_factory)
            != Some(AppFactoryError::MathOverflow),
{
    proof {
        if factory_wf(*app_factory) {
            lemma_split_exact(app_registration.price, app_factory.platform_fee_bps);
        }
    }
    if !app_registration.is_active {
        return Err(AppFactoryError::AppNotActive);
    }
    if app_registration.current_supply >= app_registration.max_supply {
        return Err(AppFactoryError::MaxSupplyReached);
    }
    match split(app_registration.price, app_factory.platform_fee_bps) {
        Some((fee, remainder)) => {
            *price = app_registration.price;
            *platform_fee = fee;
            *creator_amount = remainder;
            Ok(())
        },
        None => Err(AppFactoryError::MathOverflow),
    }
}

/// What a buyer presents.
#[derive(Clone, Copy, Debug, PartialEq, Eq)]
pub struct PurchaseAppAccessOptimized {
    pub user: Pubkey,
    /// The buyer's account for the application's access token.
    pub user_sft_ata: Pubkey,
    /// The buyer's account of the payment token.
    pub user_defai_ata: TokenAccount,
    /// The mint that the buyer claims to be the payment token's.
    pub defai_mint: Pubkey,
    /// Bump of the record of the purchase.
    pub bump: u8,
}

/// What a purchase yields: the record of the purchase, the tokens to move,
/// the access tokens to mint, and the event.
#[derive(Clone, Copy, Debug, PartialEq, Eq)]
pub struct PurchaseReceipt {
    pub user_app_access: UserAppAccess,
    /// Tokens that go from the buyer to the treasury.
    pub platform_fee: u64,
    /// Tokens that go from the buyer to the creator.
    pub creator_amount: u64,
    /// Access tokens to mint to the buyer.
    pub mint_amount: u64,
    pub event: AppPurchased,
}

/// The first check that fails when an application is bought, if any.
pub open spec fn purchase_error(
    factory: AppFactory,
    app: AppRegistration,
    accounts: PurchaseAppAccessOptimized,
) -> Option<AppFactoryError> {
    if accounts.user_defai_ata.amount < app.price {
        Some(AppFactoryError::InsufficientBalance)
    } else if accounts.defai_mint != factory.defai_mint {
        Some(AppFactoryError::InvalidDefaiMint)
    } else {
        pre_validation_error(app, factory)
    }
}

/// The receipt of a purchase.
pub open spec fn purchase_receipt(
    factory: AppFactory,
    app: AppRegistration,
    accounts: PurchaseAppAccessOptimized,
    now: i64,
) -> PurchaseReceipt {
    PurchaseReceipt {
        user_app_access: UserAppAccess {
            user: accounts.user,
            app_id: app.app_id,
            sft_token_account: accounts.user_sft_ata,
            purchased_at: now,
            bump: accounts.bump,
        },
        platform_fee: platform_fee_of(app.price, factory.platform_fee_bps) as u64,
        creator_amount: creator_amount_of(app.price, factory.platform_fee_bps) as u64,
        mint_amount: 1,
        event: AppPurchased {
            app_id: app.app_id,
            user: accounts.user,
            price: app.price,
            platform_fee: platform_fee_of(app.price, factory.platform_fee_bps) as u64,
            creator_amount: creator_amount_of(app.price, factory.platform_fee_bps) as u64,
            timestamp: now,
        },
    }
}

/// Whether `post` is `pre` with one more copy sold.
pub open spec fn sold_one(pre: AppRegistration, post: AppRegistration) -> bool {
    post == (AppRegistration { current_supply: (pre.current_supply + 1) as u64, ..pre })
}

/// Sells one copy of an application.  The application must be active and
/// not sold out, and the buyer must hold the price.  Exactly one more copy
/// is counted as sold, and the two parts of the price add up to the price.
pub fn purchase_app_access_v2(
    factory: &AppFactory,
    app: &mut AppRegistration,
    accounts: &PurchaseAppAccessOptimized,
    now: i64,
) -> (outcome: Result<PurchaseReceipt, AppFactoryError>)
    ensures
        match outcome {
            Ok(receipt) => {
                &&& purchase_error(*factory, *old(app), *accounts) is None
                &&& receipt == purchase_receipt(*factory, *old(app), *accounts, now)
                &&& receipt.platform_fee + receipt.creator_amount == old(app).price
                &&& sold_one(*old(app), *final(app))
                &&& final(app).current_supply <= final(app).max_supply
            },
            Err(e) => purchase_error(*factory, *old(app), *accounts) == Some(e) && *final(app)
                == *old(app),
        },
        old(app).current_supply == old(app).max_supply ==> outcome is Err,
        listing_wf(*old(app)) ==> listing_wf(*final(app)),
{
    if accounts.user_defai_ata.amount < app.price {
        return Err(AppFactoryError::InsufficientBalance);
    }
    if accounts.defai_mint != factory.defai_mint {
        return Err(AppFactoryError::InvalidDefaiMint);
    }
    let mut price: u64 = 0;
    let mut platform_fee: u64 = 0;
    let mut creator_amount: u64 = 0;
    purchase_app_pre_validation(app, factory, &mut price, &mut platform_fee, &mut creator_amount)?;
    app.current_supply = app.current_supply + 1;
    Ok(
        PurchaseReceipt {
            user_app_access: UserAppAccess {
                user: accounts.user,
                app_id: app.app_id,
                sft_token_account: accounts.user_sft_ata,
                purchased_at: now,
                bump: accounts.bump,
            },
            platform_fee,
            creator_amount,
            mint_amount: 1,
            event: AppPurchased {
                app_id: app.app_id,
                user: accounts.user,
                price,
                platform_fee,
                creator_amount,
                timestamp: now,
            },
        },
    )
}

} // verus!
