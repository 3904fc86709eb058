//! Refund of a purchase within a day.  The split of the price is reversed:
//! the creator returns the creator's part and the treasury the platform fee.
//! Both must hold what they return; the access token is burnt and the copy
//! goes back on sale.

use vstd::prelude::*;
use crate::app_factory::purchase_app::{creator_amount_of, platform_fee_of};
use crate::app_factory::state::{
    listing_wf,
    AppFactory,
    AppFactoryError,
    AppRefunded,
    AppRegistration,
    Failure,
    RefundError,
    UserAppAccess,
    REFUND_WINDOW,
};
use crate::arith::split;
use crate::types::{Pubkey, TokenAccount};

verus! {

/// Who takes part in a refund, and what they hold.
#[derive(Clone, Copy, Debug, PartialEq, Eq)]
pub struct RefundPurchase {
    pub user: Pubkey,
    /// The buyer's account of the access token.
    pub user_sft_ata: TokenAccount,
    /// The creator's account of the payment token.
    pub creator_defai_ata: TokenAccount,
    /// The treasury's account of the payment token.
    pub treasury_defai_ata: TokenAccount,
    /// The creator, who signs for the return.
    pub creator: Pubkey,
    /// The treasury, which signs for the return.
    pub treasury: Pubkey,
    pub defai_mint: Pubkey,
}

/// What a refund yields: the tokens to return and to burn, and the event.
#[derive(Clone, Debug, PartialEq, Eq)]
pub struct RefundReceipt {
    /// Tokens that go from the creator back to the buyer.
    pub creator_refund: u64,
    /// Tokens that go from the treasury back to the buyer.
    pub platform_fee_refund: u64,
    /// Access tokens to burn.
    pub burn_amount: u64,
    pub event: AppRefunded,
}

/// The creator's part of a price, which the creator must hold for a refund.
/// Where the fee would exceed the price, this is the whole price.
pub open spec fn spec_refund_amount(price: u64, platform_fee_bps: u16) -> int {
    if platform_fee_of(price, platform_fee_bps) > price {
        price as int
    } else {
        creator_amount_of(price, platform_fee_bps)
    }
}

/// Works out what the creator must hold for a refund.
pub fn refund_amount(price: u64, platform_fee_bps: u16) -> (amount: u64)
    ensures
        amount == spec_refund_amount(price, platform_fee_bps),
        amount <= price,
{
    match split(price, platform_fee_bps) {
        Some((_, remainder)) => remainder,
        None => price,
    }
}

/// The first check that fails when a purchase is refunded, if any.
pub open spec fn refund_error(
    factory: AppFactory,
    app: AppRegistration,
    access: UserAppAccess,
    accounts: RefundPurchase,
    now: i64,
) -> Option<Failure> {
    if access.user != accounts.user || access.app_id != app.app_id {
        Some(Failure::Factory(AppFactoryError::NoSftToRefund))
    } else if accounts.user_sft_ata.amount == 0 {
        Some(Failure::Factory(AppFactoryError::NoSftToRefund))
    } else if accounts.creator_defai_ata.amount < spec_refund_amount(
        app.price,
        factory.platform_fee_bps,
    ) {
        Some(Failure::Factory(AppFactoryError::InsufficientCreatorBalance))
    } else if accounts.creator != app.creator {
        Some(Failure::Factory(AppFactoryError::UnauthorizedCreator))
    } else if accounts.treasury != factory.treasury {
        Some(Failure::Factory(AppFactoryError::InvalidTreasury))
    } else if accounts.defai_mint != factory.defai_mint {
        Some(Failure::Factory(AppFactoryError::InvalidDefaiMint))
    } else if now - access.purchased_at > REFUND_WINDOW {
        Some(Failure::Refund(RefundError::RefundWindowExpired))
    } else if platform_fee_of(app.price, factory.platform_fee_bps) > app.price {
        Some(Failure::Factory(AppFactoryError::MathOverflow))
    } else if accounts.treasury_defai_ata.amount < platform_fee_of(
        app.price,
        factory.platform_fee_bps,
    ) {
        Some(Failure::Factory(AppFactoryError::InsufficientBalance))
    } else if app.current_supply == 0 {
        Some(Failure::Factory(AppFactoryError::MathOverflow))
    } else {
        None
    }
}

/// Whether `post` is `pre` with one copy back on sale.
pub open spec fn returned_one(pre: AppRegistration, post: AppRegistration) -> bool {
    post == (AppRegistration { current_supply: (pre.current_supply - 1) as u64, ..pre })
}

/// Refunds a purchase within a day of it.  The buyer must still hold the
/// access token, the creator and the treasury must sign and must hold what
/// they return.  The buyer gets the whole price back in the two parts in
/// which it was paid, and exactly one copy goes back on sale.  The record of
/// the purchase is closed by the caller.
pub fn refund_purchase(
    factory: &AppFactory,
    app: &mut AppRegistration,
    access: &UserAppAccess,
    accounts: &RefundPurchase,
    reason: String,
    now: i64,
) -> (outcome: Result<RefundReceipt, Failure>)
    ensures
        match outcome {
            Ok(receipt) => {
                &&& refund_error(*factory, *old(app), *access, *accounts, now) is None
                &&& receipt.platform_fee_refund == platform_fee_of(
                    old(app).price,
                    factory.platform_fee_bps,
                )
                &&& receipt.creator_refund == creator_amount_of(
                    old(app).price,
                    factory.platform_fee_bps,
                )
                &&& receipt.creator_refund + receipt.platform_fee_refund == old(app).price
                &&& receipt.creator_refund <= accounts.creator_defai_ata.amount
                &&& receipt.platform_fee_refund <= accounts.treasury_defai_ata.amount
                &&& receipt.burn_amount == 1
                &&& receipt.event == (AppRefunded {
                    app_id: old(app).app_id,
                    user: accounts.user,
                    refund_amount: old(app).price,
                    reason,
                    timestamp: now,
                })
                &&& returned_one(*old(app), *final(app))
            },
            Err(e) => refund_error(*factory, *old(app), *access, *accounts, now) == Some(e)
                && *final(app) == *old(app),
        },
        listing_wf(*old(app)) ==> listing_wf(*final(app)),
{
    if access.user != accounts.user || access.app_id != app.app_id {
        return Err(Failure::Factory(AppFactoryError::NoSftToRefund));
    }
    if accounts.user_sft_ata.amount == 0 {
        return Err(Failure::Factory(AppFactoryError::NoSftToRefund));
    }
    if accounts.creator_defai_ata.amount < refund_amount(app.price, factory.platform_fee_bps) {
        return Err(Failure::Factory(AppFactoryError::InsufficientCreatorBalance));
    }
    if accounts.creator != app.creator {
        return Err(Failure::Factory(AppFactoryError::UnauthorizedCreator));
    }
    if accounts.treasury != factory.treasury {
        return Err(Failure::Factory(AppFactoryError::InvalidTreasury));
    }
    if accounts.defai_mint != factory.defai_mint {
        return Err(Failure::Factory(AppFactoryError::InvalidDefaiMint));
    }
    if now as i128 - access.purchased_at as i128 > REFUND_WINDOW as i128 {
        return Err(Failure::Refund(RefundError::RefundWindowExpired));
    }
    let (platform_fee, creator_refund) = match split(app.price, factory.platform_fee_bps) {
        Some(parts) => parts,
        None => {
            return Err(Failure::Factory(AppFactoryError::MathOverflow));
        },
    };
    if accounts.treasury_defai_ata.amount < platform_fee {
        return Err(Failure::Factory(AppFactoryError::InsufficientBalance));
    }
    if app.current_supply == 0 {
        return Err(Failure::Factory(AppFactoryError::MathOverflow));
    }
    app.current_supply = app.current_supply - 1;
    Ok(
        RefundReceipt {
            creator_refund,
            platform_fee_refund: platform_fee,
            burn_amount: 1,
            event: AppRefunded {
                app_id: app.app_id,
                user: accounts.user,
                refund_amount: app.price,
                reason,
                timestamp: now,
            },
        },
    )
}

} // verus!
