//! What holds of an application's supply across purchases and refunds.

use vstd::prelude::*;
use crate::app_factory::purchase_app::{
    creator_amount_of,
    platform_fee_of,
    pre_validation_error,
    purchase_error,
    sold_one,
    PurchaseAppAccessOptimized,
};
use crate::app_factory::refund::{refund_error, returned_one, RefundPurchase};
use crate::app_factory::state::{
    factory_wf,
    AppFactory,
    AppFactoryError,
    AppRegistration,
    UserAppAccess,
};
use crate::arith::lemma_split_exact;

verus! {

/// A sold-out application cannot be bought: whatever else holds of the
/// purchase, it is refused.
pub proof fn lemma_sold_out_is_refused(
    factory: AppFactory,
    app: AppRegistration,
    accounts: PurchaseAppAccessOptimized,
)
    requires
        app.current_supply >= app.max_supply,
    ensures
        purchase_error(factory, app, accounts) is Some,
        app.is_active ==> pre_validation_error(app, factory) == Some(
            AppFactoryError::MaxSupplyReached,
        ),
{
}

/// A purchase that goes through sells exactly one copy and never takes the
/// copies sold past the supply.
pub proof fn lemma_purchase_keeps_supply(
    factory: AppFactory,
    pre: AppRegistration,
    post: AppRegistration,
    accounts: PurchaseAppAccessOptimized,
)
    requires
        purchase_error(factory, pre, accounts) is None,
        sold_one(pre, post),
    ensures
        post.current_supply == pre.current_supply + 1,
        post.current_supply <= post.max_supply,
        post.max_supply == pre.max_supply,
{
}

/// A refund that goes through puts exactly one copy back on sale, so a
/// purchase followed by its refund leaves the application as it was.
pub proof fn lemma_refund_undoes_purchase(
    factory: AppFactory,
    before: AppRegistration,
    bought: AppRegistration,
    refunded: AppRegistration,
    buyer: PurchaseAppAccessOptimized,
    access: UserAppAccess,
    accounts: RefundPurchase,
    now: i64,
)
    requires
        purchase_error(factory, before, buyer) is None,
        sold_one(before, bought),
        refund_error(factory, bought, access, accounts, now) is None,
        returned_one(bought, refunded),
    ensures
        refunded.current_supply == bought.current_supply - 1,
        refunded == before,
        platform_fee_of(bought.price, factory.platform_fee_bps) == platform_fee_of(
            before.price,
            factory.platform_fee_bps,
        ),
        creator_amount_of(bought.price, factory.platform_fee_bps) + platform_fee_of(
            bought.price,
            factory.platform_fee_bps,
        ) == before.price,
{
}

/// With a platform fee of at most 100%, the split of a price never fails,
/// and its two parts are within the price and add up to it.
pub proof fn lemma_price_split(factory: AppFactory, app: AppRegistration)
    requires
        factory_wf(factory),
    ensures
        0 <= platform_fee_of(app.price, factory.platform_fee_bps) <= app.price,
        0 <= creator_amount_of(app.price, factory.platform_fee_bps) <= app.price,
        platform_fee_of(app.price, factory.platform_fee_bps) + creator_amount_of(
            app.price,
            factory.platform_fee_bps,
        ) == app.price,
        pre_validation_error(app, factory) != Some(AppFactoryError::MathOverflow),
{
    lemma_split_exact(app.price, factory.platform_fee_bps);
}

} // verus!
