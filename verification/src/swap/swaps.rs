//! Swaps of tokens for a bonus NFT.  A swap checks the tier's supply, splits
//! the price into tax and escrowed remainder, draws the NFT's bonus and opens
//! the vesting schedule of that bonus.  The caller moves the tokens that a
//! receipt names and mints the NFT.

use vstd::prelude::*;
use crate::arith::{bps_share, mul_div, split, BPS_DENOMINATOR};
use crate::merkle::{proves, verify};
use crate::swap::bonus::{
    bonus_for_tier,
    draw_random,
    drawn_value,
    oracle_ready,
    tier_bonus,
    use_up,
    used_up,
};
use crate::swap::state::{
    BonusStateV6,
    CollectionConfig,
    Config,
    ErrorCode,
    OgTier0Claim,
    SwapExecuted,
    UserTaxState,
    VestingStateV6,
    VESTING_DURATION,
};
use crate::swap::tax::{
    rate_in_bounds,
    after_exempt_swap,
    after_taxed_swap,
    at_swap,
    escalate,
    has_cooled_down,
};
use crate::swap::vrf::VrfState;
use crate::types::{add_seconds, Clock, Pubkey, TokenAccount};

verus! {

/// What a swap produced: the two records of the new NFT, the tokens to move
/// and the event to emit.
#[derive(Clone, Copy, Debug, PartialEq, Eq)]
pub struct SwapReceipt {
    pub bonus_state: BonusStateV6,
    pub vesting_state: VestingStateV6,
    /// Tokens that go from the user to the treasury.
    pub tax_amount: u64,
    /// Tokens that go from the user into escrow.
    pub escrow_amount: u64,
    pub event: SwapExecuted,
}

/// The bonus record of a new NFT.
pub open spec fn new_bonus_state(nft_mint: Pubkey, tier: u8, bonus_bps: u16, now: i64) -> BonusStateV6 {
    BonusStateV6 {
        mint: nft_mint,
        tier,
        bonus_bps,
        vesting_start: now,
        vesting_duration: VESTING_DURATION,
        claimed: false,
        fee_deducted: 0,
    }
}

/// A schedule over `total` that starts at `now` with nothing released.
pub open spec fn new_vesting_state(nft_mint: Pubkey, total: u64, now: i64) -> VestingStateV6 {
    VestingStateV6 {
        mint: nft_mint,
        total_amount: total,
        released_amount: 0,
        start_timestamp: now,
        end_timestamp: (now + VESTING_DURATION) as i64,
        last_claimed_timestamp: now,
    }
}

/// The tier-0 supply open to paying users: what is left once the share held
/// back for whitelisted holders is taken off.
pub open spec fn public_tier0_supply(collection: CollectionConfig) -> int {
    if collection.tier_supplies[0] > collection.og_tier_0_supply {
        collection.tier_supplies[0] - collection.og_tier_0_supply
    } else {
        0
    }
}

/// Whether one more NFT of `tier` can be minted to a paying user.
pub open spec fn has_supply(collection: CollectionConfig, tier: u8) -> bool
    recommends
        tier < 5,
{
    if tier == 0 {
        collection.tier_minted[0] < public_tier0_supply(collection)
    } else {
        collection.tier_minted[tier as int] < collection.tier_supplies[tier as int]
    }
}

/// Whether `post` is `pre` with one more NFT of `tier` minted.
pub open spec fn minted_one(pre: CollectionConfig, post: CollectionConfig, tier: u8) -> bool
    recommends
        tier < 5,
{
    &&& post.tier_minted@ == pre.tier_minted@.update(
        tier as int,
        (pre.tier_minted[tier as int] + 1) as u16,
    )
    &&& post == (CollectionConfig { tier_minted: post.tier_minted, ..pre })
}

/// Whether no tier has more minted than it can supply, tier 0 counting only
/// its public share.
pub open spec fn supply_respected(collection: CollectionConfig) -> bool {
    &&& collection.tier_minted[0] <= public_tier0_supply(collection)
    &&& forall|t: int| 1 <= t < 5 ==> collection.tier_minted[t] <= collection.tier_supplies[t]
    &&& collection.og_tier_0_minted <= collection.og_tier_0_supply
}

/// The vesting total of a bonus: `bonus_bps` basis points of the price.
pub open spec fn bonus_amount(price: u64, bonus_bps: u16) -> int {
    bps_share(price as int, bonus_bps as int)
}

/// Why a schedule for the bonus cannot be opened at `now`, if it cannot.
pub open spec fn schedule_error(total: int, now: i64) -> Option<ErrorCode> {
    if total > u64::MAX {
        Some(ErrorCode::MathOverflow)
    } else if now + VESTING_DURATION > i64::MAX {
        Some(ErrorCode::MathOverflow)
    } else {
        None
    }
}

/// Checks whether `tier` has supply left for a paying user.
pub fn tier_has_supply(collection: &CollectionConfig, tier: u8) -> (r: bool)
    requires
        tier < 5,
    ensures
        r == has_supply(*collection, tier),
{
    if tier == 0 {
        let remaining = collection.tier_supplies[0].saturating_sub(collection.og_tier_0_supply);
        collection.tier_minted[0] < remaining
    } else {
        collection.tier_minted[tier as usize] < collection.tier_supplies[tier as usize]
    }
}

/// Counts one more NFT of `tier`.
fn mint_one(collection: &mut CollectionConfig, tier: u8)
    requires
        tier < 5,
        has_supply(*old(collection), tier),
    ensures
        minted_one(*old(collection), *final(collection), tier),
        supply_respected(*old(collection)) ==> supply_respected(*final(collection)),
{
    let mut minted = collection.tier_minted;
    minted[tier as usize] = minted[tier as usize] + 1;
    collection.tier_minted = minted;
}

/// Opens the schedule of a bonus of `total` at `now`.
fn open_schedule(nft_mint: Pubkey, total: u64, now: i64) -> (outcome: Result<
    VestingStateV6,
    ErrorCode,
>)
    ensures
        match outcome {
            Ok(schedule) => schedule_error(total as int, now) is None && schedule
                == new_vesting_state(nft_mint, total, now),
            Err(e) => schedule_error(total as int, now) == Some(e),
        },
{
    match add_seconds(now, VESTING_DURATION) {
        Some(end) => Ok(
            VestingStateV6 {
                mint: nft_mint,
                total_amount: total,
                released_amount: 0,
                start_timestamp: now,
                end_timestamp: end,
                last_claimed_timestamp: now,
            },
        ),
        None => Err(ErrorCode::MathOverflow),
    }
}

/// The first check that fails before the bonus of a paid swap is drawn, if any.
pub open spec fn defai_opening_error(
    config: Config,
    collection: CollectionConfig,
    tax: UserTaxState,
    user: Pubkey,
    tier: u8,
    now: i64,
) -> Option<ErrorCode> {
    if tax.user != user {
        Some(ErrorCode::Unauthorized)
    } else if tier >= 5 {
        Some(ErrorCode::InvalidTier)
    } else if config.paused {
        Some(ErrorCode::ProtocolPaused)
    } else if !has_supply(collection, tier) {
        Some(ErrorCode::NoLiquidity)
    } else if bps_share(
        collection.tier_prices[tier as int] as int,
        at_swap(tax, now).tax_rate_bps as int,
    ) > collection.tier_prices[tier as int] {
        Some(ErrorCode::MathOverflow)
    } else {
        None
    }
}

/// The first check that fails once the bonus of a paid swap is drawn, if any.
pub open spec fn defai_settling_error(
    collection: CollectionConfig,
    tax: UserTaxState,
    tier: u8,
    now: i64,
    random_value: u64,
) -> Option<ErrorCode>
    recommends
        tier < 5,
{
    let price = collection.tier_prices[tier as int];
    if schedule_error(bonus_amount(price, tier_bonus(tier, random_value)), now) is Some {
        Some(ErrorCode::MathOverflow)
    } else if at_swap(tax, now).swap_count + 1 > u32::MAX {
        Some(ErrorCode::MathOverflow)
    } else {
        None
    }
}

/// The first check that fails for a paid swap with a given random value, if any.
pub open spec fn defai_swap_error(
    config: Config,
    collection: CollectionConfig,
    tax: UserTaxState,
    user: Pubkey,
    tier: u8,
    now: i64,
    random_value: u64,
) -> Option<ErrorCode> {
    if defai_opening_error(config, collection, tax, user, tier, now) is Some {
        defai_opening_error(config, collection, tax, user, tier, now)
    } else {
        defai_settling_error(collection, tax, tier, now, random_value)
    }
}

/// The receipt of a paid swap with a given random value.
pub open spec fn defai_receipt(
    collection: CollectionConfig,
    tax: UserTaxState,
    user: Pubkey,
    nft_mint: Pubkey,
    tier: u8,
    now: i64,
    random_value: u64,
) -> SwapReceipt
    recommends
        tier < 5,
{
    let price = collection.tier_prices[tier as int];
    let tax_amount = bps_share(price as int, at_swap(tax, now).tax_rate_bps as int) as u64;
    let bonus = tier_bonus(tier, random_value);
    SwapReceipt {
        bonus_state: new_bonus_state(nft_mint, tier, bonus, now),
        vesting_state: new_vesting_state(nft_mint, bonus_amount(price, bonus) as u64, now),
        tax_amount,
        escrow_amount: (price - tax_amount) as u64,
        event: SwapExecuted {
            user,
            tier,
            price,
            tax_amount,
            bonus_bps: bonus,
            nft_mint,
            timestamp: now,
        },
    }
}

/// Carries a paid swap out for a random value that has been drawn already.
/// On success one more NFT of the tier is counted, the user's tax rate has
/// risen, and the receipt names the split of the price: tax to the treasury,
/// the remainder into escrow.  On failure nothing has changed.
pub fn complete_defai_swap(
    config: &Config,
    collection: &mut CollectionConfig,
    user_tax: &mut UserTaxState,
    user: Pubkey,
    nft_mint: Pubkey,
    tier: u8,
    now: i64,
    random_value: u64,
) -> (outcome: Result<SwapReceipt, ErrorCode>)
    ensures
        match outcome {
            Ok(receipt) => {
                &&& defai_swap_error(
                    *config,
                    *old(collection),
                    *old(user_tax),
                    user,
                    tier,
                    now,
                    random_value,
                ) is None
                &&& receipt == defai_receipt(
                    *old(collection),
                    *old(user_tax),
                    user,
                    nft_mint,
                    tier,
                    now,
                    random_value,
                )
                &&& receipt.tax_amount + receipt.escrow_amount == old(collection).tier_prices[tier as int]
                &&& minted_one(*old(collection), *final(collection), tier)
                &&& *final(user_tax) == after_taxed_swap(*old(user_tax), now)
            },
            Err(e) => {
                &&& defai_swap_error(
                    *config,
                    *old(collection),
                    *old(user_tax),
                    user,
                    tier,
                    now,
                    random_value,
                ) == Some(e)
                &&& *final(collection) == *old(collection)
                &&& *final(user_tax) == *old(user_tax)
            },
        },
        supply_respected(*old(collection)) ==> supply_respected(*final(collection)),
        rate_in_bounds(old(user_tax).tax_rate_bps) ==> rate_in_bounds(final(user_tax).tax_rate_bps),
{
    if user_tax.user != user {
        return Err(ErrorCode::Unauthorized);
    }
    if tier >= 5 {
        return Err(ErrorCode::InvalidTier);
    }
    if config.paused {
        return Err(ErrorCode::ProtocolPaused);
    }
    if !tier_has_supply(collection, tier) {
        return Err(ErrorCode::NoLiquidity);
    }
    let reset = has_cooled_down(user_tax.last_swap_timestamp, now);
    let rate: u16 = if reset {
        crate::swap::state::INITIAL_TAX_BPS
    } else {
        user_tax.tax_rate_bps
    };
    let count: u32 = if reset {
        0
    } else {
        user_tax.swap_count
    };
    let price = collection.tier_prices[tier as usize];
    let (tax_amount, net_amount) = match split(price, rate) {
        Some(parts) => parts,
        None => {
            return Err(ErrorCode::MathOverflow);
        },
    };
    let bonus = bonus_for_tier(tier, random_value);
    let vesting_amount = match mul_div(price, bonus as u64, BPS_DENOMINATOR) {
        Some(amount) => amount,
        None => {
            return Err(ErrorCode::MathOverflow);
        },
    };
    let vesting_state = open_schedule(nft_mint, vesting_amount, now)?;
    if count == u32::MAX {
        return Err(ErrorCode::MathOverflow);
    }
    user_tax.tax_rate_bps = escalate(rate);
    user_tax.swap_count = count + 1;
    user_tax.last_swap_timestamp = now;
    mint_one(collection, tier);
    Ok(
        SwapReceipt {
            bonus_state: BonusStateV6 {
                mint: nft_mint,
                tier,
                bonus_bps: bonus,
                vesting_start: now,
                vesting_duration: VESTING_DURATION,
                claimed: false,
                fee_deducted: 0,
            },
            vesting_state,
            tax_amount,
            escrow_amount: net_amount,
            event: SwapExecuted {
                user,
                tier,
                price,
                tax_amount,
                bonus_bps: bonus,
                nft_mint,
                timestamp: now,
            },
        },
    )
}

/// The first check that fails for a paid swap, if any.
pub open spec fn swap_defai_error(
    config: Config,
    collection: CollectionConfig,
    tax: UserTaxState,
    vrf: VrfState,
    user: Pubkey,
    nft_mint: Pubkey,
    tier: u8,
    clock: Clock,
    recent_blockhash: [u8; 32],
) -> Option<ErrorCode> {
    if defai_opening_error(config, collection, tax, user, tier, clock.unix_timestamp) is Some {
        defai_opening_error(config, collection, tax, user, tier, clock.unix_timestamp)
    } else if !oracle_ready(config, vrf) {
        Some(ErrorCode::VrfNotReady)
    } else {
        defai_settling_error(
            collection,
            tax,
            tier,
            clock.unix_timestamp,
            drawn_value(config, vrf, user, nft_mint, clock, recent_blockhash),
        )
    }
}

/// Swaps new tokens for a bonus NFT of `tier`.  The price is split into the
/// user's current tax, which goes to the treasury, and the remainder, which
/// goes into escrow; the bonus is drawn within the tier's range and vests
/// over the vesting period; the user's rate rises for the next swap.
pub fn swap_defai_for_pnft_v6(
    config: &Config,
    collection: &mut CollectionConfig,
    user_tax: &mut UserTaxState,
    vrf_state: &mut VrfState,
    user: Pubkey,
    nft_mint: Pubkey,
    tier: u8,
    clock: &Clock,
    recent_blockhash: &[u8; 32],
) -> (outcome: Result<SwapReceipt, ErrorCode>)
    ensures
        match outcome {
            Ok(receipt) => {
                &&& swap_defai_error(
                    *config,
                    *old(collection),
                    *old(user_tax),
                    *old(vrf_state),
                    user,
                    nft_mint,
                    tier,
                    *clock,
                    *recent_blockhash,
                ) is None
                &&& receipt == defai_receipt(
                    *old(collection),
                    *old(user_tax),
                    user,
                    nft_mint,
                    tier,
                    clock.unix_timestamp,
                    drawn_value(
                        *config,
                        *old(vrf_state),
                        user,
                        nft_mint,
                        *clock,
                        *recent_blockhash,
                    ),
                )
                &&& receipt.tax_amount + receipt.escrow_amount == old(collection).tier_prices[tier as int]
                &&& crate::swap::bonus::bonus_in_range(receipt.bonus_state)
                &&& minted_one(*old(collection), *final(collection), tier)
                &&& *final(user_tax) == after_taxed_swap(*old(user_tax), clock.unix_timestamp)
                &&& used_up(*config, *old(vrf_state), *final(vrf_state))
            },
            Err(e) => {
                &&& swap_defai_error(
                    *config,
                    *old(collection),
                    *old(user_tax),
                    *old(vrf_state),
                    user,
                    nft_mint,
                    tier,
                    *clock,
                    *recent_blockhash,
                ) == Some(e)
                &&& *final(collection) == *old(collection)
                &&& *final(user_tax) == *old(user_tax)
                &&& *final(vrf_state) == *old(vrf_state)
            },
        },
        supply_respected(*old(collection)) ==> supply_respected(*final(collection)),
        rate_in_bounds(old(user_tax).tax_rate_bps) ==> rate_in_bounds(final(user_tax).tax_rate_bps),
{
    let now = clock.unix_timestamp;
    if user_tax.user != user {
        return Err(ErrorCode::Unauthorized);
    }
    if tier >= 5 {
        return Err(ErrorCode::InvalidTier);
    }
    if config.paused {
        return Err(ErrorCode::ProtocolPaused);
    }
    if !tier_has_supply(collection, tier) {
        return Err(ErrorCode::NoLiquidity);
    }
    let rate: u16 = if has_cooled_down(user_tax.last_swap_timestamp, now) {
        crate::swap::state::INITIAL_TAX_BPS
    } else {
        user_tax.tax_rate_bps
    };
    if split(collection.tier_prices[tier as usize], rate).is_none() {
        return Err(ErrorCode::MathOverflow);
    }
    let random_value = draw_random(config, vrf_state, &user, &nft_mint, clock, recent_blockhash)?;
    let receipt = complete_defai_swap(
        config,
        collection,
        user_tax,
        user,
        nft_mint,
        tier,
        now,
        random_value,
    )?;
    use_up(config, vrf_state);
    Ok(receipt)
}

/// The token accounts that a swap of old tokens names.
#[derive(Clone, Copy, Debug, PartialEq, Eq)]
pub struct SwapOldDefaiForPnftV6 {
    /// The user's account of old tokens.
    pub user_old: TokenAccount,
    /// The mint that the caller claims to be the old token's.
    pub old_defai_mint: Pubkey,
    /// The escrow account that receives the old tokens.
    pub escrow_old: TokenAccount,
    /// The address of the escrow authority.
    pub escrow: Pubkey,
}

/// The first of the account checks of a swap of old tokens that fails, if any.
pub open spec fn old_accounts_error(
    collection: CollectionConfig,
    accounts: SwapOldDefaiForPnftV6,
    user: Pubkey,
) -> Option<ErrorCode> {
    if accounts.user_old.owner != user {
        Some(ErrorCode::Unauthorized)
    } else if accounts.user_old.mint != accounts.old_defai_mint {
        Some(ErrorCode::InvalidMint)
    } else if accounts.old_defai_mint != collection.old_defai_mint {
        Some(ErrorCode::InvalidMint)
    } else if accounts.escrow_old.owner != accounts.escrow {
        Some(ErrorCode::Unauthorized)
    } else if accounts.escrow_old.mint != accounts.old_defai_mint {
        Some(ErrorCode::InvalidMint)
    } else {
        None
    }
}

/// The first check that fails before the bonus of a swap of old tokens is
/// drawn, if any.
pub open spec fn old_opening_error(
    config: Config,
    collection: CollectionConfig,
    tax: UserTaxState,
    accounts: SwapOldDefaiForPnftV6,
    user: Pubkey,
    tier: u8,
) -> Option<ErrorCode> {
    if tax.user != user {
        Some(ErrorCode::Unauthorized)
    } else if old_accounts_error(collection, accounts, user) is Some {
        old_accounts_error(collection, accounts, user)
    } else if tier >= 5 {
        Some(ErrorCode::InvalidTier)
    } else if config.paused {
        Some(ErrorCode::ProtocolPaused)
    } else if !has_supply(collection, tier) {
        Some(ErrorCode::NoLiquidity)
    } else {
        None
    }
}

/// The first check that fails once the bonus of a swap of old tokens is
/// drawn, if any.
pub open spec fn old_settling_error(
    collection: CollectionConfig,
    tax: UserTaxState,
    tier: u8,
    now: i64,
    random_value: u64,
) -> Option<ErrorCode>
    recommends
        tier < 5,
{
    let price = collection.tier_prices[tier as int];
    if schedule_error(bonus_amount(price, tier_bonus(tier, random_value)), now) is Some {
        Some(ErrorCode::MathOverflow)
    } else if tax.swap_count + 1 > u32::MAX {
        Some(ErrorCode::MathOverflow)
    } else {
        None
    }
}

/// The first check that fails for a swap of old tokens with a given random
/// value, if any.
pub open spec fn old_swap_error(
    config: Config,
    collection: CollectionConfig,
    tax: UserTaxState,
    accounts: SwapOldDefaiForPnftV6,
    user: Pubkey,
    tier: u8,
    now: i64,
    random_value: u64,
) -> Option<ErrorCode> {
    if old_opening_error(config, collection, tax, accounts, user, tier) is Some {
        old_opening_error(config, collection, tax, accounts, user, tier)
    } else {
        old_settling_error(collection, tax, tier, now, random_value)
    }
}

/// The receipt of a swap of old tokens with a given random value: the whole
/// price goes into escrow and no tax is taken.
pub open spec fn old_receipt(
    collection: CollectionConfig,
    user: Pubkey,
    nft_mint: Pubkey,
    tier: u8,
    now: i64,
    random_value: u64,
) -> SwapReceipt
    recommends
        tier < 5,
{
    let price = collection.tier_prices[tier as int];
    let bonus = tier_bonus(tier, random_value);
    SwapReceipt {
        bonus_state: new_bonus_state(nft_mint, tier, bonus, now),
        vesting_state: new_vesting_state(nft_mint, bonus_amount(price, bonus) as u64, now),
        tax_amount: 0,
        escrow_amount: price,
        event: SwapExecuted {
            user,
            tier,
            price,
            tax_amount: 0,
            bonus_bps: bonus,
            nft_mint,
            timestamp: now,
        },
    }
}

/// Checks the token accounts of a swap of old tokens.
pub fn check_old_accounts(collection: &CollectionConfig, accounts: &SwapOldDefaiForPnftV6, user: Pubkey) -> (outcome:
    Result<(), ErrorCode>)
    ensures
        match outcome {
            Ok(_) => old_accounts_error(*collection, *accounts, user) is None,
            Err(e) => old_accounts_error(*collection, *accounts, user) == Some(e),
        },
{
    if accounts.user_old.owner != user {
        return Err(ErrorCode::Unauthorized);
    }
    if accounts.user_old.mint != accounts.old_defai_mint {
        return Err(ErrorCode::InvalidMint);
    }
    if accounts.old_defai_mint != collection.old_defai_mint {
        return Err(ErrorCode::InvalidMint);
    }
    if accounts.escrow_old.owner != accounts.escrow {
        return Err(ErrorCode::Unauthorized);
    }
    if accounts.escrow_old.mint != accounts.old_defai_mint {
        return Err(ErrorCode::InvalidMint);
    }
    Ok(())
}

/// Carries a swap of old tokens out for a random value that has been drawn
/// already.  The swap is exempt from tax: the user's rate and the time of the
/// last taxed swap stay as they are, and only the swap counter moves.
pub fn complete_old_defai_swap(
    config: &Config,
    collection: &mut CollectionConfig,
    user_tax: &mut UserTaxState,
    accounts: &SwapOldDefaiForPnftV6,
    user: Pubkey,
    nft_mint: Pubkey,
    tier: u8,
    now: i64,
    random_value: u64,
) -> (outcome: Result<SwapReceipt, ErrorCode>)
    ensures
        match outcome {
            Ok(receipt) => {
                &&& old_swap_error(
                    *config,
                    *old(collection),
                    *old(user_tax),
                    *accounts,
                    user,
                    tier,
                    now,
                    random_value,
                ) is None
                &&& receipt == old_receipt(*old(collection), user, nft_mint, tier, now, random_value)
                &&& minted_one(*old(collection), *final(collection), tier)
                &&& *final(user_tax) == after_exempt_swap(*old(user_tax))
            },
            Err(e) => {
                &&& old_swap_error(
                    *config,
                    *old(collection),
                    *old(user_tax),
                    *accounts,
                    user,
                    tier,
                    now,
                    random_value,
                ) == Some(e)
                &&& *final(collection) == *old(collection)
                &&& *final(user_tax) == *old(user_tax)
            },
        },
        final(user_tax).tax_rate_bps == old(user_tax).tax_rate_bps,
        final(user_tax).last_swap_timestamp == old(user_tax).last_swap_timestamp,
        supply_respected(*old(collection)) ==> supply_respected(*final(collection)),
{
    if user_tax.user != user {
        return Err(ErrorCode::Unauthorized);
    }
    check_old_accounts(collection, accounts, user)?;
    if tier >= 5 {
        return Err(ErrorCode::InvalidTier);
    }
    if config.paused {
        return Err(ErrorCode::ProtocolPaused);
    }
    if !tier_has_supply(collection, tier) {
        return Err(ErrorCode::NoLiquidity);
    }
    let price = collection.tier_prices[tier as usize];
    let bonus = bonus_for_tier(tier, random_value);
    let vesting_amount = match mul_div(price, bonus as u64, BPS_DENOMINATOR) {
        Some(amount) => amount,
        None => {
            return Err(ErrorCode::MathOverflow);
        },
    };
    let vesting_state = open_schedule(nft_mint, vesting_amount, now)?;
    if user_tax.swap_count == u32::MAX {
        return Err(ErrorCode::MathOverflow);
    }
    user_tax.swap_count = user_tax.swap_count + 1;
    mint_one(collection, tier);
    Ok(
        SwapReceipt {
            bonus_state: BonusStateV6 {
                mint: nft_mint,
                tier,
                bonus_bps: bonus,
                vesting_start: now,
                vesting_duration: VESTING_DURATION,
                claimed: false,
                fee_deducted: 0,
            },
            vesting_state,
            tax_amount: 0,
            escrow_amount: price,
            event: SwapExecuted {
                user,
                tier,
                price,
                tax_amount: 0,
                bonus_bps: bonus,
                nft_mint,
                timestamp: now,
            },
        },
    )
}

/// The first check that fails for a swap of old tokens, if any.
pub open spec fn swap_old_defai_error(
    config: Config,
    collection: CollectionConfig,
    tax: UserTaxState,
    vrf: VrfState,
    accounts: SwapOldDefaiForPnftV6,
    user: Pubkey,
    nft_mint: Pubkey,
    tier: u8,
    clock: Clock,
    recent_blockhash: [u8; 32],
) -> Option<ErrorCode> {
    if old_opening_error(config, collection, tax, accounts, user, tier) is Some {
        old_opening_error(config, collection, tax, accounts, user, tier)
    } else if !oracle_ready(config, vrf) {
        Some(ErrorCode::VrfNotReady)
    } else {
        old_settling_error(
            collection,
            tax,
            tier,
            clock.unix_timestamp,
            drawn_value(config, vrf, user, nft_mint, clock, recent_blockhash),
        )
    }
}

/// Swaps old tokens for a bonus NFT of `tier`.  The whole price goes into
/// escrow; no tax is taken and the user's tax rate and cool-down are left as
/// they are.
pub fn swap_old_defai_for_pnft_v6(
    config: &Config,
    collection: &mut CollectionConfig,
    user_tax: &mut UserTaxState,
    vrf_state: &mut VrfState,
    accounts: &SwapOldDefaiForPnftV6,
    user: Pubkey,
    nft_mint: Pubkey,
    tier: u8,
    clock: &Clock,
    recent_blockhash: &[u8; 32],
) -> (outcome: Result<SwapReceipt, ErrorCode>)
    ensures
        match outcome {
            Ok(receipt) => {
                &&& swap_old_defai_error(
                    *config,
                    *old(collection),
                    *old(user_tax),
                    *old(vrf_state),
                    *accounts,
                    user,
                    nft_mint,
                    tier,
                    *clock,
                    *recent_blockhash,
                ) is None
                &&& receipt == old_receipt(
                    *old(collection),
                    user,
                    nft_mint,
                    tier,
                    clock.unix_timestamp,
                    drawn_value(
                        *config,
                        *old(vrf_state),
                        user,
                        nft_mint,
                        *clock,
                        *recent_blockhash,
                    ),
                )
                &&& crate::swap::bonus::bonus_in_range(receipt.bonus_state)
                &&& minted_one(*old(collection), *final(collection), tier)
                &&& *final(user_tax) == after_exempt_swap(*old(user_tax))
                &&& used_up(*config, *old(vrf_state), *final(vrf_state))
            },
            Err(e) => {
                &&& swap_old_defai_error(
                    *config,
                    *old(collection),
                    *old(user_tax),
                    *old(vrf_state),
                    *accounts,
                    user,
                    nft_mint,
                    tier,
                    *clock,
                    *recent_blockhash,
                ) == Some(e)
                &&& *final(collection) == *old(collection)
                &&& *final(user_tax) == *old(user_tax)
                &&& *final(vrf_state) == *old(vrf_state)
            },
        },
        final(user_tax).tax_rate_bps == old(user_tax).tax_rate_bps,
        final(user_tax).last_swap_timestamp == old(user_tax).last_swap_timestamp,
        supply_respected(*old(collection)) ==> supply_respected(*final(collection)),
{
    if user_tax.user != user {
        return Err(ErrorCode::Unauthorized);
    }
    check_old_accounts(collection, accounts, user)?;
    if tier >= 5 {
        return Err(ErrorCode::InvalidTier);
    }
    if config.paused {
        return Err(ErrorCode::ProtocolPaused);
    }
    if !tier_has_supply(collection, tier) {
        return Err(ErrorCode::NoLiquidity);
    }
    let random_value = draw_random(config, vrf_state, &user, &nft_mint, clock, recent_blockhash)?;
    let receipt = complete_old_defai_swap(
        config,
        collection,
        user_tax,
        accounts,
        user,
        nft_mint,
        tier,
        clock.unix_timestamp,
        random_value,
    )?;
    use_up(config, vrf_state);
    Ok(receipt)
}

/// The first check that fails for the free tier-0 NFT of a whitelisted
/// holder, if any.
pub open spec fn og_swap_error(
    config: Config,
    collection: CollectionConfig,
    og_claim: OgTier0Claim,
    vrf: VrfState,
    user: Pubkey,
    vesting_amount: u64,
    merkle_proof: Seq<[u8; 32]>,
    now: i64,
) -> Option<ErrorCode> {
    if config.paused {
        Some(ErrorCode::ProtocolPaused)
    } else if og_claim.claimed {
        Some(ErrorCode::OgTier0AlreadyClaimed)
    } else if !proves(user, vesting_amount, merkle_proof, collection.og_tier_0_merkle_root) {
        Some(ErrorCode::NotOnOgWhitelist)
    } else if collection.og_tier_0_minted >= collection.og_tier_0_supply {
        Some(ErrorCode::NoLiquidity)
    } else if !oracle_ready(config, vrf) {
        Some(ErrorCode::VrfNotReady)
    } else if now + VESTING_DURATION > i64::MAX {
        Some(ErrorCode::MathOverflow)
    } else {
        None
    }
}

/// The receipt of a free tier-0 NFT: no tokens move, the bonus is the one
/// of tier 0, and the whitelisted amount vests.
pub open spec fn og_receipt(
    user: Pubkey,
    nft_mint: Pubkey,
    vesting_amount: u64,
    now: i64,
    random_value: u64,
) -> SwapReceipt {
    let bonus = tier_bonus(0, random_value);
    SwapReceipt {
        bonus_state: new_bonus_state(nft_mint, 0, bonus, now),
        vesting_state: new_vesting_state(nft_mint, vesting_amount, now),
        tax_amount: 0,
        escrow_amount: 0,
        event: SwapExecuted {
            user,
            tier: 0,
            price: 0,
            tax_amount: 0,
            bonus_bps: bonus,
            nft_mint,
            timestamp: now,
        },
    }
}

/// Whether `post` is `pre` with one more whitelisted holder served.
pub open spec fn og_minted_one(pre: CollectionConfig, post: CollectionConfig) -> bool {
    post == (CollectionConfig { og_tier_0_minted: (pre.og_tier_0_minted + 1) as u16, ..pre })
}

/// Gives a whitelisted holder the free tier-0 NFT, once.  The holder proves
/// membership with `merkle_proof` for the pair of the own address and
/// `vesting_amount`; that amount then vests over the vesting period.
pub fn swap_og_tier0_for_pnft_v6(
    config: &Config,
    collection: &mut CollectionConfig,
    og_claim: &mut OgTier0Claim,
    vrf_state: &mut VrfState,
    user: Pubkey,
    nft_mint: Pubkey,
    vesting_amount: u64,
    merkle_proof: &Vec<[u8; 32]>,
    clock: &Clock,
    recent_blockhash: &[u8; 32],
) -> (outcome: Result<SwapReceipt, ErrorCode>)
    ensures
        match outcome {
            Ok(receipt) => {
                &&& og_swap_error(
                    *config,
                    *old(collection),
                    *old(og_claim),
                    *old(vrf_state),
                    user,
                    vesting_amount,
                    merkle_proof@,
                    clock.unix_timestamp,
                ) is None
                &&& receipt == og_receipt(
                    user,
                    nft_mint,
                    vesting_amount,
                    clock.unix_timestamp,
                    drawn_value(
                        *config,
                        *old(vrf_state),
                        user,
                        nft_mint,
                        *clock,
                        *recent_blockhash,
                    ),
                )
                &&& receipt.bonus_state.bonus_bps == 0
                &&& og_minted_one(*old(collection), *final(collection))
                &&& *final(og_claim) == (OgTier0Claim { claimer: user, claimed: true })
                &&& used_up(*config, *old(vrf_state), *final(vrf_state))
            },
            Err(e) => {
                &&& og_swap_error(
                    *config,
                    *old(collection),
                    *old(og_claim),
                    *old(vrf_state),
                    user,
                    vesting_amount,
                    merkle_proof@,
                    clock.unix_timestamp,
                ) == Some(e)
                &&& *final(collection) == *old(collection)
                &&& *final(og_claim) == *old(og_claim)
                &&& *final(vrf_state) == *old(vrf_state)
            },
        },
        supply_respected(*old(collection)) ==> supply_respected(*final(collection)),
{
    let now = clock.unix_timestamp;
    if config.paused {
        return Err(ErrorCode::ProtocolPaused);
    }
    if og_claim.claimed {
        return Err(ErrorCode::OgTier0AlreadyClaimed);
    }
    if !verify(user, vesting_amount, merkle_proof, &collection.og_tier_0_merkle_root) {
        return Err(ErrorCode::NotOnOgWhitelist);
    }
    if collection.og_tier_0_minted >= collection.og_tier_0_supply {
        return Err(ErrorCode::NoLiquidity);
    }
    let random_value = draw_random(config, vrf_state, &user, &nft_mint, clock, recent_blockhash)?;
    let bonus = bonus_for_tier(0, random_value);
    let vesting_state = open_schedule(nft_mint, vesting_amount, now)?;
    og_claim.claimer = user;
    og_claim.claimed = true;
    collection.og_tier_0_minted = collection.og_tier_0_minted + 1;
    use_up(config, vrf_state);
    Ok(
        SwapReceipt {
            bonus_state: BonusStateV6 {
                mint: nft_mint,
                tier: 0,
                bonus_bps: bonus,
                vesting_start: now,
                vesting_duration: VESTING_DURATION,
                claimed: false,
                fee_deducted: 0,
            },
            vesting_state,
            tax_amount: 0,
            escrow_amount: 0,
            event: SwapExecuted {
                user,
                tier: 0,
                price: 0,
                tax_amount: 0,
                bonus_bps: bonus,
                nft_mint,
                timestamp: now,
            },
        },
    )
}

} // verus!
