//! What the holder of a bonus NFT can do with it: claim the vested bonus,
//! draw the bonus again, and redeem the NFT for its base amount.

use vstd::prelude::*;
use crate::arith::{bps_share, mul_div, split, BPS_DENOMINATOR};
use crate::swap::bonus::{
    bonus_for_tier,
    bonus_in_range,
    draw_random,
    drawn_value,
    oracle_ready,
    tier_bonus,
    use_up,
    used_up,
};
use crate::swap::state::{
    BonusRerolled,
    BonusStateV6,
    Config,
    ErrorCode,
    RedemptionExecuted,
    UserTaxState,
    VestingClaimed,
    VestingStateV6,
    CLIFF_DURATION,
    VESTING_DURATION,
};
use crate::swap::swaps::{bonus_amount, new_vesting_state, schedule_error};
use crate::swap::tax::{after_reroll, escalate, rate_in_bounds};
use crate::swap::vrf::VrfState;
use crate::types::{add_seconds, Clock, Pubkey, TokenAccount};
use crate::vesting::{
    claim,
    claimable_amount,
    elapsed_since,
    unreleased,
    unreleased_amount,
    vested,
    vested_amount,
    VestingError,
};

verus! {

/// Seconds in a day.
pub const SECONDS_PER_DAY: i64 = 86_400;

/// The first check on the holder's NFT account that fails, if any: the
/// account must be of the NFT's mint, belong to the user, and hold the NFT.
pub open spec fn holder_error(user_nft_ata: TokenAccount, nft_mint: Pubkey, user: Pubkey) -> Option<
    ErrorCode,
> {
    if user_nft_ata.mint != nft_mint {
        Some(ErrorCode::InvalidNft)
    } else if user_nft_ata.owner != user {
        Some(ErrorCode::NoNft)
    } else if user_nft_ata.amount != 1 {
        Some(ErrorCode::NoNft)
    } else {
        None
    }
}

/// Checks that `user` holds the NFT of `nft_mint` in `user_nft_ata`.
pub fn check_holder(user_nft_ata: &TokenAccount, nft_mint: Pubkey, user: Pubkey) -> (outcome: Result<
    (),
    ErrorCode,
>)
    ensures
        match outcome {
            Ok(_) => holder_error(*user_nft_ata, nft_mint, user) is None,
            Err(e) => holder_error(*user_nft_ata, nft_mint, user) == Some(e),
        },
{
    if user_nft_ata.mint != nft_mint {
        return Err(ErrorCode::InvalidNft);
    }
    if user_nft_ata.owner != user {
        return Err(ErrorCode::NoNft);
    }
    if user_nft_ata.amount != 1 {
        return Err(ErrorCode::NoNft);
    }
    Ok(())
}

/// What a schedule pays out at `now`: nothing while its cliff stands.
pub open spec fn schedule_claimable(schedule: VestingStateV6, now: i64) -> int {
    claimable_amount(
        schedule.total_amount as int,
        schedule.released_amount as int,
        schedule.start_timestamp as int,
        schedule.end_timestamp as int,
        CLIFF_DURATION as int,
        now as int,
    )
}

/// What a schedule has vested at `now` and not released, cliff or no cliff.
pub open spec fn schedule_unreleased(schedule: VestingStateV6, now: i64) -> int {
    unreleased_amount(
        schedule.total_amount as int,
        schedule.released_amount as int,
        schedule.start_timestamp as int,
        schedule.end_timestamp as int,
        now as int,
    )
}

/// What a schedule has vested at `now`.
pub open spec fn schedule_vested(schedule: VestingStateV6, now: i64) -> int {
    vested_amount(
        schedule.total_amount as int,
        schedule.start_timestamp as int,
        schedule.end_timestamp as int,
        now as int,
    )
}

/// The first check that fails when vested bonus tokens are claimed, if any.
pub open spec fn claim_vested_error(
    config: Config,
    schedule: VestingStateV6,
    user_nft_ata: TokenAccount,
    nft_mint: Pubkey,
    user: Pubkey,
    now: i64,
) -> Option<ErrorCode> {
    if holder_error(user_nft_ata, nft_mint, user) is Some {
        holder_error(user_nft_ata, nft_mint, user)
    } else if schedule.mint != nft_mint {
        Some(ErrorCode::InvalidNft)
    } else if config.paused {
        Some(ErrorCode::ProtocolPaused)
    } else if now < schedule.start_timestamp + CLIFF_DURATION {
        Some(ErrorCode::StillInCliff)
    } else if schedule_claimable(schedule, now) == 0 {
        Some(ErrorCode::NothingToClaim)
    } else {
        None
    }
}

/// Pays the holder of an NFT what its bonus has vested and not yet released.
/// The event names the amount for the caller to move from escrow to the user.
pub fn claim_vested_v6(
    config: &Config,
    schedule: &mut VestingStateV6,
    user_nft_ata: &TokenAccount,
    nft_mint: Pubkey,
    user: Pubkey,
    now: i64,
) -> (outcome: Result<VestingClaimed, ErrorCode>)
    ensures
        match outcome {
            Ok(event) => {
                &&& claim_vested_error(*config, *old(schedule), *user_nft_ata, nft_mint, user, now)
                    is None
                &&& event == (VestingClaimed {
                    user,
                    nft_mint,
                    amount_claimed: schedule_claimable(*old(schedule), now) as u64,
                    total_vested: schedule_vested(*old(schedule), now) as u64,
                    timestamp: now,
                })
                &&& event.amount_claimed > 0
                &&& *final(schedule) == (VestingStateV6 {
                    released_amount: (old(schedule).released_amount + event.amount_claimed) as u64,
                    last_claimed_timestamp: now,
                    ..*old(schedule)
                })
                &&& final(schedule).released_amount == event.total_vested
                &&& final(schedule).released_amount <= old(schedule).total_amount
                &&& schedule_claimable(*final(schedule), now) == 0
            },
            Err(e) => claim_vested_error(
                *config,
                *old(schedule),
                *user_nft_ata,
                nft_mint,
                user,
                now,
            ) == Some(e) && *final(schedule) == *old(schedule),
        },
{
    check_holder(user_nft_ata, nft_mint, user)?;
    if schedule.mint != nft_mint {
        return Err(ErrorCode::InvalidNft);
    }
    if config.paused {
        return Err(ErrorCode::ProtocolPaused);
    }
    let amount = match claim(
        schedule.total_amount,
        schedule.released_amount,
        schedule.start_timestamp,
        schedule.end_timestamp,
        CLIFF_DURATION,
        now,
    ) {
        Ok(amount) => amount,
        Err(VestingError::StillInCliff) => {
            return Err(ErrorCode::StillInCliff);
        },
        Err(VestingError::NothingToClaim) => {
            return Err(ErrorCode::NothingToClaim);
        },
    };
    let total_vested = vested(
        schedule.total_amount,
        schedule.start_timestamp,
        schedule.end_timestamp,
        now,
    );
    schedule.released_amount = schedule.released_amount + amount;
    schedule.last_claimed_timestamp = now;
    Ok(VestingClaimed { user, nft_mint, amount_claimed: amount, total_vested, timestamp: now })
}

/// What redeeming an NFT yields: the tokens to return from escrow, and the
/// event.  The caller also burns the NFT and closes its account.
#[derive(Clone, Copy, Debug, PartialEq, Eq)]
pub struct RedeemReceipt {
    /// Tokens that go from escrow to the user.
    pub amount_returned: u64,
    /// Units of the NFT to burn.
    pub burn_amount: u64,
    pub event: RedemptionExecuted,
}

/// The first check that fails when an NFT is redeemed, if any.
pub open spec fn redeem_error(
    config: Config,
    bonus: BonusStateV6,
    user_nft_ata: TokenAccount,
    nft_mint: Pubkey,
    user: Pubkey,
) -> Option<ErrorCode> {
    if holder_error(user_nft_ata, nft_mint, user) is Some {
        holder_error(user_nft_ata, nft_mint, user)
    } else if bonus.mint != nft_mint {
        Some(ErrorCode::InvalidNft)
    } else if config.paused {
        Some(ErrorCode::ProtocolPaused)
    } else if bonus.claimed {
        Some(ErrorCode::NftAlreadyRedeemed)
    } else if bonus.tier >= 5 {
        Some(ErrorCode::InvalidTier)
    } else {
        None
    }
}

/// The base amount that redeeming returns: the tier's price less the fees
/// that rerolls have run up, and nothing once the fees reach the price.
pub open spec fn redeemable(config: Config, bonus: BonusStateV6) -> int
    recommends
        bonus.tier < 5,
{
    let price = config.prices[bonus.tier as int];
    if price > bonus.fee_deducted {
        price - bonus.fee_deducted
    } else {
        0
    }
}

/// Redeems an NFT for its base amount, once and for good: the record is
/// marked redeemed and the caller burns the NFT.
pub fn redeem_v6(
    config: &Config,
    bonus: &mut BonusStateV6,
    user_nft_ata: &TokenAccount,
    nft_mint: Pubkey,
    user: Pubkey,
    now: i64,
) -> (outcome: Result<RedeemReceipt, ErrorCode>)
    ensures
        match outcome {
            Ok(receipt) => {
                &&& redeem_error(*config, *old(bonus), *user_nft_ata, nft_mint, user) is None
                &&& receipt.amount_returned == redeemable(*config, *old(bonus))
                &&& receipt.burn_amount == 1
                &&& receipt.event == (RedemptionExecuted {
                    user,
                    nft_mint,
                    amount_returned: receipt.amount_returned,
                    fees_deducted: old(bonus).fee_deducted,
                    timestamp: now,
                })
                &&& *final(bonus) == (BonusStateV6 { claimed: true, ..*old(bonus) })
            },
            Err(e) => redeem_error(*config, *old(bonus), *user_nft_ata, nft_mint, user) == Some(e)
                && *final(bonus) == *old(bonus),
        },
        old(bonus).claimed ==> final(bonus).claimed,
{
    check_holder(user_nft_ata, nft_mint, user)?;
    if bonus.mint != nft_mint {
        return Err(ErrorCode::InvalidNft);
    }
    if config.paused {
        return Err(ErrorCode::ProtocolPaused);
    }
    if bonus.claimed {
        return Err(ErrorCode::NftAlreadyRedeemed);
    }
    if bonus.tier >= 5 {
        return Err(ErrorCode::InvalidTier);
    }
    let base_price = config.prices[bonus.tier as usize];
    let amount_returned = base_price.saturating_sub(bonus.fee_deducted);
    bonus.claimed = true;
    Ok(
        RedeemReceipt {
            amount_returned,
            burn_amount: 1,
            event: RedemptionExecuted {
                user,
                nft_mint,
                amount_returned,
                fees_deducted: bonus.fee_deducted,
                timestamp: now,
            },
        },
    )
}

/// What a reroll produced.
#[derive(Clone, Copy, Debug, PartialEq, Eq)]
pub struct RerollReceipt {
    /// What the old schedule had vested and not released; the reroll gives
    /// it up.
    pub forfeited: u64,
    pub event: BonusRerolled,
}

/// What the holder of an NFT presents for a reroll.
#[derive(Clone, Copy, Debug, PartialEq, Eq)]
pub struct RerollBonusV6 {
    pub user: Pubkey,
    pub nft_mint: Pubkey,
    pub user_nft_ata: TokenAccount,
    pub user_defai_ata: TokenAccount,
}

/// The first check that fails before the new bonus of a reroll is drawn, if any.
pub open spec fn reroll_opening_error(
    config: Config,
    bonus: BonusStateV6,
    schedule: VestingStateV6,
    tax: UserTaxState,
    accounts: RerollBonusV6,
    now: i64,
) -> Option<ErrorCode> {
    if holder_error(accounts.user_nft_ata, accounts.nft_mint, accounts.user) is Some {
        holder_error(accounts.user_nft_ata, accounts.nft_mint, accounts.user)
    } else if bonus.mint != accounts.nft_mint || schedule.mint != accounts.nft_mint {
        Some(ErrorCode::InvalidNft)
    } else if tax.user != accounts.user || accounts.user_defai_ata.owner != accounts.user {
        Some(ErrorCode::Unauthorized)
    } else if config.paused {
        Some(ErrorCode::ProtocolPaused)
    } else if bonus.tier >= 5 {
        Some(ErrorCode::InvalidTier)
    } else if accounts.user_defai_ata.amount < config.prices[bonus.tier as int] {
        Some(ErrorCode::InsufficientDefaiForReroll)
    } else if schedule_unreleased(schedule, now) == 0 {
        Some(ErrorCode::NothingToClaim)
    } else if bps_share(config.prices[bonus.tier as int] as int, tax.tax_rate_bps as int)
        > config.prices[bonus.tier as int] {
        Some(ErrorCode::MathOverflow)
    } else {
        None
    }
}

/// The fee of a reroll: the user's current tax on the tier's price.
pub open spec fn reroll_fee(config: Config, bonus: BonusStateV6, tax: UserTaxState) -> int
    recommends
        bonus.tier < 5,
{
    bps_share(config.prices[bonus.tier as int] as int, tax.tax_rate_bps as int)
}

/// The first check that fails once the new bonus of a reroll is drawn, if any.
pub open spec fn reroll_settling_error(
    config: Config,
    bonus: BonusStateV6,
    tax: UserTaxState,
    now: i64,
    random_value: u64,
) -> Option<ErrorCode>
    recommends
        bonus.tier < 5,
{
    if bonus.fee_deducted + reroll_fee(config, bonus, tax) > u64::MAX {
        Some(ErrorCode::MathOverflow)
    } else if schedule_error(
        bonus_amount(config.prices[bonus.tier as int], tier_bonus(bonus.tier, random_value)),
        now,
    ) is Some {
        Some(ErrorCode::MathOverflow)
    } else {
        None
    }
}

/// The first check that fails for a reroll with a given random value, if any.
pub open spec fn reroll_error(
    config: Config,
    bonus: BonusStateV6,
    schedule: VestingStateV6,
    tax: UserTaxState,
    accounts: RerollBonusV6,
    now: i64,
    random_value: u64,
) -> Option<ErrorCode> {
    if reroll_opening_error(config, bonus, schedule, tax, accounts, now) is Some {
        reroll_opening_error(config, bonus, schedule, tax, accounts, now)
    } else {
        reroll_settling_error(config, bonus, tax, now, random_value)
    }
}

/// The bonus record after a reroll with a given random value.
pub open spec fn rerolled_bonus(
    config: Config,
    bonus: BonusStateV6,
    tax: UserTaxState,
    now: i64,
    random_value: u64,
) -> BonusStateV6
    recommends
        bonus.tier < 5,
{
    BonusStateV6 {
        bonus_bps: tier_bonus(bonus.tier, random_value),
        vesting_start: now,
        vesting_duration: VESTING_DURATION,
        fee_deducted: (bonus.fee_deducted + reroll_fee(config, bonus, tax)) as u64,
        ..bonus
    }
}

/// The schedule after a reroll with a given random value: it starts over at
/// `now` with the new bonus and nothing released.
pub open spec fn rerolled_schedule(
    config: Config,
    bonus: BonusStateV6,
    schedule: VestingStateV6,
    now: i64,
    random_value: u64,
) -> VestingStateV6
    recommends
        bonus.tier < 5,
{
    new_vesting_state(
        schedule.mint,
        bonus_amount(config.prices[bonus.tier as int], tier_bonus(bonus.tier, random_value)) as u64,
        now,
    )
}

/// The receipt of a reroll with a given random value.
pub open spec fn reroll_receipt(
    config: Config,
    bonus: BonusStateV6,
    schedule: VestingStateV6,
    tax: UserTaxState,
    accounts: RerollBonusV6,
    now: i64,
    random_value: u64,
) -> RerollReceipt
    recommends
        bonus.tier < 5,
{
    RerollReceipt {
        forfeited: schedule_unreleased(schedule, now) as u64,
        event: BonusRerolled {
            user: accounts.user,
            nft_mint: accounts.nft_mint,
            old_bonus_bps: bonus.bonus_bps,
            new_bonus_bps: tier_bonus(bonus.tier, random_value),
            tax_paid: reroll_fee(config, bonus, tax) as u64,
            timestamp: now,
        },
    }
}

/// A schedule that ends after it starts has vested nothing at its start, so
/// whoever finds something claimable stands strictly after the start.
pub proof fn lemma_claimable_only_after_start(schedule: VestingStateV6, now: i64)
    requires
        schedule.end_timestamp > schedule.start_timestamp,
        schedule_unreleased(schedule, now) > 0,
    ensures
        now > schedule.start_timestamp,
{
    if now <= schedule.start_timestamp {
        let duration = elapsed_since(
            schedule.start_timestamp as int,
            schedule.end_timestamp as int,
        );
        assert(elapsed_since(schedule.start_timestamp as int, now as int) == 0);
        assert((schedule.total_amount as int * 0) / duration == 0) by (nonlinear_arith)
            requires
                duration > 0,
        ;
    }
}

/// Carries a reroll out for a random value that has been drawn already.  The
/// NFT gets a new bonus within its tier's range and a schedule that starts
/// over; what the old schedule had vested and not released is given up, and
/// the receipt says how much that was.  The fee is the user's current tax on
/// the tier's price; it is not paid now but taken off the base amount when
/// the NFT is redeemed.  The user's tax rate rises.
pub fn complete_reroll(
    config: &Config,
    bonus: &mut BonusStateV6,
    schedule: &mut VestingStateV6,
    user_tax: &mut UserTaxState,
    accounts: &RerollBonusV6,
    now: i64,
    random_value: u64,
) -> (outcome: Result<RerollReceipt, ErrorCode>)
    ensures
        match outcome {
            Ok(receipt) => {
                &&& reroll_error(
                    *config,
                    *old(bonus),
                    *old(schedule),
                    *old(user_tax),
                    *accounts,
                    now,
                    random_value,
                ) is None
                &&& receipt == reroll_receipt(
                    *config,
                    *old(bonus),
                    *old(schedule),
                    *old(user_tax),
                    *accounts,
                    now,
                    random_value,
                )
                &&& receipt.forfeited > 0
                &&& *final(bonus) == rerolled_bonus(
                    *config,
                    *old(bonus),
                    *old(user_tax),
                    now,
                    random_value,
                )
                &&& *final(schedule) == rerolled_schedule(
                    *config,
                    *old(bonus),
                    *old(schedule),
                    now,
                    random_value,
                )
                &&& *final(user_tax) == after_reroll(*old(user_tax))
                &&& bonus_in_range(*final(bonus))
            },
            Err(e) => {
                &&& reroll_error(
                    *config,
                    *old(bonus),
                    *old(schedule),
                    *old(user_tax),
                    *accounts,
                    now,
                    random_value,
                ) == Some(e)
                &&& *final(bonus) == *old(bonus)
                &&& *final(schedule) == *old(schedule)
                &&& *final(user_tax) == *old(user_tax)
            },
        },
        final(bonus).claimed == old(bonus).claimed,
        rate_in_bounds(old(user_tax).tax_rate_bps) ==> rate_in_bounds(final(user_tax).tax_rate_bps),
{
    check_holder(&accounts.user_nft_ata, accounts.nft_mint, accounts.user)?;
    if bonus.mint != accounts.nft_mint || schedule.mint != accounts.nft_mint {
        return Err(ErrorCode::InvalidNft);
    }
    if user_tax.user != accounts.user || accounts.user_defai_ata.owner != accounts.user {
        return Err(ErrorCode::Unauthorized);
    }
    if config.paused {
        return Err(ErrorCode::ProtocolPaused);
    }
    if bonus.tier >= 5 {
        return Err(ErrorCode::InvalidTier);
    }
    let base_price = config.prices[bonus.tier as usize];
    if accounts.user_defai_ata.amount < base_price {
        return Err(ErrorCode::InsufficientDefaiForReroll);
    }
    let forfeited = unreleased(
        schedule.total_amount,
        schedule.released_amount,
        schedule.start_timestamp,
        schedule.end_timestamp,
        now,
    );
    if forfeited == 0 {
        return Err(ErrorCode::NothingToClaim);
    }
    let tax_amount = match split(base_price, user_tax.tax_rate_bps) {
        Some((fee, _)) => fee,
        None => {
            return Err(ErrorCode::MathOverflow);
        },
    };
    let fee_total = match bonus.fee_deducted.checked_add(tax_amount) {
        Some(total) => total,
        None => {
            return Err(ErrorCode::MathOverflow);
        },
    };
    let new_bonus = bonus_for_tier(bonus.tier, random_value);
    let new_total = match mul_div(base_price, new_bonus as u64, BPS_DENOMINATOR) {
        Some(amount) => amount,
        None => {
            return Err(ErrorCode::MathOverflow);
        },
    };
    let end = match add_seconds(now, VESTING_DURATION) {
        Some(end) => end,
        None => {
            return Err(ErrorCode::MathOverflow);
        },
    };
    let old_bonus_bps = bonus.bonus_bps;
    bonus.bonus_bps = new_bonus;
    bonus.vesting_start = now;
    bonus.vesting_duration = VESTING_DURATION;
    bonus.fee_deducted = fee_total;
    schedule.total_amount = new_total;
    schedule.released_amount = 0;
    schedule.start_timestamp = now;
    schedule.end_timestamp = end;
    schedule.last_claimed_timestamp = now;
    user_tax.tax_rate_bps = escalate(user_tax.tax_rate_bps);
    Ok(
        RerollReceipt {
            forfeited,
            event: BonusRerolled {
                user: accounts.user,
                nft_mint: accounts.nft_mint,
                old_bonus_bps,
                new_bonus_bps: new_bonus,
                tax_paid: tax_amount,
                timestamp: now,
            },
        },
    )
}

/// The first check that fails for a reroll, if any.
pub open spec fn reroll_bonus_error(
    config: Config,
    bonus: BonusStateV6,
    schedule: VestingStateV6,
    tax: UserTaxState,
    vrf: VrfState,
    accounts: RerollBonusV6,
    clock: Clock,
    recent_blockhash: [u8; 32],
) -> Option<ErrorCode> {
    if reroll_opening_error(config, bonus, schedule, tax, accounts, clock.unix_timestamp) is Some {
        reroll_opening_error(config, bonus, schedule, tax, accounts, clock.unix_timestamp)
    } else if !oracle_ready(config, vrf) {
        Some(ErrorCode::VrfNotReady)
    } else {
        reroll_settling_error(
            config,
            bonus,
            tax,
            clock.unix_timestamp,
            drawn_value(config, vrf, accounts.user, accounts.nft_mint, clock, recent_blockhash),
        )
    }
}

/// Draws the bonus of an NFT again.  The holder must hold the tier's price
/// in tokens and the old schedule must have something vested and unreleased,
/// which the reroll gives up.  The draw uses the oracle's result up, so a
/// reroll never draws from the result that an earlier draw used; on the
/// fallback path the draw hashes a time strictly after the old schedule's
/// start.
pub fn reroll_bonus_v6(
    config: &Config,
    bonus: &mut BonusStateV6,
    schedule: &mut VestingStateV6,
    user_tax: &mut UserTaxState,
    vrf_state: &mut VrfState,
    accounts: &RerollBonusV6,
    clock: &Clock,
    recent_blockhash: &[u8; 32],
) -> (outcome: Result<RerollReceipt, ErrorCode>)
    ensures
        match outcome {
            Ok(receipt) => {
                &&& reroll_bonus_error(
                    *config,
                    *old(bonus),
                    *old(schedule),
                    *old(user_tax),
                    *old(vrf_state),
                    *accounts,
                    *clock,
                    *recent_blockhash,
                ) is None
                &&& receipt == reroll_receipt(
                    *config,
                    *old(bonus),
                    *old(schedule),
                    *old(user_tax),
                    *accounts,
                    clock.unix_timestamp,
                    drawn_value(
                        *config,
                        *old(vrf_state),
                        accounts.user,
                        accounts.nft_mint,
                        *clock,
                        *recent_blockhash,
                    ),
                )
                &&& *final(bonus) == rerolled_bonus(
                    *config,
                    *old(bonus),
                    *old(user_tax),
                    clock.unix_timestamp,
                    drawn_value(
                        *config,
                        *old(vrf_state),
                        accounts.user,
                        accounts.nft_mint,
                        *clock,
                        *recent_blockhash,
                    ),
                )
                &&& *final(schedule) == rerolled_schedule(
                    *config,
                    *old(bonus),
                    *old(schedule),
                    clock.unix_timestamp,
                    drawn_value(
                        *config,
                        *old(vrf_state),
                        accounts.user,
                        accounts.nft_mint,
                        *clock,
                        *recent_blockhash,
                    ),
                )
                &&& *final(user_tax) == after_reroll(*old(user_tax))
                &&& bonus_in_range(*final(bonus))
                &&& used_up(*config, *old(vrf_state), *final(vrf_state))
                &&& old(schedule).end_timestamp > old(schedule).start_timestamp
                    ==> clock.unix_timestamp > old(schedule).start_timestamp
            },
            Err(e) => {
                &&& reroll_bonus_error(
                    *config,
                    *old(bonus),
                    *old(schedule),
                    *old(user_tax),
                    *old(vrf_state),
                    *accounts,
                    *clock,
                    *recent_blockhash,
                ) == Some(e)
                &&& *final(bonus) == *old(bonus)
                &&& *final(schedule) == *old(schedule)
                &&& *final(user_tax) == *old(user_tax)
                &&& *final(vrf_state) == *old(vrf_state)
            },
        },
        final(bonus).claimed == old(bonus).claimed,
        rate_in_bounds(old(user_tax).tax_rate_bps) ==> rate_in_bounds(final(user_tax).tax_rate_bps),
{
    let now = clock.unix_timestamp;
    check_holder(&accounts.user_nft_ata, accounts.nft_mint, accounts.user)?;
    if bonus.mint != accounts.nft_mint || schedule.mint != accounts.nft_mint {
        return Err(ErrorCode::InvalidNft);
    }
    if user_tax.user != accounts.user || accounts.user_defai_ata.owner != accounts.user {
        return Err(ErrorCode::Unauthorized);
    }
    if config.paused {
        return Err(ErrorCode::ProtocolPaused);
    }
    if bonus.tier >= 5 {
        return Err(ErrorCode::InvalidTier);
    }
    let base_price = config.prices[bonus.tier as usize];
    if accounts.user_defai_ata.amount < base_price {
        return Err(ErrorCode::InsufficientDefaiForReroll);
    }
    let forfeited = unreleased(
        schedule.total_amount,
        schedule.released_amount,
        schedule.start_timestamp,
        schedule.end_timestamp,
        now,
    );
    if forfeited == 0 {
        return Err(ErrorCode::NothingToClaim);
    }
    if split(base_price, user_tax.tax_rate_bps).is_none() {
        return Err(ErrorCode::MathOverflow);
    }
    proof {
        if schedule.end_timestamp > schedule.start_timestamp {
            lemma_claimable_only_after_start(*schedule, now);
        }
    }
    let random_value = draw_random(
        config,
        vrf_state,
        &accounts.user,
        &accounts.nft_mint,
        clock,
        recent_blockhash,
    )?;
    let receipt = complete_reroll(config, bonus, schedule, user_tax, accounts, now, random_value)?;
    use_up(config, vrf_state);
    Ok(receipt)
}

/// What the metadata of an NFT should show.
#[derive(Clone, Copy, Debug, PartialEq, Eq)]
pub struct NftMetadata {
    pub nft_mint: Pubkey,
    pub tier: u8,
    pub bonus_bps: u16,
    pub redeemed: bool,
    pub fee_deducted: u64,
    pub vesting_total: u64,
    pub vesting_released: u64,
    pub vesting_remaining: u64,
    pub days_remaining: i64,
}

/// Whole days until a schedule ends, rounded down; zero once it has ended.
pub open spec fn days_left(schedule: VestingStateV6, now: i64) -> int {
    let elapsed = elapsed_since(schedule.start_timestamp as int, now as int);
    let duration = elapsed_since(schedule.start_timestamp as int, schedule.end_timestamp as int);
    if elapsed >= duration {
        0
    } else {
        (duration - elapsed) / (SECONDS_PER_DAY as int)
    }
}

/// Gathers what the metadata of an NFT should show at `now`.
pub fn update_nft_metadata_v6(
    nft_mint: Pubkey,
    bonus: &BonusStateV6,
    schedule: &VestingStateV6,
    now: i64,
) -> (metadata: NftMetadata)
    ensures
        metadata == (NftMetadata {
            nft_mint,
            tier: bonus.tier,
            bonus_bps: bonus.bonus_bps,
            redeemed: bonus.claimed,
            fee_deducted: bonus.fee_deducted,
            vesting_total: schedule.total_amount,
            vesting_released: schedule.released_amount,
            vesting_remaining: schedule_unreleased(*schedule, now) as u64,
            days_remaining: days_left(*schedule, now) as i64,
        }),
{
    let start = schedule.start_timestamp;
    let end = schedule.end_timestamp;
    let elapsed: i128 = if now > start {
        now as i128 - start as i128
    } else {
        0
    };
    let duration: i128 = if end > start {
        end as i128 - start as i128
    } else {
        0
    };
    let days_remaining: i64 = if elapsed >= duration {
        0
    } else {
        ((duration - elapsed) / (SECONDS_PER_DAY as i128)) as i64
    };
    NftMetadata {
        nft_mint,
        tier: bonus.tier,
        bonus_bps: bonus.bonus_bps,
        redeemed: bonus.claimed,
        fee_deducted: bonus.fee_deducted,
        vesting_total: schedule.total_amount,
        vesting_released: schedule.released_amount,
        vesting_remaining: unreleased(
            schedule.total_amount,
            schedule.released_amount,
            start,
            end,
            now,
        ),
        days_remaining,
    }
}

} // verus!
