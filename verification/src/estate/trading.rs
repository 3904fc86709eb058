//! The joint trading sub-ledger of an estate: the owner and an AI agent pay
//! in, the agent reports the value of the holdings, gains above the
//! high-water mark are shared out, and the owner can pull the own part out
//! after a delay.

use vstd::prelude::*;
use crate::arith::{lemma_mul_div_floor_bounded, mul_div, mul_div_floor, percent_of, percent_share};
use crate::estate::state::{
    EmergencyWithdrawalExecuted,
    EmergencyWithdrawalInitiated,
    Estate,
    EstateError,
    ProfitsDistributed,
    TradingContribution,
    TradingEnabled,
    TradingPaused,
    TradingResumed,
    TradingStrategy,
    TradingValueUpdated,
    MAX_EMERGENCY_DELAY,
    MIN_EMERGENCY_DELAY,
};
use crate::types::{is_some_key, Pubkey, TokenAccount};

verus! {

/// Seconds in an hour.
pub const SECONDS_PER_HOUR: i64 = 3600;

/// Whether a lock on the estate has also stopped its trading.
pub open spec fn lock_suspends_trading(estate: Estate) -> bool {
    estate.is_locked ==> !estate.trading_enabled
}

/// The terms on which trading is set up.
#[derive(Clone, Copy, Debug, PartialEq, Eq)]
pub struct TradingTerms {
    pub ai_agent: Pubkey,
    /// The owner's share of gains, in percent; the agent gets the rest.
    pub human_share: u8,
    pub strategy: TradingStrategy,
    pub stop_loss: Option<u8>,
    /// Hours between asking for an emergency withdrawal and getting it.
    pub emergency_delay_hours: u32,
}

/// The first check that fails when trading is set up, if any.
pub open spec fn enable_trading_error(estate: Estate, owner: Pubkey, terms: TradingTerms) -> Option<
    EstateError,
> {
    if estate.is_locked {
        Some(EstateError::EstateLocked)
    } else if estate.is_claimable {
        Some(EstateError::EstateClaimable)
    } else if owner != estate.owner {
        Some(EstateError::UnauthorizedAccess)
    } else if estate.trading_enabled {
        Some(EstateError::TradingAlreadyEnabled)
    } else if terms.human_share < 50 || terms.human_share > 100 {
        Some(EstateError::InvalidProfitShare)
    } else if terms.emergency_delay_hours < MIN_EMERGENCY_DELAY || terms.emergency_delay_hours
        > MAX_EMERGENCY_DELAY {
        Some(EstateError::InvalidEmergencyDelay)
    } else {
        None
    }
}

/// The estate with trading set up on the given terms and an empty ledger.
pub open spec fn trading_enabled_on(estate: Estate, terms: TradingTerms, now: i64) -> Estate {
    Estate {
        trading_enabled: true,
        ai_agent: Some(terms.ai_agent),
        trading_strategy: Some(terms.strategy),
        human_share: terms.human_share,
        ai_share: (100 - terms.human_share) as u8,
        stop_loss: terms.stop_loss,
        emergency_delay_hours: terms.emergency_delay_hours,
        last_trading_update: now,
        human_contribution: 0,
        ai_contribution: 0,
        trading_value: 0,
        trading_profit: 0,
        high_water_mark: 0,
        emergency_withdrawal_initiated: false,
        emergency_withdrawal_time: 0,
        ..estate
    }
}

/// Sets trading up with an AI agent.  Only the owner may do so, on an estate
/// that is neither locked nor claimable and does not trade yet.  The owner's
/// share of gains is between 50 and 100 percent and the agent gets the
/// rest; an emergency withdrawal takes between 24 and 168 hours.
pub fn enable_trading(estate: &mut Estate, owner: Pubkey, terms: TradingTerms, now: i64) -> (outcome:
    Result<TradingEnabled, EstateError>)
    ensures
        match outcome {
            Ok(event) => {
                &&& enable_trading_error(*old(estate), owner, terms) is None
                &&& *final(estate) == trading_enabled_on(*old(estate), terms, now)
                &&& final(estate).human_share + final(estate).ai_share == 100
                &&& event == (TradingEnabled {
                    estate_id: old(estate).estate_id,
                    ai_agent: terms.ai_agent,
                    human_share: terms.human_share,
                    ai_share: (100 - terms.human_share) as u8,
                    strategy: terms.strategy,
                    timestamp: now,
                })
            },
            Err(e) => enable_trading_error(*old(estate), owner, terms) == Some(e) && *final(estate)
                == *old(estate),
        },
        lock_suspends_trading(*old(estate)) ==> lock_suspends_trading(*final(estate)),
{
    if estate.is_locked {
        return Err(EstateError::EstateLocked);
    }
    if estate.is_claimable {
        return Err(EstateError::EstateClaimable);
    }
    if owner != estate.owner {
        return Err(EstateError::UnauthorizedAccess);
    }
    if estate.trading_enabled {
        return Err(EstateError::TradingAlreadyEnabled);
    }
    if terms.human_share < 50 || terms.human_share > 100 {
        return Err(EstateError::InvalidProfitShare);
    }
    if terms.emergency_delay_hours < MIN_EMERGENCY_DELAY || terms.emergency_delay_hours
        > MAX_EMERGENCY_DELAY {
        return Err(EstateError::InvalidEmergencyDelay);
    }
    let ai_share: u8 = 100 - terms.human_share;
    estate.trading_enabled = true;
    estate.ai_agent = Some(terms.ai_agent);
    estate.trading_strategy = Some(terms.strategy);
    estate.human_share = terms.human_share;
    estate.ai_share = ai_share;
    estate.stop_loss = terms.stop_loss;
    estate.emergency_delay_hours = terms.emergency_delay_hours;
    estate.last_trading_update = now;
    estate.human_contribution = 0;
    estate.ai_contribution = 0;
    estate.trading_value = 0;
    estate.trading_profit = 0;
    estate.high_water_mark = 0;
    estate.emergency_withdrawal_initiated = false;
    estate.emergency_withdrawal_time = 0;
    Ok(
        TradingEnabled {
            estate_id: estate.estate_id,
            ai_agent: terms.ai_agent,
            human_share: terms.human_share,
            ai_share,
            strategy: terms.strategy,
            timestamp: now,
        },
    )
}

/// The first check that fails when trading is paused, if any.
pub open spec fn pause_trading_error(estate: Estate, owner: Pubkey) -> Option<EstateError> {
    if !estate.trading_enabled {
        Some(EstateError::TradingNotEnabled)
    } else if estate.is_locked {
        Some(EstateError::EstateLocked)
    } else if estate.is_claimable {
        Some(EstateError::EstateClaimable)
    } else if owner != estate.owner {
        Some(EstateError::UnauthorizedAccess)
    } else {
        None
    }
}

/// Pauses trading.  The ledger and the terms stay as they are.
pub fn pause_trading(estate: &mut Estate, owner: Pubkey, now: i64) -> (outcome: Result<
    TradingPaused,
    EstateError,
>)
    ensures
        match outcome {
            Ok(event) => {
                &&& pause_trading_error(*old(estate), owner) is None
                &&& *final(estate) == (Estate {
                    trading_enabled: false,
                    last_trading_update: now,
                    ..*old(estate)
                })
                &&& event == (TradingPaused { estate_id: old(estate).estate_id, timestamp: now })
            },
            Err(e) => pause_trading_error(*old(estate), owner) == Some(e) && *final(estate) == *old(estate),
        },
        lock_suspends_trading(*old(estate)) ==> lock_suspends_trading(*final(estate)),
{
    if !estate.trading_enabled {
        return Err(EstateError::TradingNotEnabled);
    }
    if estate.is_locked {
        return Err(EstateError::EstateLocked);
    }
    if estate.is_claimable {
        return Err(EstateError::EstateClaimable);
    }
    if owner != estate.owner {
        return Err(EstateError::UnauthorizedAccess);
    }
    estate.trading_enabled = false;
    estate.last_trading_update = now;
    Ok(TradingPaused { estate_id: estate.estate_id, timestamp: now })
}

/// The first check that fails when trading is resumed, if any.
pub open spec fn resume_trading_error(estate: Estate, owner: Pubkey) -> Option<EstateError> {
    if estate.trading_enabled {
        Some(EstateError::TradingAlreadyEnabled)
    } else if estate.is_locked {
        Some(EstateError::EstateLocked)
    } else if estate.is_claimable {
        Some(EstateError::EstateClaimable)
    } else if owner != estate.owner {
        Some(EstateError::UnauthorizedAccess)
    } else if estate.ai_agent is None {
        Some(EstateError::TradingNotInitialized)
    } else {
        None
    }
}

/// Resumes paused trading on the terms it was set up with.
pub fn resume_trading(estate: &mut Estate, owner: Pubkey, now: i64) -> (outcome: Result<
    TradingResumed,
    EstateError,
>)
    ensures
        match outcome {
            Ok(event) => {
                &&& resume_trading_error(*old(estate), owner) is None
                &&& *final(estate) == (Estate {
                    trading_enabled: true,
                    last_trading_update: now,
                    ..*old(estate)
                })
                &&& event == (TradingResumed { estate_id: old(estate).estate_id, timestamp: now })
            },
            Err(e) => resume_trading_error(*old(estate), owner) == Some(e) && *final(estate)
                == *old(estate),
        },
        lock_suspends_trading(*old(estate)) ==> lock_suspends_trading(*final(estate)),
{
    if estate.trading_enabled {
        return Err(EstateError::TradingAlreadyEnabled);
    }
    if estate.is_locked {
        return Err(EstateError::EstateLocked);
    }
    if estate.is_claimable {
        return Err(EstateError::EstateClaimable);
    }
    if owner != estate.owner {
        return Err(EstateError::UnauthorizedAccess);
    }
    if estate.ai_agent.is_none() {
        return Err(EstateError::TradingNotInitialized);
    }
    estate.trading_enabled = true;
    estate.last_trading_update = now;
    Ok(TradingResumed { estate_id: estate.estate_id, timestamp: now })
}

/// The first check that fails when a token vault is asked for, if any.
pub open spec fn vault_error(estate: Estate, owner: Pubkey) -> Option<EstateError> {
    if estate.is_locked {
        Some(EstateError::EstateLocked)
    } else if owner != estate.owner {
        Some(EstateError::UnauthorizedAccess)
    } else {
        None
    }
}

/// Admits the creation of a token vault for an estate that is not locked:
/// only the owner may ask for it.
pub fn init_estate_vault(estate: &Estate, owner: Pubkey) -> (outcome: Result<(), EstateError>)
    ensures
        match outcome {
            Ok(_) => vault_error(*estate, owner) is None,
            Err(e) => vault_error(*estate, owner) == Some(e),
        },
{
    if estate.is_locked {
        return Err(EstateError::EstateLocked);
    }
    if owner != estate.owner {
        return Err(EstateError::UnauthorizedAccess);
    }
    Ok(())
}

/// The accounts of a payment into an estate's vault.
#[derive(Clone, Copy, Debug, PartialEq, Eq)]
pub struct VaultPayment {
    /// Who pays.
    pub payer: Pubkey,
    /// The account the tokens come from.
    pub source: TokenAccount,
    /// The estate's vault for the mint.
    pub estate_vault: TokenAccount,
    pub token_mint: Pubkey,
}

/// The first of the account checks of a vault payment that fails, if any.
pub open spec fn vault_payment_error(payment: VaultPayment, estate_address: Pubkey) -> Option<
    EstateError,
> {
    if payment.source.mint != payment.token_mint {
        Some(EstateError::InvalidTokenMint)
    } else if payment.source.owner != payment.payer {
        Some(EstateError::InvalidTokenOwner)
    } else if payment.estate_vault.mint != payment.token_mint {
        Some(EstateError::InvalidTokenMint)
    } else if payment.estate_vault.owner != estate_address {
        Some(EstateError::InvalidTokenOwner)
    } else {
        None
    }
}

/// Checks the accounts of a vault payment.
pub fn check_vault_payment(payment: &VaultPayment, estate_address: Pubkey) -> (outcome: Result<
    (),
    EstateError,
>)
    ensures
        match outcome {
            Ok(_) => vault_payment_error(*payment, estate_address) is None,
            Err(e) => vault_payment_error(*payment, estate_address) == Some(e),
        },
{
    if payment.source.mint != payment.token_mint {
        return Err(EstateError::InvalidTokenMint);
    }
    if payment.source.owner != payment.payer {
        return Err(EstateError::InvalidTokenOwner);
    }
    if payment.estate_vault.mint != payment.token_mint {
        return Err(EstateError::InvalidTokenMint);
    }
    if payment.estate_vault.owner != estate_address {
        return Err(EstateError::InvalidTokenOwner);
    }
    Ok(())
}

/// The first check that fails when tokens are deposited, if any.
pub open spec fn deposit_error(estate: Estate, estate_address: Pubkey, payment: VaultPayment) -> Option<
    EstateError,
> {
    if estate.is_locked {
        Some(EstateError::EstateLocked)
    } else {
        vault_payment_error(payment, estate_address)
    }
}

/// Admits a deposit of `amount` tokens into the vault of an estate that is
/// not locked.  Returns the amount for the caller to move.
pub fn deposit_token_to_estate(
    estate: &Estate,
    estate_address: Pubkey,
    payment: &VaultPayment,
    amount: u64,
) -> (outcome: Result<u64, EstateError>)
    ensures
        match outcome {
            Ok(moved) => deposit_error(*estate, estate_address, *payment) is None && moved
                == amount,
            Err(e) => deposit_error(*estate, estate_address, *payment) == Some(e),
        },
{
    if estate.is_locked {
        return Err(EstateError::EstateLocked);
    }
    check_vault_payment(payment, estate_address)?;
    Ok(amount)
}

/// Whether the payer is the owner, who pays in as the human partner.
pub open spec fn pays_as_human(estate: Estate, payer: Pubkey) -> bool {
    payer == estate.owner
}

/// Whether the payer is the AI agent.
pub open spec fn pays_as_agent(estate: Estate, payer: Pubkey) -> bool {
    estate.ai_agent == Some(payer)
}

/// The first check that fails when a partner pays in, if any.
pub open spec fn contribute_error(
    estate: Estate,
    estate_address: Pubkey,
    payment: VaultPayment,
    amount: u64,
) -> Option<EstateError> {
    if !estate.trading_enabled {
        Some(EstateError::TradingNotEnabled)
    } else if vault_payment_error(payment, estate_address) is Some {
        vault_payment_error(payment, estate_address)
    } else if estate.is_locked {
        Some(EstateError::EstateLocked)
    } else if estate.is_claimable {
        Some(EstateError::EstateClaimable)
    } else if !pays_as_human(estate, payment.payer) && !pays_as_agent(estate, payment.payer) {
        Some(EstateError::UnauthorizedContributor)
    } else if pays_as_human(estate, payment.payer) && estate.human_contribution + amount
        > u64::MAX {
        Some(EstateError::MathOverflow)
    } else if !pays_as_human(estate, payment.payer) && estate.ai_contribution + amount > u64::MAX {
        Some(EstateError::MathOverflow)
    } else if estate.trading_value + amount > u64::MAX {
        Some(EstateError::MathOverflow)
    } else {
        None
    }
}

/// The estate after a partner has paid `amount` in at `now`.  Paying in
/// counts as a check-in.
pub open spec fn contributed(estate: Estate, payer: Pubkey, amount: u64, now: i64) -> Estate {
    let paid = Estate {
        trading_value: (estate.trading_value + amount) as u64,
        last_trading_update: now,
        last_active: now,
        is_claimable: false,
        ..estate
    };
    if pays_as_human(estate, payer) {
        Estate { human_contribution: (estate.human_contribution + amount) as u64, ..paid }
    } else {
        Estate { ai_contribution: (estate.ai_contribution + amount) as u64, ..paid }
    }
}

/// Takes a payment of the owner or the AI agent into the trading ledger.
/// The payer's total and the value of the holdings grow by `amount`, which
/// the caller moves into the vault; the owner's inactivity clock starts over.
pub fn contribute_to_trading(
    estate: &mut Estate,
    estate_address: Pubkey,
    payment: &VaultPayment,
    amount: u64,
    now: i64,
) -> (outcome: Result<TradingContribution, EstateError>)
    ensures
        match outcome {
            Ok(event) => {
                &&& contribute_error(*old(estate), estate_address, *payment, amount) is None
                &&& *final(estate) == contributed(*old(estate), payment.payer, amount, now)
                &&& event == (TradingContribution {
                    estate_id: old(estate).estate_id,
                    contributor: payment.payer,
                    amount,
                    is_human: pays_as_human(*old(estate), payment.payer),
                    total_value: (old(estate).trading_value + amount) as u64,
                    timestamp: now,
                })
            },
            Err(e) => contribute_error(*old(estate), estate_address, *payment, amount) == Some(e)
                && *final(estate) == *old(estate),
        },
{
    if !estate.trading_enabled {
        return Err(EstateError::TradingNotEnabled);
    }
    check_vault_payment(payment, estate_address)?;
    if estate.is_locked {
        return Err(EstateError::EstateLocked);
    }
    if estate.is_claimable {
        return Err(EstateError::EstateClaimable);
    }
    let is_human = payment.payer == estate.owner;
    let is_ai = is_some_key(estate.ai_agent, payment.payer);
    if !is_human && !is_ai {
        return Err(EstateError::UnauthorizedContributor);
    }
    let paid_so_far = if is_human {
        estate.human_contribution
    } else {
        estate.ai_contribution
    };
    let paid_in = match paid_so_far.checked_add(amount) {
        Some(total) => total,
        None => {
            return Err(EstateError::MathOverflow);
        },
    };
    let value = match estate.trading_value.checked_add(amount) {
        Some(value) => value,
        None => {
            return Err(EstateError::MathOverflow);
        },
    };
    if is_human {
        estate.human_contribution = paid_in;
    } else {
        estate.ai_contribution = paid_in;
    }
    estate.trading_value = value;
    estate.last_trading_update = now;
    estate.check_in(now);
    Ok(
        TradingContribution {
            estate_id: estate.estate_id,
            contributor: payment.payer,
            amount,
            is_human,
            total_value: value,
            timestamp: now,
        },
    )
}

/// What both partners have paid in.
pub open spec fn total_contributions(estate: Estate) -> int {
    estate.human_contribution + estate.ai_contribution
}

/// The first check that fails when the agent reports a value, if any.
pub open spec fn update_value_error(estate: Estate, ai_agent: Pubkey, new_total_value: u64) -> Option<
    EstateError,
> {
    if estate.is_locked {
        Some(EstateError::EstateLocked)
    } else if !estate.trading_enabled {
        Some(EstateError::TradingNotEnabled)
    } else if estate.ai_agent != Some(ai_agent) {
        Some(EstateError::UnauthorizedAccess)
    } else if total_contributions(estate) > u64::MAX {
        Some(EstateError::MathOverflow)
    } else if new_total_value - total_contributions(estate) > i64::MAX || new_total_value
        - total_contributions(estate) < i64::MIN {
        Some(EstateError::MathOverflow)
    } else {
        None
    }
}

/// The estate after the agent has reported a value: the gain or loss is the
/// value less what was paid in, and the high-water mark never falls.
pub open spec fn value_updated(estate: Estate, new_total_value: u64, now: i64) -> Estate {
    Estate {
        trading_value: new_total_value,
        trading_profit: (new_total_value - total_contributions(estate)) as i64,
        high_water_mark: if new_total_value > estate.high_water_mark {
            new_total_value
        } else {
            estate.high_water_mark
        },
        last_trading_update: now,
        ..estate
    }
}

/// Records the value of the holdings as the AI agent reports it.  Only the
/// estate's agent may report, and not while the estate is locked.
pub fn update_trading_value(estate: &mut Estate, ai_agent: Pubkey, new_total_value: u64, now: i64) -> (outcome:
    Result<TradingValueUpdated, EstateError>)
    ensures
        match outcome {
            Ok(event) => {
                &&& update_value_error(*old(estate), ai_agent, new_total_value) is None
                &&& *final(estate) == value_updated(*old(estate), new_total_value, now)
                &&& final(estate).high_water_mark >= old(estate).high_water_mark
                &&& final(estate).high_water_mark >= final(estate).trading_value
                &&& event == (TradingValueUpdated {
                    estate_id: old(estate).estate_id,
                    old_value: old(estate).trading_value,
                    new_value: new_total_value,
                    profit: final(estate).trading_profit,
                    timestamp: now,
                })
            },
            Err(e) => update_value_error(*old(estate), ai_agent, new_total_value) == Some(e)
                && *final(estate) == *old(estate),
        },
{
    if estate.is_locked {
        return Err(EstateError::EstateLocked);
    }
    if !estate.trading_enabled {
        return Err(EstateError::TradingNotEnabled);
    }
    if !is_some_key(estate.ai_agent, ai_agent) {
        return Err(EstateError::UnauthorizedAccess);
    }
    let paid_in = match estate.human_contribution.checked_add(estate.ai_contribution) {
        Some(total) => total,
        None => {
            return Err(EstateError::MathOverflow);
        },
    };
    let profit_wide: i128 = new_total_value as i128 - paid_in as i128;
    if profit_wide > i64::MAX as i128 || profit_wide < i64::MIN as i128 {
        return Err(EstateError::MathOverflow);
    }
    let old_value = estate.trading_value;
    let profit = profit_wide as i64;
    estate.trading_value = new_total_value;
    estate.trading_profit = profit;
    if new_total_value > estate.high_water_mark {
        estate.high_water_mark = new_total_value;
    }
    estate.last_trading_update = now;
    Ok(
        TradingValueUpdated {
            estate_id: estate.estate_id,
            old_value,
            new_value: new_total_value,
            profit,
            timestamp: now,
        },
    )
}

/// The accounts of a distribution of gains.
#[derive(Clone, Copy, Debug, PartialEq, Eq)]
pub struct DistributeTradingProfits {
    pub estate_address: Pubkey,
    pub token_mint: Pubkey,
    pub estate_vault: TokenAccount,
    pub human_token_account: TokenAccount,
    pub ai_token_account: TokenAccount,
}

/// The first of the account checks of a distribution that fails, if any.
pub open spec fn distribution_accounts_error(estate: Estate, accounts: DistributeTradingProfits) -> Option<
    EstateError,
> {
    if accounts.estate_vault.mint != accounts.token_mint {
        Some(EstateError::InvalidTokenMint)
    } else if accounts.estate_vault.owner != accounts.estate_address {
        Some(EstateError::InvalidTokenOwner)
    } else if accounts.human_token_account.mint != accounts.token_mint {
        Some(EstateError::InvalidTokenMint)
    } else if accounts.human_token_account.owner != estate.owner {
        Some(EstateError::InvalidTokenOwner)
    } else if estate.ai_agent is None {
        Some(EstateError::TradingNotInitialized)
    } else if accounts.ai_token_account.mint != accounts.token_mint {
        Some(EstateError::InvalidTokenMint)
    } else if estate.ai_agent != Some(accounts.ai_token_account.owner) {
        Some(EstateError::InvalidTokenOwner)
    } else {
        None
    }
}

/// What of the value stands above the high-water mark.
pub open spec fn distributable(estate: Estate) -> int {
    if estate.trading_value > estate.high_water_mark {
        estate.trading_value - estate.high_water_mark
    } else {
        0
    }
}

/// The owner's part of the distributable gains.
pub open spec fn human_gain(estate: Estate) -> int {
    percent_share(distributable(estate), estate.human_share as int)
}

/// The first check that fails when gains are shared out, if any.
pub open spec fn distribute_error(estate: Estate, accounts: DistributeTradingProfits) -> Option<
    EstateError,
> {
    if estate.is_locked {
        Some(EstateError::EstateLocked)
    } else if !estate.trading_enabled {
        Some(EstateError::TradingNotEnabled)
    } else if estate.trading_profit <= 0 {
        Some(EstateError::NoProfitsToDistribute)
    } else if distribution_accounts_error(estate, accounts) is Some {
        distribution_accounts_error(estate, accounts)
    } else if distributable(estate) == 0 {
        Some(EstateError::NoProfitsToDistribute)
    } else if human_gain(estate) > distributable(estate) {
        Some(EstateError::MathOverflow)
    } else {
        None
    }
}

/// The estate after its gains are shared out: the high-water mark has
/// moved up to the value, and the value has come down by what was paid out.
pub open spec fn distributed(estate: Estate, now: i64) -> Estate {
    Estate {
        high_water_mark: estate.trading_value,
        trading_value: (estate.trading_value - distributable(estate)) as u64,
        last_trading_update: now,
        ..estate
    }
}

/// Checks the accounts of a distribution.
fn check_distribution_accounts(estate: &Estate, accounts: &DistributeTradingProfits) -> (outcome: Result<
    (),
    EstateError,
>)
    ensures
        match outcome {
            Ok(_) => distribution_accounts_error(*estate, *accounts) is None,
            Err(e) => distribution_accounts_error(*estate, *accounts) == Some(e),
        },
{
    if accounts.estate_vault.mint != accounts.token_mint {
        return Err(EstateError::InvalidTokenMint);
    }
    if accounts.estate_vault.owner != accounts.estate_address {
        return Err(EstateError::InvalidTokenOwner);
    }
    if accounts.human_token_account.mint != accounts.token_mint {
        return Err(EstateError::InvalidTokenMint);
    }
    if accounts.human_token_account.owner != estate.owner {
        return Err(EstateError::InvalidTokenOwner);
    }
    if estate.ai_agent.is_none() {
        return Err(EstateError::TradingNotInitialized);
    }
    if accounts.ai_token_account.mint != accounts.token_mint {
        return Err(EstateError::InvalidTokenMint);
    }
    if !is_some_key(estate.ai_agent, accounts.ai_token_account.owner) {
        return Err(EstateError::InvalidTokenOwner);
    }
    Ok(())
}

/// Shares out the gains that stand above the high-water mark: the owner
/// gets the owner's percentage, rounded down, and the agent the rest, so
/// that the two parts add up to what is paid out.  The event names both
/// parts for the caller to move out of the vault.  Nothing is shared out
/// while the estate is locked.
pub fn distribute_trading_profits(estate: &mut Estate, accounts: &DistributeTradingProfits, now: i64) -> (outcome:
    Result<ProfitsDistributed, EstateError>)
    ensures
        match outcome {
            Ok(event) => {
                &&& distribute_error(*old(estate), *accounts) is None
                &&& *final(estate) == distributed(*old(estate), now)
                &&& event == (ProfitsDistributed {
                    estate_id: old(estate).estate_id,
                    human_withdrawal: human_gain(*old(estate)) as u64,
                    ai_withdrawal: (distributable(*old(estate)) - human_gain(*old(estate))) as u64,
                    remaining_value: final(estate).trading_value,
                    timestamp: now,
                })
                &&& event.human_withdrawal + event.ai_withdrawal == distributable(*old(estate))
                &&& final(estate).trading_value == old(estate).high_water_mark
                &&& distributable(*final(estate)) == 0
            },
            Err(e) => distribute_error(*old(estate), *accounts) == Some(e) && *final(estate)
                == *old(estate),
        },
{
    if estate.is_locked {
        return Err(EstateError::EstateLocked);
    }
    if !estate.trading_enabled {
        return Err(EstateError::TradingNotEnabled);
    }
    if estate.trading_profit <= 0 {
        return Err(EstateError::NoProfitsToDistribute);
    }
    check_distribution_accounts(estate, accounts)?;
    let distributable_profit: u64 = if estate.trading_value > estate.high_water_mark {
        estate.trading_value - estate.high_water_mark
    } else {
        0
    };
    if distributable_profit == 0 {
        return Err(EstateError::NoProfitsToDistribute);
    }
    let human_profit_share = match percent_of(distributable_profit, estate.human_share) {
        Some(share) => share,
        None => {
            return Err(EstateError::MathOverflow);
        },
    };
    if human_profit_share > distributable_profit {
        return Err(EstateError::MathOverflow);
    }
    let ai_profit_share = distributable_profit - human_profit_share;
    estate.high_water_mark = estate.trading_value;
    estate.trading_value = estate.trading_value - distributable_profit;
    estate.last_trading_update = now;
    Ok(
        ProfitsDistributed {
            estate_id: estate.estate_id,
            human_withdrawal: human_profit_share,
            ai_withdrawal: ai_profit_share,
            remaining_value: estate.trading_value,
            timestamp: now,
        },
    )
}

/// The first check that fails when an emergency withdrawal is asked for,
/// if any.
pub open spec fn initiate_withdrawal_error(estate: Estate, owner: Pubkey, now: i64) -> Option<
    EstateError,
> {
    if estate.is_locked {
        Some(EstateError::EstateLocked)
    } else if owner != estate.owner {
        Some(EstateError::UnauthorizedAccess)
    } else if !estate.trading_enabled {
        Some(EstateError::TradingNotEnabled)
    } else if estate.emergency_withdrawal_initiated {
        Some(EstateError::EmergencyWithdrawalAlreadyInitiated)
    } else if now + estate.emergency_delay_hours * SECONDS_PER_HOUR > i64::MAX {
        Some(EstateError::MathOverflow)
    } else {
        None
    }
}

/// Asks for an emergency withdrawal.  It can be carried out once the
/// estate's emergency delay has passed.  A locked estate takes no such
/// request.
pub fn initiate_trading_emergency_withdrawal(estate: &mut Estate, owner: Pubkey, now: i64) -> (outcome:
    Result<EmergencyWithdrawalInitiated, EstateError>)
    ensures
        match outcome {
            Ok(event) => {
                &&& initiate_withdrawal_error(*old(estate), owner, now) is None
                &&& *final(estate) == (Estate {
                    emergency_withdrawal_initiated: true,
                    emergency_withdrawal_time: (now + old(estate).emergency_delay_hours
                        * SECONDS_PER_HOUR) as i64,
                    ..*old(estate)
                })
                &&& event == (EmergencyWithdrawalInitiated {
                    estate_id: old(estate).estate_id,
                    initiator: owner,
                    execute_after: final(estate).emergency_withdrawal_time,
                    timestamp: now,
                })
            },
            Err(e) => initiate_withdrawal_error(*old(estate), owner, now) == Some(e) && *final(estate) == *old(estate),
        },
{
    if estate.is_locked {
        return Err(EstateError::EstateLocked);
    }
    if owner != estate.owner {
        return Err(EstateError::UnauthorizedAccess);
    }
    if !estate.trading_enabled {
        return Err(EstateError::TradingNotEnabled);
    }
    if estate.emergency_withdrawal_initiated {
        return Err(EstateError::EmergencyWithdrawalAlreadyInitiated);
    }
    let due: i128 = now as i128 + estate.emergency_delay_hours as i128 * SECONDS_PER_HOUR as i128;
    if due > i64::MAX as i128 {
        return Err(EstateError::MathOverflow);
    }
    estate.emergency_withdrawal_initiated = true;
    estate.emergency_withdrawal_time = due as i64;
    Ok(
        EmergencyWithdrawalInitiated {
            estate_id: estate.estate_id,
            initiator: owner,
            execute_after: due as i64,
            timestamp: now,
        },
    )
}

/// The first check that fails when an emergency withdrawal is carried out,
/// if any.
pub open spec fn execute_withdrawal_error(estate: Estate, owner: Pubkey, now: i64) -> Option<
    EstateError,
> {
    if estate.is_locked {
        Some(EstateError::EstateLocked)
    } else if owner != estate.owner {
        Some(EstateError::UnauthorizedAccess)
    } else if !estate.emergency_withdrawal_initiated {
        Some(EstateError::EmergencyWithdrawalNotInitiated)
    } else if now < estate.emergency_withdrawal_time {
        Some(EstateError::EmergencyWithdrawalNotReady)
    } else if total_contributions(estate) > u64::MAX {
        Some(EstateError::MathOverflow)
    } else {
        None
    }
}

/// The owner's part of the holdings: the value, in the proportion of what
/// the owner paid in to what both paid in, rounded down.
pub open spec fn human_proportion(estate: Estate) -> int {
    if total_contributions(estate) > 0 {
        mul_div_floor(
            estate.human_contribution as int,
            estate.trading_value as int,
            total_contributions(estate),
        )
    } else {
        0
    }
}

/// The estate with trading switched off and the ledger wiped.
pub open spec fn trading_reset(estate: Estate) -> Estate {
    Estate {
        trading_enabled: false,
        ai_agent: None,
        trading_strategy: None,
        human_contribution: 0,
        ai_contribution: 0,
        trading_value: 0,
        trading_profit: 0,
        high_water_mark: 0,
        emergency_withdrawal_initiated: false,
        emergency_withdrawal_time: 0,
        ..estate
    }
}

/// Carries an emergency withdrawal out once its delay has passed: the owner
/// gets the own proportion of the holdings, and trading is switched off with
/// the ledger wiped.  The event names the amount for the caller to move out
/// of the vault.  While the estate is locked the withdrawal waits, even if
/// it was asked for before the lock.
pub fn execute_trading_emergency_withdrawal(estate: &mut Estate, owner: Pubkey, now: i64) -> (outcome:
    Result<EmergencyWithdrawalExecuted, EstateError>)
    ensures
        match outcome {
            Ok(event) => {
                &&& execute_withdrawal_error(*old(estate), owner, now) is None
                &&& *final(estate) == trading_reset(*old(estate))
                &&& event == (EmergencyWithdrawalExecuted {
                    estate_id: old(estate).estate_id,
                    human_withdrawal: human_proportion(*old(estate)) as u64,
                    ai_withdrawal: 0,
                    timestamp: now,
                })
                &&& event.human_withdrawal <= old(estate).trading_value
            },
            Err(e) => execute_withdrawal_error(*old(estate), owner, now) == Some(e) && *final(estate) == *old(estate),
        },
        lock_suspends_trading(*old(estate)) ==> lock_suspends_trading(*final(estate)),
{
    if estate.is_locked {
        return Err(EstateError::EstateLocked);
    }
    if owner != estate.owner {
        return Err(EstateError::UnauthorizedAccess);
    }
    if !estate.emergency_withdrawal_initiated {
        return Err(EstateError::EmergencyWithdrawalNotInitiated);
    }
    if now < estate.emergency_withdrawal_time {
        return Err(EstateError::EmergencyWithdrawalNotReady);
    }
    let paid_in = match estate.human_contribution.checked_add(estate.ai_contribution) {
        Some(total) => total,
        None => {
            return Err(EstateError::MathOverflow);
        },
    };
    let withdrawn: u64 = if paid_in > 0 {
        proof {
            lemma_mul_div_floor_bounded(
                estate.trading_value as int,
                estate.human_contribution as int,
                paid_in as int,
            );
            assert(estate.trading_value as int * estate.human_contribution as int
                == estate.human_contribution as int * estate.trading_value as int)
                by (nonlinear_arith);
        }
        match mul_div(estate.human_contribution, estate.trading_value, paid_in) {
            Some(part) => part,
            None => 0,
        }
    } else {
        0
    };
    estate.trading_enabled = false;
    estate.ai_agent = None;
    estate.trading_strategy = None;
    estate.human_contribution = 0;
    estate.ai_contribution = 0;
    estate.trading_value = 0;
    estate.trading_profit = 0;
    estate.high_water_mark = 0;
    estate.emergency_withdrawal_initiated = false;
    estate.emergency_withdrawal_time = 0;
    Ok(
        EmergencyWithdrawalExecuted {
            estate_id: estate.estate_id,
            human_withdrawal: withdrawn,
            ai_withdrawal: 0,
            timestamp: now,
        },
    )
}

} // verus!
