//! Risk limits and strategy allocation of an estate's trading sub-ledger.

use vstd::prelude::*;
use crate::arith::{lemma_mul_div_floor_bounded, mul_div, mul_div_floor};
use crate::estate::state::{Estate, EstateError, TradingStrategy};
use crate::types::{Clock, Pubkey};

verus! {

/// How trading capital is spread over strategies, in basis points.
#[derive(Clone, Copy, Debug, PartialEq, Eq)]
pub struct StrategyMix {
    pub cash_and_carry_bps: u16,
    pub covered_options_bps: u16,
    pub liquidity_provision_bps: u16,
    pub options_trading_bps: u16,
    pub lp_with_rebalancing_bps: u16,
    pub low_leverage_perps_bps: u16,
    pub high_leverage_perps_bps: u16,
    pub naked_options_bps: u16,
    pub volatile_lp_pairs_bps: u16,
    pub arbitrage_bps: u16,
}

/// Hours and days on which trading is allowed.
#[derive(Clone, Copy, Debug, PartialEq, Eq)]
pub struct TradingHours {
    pub start_hour_utc: u8,
    pub end_hour_utc: u8,
    pub active_days: u8,
}

/// Limits that trading must keep.
#[derive(Clone, Copy, Debug, PartialEq, Eq)]
pub struct RiskManagementSettings {
    pub max_drawdown_bps: u16,
    pub max_daily_loss_bps: u16,
    pub max_position_size_bps: u16,
    pub min_liquidity_buffer: u64,
    pub strategy_mix: StrategyMix,
    pub max_open_positions: u8,
    pub position_timeout_hours: u32,
    pub use_stop_loss: bool,
    pub stop_loss_bps: u16,
    pub use_take_profit: bool,
    pub take_profit_bps: u16,
    pub trading_enabled_hours: Option<TradingHours>,
    pub current_drawdown_bps: u16,
    pub daily_loss_bps: u16,
    pub last_risk_reset: i64,
}

/// Which limit was hit.
#[derive(Clone, Copy, Debug, PartialEq, Eq, Structural)]
pub enum RiskLimitType {
    MaxDrawdown,
    MaxDailyLoss,
    MaxPositionSize,
}

#[derive(Clone, Copy, Debug, PartialEq, Eq)]
pub struct RiskSettingsUpdated {
    pub estate: Pubkey,
    pub max_drawdown_bps: u16,
    pub max_daily_loss_bps: u16,
    pub max_position_size_bps: u16,
    pub timestamp: i64,
}

#[derive(Clone, Copy, Debug, PartialEq, Eq)]
pub struct StrategyMixUpdated {
    pub estate: Pubkey,
    pub strategy_mix: StrategyMix,
    pub timestamp: i64,
}

#[derive(Clone, Copy, Debug, PartialEq, Eq)]
pub struct RiskLimitTriggered {
    pub estate: Pubkey,
    pub limit_type: RiskLimitType,
    pub current_value_bps: u16,
    pub limit_value_bps: u16,
    pub timestamp: i64,
}

impl StrategyMix {
    /// The sum of all allocations.
    pub open spec fn total(self) -> int {
        self.cash_and_carry_bps + self.covered_options_bps + self.liquidity_provision_bps
            + self.options_trading_bps + self.lp_with_rebalancing_bps + self.low_leverage_perps_bps
            + self.high_leverage_perps_bps + self.naked_options_bps + self.volatile_lp_pairs_bps
            + self.arbitrage_bps
    }

    /// Whether the allocations add up to the whole.
    pub open spec fn is_valid(self) -> bool {
        self.total() == 10_000
    }

    pub open spec fn spec_conservative() -> StrategyMix {
        StrategyMix {
            cash_and_carry_bps: 4000,
            covered_options_bps: 3000,
            liquidity_provision_bps: 3000,
            options_trading_bps: 0,
            lp_with_rebalancing_bps: 0,
            low_leverage_perps_bps: 0,
            high_leverage_perps_bps: 0,
            naked_options_bps: 0,
            volatile_lp_pairs_bps: 0,
            arbitrage_bps: 0,
        }
    }

    pub open spec fn spec_balanced() -> StrategyMix {
        StrategyMix {
            cash_and_carry_bps: 2500,
            covered_options_bps: 0,
            liquidity_provision_bps: 0,
            options_trading_bps: 2500,
            lp_with_rebalancing_bps: 2500,
            low_leverage_perps_bps: 2500,
            high_leverage_perps_bps: 0,
            naked_options_bps: 0,
            volatile_lp_pairs_bps: 0,
            arbitrage_bps: 0,
        }
    }

    pub open spec fn spec_aggressive() -> StrategyMix {
        StrategyMix {
            cash_and_carry_bps: 0,
            covered_options_bps: 0,
            liquidity_provision_bps: 0,
            options_trading_bps: 0,
            lp_with_rebalancing_bps: 0,
            low_leverage_perps_bps: 0,
            high_leverage_perps_bps: 4000,
            naked_options_bps: 3000,
            volatile_lp_pairs_bps: 2000,
            arbitrage_bps: 1000,
        }
    }

    /// Arbitrage, covered options and liquidity provision only.
    pub fn conservative() -> (mix: StrategyMix)
        ensures
            mix == Self::spec_conservative(),
            mix.is_valid(),
    {
        StrategyMix {
            cash_and_carry_bps: 4000,
            covered_options_bps: 3000,
            liquidity_provision_bps: 3000,
            options_trading_bps: 0,
            lp_with_rebalancing_bps: 0,
            low_leverage_perps_bps: 0,
            high_leverage_perps_bps: 0,
            naked_options_bps: 0,
            volatile_lp_pairs_bps: 0,
            arbitrage_bps: 0,
        }
    }

    /// Four strategies of middling risk in equal parts.
    pub fn balanced() -> (mix: StrategyMix)
        ensures
            mix == Self::spec_balanced(),
            mix.is_valid(),
    {
        StrategyMix {
            cash_and_carry_bps: 2500,
            covered_options_bps: 0,
            liquidity_provision_bps: 0,
            options_trading_bps: 2500,
            lp_with_rebalancing_bps: 2500,
            low_leverage_perps_bps: 2500,
            high_leverage_perps_bps: 0,
            naked_options_bps: 0,
            volatile_lp_pairs_bps: 0,
            arbitrage_bps: 0,
        }
    }

    /// Leveraged and uncovered strategies.
    pub fn aggressive() -> (mix: StrategyMix)
        ensures
            mix == Self::spec_aggressive(),
            mix.is_valid(),
    {
        StrategyMix {
            cash_and_carry_bps: 0,
            covered_options_bps: 0,
            liquidity_provision_bps: 0,
            options_trading_bps: 0,
            lp_with_rebalancing_bps: 0,
            low_leverage_perps_bps: 0,
            high_leverage_perps_bps: 4000,
            naked_options_bps: 3000,
            volatile_lp_pairs_bps: 2000,
            arbitrage_bps: 1000,
        }
    }

    /// Accepts the mix exactly when its allocations add up to 100%.
    pub fn validate(&self) -> (outcome: Result<(), EstateError>)
        ensures
            outcome is Ok <==> self.is_valid(),
            outcome is Err ==> outcome == Err::<(), EstateError>(EstateError::InvalidStrategyMix),
    {
        let total: u32 = self.cash_and_carry_bps as u32 + self.covered_options_bps as u32
            + self.liquidity_provision_bps as u32 + self.options_trading_bps as u32
            + self.lp_with_rebalancing_bps as u32 + self.low_leverage_perps_bps as u32
            + self.high_leverage_perps_bps as u32 + self.naked_options_bps as u32
            + self.volatile_lp_pairs_bps as u32 + self.arbitrage_bps as u32;
        if total != 10_000 {
            return Err(EstateError::InvalidStrategyMix);
        }
        Ok(())
    }
}

impl TradingHours {
    /// Whether trading is allowed at the given time.  Trading hours are
    /// recorded but not enforced: trading is always allowed.
    pub fn is_active(&self, clock: &Clock) -> (active: bool)
        ensures
            active,
    {
        true
    }
}

impl RiskManagementSettings {
    /// Settings with no losses recorded yet.
    pub open spec fn spec_preset(
        max_drawdown_bps: u16,
        max_daily_loss_bps: u16,
        max_position_size_bps: u16,
        min_liquidity_buffer: u64,
        strategy_mix: StrategyMix,
        max_open_positions: u8,
        position_timeout_hours: u32,
        stop_loss_bps: u16,
        use_take_profit: bool,
        take_profit_bps: u16,
    ) -> RiskManagementSettings {
        RiskManagementSettings {
            max_drawdown_bps,
            max_daily_loss_bps,
            max_position_size_bps,
            min_liquidity_buffer,
            strategy_mix,
            max_open_positions,
            position_timeout_hours,
            use_stop_loss: true,
            stop_loss_bps,
            use_take_profit,
            take_profit_bps,
            trading_enabled_hours: None,
            current_drawdown_bps: 0,
            daily_loss_bps: 0,
            last_risk_reset: 0,
        }
    }

    pub open spec fn spec_default_conservative() -> RiskManagementSettings {
        Self::spec_preset(
            2000,
            500,
            3000,
            130_000_000,
            StrategyMix::spec_conservative(),
            3,
            24,
            500,
            true,
            1500,
        )
    }

    pub open spec fn spec_default_balanced() -> RiskManagementSettings {
        Self::spec_preset(
            3000,
            1000,
            4000,
            100_000_000,
            StrategyMix::spec_balanced(),
            5,
            48,
            1000,
            true,
            3000,
        )
    }

    pub open spec fn spec_default_aggressive() -> RiskManagementSettings {
        Self::spec_preset(
            5000,
            2000,
            6000,
            50_000_000,
            StrategyMix::spec_aggressive(),
            10,
            72,
            2000,
            false,
            0,
        )
    }

    /// Why the settings are not acceptable, if they are not.
    pub open spec fn validation_error(self) -> Option<EstateError> {
        if self.max_drawdown_bps > 10_000 {
            Some(EstateError::InvalidRiskParameter)
        } else if self.max_daily_loss_bps > 10_000 {
            Some(EstateError::InvalidRiskParameter)
        } else if self.max_position_size_bps > 10_000 {
            Some(EstateError::InvalidRiskParameter)
        } else if !self.strategy_mix.is_valid() {
            Some(EstateError::InvalidStrategyMix)
        } else if self.max_open_positions == 0 || self.max_open_positions > 20 {
            Some(EstateError::InvalidRiskParameter)
        } else {
            None
        }
    }

    /// The loss from `initial_value` down to `current_value`, in basis points
    /// of `initial_value`, rounded down; zero where there is no loss.
    pub open spec fn loss_bps(current_value: u64, initial_value: u64) -> int {
        if current_value < initial_value {
            mul_div_floor(initial_value - current_value, 10_000, initial_value as int)
        } else {
            0
        }
    }

    /// Which limit the values break, if any.
    pub open spec fn limit_error(self, current_value: u64, initial_value: u64) -> Option<
        EstateError,
    > {
        if Self::loss_bps(current_value, initial_value) > self.max_drawdown_bps {
            Some(EstateError::MaxDrawdownExceeded)
        } else if self.daily_loss_bps > self.max_daily_loss_bps {
            Some(EstateError::MaxDailyLossExceeded)
        } else {
            None
        }
    }

    /// Tight limits for a cautious owner.
    pub fn default_conservative() -> (settings: RiskManagementSettings)
        ensures
            settings == Self::spec_default_conservative(),
            settings.validation_error() is None,
    {
        RiskManagementSettings {
            max_drawdown_bps: 2000,
            max_daily_loss_bps: 500,
            max_position_size_bps: 3000,
            min_liquidity_buffer: 130_000_000,
            strategy_mix: StrategyMix::conservative(),
            max_open_positions: 3,
            position_timeout_hours: 24,
            use_stop_loss: true,
            stop_loss_bps: 500,
            use_take_profit: true,
            take_profit_bps: 1500,
            trading_enabled_hours: None,
            current_drawdown_bps: 0,
            daily_loss_bps: 0,
            last_risk_reset: 0,
        }
    }

    /// Middling limits.
    pub fn default_balanced() -> (settings: RiskManagementSettings)
        ensures
            settings == Self::spec_default_balanced(),
            settings.validation_error() is None,
    {
        RiskManagementSettings {
            max_drawdown_bps: 3000,
            max_daily_loss_bps: 1000,
            max_position_size_bps: 4000,
            min_liquidity_buffer: 100_000_000,
            strategy_mix: StrategyMix::balanced(),
            max_open_positions: 5,
            position_timeout_hours: 48,
            use_stop_loss: true,
            stop_loss_bps: 1000,
            use_take_profit: true,
            take_profit_bps: 3000,
            trading_enabled_hours: None,
            current_drawdown_bps: 0,
            daily_loss_bps: 0,
            last_risk_reset: 0,
        }
    }

    /// Wide limits for an owner who accepts large swings.
    pub fn default_aggressive() -> (settings: RiskManagementSettings)
        ensures
            settings == Self::spec_default_aggressive(),
            settings.validation_error() is None,
    {
        RiskManagementSettings {
            max_drawdown_bps: 5000,
            max_daily_loss_bps: 2000,
            max_position_size_bps: 6000,
            min_liquidity_buffer: 50_000_000,
            strategy_mix: StrategyMix::aggressive(),
            max_open_positions: 10,
            position_timeout_hours: 72,
            use_stop_loss: true,
            stop_loss_bps: 2000,
            use_take_profit: false,
            take_profit_bps: 0,
            trading_enabled_hours: None,
            current_drawdown_bps: 0,
            daily_loss_bps: 0,
            last_risk_reset: 0,
        }
    }

    /// Accepts the settings when no limit exceeds 100%, the strategy mix adds
    /// up, and between one and twenty positions may be open.
    pub fn validate(&self) -> (outcome: Result<(), EstateError>)
        ensures
            match outcome {
                Ok(_) => self.validation_error() is None,
                Err(e) => self.validation_error() == Some(e),
            },
    {
        if self.max_drawdown_bps > 10_000 {
            return Err(EstateError::InvalidRiskParameter);
        }
        if self.max_daily_loss_bps > 10_000 {
            return Err(EstateError::InvalidRiskParameter);
        }
        if self.max_position_size_bps > 10_000 {
            return Err(EstateError::InvalidRiskParameter);
        }
        self.strategy_mix.validate()?;
        if self.max_open_positions == 0 || self.max_open_positions > 20 {
            return Err(EstateError::InvalidRiskParameter);
        }
        Ok(())
    }

    /// Checks the drawdown from `initial_value` to `current_value` and the
    /// recorded daily loss against their limits.
    pub fn check_risk_limits(&self, current_value: u64, initial_value: u64) -> (outcome: Result<
        (),
        EstateError,
    >)
        ensures
            match outcome {
                Ok(_) => self.limit_error(current_value, initial_value) is None,
                Err(e) => self.limit_error(current_value, initial_value) == Some(e),
            },
    {
        if current_value < initial_value {
            proof {
                lemma_mul_div_floor_bounded(
                    10_000,
                    initial_value - current_value,
                    initial_value as int,
                );
                assert((initial_value - current_value) * 10_000 == 10_000 * (initial_value
                    - current_value)) by (nonlinear_arith);
            }
            let loss = match mul_div(initial_value - current_value, 10_000, initial_value) {
                Some(loss) => loss,
                None => 10_000,
            };
            if loss > self.max_drawdown_bps as u64 {
                return Err(EstateError::MaxDrawdownExceeded);
            }
        }
        if self.daily_loss_bps > self.max_daily_loss_bps {
            return Err(EstateError::MaxDailyLossExceeded);
        }
        Ok(())
    }

    /// Starts a new day: the daily loss is back at zero.
    pub fn reset_daily_metrics(&mut self, clock: &Clock)
        ensures
            *final(self) == (RiskManagementSettings {
                daily_loss_bps: 0,
                last_risk_reset: clock.unix_timestamp,
                ..*old(self)
            }),
    {
        self.daily_loss_bps = 0;
        self.last_risk_reset = clock.unix_timestamp;
    }
}

/// The first check that fails when the owner changes the trading settings
/// of an estate, if any.
pub open spec fn settings_access_error(estate: Estate, owner: Pubkey) -> Option<EstateError> {
    if estate.is_locked {
        Some(EstateError::EstateLocked)
    } else if owner != estate.owner {
        Some(EstateError::UnauthorizedAccess)
    } else if !estate.trading_enabled {
        Some(EstateError::TradingNotEnabled)
    } else {
        None
    }
}

/// The first check that fails when risk settings are replaced, if any.
pub open spec fn update_risk_error(estate: Estate, owner: Pubkey, settings: RiskManagementSettings) -> Option<
    EstateError,
> {
    if settings_access_error(estate, owner) is Some {
        settings_access_error(estate, owner)
    } else {
        settings.validation_error()
    }
}

/// Replaces the risk settings of a trading estate that is not locked.  Only
/// the owner may do so, and only settings that pass validation are taken.
pub fn update_risk_settings(
    estate: &mut Estate,
    estate_address: Pubkey,
    owner: Pubkey,
    settings: RiskManagementSettings,
    now: i64,
) -> (outcome: Result<RiskSettingsUpdated, EstateError>)
    ensures
        match outcome {
            Ok(event) => {
                &&& update_risk_error(*old(estate), owner, settings) is None
                &&& *final(estate) == (Estate { risk_settings: Some(settings), ..*old(estate) })
                &&& event == (RiskSettingsUpdated {
                    estate: estate_address,
                    max_drawdown_bps: settings.max_drawdown_bps,
                    max_daily_loss_bps: settings.max_daily_loss_bps,
                    max_position_size_bps: settings.max_position_size_bps,
                    timestamp: now,
                })
            },
            Err(e) => update_risk_error(*old(estate), owner, settings) == Some(e) && *final(estate)
                == *old(estate),
        },
{
    if estate.is_locked {
        return Err(EstateError::EstateLocked);
    }
    if owner != estate.owner {
        return Err(EstateError::UnauthorizedAccess);
    }
    if !estate.trading_enabled {
        return Err(EstateError::TradingNotEnabled);
    }
    settings.validate()?;
    estate.risk_settings = Some(settings);
    Ok(
        RiskSettingsUpdated {
            estate: estate_address,
            max_drawdown_bps: settings.max_drawdown_bps,
            max_daily_loss_bps: settings.max_daily_loss_bps,
            max_position_size_bps: settings.max_position_size_bps,
            timestamp: now,
        },
    )
}

/// The settings that a new strategy mix is written into: the estate's own
/// where it has any, else the preset of its trading strategy, and the
/// balanced preset where it has none.
pub open spec fn base_settings(estate: Estate) -> RiskManagementSettings {
    match estate.risk_settings {
        Some(settings) => settings,
        None => match estate.trading_strategy {
            Some(TradingStrategy::Conservative) => {
                RiskManagementSettings::spec_default_conservative()
            },
            Some(TradingStrategy::Balanced) => RiskManagementSettings::spec_default_balanced(),
            Some(TradingStrategy::Aggressive) => RiskManagementSettings::spec_default_aggressive(),
            None => RiskManagementSettings::spec_default_balanced(),
        },
    }
}

/// The first check that fails when the strategy mix is replaced, if any.
pub open spec fn update_mix_error(estate: Estate, owner: Pubkey, strategy_mix: StrategyMix) -> Option<
    EstateError,
> {
    if settings_access_error(estate, owner) is Some {
        settings_access_error(estate, owner)
    } else if !strategy_mix.is_valid() {
        Some(EstateError::InvalidStrategyMix)
    } else {
        None
    }
}

/// Replaces the strategy mix of a trading estate that is not locked and
/// leaves its other risk settings as they are.  Only the owner may do so,
/// and the allocations must add up to 100%.
pub fn update_strategy_mix(
    estate: &mut Estate,
    estate_address: Pubkey,
    owner: Pubkey,
    strategy_mix: StrategyMix,
    now: i64,
) -> (outcome: Result<StrategyMixUpdated, EstateError>)
    ensures
        match outcome {
            Ok(event) => {
                &&& update_mix_error(*old(estate), owner, strategy_mix) is None
                &&& *final(estate) == (Estate {
                    risk_settings: Some(
                        RiskManagementSettings { strategy_mix, ..base_settings(*old(estate)) },
                    ),
                    ..*old(estate)
                })
                &&& event == (StrategyMixUpdated {
                    estate: estate_address,
                    strategy_mix,
                    timestamp: now,
                })
            },
            Err(e) => update_mix_error(*old(estate), owner, strategy_mix) == Some(e) && *final(estate) == *old(estate),
        },
{
    if estate.is_locked {
        return Err(EstateError::EstateLocked);
    }
    if owner != estate.owner {
        return Err(EstateError::UnauthorizedAccess);
    }
    if !estate.trading_enabled {
        return Err(EstateError::TradingNotEnabled);
    }
    strategy_mix.validate()?;
    let mut settings = match estate.risk_settings {
        Some(settings) => settings,
        None => match estate.trading_strategy {
            Some(TradingStrategy::Conservative) => RiskManagementSettings::default_conservative(),
            Some(TradingStrategy::Balanced) => RiskManagementSettings::default_balanced(),
            Some(TradingStrategy::Aggressive) => RiskManagementSettings::default_aggressive(),
            None => RiskManagementSettings::default_balanced(),
        },
    };
    settings.strategy_mix = strategy_mix;
    estate.risk_settings = Some(settings);
    Ok(StrategyMixUpdated { estate: estate_address, strategy_mix, timestamp: now })
}

} // verus!
