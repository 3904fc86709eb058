//! Bonus draws: the range of each tier and the mapping of a random value
//! into it.  A draw from the oracle's result wipes that result from the
//! oracle record, so the next draw has to wait until the record has taken a
//! new one over.

use vstd::prelude::*;
use crate::swap::randomness::{
    calculate_random_bonus,
    fallback_random_value,
    generate_secure_random,
    generate_vrf_random,
    random_bonus,
    vrf_random_value,
};
use crate::swap::state::{
    BonusStateV6,
    Config,
    ErrorCode,
    TIER_0_MAX_BONUS,
    TIER_0_MIN_BONUS,
    TIER_1_MAX_BONUS,
    TIER_1_MIN_BONUS,
    TIER_2_MAX_BONUS,
    TIER_2_MIN_BONUS,
    TIER_3_MAX_BONUS,
    TIER_3_MIN_BONUS,
    TIER_4_MAX_BONUS,
    TIER_4_MIN_BONUS,
};
use crate::swap::vrf::VrfState;
use crate::types::{all_zero, is_all_zero, Clock, Pubkey};

verus! {

/// The least and the greatest bonus of a tier, in basis points.
pub open spec fn tier_bonus_range(tier: u8) -> (u16, u16) {
    if tier == 0 {
        (TIER_0_MIN_BONUS, TIER_0_MAX_BONUS)
    } else if tier == 1 {
        (TIER_1_MIN_BONUS, TIER_1_MAX_BONUS)
    } else if tier == 2 {
        (TIER_2_MIN_BONUS, TIER_2_MAX_BONUS)
    } else if tier == 3 {
        (TIER_3_MIN_BONUS, TIER_3_MAX_BONUS)
    } else if tier == 4 {
        (TIER_4_MIN_BONUS, TIER_4_MAX_BONUS)
    } else {
        (0u16, 0u16)
    }
}

/// Whether a bonus record names a tier and holds a bonus within its range.
pub open spec fn bonus_in_range(bonus: BonusStateV6) -> bool {
    &&& bonus.tier < 5
    &&& tier_bonus_range(bonus.tier).0 <= bonus.bonus_bps <= tier_bonus_range(bonus.tier).1
}

/// The bonus that `random_value` picks in the range of `tier`.
pub open spec fn tier_bonus(tier: u8, random_value: u64) -> u16 {
    random_bonus(random_value, tier_bonus_range(tier).0, tier_bonus_range(tier).1) as u16
}

/// Looks up the range of a tier; an unknown tier has the empty bonus.
pub fn get_tier_bonus_range(tier: u8) -> (range: (u16, u16))
    ensures
        range == tier_bonus_range(tier),
        range.0 <= range.1,
{
    match tier {
        0 => (TIER_0_MIN_BONUS, TIER_0_MAX_BONUS),
        1 => (TIER_1_MIN_BONUS, TIER_1_MAX_BONUS),
        2 => (TIER_2_MIN_BONUS, TIER_2_MAX_BONUS),
        3 => (TIER_3_MIN_BONUS, TIER_3_MAX_BONUS),
        4 => (TIER_4_MIN_BONUS, TIER_4_MAX_BONUS),
        _ => (0, 0),
    }
}

/// The bonus of a tier for a given random value.
pub fn bonus_for_tier(tier: u8, random_value: u64) -> (bonus: u16)
    ensures
        bonus == tier_bonus(tier, random_value),
        tier_bonus_range(tier).0 <= bonus <= tier_bonus_range(tier).1,
{
    let (min_bonus, max_bonus) = get_tier_bonus_range(tier);
    calculate_random_bonus(random_value, min_bonus, max_bonus)
}

/// Whether a draw can be made: the oracle path is off, or the oracle's
/// result is there.
pub open spec fn oracle_ready(config: Config, vrf: VrfState) -> bool {
    !config.vrf_enabled || !all_zero(vrf.result_buffer)
}

/// The value of a draw for `user` and `nft_mint`: from the oracle's result
/// where the oracle path is on, else from the clock and a recent block hash.
pub open spec fn drawn_value(
    config: Config,
    vrf: VrfState,
    user: Pubkey,
    nft_mint: Pubkey,
    clock: Clock,
    recent_blockhash: [u8; 32],
) -> u64 {
    if config.vrf_enabled {
        vrf_random_value(vrf.result_buffer, user, nft_mint)
    } else {
        fallback_random_value(user, nft_mint, clock, recent_blockhash)
    }
}

/// The oracle record after a draw: its result is used up where the oracle
/// path is on, and untouched where it is off.
pub open spec fn used_up(config: Config, pre: VrfState, post: VrfState) -> bool {
    if config.vrf_enabled {
        &&& all_zero(post.result_buffer)
        &&& post == (VrfState { result_buffer: post.result_buffer, ..pre })
    } else {
        post == pre
    }
}

/// Draws a random value.  Fails while the oracle path is on and the oracle's
/// result is still all zero.
pub fn draw_random(
    config: &Config,
    vrf_state: &VrfState,
    user: &Pubkey,
    nft_mint: &Pubkey,
    clock: &Clock,
    recent_blockhash: &[u8; 32],
) -> (outcome: Result<u64, ErrorCode>)
    ensures
        match outcome {
            Ok(value) => oracle_ready(*config, *vrf_state) && value == drawn_value(
                *config,
                *vrf_state,
                *user,
                *nft_mint,
                *clock,
                *recent_blockhash,
            ),
            Err(e) => !oracle_ready(*config, *vrf_state) && e == ErrorCode::VrfNotReady,
        },
{
    if config.vrf_enabled {
        if is_all_zero(&vrf_state.result_buffer) {
            return Err(ErrorCode::VrfNotReady);
        }
        Ok(generate_vrf_random(&vrf_state.result_buffer, user, nft_mint))
    } else {
        Ok(generate_secure_random(user, nft_mint, clock, recent_blockhash))
    }
}

/// Uses the oracle's result up where the oracle path is on.
pub fn use_up(config: &Config, vrf_state: &mut VrfState)
    ensures
        used_up(*config, *old(vrf_state), *final(vrf_state)),
        !config.vrf_enabled || !oracle_ready(*config, *final(vrf_state)),
{
    if config.vrf_enabled {
        vrf_state.result_buffer = [0u8; 32];
    }
}

/// Draws the bonus of an NFT of `tier` for `user`, and wipes the oracle's
/// result from the record.  A second draw fails until the record has taken a
/// result over again, which it does only after a new request and only for a
/// result that differs from the one it took last.
pub fn derive_bonus(
    config: &Config,
    vrf_state: &mut VrfState,
    user: &Pubkey,
    nft_mint: &Pubkey,
    tier: u8,
    clock: &Clock,
    recent_blockhash: &[u8; 32],
) -> (outcome: Result<u16, ErrorCode>)
    ensures
        match outcome {
            Ok(bonus) => {
                &&& oracle_ready(*config, *old(vrf_state))
                &&& bonus == tier_bonus(
                    tier,
                    drawn_value(
                        *config,
                        *old(vrf_state),
                        *user,
                        *nft_mint,
                        *clock,
                        *recent_blockhash,
                    ),
                )
                &&& tier_bonus_range(tier).0 <= bonus <= tier_bonus_range(tier).1
                &&& used_up(*config, *old(vrf_state), *final(vrf_state))
            },
            Err(e) => !oracle_ready(*config, *old(vrf_state)) && e == ErrorCode::VrfNotReady
                && *final(vrf_state) == *old(vrf_state),
        },
{
    let value = match draw_random(config, vrf_state, user, nft_mint, clock, recent_blockhash) {
        Ok(value) => value,
        Err(e) => {
            return Err(e);
        },
    };
    use_up(config, vrf_state);
    Ok(bonus_for_tier(tier, value))
}

} // verus!
