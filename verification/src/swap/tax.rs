//! The per-user tax rate: it starts at a fixed rate, rises by a fixed step
//! with every taxed swap up to a cap, and starts over once the user has not
//! swapped for a day.

use vstd::prelude::*;
use crate::swap::state::{
    ErrorCode,
    TaxReset,
    UserTaxState,
    INITIAL_TAX_BPS,
    TAX_CAP_BPS,
    TAX_INCREMENT_BPS,
    TAX_RESET_DURATION,
};
use crate::types::Pubkey;

verus! {

/// Whether a rate lies between the initial rate and the cap.
pub open spec fn rate_in_bounds(rate: u16) -> bool {
    INITIAL_TAX_BPS <= rate <= TAX_CAP_BPS
}

/// Whether the cool-down since the last taxed swap has run out at `now`.
pub open spec fn cooled_down(last_swap: i64, now: i64) -> bool {
    now - last_swap >= TAX_RESET_DURATION
}

/// The record as a taxed swap at `now` finds it: started over if the
/// cool-down has run out, else as it stands.
pub open spec fn at_swap(state: UserTaxState, now: i64) -> UserTaxState {
    if cooled_down(state.last_swap_timestamp, now) {
        UserTaxState { tax_rate_bps: INITIAL_TAX_BPS, swap_count: 0, ..state }
    } else {
        state
    }
}

/// The rate that follows `rate`: one step up, but no higher than the cap.
pub open spec fn escalated(rate: u16) -> u16 {
    if rate + TAX_INCREMENT_BPS >= TAX_CAP_BPS {
        TAX_CAP_BPS
    } else {
        (rate + TAX_INCREMENT_BPS) as u16
    }
}

/// The record after a taxed swap at `now`.
pub open spec fn after_taxed_swap(state: UserTaxState, now: i64) -> UserTaxState {
    let current = at_swap(state, now);
    UserTaxState {
        tax_rate_bps: escalated(current.tax_rate_bps),
        swap_count: (current.swap_count + 1) as u32,
        last_swap_timestamp: now,
        ..current
    }
}

/// The record after a tax-exempt swap: only the counter moves; the time of
/// the last taxed swap stays, so the cool-down is not restarted.
pub open spec fn after_exempt_swap(state: UserTaxState) -> UserTaxState {
    UserTaxState { swap_count: (state.swap_count + 1) as u32, ..state }
}

/// The record after a reroll: the rate rises, nothing else moves.
pub open spec fn after_reroll(state: UserTaxState) -> UserTaxState {
    UserTaxState { tax_rate_bps: escalated(state.tax_rate_bps), ..state }
}

/// An escalated rate stays within bounds, and never falls.
pub proof fn lemma_escalated_in_bounds(rate: u16)
    ensures
        rate_in_bounds(rate) ==> rate_in_bounds(escalated(rate)),
        escalated(rate) <= TAX_CAP_BPS,
        rate <= TAX_CAP_BPS ==> rate <= escalated(rate),
        rate + TAX_INCREMENT_BPS <= TAX_CAP_BPS ==> escalated(rate) == rate + TAX_INCREMENT_BPS,
{
}

/// A taxed swap keeps the rate within bounds; it leaves the rate at the
/// initial rate plus one step exactly when the cool-down had run out.
pub proof fn lemma_taxed_swap_keeps_bounds(state: UserTaxState, now: i64)
    requires
        rate_in_bounds(state.tax_rate_bps),
    ensures
        rate_in_bounds(after_taxed_swap(state, now).tax_rate_bps),
        rate_in_bounds(at_swap(state, now).tax_rate_bps),
        cooled_down(state.last_swap_timestamp, now) ==> at_swap(state, now).tax_rate_bps
            == INITIAL_TAX_BPS,
        !cooled_down(state.last_swap_timestamp, now) ==> at_swap(state, now).tax_rate_bps
            == state.tax_rate_bps,
        after_exempt_swap(state).tax_rate_bps == state.tax_rate_bps,
        after_exempt_swap(state).last_swap_timestamp == state.last_swap_timestamp,
{
}

/// The rate one step up, capped.
pub fn escalate(rate: u16) -> (next: u16)
    ensures
        next == escalated(rate),
{
    let raised = rate.saturating_add(TAX_INCREMENT_BPS);
    if raised >= TAX_CAP_BPS {
        TAX_CAP_BPS
    } else {
        raised
    }
}

/// Whether the cool-down since `last_swap` has run out at `now`.
pub fn has_cooled_down(last_swap: i64, now: i64) -> (r: bool)
    ensures
        r == cooled_down(last_swap, now),
{
    now as i128 - last_swap as i128 >= TAX_RESET_DURATION as i128
}

/// A new record for `user` at the initial rate.
pub fn initialize_user_tax(user: Pubkey, now: i64) -> (state: UserTaxState)
    ensures
        state == (UserTaxState {
            user,
            tax_rate_bps: INITIAL_TAX_BPS,
            last_swap_timestamp: now,
            swap_count: 0,
        }),
        rate_in_bounds(state.tax_rate_bps),
{
    UserTaxState { user, tax_rate_bps: INITIAL_TAX_BPS, last_swap_timestamp: now, swap_count: 0 }
}

/// The first check that fails when a user resets the rate, if any.
pub open spec fn reset_error(state: UserTaxState, user: Pubkey, now: i64) -> Option<ErrorCode> {
    if user != state.user {
        Some(ErrorCode::Unauthorized)
    } else if !cooled_down(state.last_swap_timestamp, now) {
        Some(ErrorCode::TaxResetTooEarly)
    } else {
        None
    }
}

/// Puts the user's rate back to the initial rate.  Only the user may do so,
/// and only once the cool-down has run out.
pub fn reset_user_tax(state: &mut UserTaxState, user: Pubkey, now: i64) -> (outcome: Result<
    TaxReset,
    ErrorCode,
>)
    ensures
        match outcome {
            Ok(event) => {
                &&& reset_error(*old(state), user, now) is None
                &&& *final(state) == (UserTaxState {
                    tax_rate_bps: INITIAL_TAX_BPS,
                    swap_count: 0,
                    ..*old(state)
                })
                &&& event == (TaxReset {
                    user,
                    old_rate_bps: old(state).tax_rate_bps,
                    new_rate_bps: INITIAL_TAX_BPS,
                    timestamp: now,
                })
            },
            Err(e) => reset_error(*old(state), user, now) == Some(e) && *final(state) == *old(state),
        },
{
    if user != state.user {
        return Err(ErrorCode::Unauthorized);
    }
    if !has_cooled_down(state.last_swap_timestamp, now) {
        return Err(ErrorCode::TaxResetTooEarly);
    }
    let old_rate = state.tax_rate_bps;
    state.tax_rate_bps = INITIAL_TAX_BPS;
    state.swap_count = 0;
    Ok(TaxReset { user, old_rate_bps: old_rate, new_rate_bps: INITIAL_TAX_BPS, timestamp: now })
}

} // verus!
