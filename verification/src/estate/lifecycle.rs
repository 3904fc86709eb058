//! The life of an estate: creation, the owner's check-ins, the list of
//! beneficiaries, and the step from active to claimable once the owner has
//! been silent for the inactivity period and the grace period.

use vstd::prelude::*;
use crate::estate::state::{
    AssetSummary,
    Beneficiary,
    Estate,
    EstateCheckedIn,
    EstateCreated,
    EstateError,
    EstateLocked,
    GlobalCounter,
    MultisigAttached,
    MAX_BENEFICIARIES,
    MAX_GRACE_PERIOD,
    MAX_INACTIVITY_PERIOD,
    MIN_GRACE_PERIOD,
    MIN_INACTIVITY_PERIOD,
    MIN_RENT_BALANCE,
};
use crate::types::{is_some_key, Pubkey};

verus! {

/// The sum of the shares of a list of beneficiaries, in percent.
pub open spec fn share_sum(list: Seq<Beneficiary>) -> int
    decreases list.len(),
{
    if list.len() == 0 {
        0
    } else {
        share_sum(list.drop_last()) + list.last().share_percentage
    }
}

/// Whether the beneficiaries of an estate, where it has any, share out
/// exactly the whole, and their count is on record.
pub open spec fn beneficiaries_wf(estate: Estate) -> bool {
    &&& estate.beneficiaries@.len() <= MAX_BENEFICIARIES
    &&& estate.total_beneficiaries == estate.beneficiaries@.len()
    &&& estate.beneficiaries@.len() > 0 ==> share_sum(estate.beneficiaries@) == 100
}

/// Whether `caller` is the owner of the estate or its attached multisig.
pub open spec fn owner_or_multisig(estate: Estate, caller: Pubkey) -> bool {
    caller == estate.owner || estate.multisig == Some(caller)
}

/// The first moment at which the estate can be declared claimable: the
/// moment after the grace period has run out.
pub open spec fn grace_ends(estate: Estate) -> int {
    estate.last_active + estate.inactivity_period + estate.grace_period
}

/// A share of a list never exceeds the sum of the list.
pub proof fn lemma_share_within_sum(list: Seq<Beneficiary>, i: int)
    requires
        0 <= i < list.len(),
    ensures
        list[i].share_percentage <= share_sum(list),
        0 <= share_sum(list),
    decreases list.len(),
{
    lemma_share_sum_nonnegative(list.drop_last());
    if i < list.len() - 1 {
        lemma_share_within_sum(list.drop_last(), i);
    }
}

/// The sum of shares is never negative.
pub proof fn lemma_share_sum_nonnegative(list: Seq<Beneficiary>)
    ensures
        0 <= share_sum(list),
    decreases list.len(),
{
    if list.len() > 0 {
        lemma_share_sum_nonnegative(list.drop_last());
    }
}

/// Replacing a beneficiary by one with the same share leaves the sum of the
/// shares as it was.
pub proof fn lemma_share_sum_update(list: Seq<Beneficiary>, i: int, entry: Beneficiary)
    requires
        0 <= i < list.len(),
        entry.share_percentage == list[i].share_percentage,
    ensures
        share_sum(list.update(i, entry)) == share_sum(list),
    decreases list.len(),
{
    let updated = list.update(i, entry);
    if i == list.len() - 1 {
        assert(updated.drop_last() =~= list.drop_last());
    } else {
        assert(updated.drop_last() =~= list.drop_last().update(i, entry));
        lemma_share_sum_update(list.drop_last(), i, entry);
    }
}

/// Adds the shares of a list up.
pub fn total_shares(list: &Vec<Beneficiary>) -> (total: u128)
    ensures
        total == share_sum(list@),
{
    let mut total: u128 = 0;
    let mut i: usize = 0;
    assert(list@.take(0) =~= Seq::<Beneficiary>::empty());
    while i < list.len()
        invariant
            i <= list.len(),
            total == share_sum(list@.take(i as int)),
            total <= 255 * i,
        decreases list.len() - i,
    {
        proof {
            let upto = list@.take(i + 1);
            assert(upto.drop_last() =~= list@.take(i as int));
            assert(upto.last() == list@[i as int]);
        }
        total = total + list[i].share_percentage as u128;
        i = i + 1;
    }
    assert(list@.take(list@.len() as int) =~= list@);
    total
}

/// A counter that has counted no estate yet.
pub fn initialize_global_counter() -> (counter: GlobalCounter)
    ensures
        counter == (GlobalCounter { count: 0 }),
{
    GlobalCounter { count: 0 }
}

/// The first check that fails when an estate is created, if any.
pub open spec fn create_estate_error(
    counter: GlobalCounter,
    inactivity_period: i64,
    grace_period: i64,
) -> Option<EstateError> {
    if inactivity_period < MIN_INACTIVITY_PERIOD || inactivity_period > MAX_INACTIVITY_PERIOD {
        Some(EstateError::InvalidInactivityPeriod)
    } else if grace_period < MIN_GRACE_PERIOD || grace_period > MAX_GRACE_PERIOD {
        Some(EstateError::InvalidGracePeriod)
    } else if counter.count == u64::MAX {
        Some(EstateError::MathOverflow)
    } else {
        None
    }
}

/// What a new estate looks like, apart from its empty list of beneficiaries.
pub open spec fn is_new_estate(
    estate: Estate,
    owner: Pubkey,
    estate_mint: Pubkey,
    inactivity_period: i64,
    grace_period: i64,
    owner_email_hash: [u8; 32],
    estate_number: u64,
    now: i64,
) -> bool {
    &&& estate.beneficiaries@ == Seq::<Beneficiary>::empty()
    &&& estate == (Estate {
        estate_id: estate_mint,
        owner,
        owner_email_hash,
        last_active: now,
        inactivity_period,
        grace_period,
        beneficiaries: estate.beneficiaries,
        total_beneficiaries: 0,
        creation_time: now,
        estate_value: 0,
        is_locked: false,
        is_claimable: false,
        total_rwas: 0,
        estate_number,
        total_claims: 0,
        trading_enabled: false,
        ai_agent: None,
        trading_strategy: None,
        human_contribution: 0,
        ai_contribution: 0,
        trading_value: 0,
        trading_profit: 0,
        high_water_mark: 0,
        human_share: 0,
        ai_share: 0,
        stop_loss: None,
        emergency_delay_hours: 0,
        emergency_withdrawal_initiated: false,
        emergency_withdrawal_time: 0,
        last_trading_update: now,
        multisig: None,
        risk_settings: None,
    })
}

/// Creates an estate for `owner` and gives it the next number.  The
/// inactivity period must lie between a day and 300 years, the grace period
/// between a day and 90 days.  Trading is off and no beneficiary is named.
pub fn create_estate(
    counter: &mut GlobalCounter,
    owner: Pubkey,
    estate_mint: Pubkey,
    inactivity_period: i64,
    grace_period: i64,
    owner_email_hash: [u8; 32],
    now: i64,
) -> (outcome: Result<(Estate, EstateCreated), EstateError>)
    ensures
        match outcome {
            Ok((estate, event)) => {
                &&& create_estate_error(*old(counter), inactivity_period, grace_period) is None
                &&& final(counter).count == old(counter).count + 1
                &&& is_new_estate(
                    estate,
                    owner,
                    estate_mint,
                    inactivity_period,
                    grace_period,
                    owner_email_hash,
                    old(counter).count,
                    now,
                )
                &&& beneficiaries_wf(estate)
                &&& !estate.is_locked && !estate.trading_enabled
                &&& event == (EstateCreated {
                    estate_id: estate_mint,
                    owner,
                    estate_number: old(counter).count,
                    inactivity_period,
                    grace_period,
                    timestamp: now,
                })
            },
            Err(e) => create_estate_error(*old(counter), inactivity_period, grace_period) == Some(e)
                && *final(counter) == *old(counter),
        },
{
    if inactivity_period < MIN_INACTIVITY_PERIOD || inactivity_period > MAX_INACTIVITY_PERIOD {
        return Err(EstateError::InvalidInactivityPeriod);
    }
    if grace_period < MIN_GRACE_PERIOD || grace_period > MAX_GRACE_PERIOD {
        return Err(EstateError::InvalidGracePeriod);
    }
    if counter.count == u64::MAX {
        return Err(EstateError::MathOverflow);
    }
    let estate_number = counter.count;
    counter.count = estate_number + 1;
    let estate = Estate {
        estate_id: estate_mint,
        owner,
        owner_email_hash,
        last_active: now,
        inactivity_period,
        grace_period,
        beneficiaries: Vec::new(),
        total_beneficiaries: 0,
        creation_time: now,
        estate_value: 0,
        is_locked: false,
        is_claimable: false,
        total_rwas: 0,
        estate_number,
        total_claims: 0,
        trading_enabled: false,
        ai_agent: None,
        trading_strategy: None,
        human_contribution: 0,
        ai_contribution: 0,
        trading_value: 0,
        trading_profit: 0,
        high_water_mark: 0,
        human_share: 0,
        ai_share: 0,
        stop_loss: None,
        emergency_delay_hours: 0,
        emergency_withdrawal_initiated: false,
        emergency_withdrawal_time: 0,
        last_trading_update: now,
        multisig: None,
        risk_settings: None,
    };
    Ok(
        (
            estate,
            EstateCreated {
                estate_id: estate_mint,
                owner,
                estate_number,
                inactivity_period,
                grace_period,
                timestamp: now,
            },
        ),
    )
}

impl Estate {
    /// Records that the owner is alive at `now`: the inactivity clock starts
    /// over and the estate is no longer claimable.
    pub fn check_in(&mut self, now: i64)
        ensures
            *final(self) == (Estate { last_active: now, is_claimable: false, ..*old(self) }),
    {
        self.last_active = now;
        self.is_claimable = false;
    }
}

/// The first check that fails when the owner checks in, if any.
pub open spec fn check_in_error(estate: Estate, owner: Pubkey) -> Option<EstateError> {
    if estate.is_locked {
        Some(EstateError::EstateLocked)
    } else if owner != estate.owner {
        Some(EstateError::UnauthorizedAccess)
    } else {
        None
    }
}

/// The owner's check-in: the inactivity clock starts over and the estate is
/// no longer claimable.  Fails on a locked estate and for anyone but the
/// owner.
pub fn check_in(estate: &mut Estate, owner: Pubkey, now: i64) -> (outcome: Result<
    EstateCheckedIn,
    EstateError,
>)
    ensures
        match outcome {
            Ok(event) => {
                &&& check_in_error(*old(estate), owner) is None
                &&& *final(estate) == (Estate {
                    last_active: now,
                    is_claimable: false,
                    ..*old(estate)
                })
                &&& event == (EstateCheckedIn {
                    estate_id: old(estate).estate_id,
                    owner: old(estate).owner,
                    timestamp: now,
                })
            },
            Err(e) => check_in_error(*old(estate), owner) == Some(e) && *final(estate) == *old(estate),
        },
{
    if estate.is_locked {
        return Err(EstateError::EstateLocked);
    }
    if owner != estate.owner {
        return Err(EstateError::UnauthorizedAccess);
    }
    estate.last_active = now;
    estate.is_claimable = false;
    Ok(EstateCheckedIn { estate_id: estate.estate_id, owner: estate.owner, timestamp: now })
}

/// The first check that fails when the beneficiaries are replaced, if any.
pub open spec fn update_beneficiaries_error(
    estate: Estate,
    caller: Pubkey,
    beneficiaries: Seq<Beneficiary>,
) -> Option<EstateError> {
    if estate.is_locked {
        Some(EstateError::EstateLocked)
    } else if estate.is_claimable {
        Some(EstateError::EstateClaimable)
    } else if !owner_or_multisig(estate, caller) {
        Some(EstateError::UnauthorizedAccess)
    } else if beneficiaries.len() > MAX_BENEFICIARIES {
        Some(EstateError::TooManyBeneficiaries)
    } else if share_sum(beneficiaries) != 100 {
        Some(EstateError::InvalidBeneficiaryShares)
    } else {
        None
    }
}

/// Replaces the beneficiaries of an estate.  Only the owner or the attached
/// multisig may do so, and only while the estate is neither locked nor
/// claimable; at most ten beneficiaries can be named and their shares must
/// add up to exactly 100.
pub fn update_beneficiaries(estate: &mut Estate, caller: Pubkey, beneficiaries: Vec<Beneficiary>) -> (outcome:
    Result<(), EstateError>)
    ensures
        match outcome {
            Ok(_) => {
                &&& update_beneficiaries_error(*old(estate), caller, beneficiaries@) is None
                &&& *final(estate) == (Estate {
                    beneficiaries,
                    total_beneficiaries: beneficiaries@.len() as u8,
                    ..*old(estate)
                })
                &&& share_sum(final(estate).beneficiaries@) == 100
                &&& beneficiaries_wf(*final(estate))
            },
            Err(e) => update_beneficiaries_error(*old(estate), caller, beneficiaries@) == Some(e)
                && *final(estate) == *old(estate),
        },
{
    if estate.is_locked {
        return Err(EstateError::EstateLocked);
    }
    if estate.is_claimable {
        return Err(EstateError::EstateClaimable);
    }
    if !(caller == estate.owner || is_some_key(estate.multisig, caller)) {
        return Err(EstateError::UnauthorizedAccess);
    }
    if beneficiaries.len() > MAX_BENEFICIARIES as usize {
        return Err(EstateError::TooManyBeneficiaries);
    }
    if total_shares(&beneficiaries) != 100 {
        return Err(EstateError::InvalidBeneficiaryShares);
    }
    estate.total_beneficiaries = beneficiaries.len() as u8;
    estate.beneficiaries = beneficiaries;
    Ok(())
}

/// What of a balance can be paid out: all but the reserve that keeps the
/// estate account alive.
pub open spec fn transferable(estate_balance: u64) -> int {
    if estate_balance > MIN_RENT_BALANCE {
        estate_balance - MIN_RENT_BALANCE
    } else {
        0
    }
}

/// What a list of beneficiaries is paid out of `value` in all: the sum of
/// everyone's percentage of `value`, each rounded down.
pub open spec fn payout_sum(list: Seq<Beneficiary>, value: int) -> int
    decreases list.len(),
{
    if list.len() == 0 {
        0
    } else {
        payout_sum(list.drop_last(), value) + crate::arith::percent_share(
            value,
            list.last().share_percentage as int,
        )
    }
}

/// What all beneficiaries are paid together never exceeds the sum of their
/// shares of the amount; where the shares add up to 100 it never exceeds the
/// amount itself.
pub proof fn lemma_payouts_within_value(list: Seq<Beneficiary>, value: int)
    requires
        0 <= value,
    ensures
        0 <= payout_sum(list, value),
        100 * payout_sum(list, value) <= value * share_sum(list),
        share_sum(list) == 100 ==> payout_sum(list, value) <= value,
    decreases list.len(),
{
    if list.len() > 0 {
        lemma_payouts_within_value(list.drop_last(), value);
        let pct = list.last().share_percentage as int;
        let part = crate::arith::percent_share(value, pct);
        assert(0 <= part && 100 * part <= value * pct) by (nonlinear_arith)
            requires
                0 <= value,
                0 <= pct,
                part == (value * pct) / 100,
        ;
        assert(value * share_sum(list) == value * share_sum(list.drop_last()) + value * pct)
            by (nonlinear_arith)
            requires
                share_sum(list) == share_sum(list.drop_last()) + pct,
        ;
    }
    if share_sum(list) == 100 {
        assert(value * 100 == 100 * value);
    }
}

/// The first check that fails when inheritance is triggered, if any.
pub open spec fn trigger_error(estate: Estate, now: i64) -> Option<EstateError> {
    if estate.is_locked {
        Some(EstateError::EstateLocked)
    } else if estate.is_claimable {
        Some(EstateError::AlreadyClaimable)
    } else if now <= grace_ends(estate) {
        Some(EstateError::NotYetClaimable)
    } else {
        None
    }
}

/// Declares an estate claimable.  Anyone may do so, once, after the owner
/// has been silent for the inactivity period and the grace period.  What the
/// estate holds above its reserve at this moment is put on record: it is the
/// amount that the beneficiaries' shares are taken of.
pub fn trigger_inheritance(estate: &mut Estate, estate_balance: u64, now: i64) -> (outcome: Result<
    EstateLocked,
    EstateError,
>)
    ensures
        match outcome {
            Ok(event) => {
                &&& trigger_error(*old(estate), now) is None
                &&& *final(estate) == (Estate {
                    is_claimable: true,
                    estate_value: transferable(estate_balance) as u64,
                    ..*old(estate)
                })
                &&& event == (EstateLocked { estate_id: old(estate).estate_id, timestamp: now })
            },
            Err(e) => trigger_error(*old(estate), now) == Some(e) && *final(estate) == *old(estate),
        },
{
    if estate.is_locked {
        return Err(EstateError::EstateLocked);
    }
    if estate.is_claimable {
        return Err(EstateError::AlreadyClaimable);
    }
    let grace_ends: i128 = estate.last_active as i128 + estate.inactivity_period as i128
        + estate.grace_period as i128;
    if now as i128 <= grace_ends {
        return Err(EstateError::NotYetClaimable);
    }
    estate.is_claimable = true;
    estate.estate_value = estate_balance.saturating_sub(MIN_RENT_BALANCE);
    Ok(EstateLocked { estate_id: estate.estate_id, timestamp: now })
}

/// The first check that fails when a multisig is attached, if any.
pub open spec fn attach_error(estate: Estate, owner: Pubkey) -> Option<EstateError> {
    if estate.is_locked {
        Some(EstateError::EstateLocked)
    } else if estate.is_claimable {
        Some(EstateError::EstateClaimable)
    } else if owner != estate.owner {
        Some(EstateError::UnauthorizedAccess)
    } else if estate.multisig is Some {
        Some(EstateError::MultisigAlreadyAttached)
    } else {
        None
    }
}

/// Attaches a multisig to an estate, once.  Only the owner may do so.
pub fn attach_multisig(estate: &mut Estate, owner: Pubkey, multisig_address: Pubkey, now: i64) -> (outcome:
    Result<MultisigAttached, EstateError>)
    ensures
        match outcome {
            Ok(event) => {
                &&& attach_error(*old(estate), owner) is None
                &&& *final(estate) == (Estate { multisig: Some(multisig_address), ..*old(estate) })
                &&& event == (MultisigAttached {
                    estate_id: old(estate).estate_id,
                    multisig_address,
                    timestamp: now,
                })
            },
            Err(e) => attach_error(*old(estate), owner) == Some(e) && *final(estate) == *old(estate),
        },
{
    if estate.is_locked {
        return Err(EstateError::EstateLocked);
    }
    if estate.is_claimable {
        return Err(EstateError::EstateClaimable);
    }
    if owner != estate.owner {
        return Err(EstateError::UnauthorizedAccess);
    }
    if estate.multisig.is_some() {
        return Err(EstateError::MultisigAlreadyAttached);
    }
    estate.multisig = Some(multisig_address);
    Ok(MultisigAttached { estate_id: estate.estate_id, multisig_address, timestamp: now })
}

/// Why an estate cannot be closed, if it cannot.
pub open spec fn close_error(estate: Estate) -> Option<EstateError> {
    if estate.is_locked {
        Some(EstateError::EstateLocked)
    } else if !estate.is_claimable {
        Some(EstateError::NotClaimable)
    } else if estate.total_claims != estate.total_beneficiaries {
        Some(EstateError::NotAllClaimed)
    } else {
        None
    }
}

/// Admits the closing of an estate: it must not be locked, it must be
/// claimable, and every beneficiary must have claimed.
pub fn close_estate(estate: &Estate) -> (outcome: Result<(), EstateError>)
    ensures
        match outcome {
            Ok(_) => close_error(*estate) is None,
            Err(e) => close_error(*estate) == Some(e),
        },
{
    if estate.is_locked {
        return Err(EstateError::EstateLocked);
    }
    if !estate.is_claimable {
        return Err(EstateError::NotClaimable);
    }
    if estate.total_claims != estate.total_beneficiaries {
        return Err(EstateError::NotAllClaimed);
    }
    Ok(())
}

/// Takes stock of an estate: its balance and the number of assets on record.
/// Active assets are counted by whoever reads the asset records.
pub fn scan_estate_assets(estate: &Estate, estate_address: Pubkey, sol_balance: u64, now: i64) -> (summary:
    AssetSummary)
    ensures
        summary == (AssetSummary {
            estate: estate_address,
            scan_time: now,
            sol_balance,
            total_rwas: estate.total_rwas,
            active_rwas: 0,
        }),
{
    AssetSummary {
        estate: estate_address,
        scan_time: now,
        sol_balance,
        total_rwas: estate.total_rwas,
        active_rwas: 0,
    }
}

} // verus!
