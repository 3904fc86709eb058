//! Airdrops to whitelisted addresses: no NFT is minted, the whitelisted
//! amount vests to the address that proved membership.

use vstd::prelude::*;
use crate::merkle::{proves, verify};
use crate::swap::state::{
    AirdropClaimed,
    AirdropVesting,
    AirdropVestingClaimed,
    CollectionConfig,
    Config,
    ErrorCode,
    CLIFF_DURATION,
    VESTING_DURATION,
};
use crate::types::{add_seconds, Pubkey};
use crate::vesting::{claim, claimable_amount, vested, vested_amount, VestingError};

verus! {

/// An airdrop record that no one has claimed yet.
pub fn unclaimed_airdrop() -> (record: AirdropVesting)
    ensures
        record.beneficiary == Pubkey::spec_zero(),
        record.total_amount == 0,
        record.released_amount == 0,
{
    AirdropVesting {
        beneficiary: Pubkey::zero(),
        total_amount: 0,
        released_amount: 0,
        start_timestamp: 0,
        end_timestamp: 0,
        last_claimed_timestamp: 0,
    }
}

/// The first check that fails when an airdrop is claimed, if any.
pub open spec fn claim_airdrop_error(
    config: Config,
    collection: CollectionConfig,
    record: AirdropVesting,
    user: Pubkey,
    amount: u64,
    merkle_proof: Seq<[u8; 32]>,
    now: i64,
) -> Option<ErrorCode> {
    if config.paused {
        Some(ErrorCode::ProtocolPaused)
    } else if record.beneficiary != Pubkey::spec_zero() {
        Some(ErrorCode::AlreadyClaimed)
    } else if !proves(user, amount, merkle_proof, collection.airdrop_merkle_root) {
        Some(ErrorCode::InvalidMerkleProof)
    } else if now + VESTING_DURATION > i64::MAX {
        Some(ErrorCode::MathOverflow)
    } else {
        None
    }
}

/// The schedule of an airdrop of `amount` to `user`, opened at `now`.
pub open spec fn new_airdrop(user: Pubkey, amount: u64, now: i64) -> AirdropVesting {
    AirdropVesting {
        beneficiary: user,
        total_amount: amount,
        released_amount: 0,
        start_timestamp: now,
        end_timestamp: (now + VESTING_DURATION) as i64,
        last_claimed_timestamp: now,
    }
}

/// Opens the vesting schedule of a whitelisted address, once.  The address
/// proves membership with `merkle_proof` for the pair of itself and `amount`.
pub fn claim_airdrop(
    config: &Config,
    collection: &CollectionConfig,
    record: &mut AirdropVesting,
    user: Pubkey,
    amount: u64,
    merkle_proof: &Vec<[u8; 32]>,
    now: i64,
) -> (outcome: Result<AirdropClaimed, ErrorCode>)
    ensures
        match outcome {
            Ok(event) => {
                &&& claim_airdrop_error(
                    *config,
                    *collection,
                    *old(record),
                    user,
                    amount,
                    merkle_proof@,
                    now,
                ) is None
                &&& *final(record) == new_airdrop(user, amount, now)
                &&& event == (AirdropClaimed {
                    user,
                    amount,
                    vesting_start: now,
                    vesting_end: (now + VESTING_DURATION) as i64,
                })
            },
            Err(e) => claim_airdrop_error(
                *config,
                *collection,
                *old(record),
                user,
                amount,
                merkle_proof@,
                now,
            ) == Some(e) && *final(record) == *old(record),
        },
{
    if config.paused {
        return Err(ErrorCode::ProtocolPaused);
    }
    if !record.beneficiary.is_zero() {
        return Err(ErrorCode::AlreadyClaimed);
    }
    if !verify(user, amount, merkle_proof, &collection.airdrop_merkle_root) {
        return Err(ErrorCode::InvalidMerkleProof);
    }
    let end = match add_seconds(now, VESTING_DURATION) {
        Some(end) => end,
        None => {
            return Err(ErrorCode::MathOverflow);
        },
    };
    record.beneficiary = user;
    record.total_amount = amount;
    record.released_amount = 0;
    record.start_timestamp = now;
    record.end_timestamp = end;
    record.last_claimed_timestamp = now;
    Ok(AirdropClaimed { user, amount, vesting_start: now, vesting_end: end })
}

/// What an airdrop pays out at `now`: nothing while its cliff stands.
pub open spec fn airdrop_claimable(record: AirdropVesting, now: i64) -> int {
    claimable_amount(
        record.total_amount as int,
        record.released_amount as int,
        record.start_timestamp as int,
        record.end_timestamp as int,
        CLIFF_DURATION as int,
        now as int,
    )
}

/// What an airdrop has vested at `now`.
pub open spec fn airdrop_vested(record: AirdropVesting, now: i64) -> int {
    vested_amount(
        record.total_amount as int,
        record.start_timestamp as int,
        record.end_timestamp as int,
        now as int,
    )
}

/// The first check that fails when vested airdrop tokens are claimed, if any.
pub open spec fn claim_vested_airdrop_error(
    config: Config,
    record: AirdropVesting,
    user: Pubkey,
    now: i64,
) -> Option<ErrorCode> {
    if record.beneficiary != user {
        Some(ErrorCode::Unauthorized)
    } else if config.paused {
        Some(ErrorCode::ProtocolPaused)
    } else if now < record.start_timestamp + CLIFF_DURATION {
        Some(ErrorCode::StillInCliff)
    } else if airdrop_claimable(record, now) == 0 {
        Some(ErrorCode::NothingToClaim)
    } else {
        None
    }
}

/// Pays the beneficiary of an airdrop what has vested and not yet been
/// released.  The event names the amount for the caller to move from escrow.
pub fn claim_vested_airdrop(
    config: &Config,
    record: &mut AirdropVesting,
    user: Pubkey,
    now: i64,
) -> (outcome: Result<AirdropVestingClaimed, ErrorCode>)
    ensures
        match outcome {
            Ok(event) => {
                &&& claim_vested_airdrop_error(*config, *old(record), user, now) is None
                &&& event == (AirdropVestingClaimed {
                    user,
                    amount_claimed: airdrop_claimable(*old(record), now) as u64,
                    total_vested: airdrop_vested(*old(record), now) as u64,
                    timestamp: now,
                })
                &&& event.amount_claimed > 0
                &&& *final(record) == (AirdropVesting {
                    released_amount: (old(record).released_amount + event.amount_claimed) as u64,
                    last_claimed_timestamp: now,
                    ..*old(record)
                })
                &&& final(record).released_amount <= old(record).total_amount
                &&& airdrop_claimable(*final(record), now) == 0
            },
            Err(e) => claim_vested_airdrop_error(*config, *old(record), user, now) == Some(e)
                && *final(record) == *old(record),
        },
{
    if record.beneficiary != user {
        return Err(ErrorCode::Unauthorized);
    }
    if config.paused {
        return Err(ErrorCode::ProtocolPaused);
    }
    let amount = match claim(
        record.total_amount,
        record.released_amount,
        record.start_timestamp,
        record.end_timestamp,
        CLIFF_DURATION,
        now,
    ) {
        Ok(amount) => amount,
        Err(VestingError::StillInCliff) => {
            return Err(ErrorCode::StillInCliff);
        },
        Err(VestingError::NothingToClaim) => {
            return Err(ErrorCode::NothingToClaim);
        },
    };
    let total_vested = vested(
        record.total_amount,
        record.start_timestamp,
        record.end_timestamp,
        now,
    );
    record.released_amount = record.released_amount + amount;
    record.last_claimed_timestamp = now;
    Ok(AirdropVestingClaimed { user, amount_claimed: amount, total_vested, timestamp: now })
}

} // verus!
