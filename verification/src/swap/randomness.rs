//! Random values for bonus draws.  A value is the leading 64 bits of a
//! Keccak-256 digest over an entropy source and the identities it is drawn
//! for.  The fallback source hashes the clock and a recent block hash; block
//! producers can influence both, so it is weaker than an oracle commitment
//! and is no verifiable random function.

use vstd::prelude::*;
use vstd::bytes::spec_u64_to_le_bytes;
use crate::hashing::{
    append_bytes,
    append_i64_le,
    append_u64_le,
    digest_to_u64,
    i64_le_bytes,
    keccak256,
    keccak_hash,
    leading_u64,
};
use crate::types::{Clock, Pubkey};

verus! {

/// Why a randomness operation is refused.
#[derive(Clone, Copy, Debug, PartialEq, Eq, Structural)]
pub enum RandomnessError {
    NoCommitment,
    InvalidRandomnessAccount,
    InvalidAccountData,
    RandomnessNotResolved,
    Unauthorized,
}

/// What was read of an oracle's randomness account.
#[derive(Clone, Copy, Debug, PartialEq, Eq)]
pub struct RandomnessAccountData {
    pub seed: [u8; 32],
    pub value: [u8; 32],
    pub slot: u64,
    pub timestamp: i64,
}

/// The commit-and-reveal record of the randomness oracle.
#[derive(Clone, Copy, Debug, PartialEq, Eq)]
pub struct RandomnessState {
    pub bump: u8,
    pub authority: Pubkey,
    pub randomness_account: Pubkey,
    pub committed_slot: u64,
    pub revealed_value: [u8; 32],
    pub last_update: i64,
    pub is_pending: bool,
}

/// Offset of the revealed value in an oracle's randomness account.
pub const REVEAL_OFFSET: usize = 40;

/// Least length of an oracle's randomness account.
pub const REVEAL_MIN_LEN: usize = 104;

/// Offset of the first block hash in the recent-blockhashes record.
pub const BLOCKHASH_OFFSET: usize = 8;

/// The bytes hashed for an oracle-backed draw.
pub open spec fn vrf_preimage(vrf_result: [u8; 32], user: Pubkey, nft_mint: Pubkey) -> Seq<u8> {
    vrf_result@ + user.bytes@ + nft_mint.bytes@
}

/// The value of an oracle-backed draw.
pub open spec fn vrf_random_value(vrf_result: [u8; 32], user: Pubkey, nft_mint: Pubkey) -> u64 {
    leading_u64(keccak256(vrf_preimage(vrf_result, user, nft_mint)))
}

/// The bytes hashed for a fallback draw.
pub open spec fn fallback_preimage(
    user: Pubkey,
    nft_mint: Pubkey,
    clock: Clock,
    recent_blockhash: [u8; 32],
) -> Seq<u8> {
    user.bytes@ + nft_mint.bytes@ + i64_le_bytes(clock.unix_timestamp) + spec_u64_to_le_bytes(
        clock.slot,
    ) + recent_blockhash@ + spec_u64_to_le_bytes(clock.epoch)
}

/// The value of a fallback draw.
pub open spec fn fallback_random_value(
    user: Pubkey,
    nft_mint: Pubkey,
    clock: Clock,
    recent_blockhash: [u8; 32],
) -> u64 {
    leading_u64(keccak256(fallback_preimage(user, nft_mint, clock, recent_blockhash)))
}

/// The bytes hashed when the oracle record is filled from on-chain entropy.
pub open spec fn simple_preimage(recent_blockhash: [u8; 32], clock: Clock, authority: Pubkey) -> Seq<
    u8,
> {
    recent_blockhash@ + spec_u64_to_le_bytes(clock.slot) + i64_le_bytes(clock.unix_timestamp)
        + authority.bytes@
}

/// A bonus between `min_bonus` and `max_bonus`, picked by `random_value`.
pub open spec fn random_bonus(random_value: u64, min_bonus: u16, max_bonus: u16) -> int {
    if max_bonus == min_bonus {
        min_bonus as int
    } else {
        min_bonus + random_value as int % (max_bonus - min_bonus + 1)
    }
}

/// A number between `min` and `max`, picked by the first eight bytes of
/// `random_bytes`.
pub open spec fn random_in_range(random_bytes: [u8; 32], min: u64, max: u64) -> int {
    min + leading_u64(random_bytes@) as int % (max - min + 1)
}

/// Draws a value from an oracle result, the user and the NFT.
pub fn generate_vrf_random(vrf_result: &[u8; 32], user: &Pubkey, nft_mint: &Pubkey) -> (value: u64)
    ensures
        value == vrf_random_value(*vrf_result, *user, *nft_mint),
{
    let mut data: Vec<u8> = Vec::new();
    append_bytes(&mut data, vrf_result.as_slice());
    append_bytes(&mut data, user.bytes.as_slice());
    append_bytes(&mut data, nft_mint.bytes.as_slice());
    assert(data@ == vrf_preimage(*vrf_result, *user, *nft_mint));
    let digest = keccak_hash(data.as_slice());
    digest_to_u64(&digest)
}

/// Draws a value from the user, the NFT, the clock and a recent block hash.
pub fn generate_secure_random(
    user: &Pubkey,
    nft_mint: &Pubkey,
    clock: &Clock,
    recent_blockhash: &[u8; 32],
) -> (value: u64)
    ensures
        value == fallback_random_value(*user, *nft_mint, *clock, *recent_blockhash),
{
    let mut data: Vec<u8> = Vec::new();
    append_bytes(&mut data, user.bytes.as_slice());
    append_bytes(&mut data, nft_mint.bytes.as_slice());
    append_i64_le(&mut data, clock.unix_timestamp);
    append_u64_le(&mut data, clock.slot);
    append_bytes(&mut data, recent_blockhash.as_slice());
    append_u64_le(&mut data, clock.epoch);
    assert(data@ == fallback_preimage(*user, *nft_mint, *clock, *recent_blockhash));
    let digest = keccak_hash(data.as_slice());
    digest_to_u64(&digest)
}

/// Maps a random value into `[min_bonus, max_bonus]`.
pub fn calculate_random_bonus(random_value: u64, min_bonus: u16, max_bonus: u16) -> (bonus: u16)
    requires
        min_bonus <= max_bonus,
    ensures
        bonus == random_bonus(random_value, min_bonus, max_bonus),
        min_bonus <= bonus <= max_bonus,
{
    let bonus_range: u16 = max_bonus - min_bonus;
    if bonus_range == 0 {
        min_bonus
    } else {
        let offset: u64 = random_value % (bonus_range as u64 + 1);
        min_bonus + offset as u16
    }
}

/// Maps the first eight bytes of `random_bytes` into `[min, max]`.
pub fn get_random_in_range(random_bytes: &[u8; 32], min: u64, max: u64) -> (value: u64)
    requires
        min <= max,
        max - min < u64::MAX,
    ensures
        value == random_in_range(*random_bytes, min, max),
        min <= value <= max,
{
    let range: u64 = max - min + 1;
    let random_u64 = digest_to_u64(random_bytes);
    min + random_u64 % range
}

/// Reads the first block hash out of the recent-blockhashes record, or
/// nothing when the record is too short to hold one.
pub fn first_blockhash(record: &[u8]) -> (hash: Option<[u8; 32]>)
    ensures
        hash is Some <==> record@.len() >= BLOCKHASH_OFFSET + 32,
        hash is Some ==> hash->0@ == record@.subrange(
            BLOCKHASH_OFFSET as int,
            BLOCKHASH_OFFSET + 32,
        ),
{
    if record.len() < BLOCKHASH_OFFSET + 32 {
        return None;
    }
    let mut out = [0u8; 32];
    let mut i: usize = 0;
    while i < 32
        invariant
            i <= 32,
            record@.len() >= BLOCKHASH_OFFSET + 32,
            forall|j: int| 0 <= j < i ==> out@[j] == record@[BLOCKHASH_OFFSET + j],
        decreases 32 - i,
    {
        out[i] = record[BLOCKHASH_OFFSET + i];
        i = i + 1;
    }
    assert(out@ =~= record@.subrange(BLOCKHASH_OFFSET as int, BLOCKHASH_OFFSET + 32));
    Some(out)
}

/// A fresh oracle record for `authority`.
pub fn initialize_randomness(authority: Pubkey, bump: u8, now: i64) -> (state: RandomnessState)
    ensures
        state.bump == bump,
        state.authority == authority,
        state.randomness_account == Pubkey::spec_zero(),
        state.committed_slot == 0,
        crate::types::all_zero(state.revealed_value),
        state.last_update == now,
        !state.is_pending,
{
    RandomnessState {
        bump,
        authority,
        randomness_account: Pubkey::zero(),
        committed_slot: 0,
        revealed_value: [0u8; 32],
        last_update: now,
        is_pending: false,
    }
}

/// Records which oracle account will reveal the next value.  Only the
/// record's authority may commit.
pub fn commit_randomness(
    state: &mut RandomnessState,
    authority: Pubkey,
    randomness_account: Pubkey,
    clock: &Clock,
) -> (outcome: Result<(), RandomnessError>)
    ensures
        match outcome {
            Ok(_) => authority == old(state).authority && *final(state) == (RandomnessState {
                randomness_account,
                committed_slot: clock.slot,
                is_pending: true,
                ..*old(state)
            }),
            Err(e) => authority != old(state).authority && e == RandomnessError::Unauthorized
                && *final(state) == *old(state),
        },
{
    if authority != state.authority {
        return Err(RandomnessError::Unauthorized);
    }
    state.randomness_account = randomness_account;
    state.committed_slot = clock.slot;
    state.is_pending = true;
    Ok(())
}

/// The first check that fails when a value is revealed, if any.
pub open spec fn reveal_error(
    state: RandomnessState,
    authority: Pubkey,
    randomness_account: Pubkey,
    data: Seq<u8>,
) -> Option<RandomnessError> {
    if authority != state.authority {
        Some(RandomnessError::Unauthorized)
    } else if !state.is_pending {
        Some(RandomnessError::NoCommitment)
    } else if randomness_account != state.randomness_account {
        Some(RandomnessError::InvalidRandomnessAccount)
    } else if data.len() < REVEAL_MIN_LEN {
        Some(RandomnessError::InvalidAccountData)
    } else {
        None
    }
}

/// Copies the revealed value out of the committed oracle account's data.
pub fn reveal_randomness(
    state: &mut RandomnessState,
    authority: Pubkey,
    randomness_account: Pubkey,
    data: &[u8],
    clock: &Clock,
) -> (outcome: Result<(), RandomnessError>)
    ensures
        match outcome {
            Ok(_) => {
                &&& reveal_error(*old(state), authority, randomness_account, data@) is None
                &&& final(state).revealed_value@ == data@.subrange(
                    REVEAL_OFFSET as int,
                    REVEAL_OFFSET + 32,
                )
                &&& *final(state) == (RandomnessState {
                    revealed_value: final(state).revealed_value,
                    last_update: clock.unix_timestamp,
                    is_pending: false,
                    ..*old(state)
                })
            },
            Err(e) => reveal_error(*old(state), authority, randomness_account, data@) == Some(e)
                && *final(state) == *old(state),
        },
{
    if authority != state.authority {
        return Err(RandomnessError::Unauthorized);
    }
    if !state.is_pending {
        return Err(RandomnessError::NoCommitment);
    }
    if randomness_account != state.randomness_account {
        return Err(RandomnessError::InvalidRandomnessAccount);
    }
    if data.len() < REVEAL_MIN_LEN {
        return Err(RandomnessError::InvalidAccountData);
    }
    let mut value = [0u8; 32];
    let mut i: usize = 0;
    while i < 32
        invariant
            i <= 32,
            data@.len() >= REVEAL_MIN_LEN,
            forall|j: int| 0 <= j < i ==> value@[j] == data@[REVEAL_OFFSET + j],
        decreases 32 - i,
    {
        value[i] = data[REVEAL_OFFSET + i];
        i = i + 1;
    }
    assert(value@ =~= data@.subrange(REVEAL_OFFSET as int, REVEAL_OFFSET + 32));
    state.revealed_value = value;
    state.last_update = clock.unix_timestamp;
    state.is_pending = false;
    Ok(())
}

/// Fills the oracle record from on-chain entropy: the digest of a recent
/// block hash, the slot, the time and the caller.
pub fn generate_simple_randomness(
    state: &mut RandomnessState,
    authority: Pubkey,
    recent_blockhash: &[u8; 32],
    clock: &Clock,
)
    ensures
        final(state).revealed_value@ == keccak256(
            simple_preimage(*recent_blockhash, *clock, authority),
        ),
        *final(state) == (RandomnessState {
            revealed_value: final(state).revealed_value,
            last_update: clock.unix_timestamp,
            is_pending: false,
            ..*old(state)
        }),
{
    let mut data: Vec<u8> = Vec::new();
    append_bytes(&mut data, recent_blockhash.as_slice());
    append_u64_le(&mut data, clock.slot);
    append_i64_le(&mut data, clock.unix_timestamp);
    append_bytes(&mut data, authority.bytes.as_slice());
    assert(data@ == simple_preimage(*recent_blockhash, *clock, authority));
    state.revealed_value = keccak_hash(data.as_slice());
    state.last_update = clock.unix_timestamp;
    state.is_pending = false;
}

} // verus!
