//! Payouts to beneficiaries of a claimable estate.  Each beneficiary takes
//! the own share of the balance once; after that the same share of each
//! token, and NFTs, each mint once.

use vstd::prelude::*;
use crate::arith::{percent_of, percent_share};
use crate::estate::lifecycle::{beneficiaries_wf, lemma_share_sum_update, transferable};
use crate::estate::state::{
    Beneficiary,
    ClaimRecord,
    Estate,
    EstateError,
    InheritanceClaimed,
    TokenClaim,
    MIN_RENT_BALANCE,
    RWA,
};
use crate::types::{contains_key, Pubkey, TokenAccount};

verus! {

/// Whether `index` names a beneficiary of the estate.
pub open spec fn valid_index(estate: Estate, index: u8) -> bool {
    index < estate.total_beneficiaries && index < estate.beneficiaries@.len()
}

/// The share that falls to the beneficiary at `index`: the beneficiary's
/// percentage, rounded down, of what the estate held above its reserve when
/// it became claimable.  Every beneficiary's share is taken of that same
/// amount, whoever claims first.
pub open spec fn sol_share(estate: Estate, index: u8) -> int
    recommends
        valid_index(estate, index),
{
    percent_share(
        estate.estate_value as int,
        estate.beneficiaries@[index as int].share_percentage as int,
    )
}

/// The first check that fails when a beneficiary claims, if any.  A slot
/// that has claimed is told so whether or not the estate is locked; a lock
/// refuses every claim that would otherwise be paid.
pub open spec fn claim_inheritance_error(
    estate: Estate,
    beneficiary: Pubkey,
    index: u8,
    estate_balance: u64,
) -> Option<EstateError> {
    if !estate.is_claimable {
        Some(EstateError::NotClaimable)
    } else if !valid_index(estate, index) {
        Some(EstateError::InvalidBeneficiaryIndex)
    } else if estate.beneficiaries@[index as int].address != beneficiary {
        Some(EstateError::UnauthorizedBeneficiary)
    } else if estate.beneficiaries@[index as int].claimed {
        Some(EstateError::AlreadyClaimed)
    } else if estate.is_locked {
        Some(EstateError::EstateLocked)
    } else if sol_share(estate, index) > transferable(estate_balance) {
        Some(EstateError::InsufficientFunds)
    } else if estate.total_claims == u8::MAX {
        Some(EstateError::MathOverflow)
    } else {
        None
    }
}

/// Whether `post` is `pre` with the beneficiary at `index` marked as having
/// claimed and one more claim counted.
pub open spec fn marked_claimed(pre: Estate, post: Estate, index: u8) -> bool
    recommends
        valid_index(pre, index),
{
    &&& post.beneficiaries@ == pre.beneficiaries@.update(
        index as int,
        Beneficiary { claimed: true, ..pre.beneficiaries@[index as int] },
    )
    &&& post == (Estate {
        beneficiaries: post.beneficiaries,
        total_claims: (pre.total_claims + 1) as u8,
        ..pre
    })
}

/// What a claim yields: the lamports to move to the beneficiary, the record
/// of the claim, and the event.
#[derive(Clone, Debug, PartialEq, Eq)]
pub struct InheritanceReceipt {
    /// Lamports that go from the estate to the beneficiary.
    pub sol_share: u64,
    pub claim_record: ClaimRecord,
    pub event: InheritanceClaimed,
}

/// Pays a beneficiary the own share of the estate, once.  The estate must
/// be claimable and not locked, and the caller must be the beneficiary named
/// at `index`.  The share is the beneficiary's percentage, rounded down, of
/// what the estate held above its reserve when it became claimable, so the
/// order of the claims does not change what anyone gets.  The estate must
/// still hold the share above its reserve: `estate_balance` is what it holds
/// now.  The same slot cannot claim again.
pub fn claim_inheritance(
    estate: &mut Estate,
    estate_address: Pubkey,
    beneficiary: Pubkey,
    beneficiary_index: u8,
    estate_balance: u64,
    now: i64,
) -> (outcome: Result<InheritanceReceipt, EstateError>)
    ensures
        match outcome {
            Ok(receipt) => {
                &&& claim_inheritance_error(
                    *old(estate),
                    beneficiary,
                    beneficiary_index,
                    estate_balance,
                ) is None
                &&& receipt.sol_share == sol_share(*old(estate), beneficiary_index)
                &&& receipt.sol_share <= transferable(estate_balance)
                &&& marked_claimed(*old(estate), *final(estate), beneficiary_index)
                &&& receipt.claim_record.tokens_claimed@ == Seq::<TokenClaim>::empty()
                &&& receipt.claim_record.nfts_claimed@ == Seq::<Pubkey>::empty()
                &&& receipt.claim_record == (ClaimRecord {
                    estate: estate_address,
                    beneficiary,
                    claim_time: now,
                    sol_amount: receipt.sol_share,
                    share_percentage: old(estate).beneficiaries@[beneficiary_index as int]
                        .share_percentage,
                    tokens_claimed: receipt.claim_record.tokens_claimed,
                    nfts_claimed: receipt.claim_record.nfts_claimed,
                })
                &&& receipt.event == (InheritanceClaimed {
                    estate_id: old(estate).estate_id,
                    beneficiary,
                    share_percentage: old(estate).beneficiaries@[beneficiary_index as int]
                        .share_percentage,
                    claim_number: (old(estate).total_claims + 1) as u64,
                    timestamp: now,
                })
                &&& forall|later_balance: u64|
                    #[trigger] claim_inheritance_error(
                        *final(estate),
                        beneficiary,
                        beneficiary_index,
                        later_balance,
                    ) == Some(EstateError::AlreadyClaimed)
            },
            Err(e) => claim_inheritance_error(
                *old(estate),
                beneficiary,
                beneficiary_index,
                estate_balance,
            ) == Some(e) && *final(estate) == *old(estate),
        },
        beneficiaries_wf(*old(estate)) ==> beneficiaries_wf(*final(estate)),
        old(estate).is_locked ==> outcome is Err,
{
    if !estate.is_claimable {
        return Err(EstateError::NotClaimable);
    }
    let index = beneficiary_index as usize;
    if beneficiary_index >= estate.total_beneficiaries || index >= estate.beneficiaries.len() {
        return Err(EstateError::InvalidBeneficiaryIndex);
    }
    let mut entry = estate.beneficiaries[index];
    if entry.address != beneficiary {
        return Err(EstateError::UnauthorizedBeneficiary);
    }
    if entry.claimed {
        return Err(EstateError::AlreadyClaimed);
    }
    if estate.is_locked {
        return Err(EstateError::EstateLocked);
    }
    let transferable_balance = estate_balance.saturating_sub(MIN_RENT_BALANCE);
    let share = match percent_of(estate.estate_value, entry.share_percentage) {
        Some(share) => share,
        None => {
            return Err(EstateError::InsufficientFunds);
        },
    };
    if share > transferable_balance {
        return Err(EstateError::InsufficientFunds);
    }
    if estate.total_claims == u8::MAX {
        return Err(EstateError::MathOverflow);
    }
    let share_percentage = entry.share_percentage;
    entry.claimed = true;
    proof {
        lemma_share_sum_update(estate.beneficiaries@, index as int, entry);
    }
    estate.beneficiaries.set(index, entry);
    estate.total_claims = estate.total_claims + 1;
    Ok(
        InheritanceReceipt {
            sol_share: share,
            claim_record: ClaimRecord {
                estate: estate_address,
                beneficiary,
                claim_time: now,
                sol_amount: share,
                share_percentage,
                tokens_claimed: Vec::new(),
                nfts_claimed: Vec::new(),
            },
            event: InheritanceClaimed {
                estate_id: estate.estate_id,
                beneficiary,
                share_percentage,
                claim_number: estate.total_claims as u64,
                timestamp: now,
            },
        },
    )
}

/// Whether tokens of `mint` are on a list of claims.
pub open spec fn token_claimed(tokens: Seq<TokenClaim>, mint: Pubkey) -> bool {
    exists|i: int| 0 <= i < tokens.len() && (#[trigger] tokens[i]).mint == mint
}

/// Whether no mint is on a list of token claims twice.
pub open spec fn token_mints_distinct(tokens: Seq<TokenClaim>) -> bool {
    forall|i: int, j: int|
        0 <= i < tokens.len() && 0 <= j < tokens.len() && i != j ==> (#[trigger] tokens[i]).mint
            != (#[trigger] tokens[j]).mint
}

/// Whether a claim record lists no token mint and no NFT twice.
pub open spec fn claim_record_wf(record: ClaimRecord) -> bool {
    &&& token_mints_distinct(record.tokens_claimed@)
    &&& record.nfts_claimed@.no_duplicates()
}

/// Checks whether tokens of `mint` are on a list of claims.
pub fn has_token_claim(tokens: &Vec<TokenClaim>, mint: Pubkey) -> (found: bool)
    ensures
        found == token_claimed(tokens@, mint),
{
    let mut i: usize = 0;
    while i < tokens.len()
        invariant
            i <= tokens.len(),
            forall|j: int| 0 <= j < i ==> (#[trigger] tokens@[j]).mint != mint,
        decreases tokens.len() - i,
    {
        if tokens[i].mint == mint {
            return true;
        }
        i = i + 1;
    }
    false
}

/// The first of the checks common to token and NFT claims that fails, if any.
pub open spec fn asset_claim_error(
    estate: Estate,
    estate_address: Pubkey,
    record: ClaimRecord,
    beneficiary: Pubkey,
    index: u8,
    mint: Pubkey,
    estate_account: TokenAccount,
) -> Option<EstateError> {
    if record.beneficiary != beneficiary {
        Some(EstateError::UnauthorizedBeneficiary)
    } else if record.estate != estate_address {
        Some(EstateError::InvalidClaimRecord)
    } else if estate_account.mint != mint {
        Some(EstateError::InvalidTokenMint)
    } else if estate_account.owner != estate_address {
        Some(EstateError::InvalidTokenOwner)
    } else if !estate.is_claimable {
        Some(EstateError::NotClaimable)
    } else if !valid_index(estate, index) {
        Some(EstateError::InvalidBeneficiaryIndex)
    } else if estate.beneficiaries@[index as int].address != beneficiary {
        Some(EstateError::UnauthorizedBeneficiary)
    } else if !estate.beneficiaries@[index as int].claimed {
        Some(EstateError::MustClaimInheritanceFirst)
    } else {
        None
    }
}

/// Runs the checks common to token and NFT claims.
fn check_asset_claim(
    estate: &Estate,
    estate_address: Pubkey,
    record: &ClaimRecord,
    beneficiary: Pubkey,
    index: u8,
    mint: Pubkey,
    estate_account: &TokenAccount,
) -> (outcome: Result<(), EstateError>)
    ensures
        match outcome {
            Ok(_) => asset_claim_error(
                *estate,
                estate_address,
                *record,
                beneficiary,
                index,
                mint,
                *estate_account,
            ) is None,
            Err(e) => asset_claim_error(
                *estate,
                estate_address,
                *record,
                beneficiary,
                index,
                mint,
                *estate_account,
            ) == Some(e),
        },
{
    if record.beneficiary != beneficiary {
        return Err(EstateError::UnauthorizedBeneficiary);
    }
    if record.estate != estate_address {
        return Err(EstateError::InvalidClaimRecord);
    }
    if estate_account.mint != mint {
        return Err(EstateError::InvalidTokenMint);
    }
    if estate_account.owner != estate_address {
        return Err(EstateError::InvalidTokenOwner);
    }
    if !estate.is_claimable {
        return Err(EstateError::NotClaimable);
    }
    if index >= estate.total_beneficiaries || index as usize >= estate.beneficiaries.len() {
        return Err(EstateError::InvalidBeneficiaryIndex);
    }
    if estate.beneficiaries[index as usize].address != beneficiary {
        return Err(EstateError::UnauthorizedBeneficiary);
    }
    if !estate.beneficiaries[index as usize].claimed {
        return Err(EstateError::MustClaimInheritanceFirst);
    }
    Ok(())
}

/// The share of the estate's tokens that falls to the beneficiary at
/// `index`: the beneficiary's percentage, rounded down, of what the estate's
/// account holds at the time of the claim.
pub open spec fn token_share(estate: Estate, index: u8, estate_account: TokenAccount) -> int
    recommends
        valid_index(estate, index),
{
    percent_share(
        estate_account.amount as int,
        estate.beneficiaries@[index as int].share_percentage as int,
    )
}

/// The first check that fails when a beneficiary claims tokens, if any.  A
/// mint that is on the record is told so whether or not the estate is
/// locked; a lock refuses every claim that would otherwise be paid.
pub open spec fn claim_token_error(
    estate: Estate,
    estate_address: Pubkey,
    record: ClaimRecord,
    beneficiary: Pubkey,
    index: u8,
    token_mint: Pubkey,
    estate_account: TokenAccount,
) -> Option<EstateError> {
    if asset_claim_error(
        estate,
        estate_address,
        record,
        beneficiary,
        index,
        token_mint,
        estate_account,
    ) is Some {
        asset_claim_error(
            estate,
            estate_address,
            record,
            beneficiary,
            index,
            token_mint,
            estate_account,
        )
    } else if token_claimed(record.tokens_claimed@, token_mint) {
        Some(EstateError::TokenAlreadyClaimed)
    } else if estate.is_locked {
        Some(EstateError::EstateLocked)
    } else if token_share(estate, index, estate_account) > estate_account.amount {
        Some(EstateError::InsufficientFunds)
    } else {
        None
    }
}

/// The claim record after a token claim of `share`: the claim is listed,
/// also where it paid nothing, so the mint cannot be claimed on this record
/// again.
pub open spec fn token_recorded(pre: ClaimRecord, post: ClaimRecord, mint: Pubkey, share: u64) -> bool {
    &&& post.tokens_claimed@ == pre.tokens_claimed@.push(TokenClaim { mint, amount: share })
    &&& post == (ClaimRecord { tokens_claimed: post.tokens_claimed, ..pre })
}

/// Pays a beneficiary the own share of the estate's tokens of one mint.  The
/// beneficiary must have claimed the share of the balance before, the mint
/// must not be on the claim record yet, and the estate must not be locked.
/// The share is taken of what the estate's account holds now.  Afterwards
/// the mint is on the record, whatever the share was.  Returns the tokens to
/// move from the estate's account to the beneficiary.
pub fn claim_token(
    estate: &Estate,
    estate_address: Pubkey,
    claim_record: &mut ClaimRecord,
    beneficiary: Pubkey,
    beneficiary_index: u8,
    token_mint: Pubkey,
    estate_token_account: &TokenAccount,
) -> (outcome: Result<u64, EstateError>)
    ensures
        match outcome {
            Ok(share) => {
                &&& claim_token_error(
                    *estate,
                    estate_address,
                    *old(claim_record),
                    beneficiary,
                    beneficiary_index,
                    token_mint,
                    *estate_token_account,
                ) is None
                &&& share == token_share(*estate, beneficiary_index, *estate_token_account)
                &&& share <= estate_token_account.amount
                &&& token_recorded(*old(claim_record), *final(claim_record), token_mint, share)
                &&& token_claimed(final(claim_record).tokens_claimed@, token_mint)
            },
            Err(e) => claim_token_error(
                *estate,
                estate_address,
                *old(claim_record),
                beneficiary,
                beneficiary_index,
                token_mint,
                *estate_token_account,
            ) == Some(e) && *final(claim_record) == *old(claim_record),
        },
        claim_record_wf(*old(claim_record)) ==> claim_record_wf(*final(claim_record)),
{
    check_asset_claim(
        estate,
        estate_address,
        claim_record,
        beneficiary,
        beneficiary_index,
        token_mint,
        estate_token_account,
    )?;
    if has_token_claim(&claim_record.tokens_claimed, token_mint) {
        return Err(EstateError::TokenAlreadyClaimed);
    }
    if estate.is_locked {
        return Err(EstateError::EstateLocked);
    }
    let pct = estate.beneficiaries[beneficiary_index as usize].share_percentage;
    let share = match percent_of(estate_token_account.amount, pct) {
        Some(share) => share,
        None => {
            return Err(EstateError::InsufficientFunds);
        },
    };
    if share > estate_token_account.amount {
        return Err(EstateError::InsufficientFunds);
    }
    claim_record.tokens_claimed.push(TokenClaim { mint: token_mint, amount: share });
    proof {
        let after = claim_record.tokens_claimed@;
        assert(after[after.len() - 1].mint == token_mint);
    }
    Ok(share)
}

/// The first check that fails when a beneficiary claims an NFT, if any.  An
/// NFT that is on the record is told so whether or not the estate is locked;
/// a lock refuses every claim that would otherwise go through.
pub open spec fn claim_nft_error(
    estate: Estate,
    estate_address: Pubkey,
    record: ClaimRecord,
    beneficiary: Pubkey,
    index: u8,
    nft_mint: Pubkey,
    estate_account: TokenAccount,
) -> Option<EstateError> {
    if asset_claim_error(
        estate,
        estate_address,
        record,
        beneficiary,
        index,
        nft_mint,
        estate_account,
    ) is Some {
        asset_claim_error(
            estate,
            estate_address,
            record,
            beneficiary,
            index,
            nft_mint,
            estate_account,
        )
    } else if record.nfts_claimed@.contains(nft_mint) {
        Some(EstateError::NFTAlreadyClaimed)
    } else if estate.is_locked {
        Some(EstateError::EstateLocked)
    } else if estate_account.amount != 1 {
        Some(EstateError::InvalidNFTAmount)
    } else {
        None
    }
}

/// Hands an NFT of the estate to a beneficiary who has claimed the share of
/// the balance before.  The estate must hold exactly one unit of the NFT and
/// the mint must not be on the claim record yet; afterwards it is, so the
/// same NFT cannot be claimed on this record again.
pub fn claim_nft(
    estate: &Estate,
    estate_address: Pubkey,
    claim_record: &mut ClaimRecord,
    beneficiary: Pubkey,
    beneficiary_index: u8,
    nft_mint: Pubkey,
    estate_nft_account: &TokenAccount,
) -> (outcome: Result<(), EstateError>)
    ensures
        match outcome {
            Ok(_) => {
                &&& claim_nft_error(
                    *estate,
                    estate_address,
                    *old(claim_record),
                    beneficiary,
                    beneficiary_index,
                    nft_mint,
                    *estate_nft_account,
                ) is None
                &&& final(claim_record).nfts_claimed@ == old(claim_record).nfts_claimed@.push(
                    nft_mint,
                )
                &&& *final(claim_record) == (ClaimRecord {
                    nfts_claimed: final(claim_record).nfts_claimed,
                    ..*old(claim_record)
                })
                &&& final(claim_record).nfts_claimed@.contains(nft_mint)
            },
            Err(e) => claim_nft_error(
                *estate,
                estate_address,
                *old(claim_record),
                beneficiary,
                beneficiary_index,
                nft_mint,
                *estate_nft_account,
            ) == Some(e) && *final(claim_record) == *old(claim_record),
        },
        claim_record_wf(*old(claim_record)) ==> claim_record_wf(*final(claim_record)),
{
    check_asset_claim(
        estate,
        estate_address,
        claim_record,
        beneficiary,
        beneficiary_index,
        nft_mint,
        estate_nft_account,
    )?;
    if contains_key(&claim_record.nfts_claimed, nft_mint) {
        return Err(EstateError::NFTAlreadyClaimed);
    }
    if estate.is_locked {
        return Err(EstateError::EstateLocked);
    }
    if estate_nft_account.amount != 1 {
        return Err(EstateError::InvalidNFTAmount);
    }
    claim_record.nfts_claimed.push(nft_mint);
    proof {
        let before = old(claim_record).nfts_claimed@;
        let after = claim_record.nfts_claimed@;
        assert(after[after.len() - 1] == nft_mint);
        if before.no_duplicates() {
            assert forall|i: int, j: int|
                0 <= i < after.len() && 0 <= j < after.len() && i != j implies after[i]
                != after[j] by {
                if i < before.len() && j < before.len() {
                    assert(before[i] != before[j]);
                } else if i < before.len() {
                    assert(before.contains(before[i]));
                } else {
                    assert(before.contains(before[j]));
                }
            }
        }
    }
    Ok(())
}

/// The first check that fails when an asset on record passes to a
/// beneficiary, if any.
pub open spec fn transfer_rwa_error(
    estate: Estate,
    estate_address: Pubkey,
    record: ClaimRecord,
    rwa: RWA,
    beneficiary: Pubkey,
    rwa_number: u32,
) -> Option<EstateError> {
    if estate.is_locked {
        Some(EstateError::EstateLocked)
    } else if !estate.is_claimable {
        Some(EstateError::NotClaimable)
    } else if record.estate != estate_address {
        Some(EstateError::InvalidClaimRecord)
    } else if record.beneficiary != beneficiary {
        Some(EstateError::UnauthorizedBeneficiary)
    } else if rwa.estate != estate_address {
        Some(EstateError::InvalidRWA)
    } else if rwa.rwa_number != rwa_number {
        Some(EstateError::InvalidRWA)
    } else if !rwa.is_active {
        Some(EstateError::RWAAlreadyDeleted)
    } else {
        None
    }
}

/// Passes an asset on record to a beneficiary who holds a claim record of
/// the estate.
pub fn transfer_rwa_ownership(
    estate: &Estate,
    estate_address: Pubkey,
    claim_record: &ClaimRecord,
    rwa: &mut RWA,
    beneficiary: Pubkey,
    rwa_number: u32,
) -> (outcome: Result<(), EstateError>)
    ensures
        match outcome {
            Ok(_) => {
                &&& transfer_rwa_error(
                    *estate,
                    estate_address,
                    *claim_record,
                    *old(rwa),
                    beneficiary,
                    rwa_number,
                ) is None
                &&& *final(rwa) == (RWA { current_owner: beneficiary, ..*old(rwa) })
            },
            Err(e) => transfer_rwa_error(
                *estate,
                estate_address,
                *claim_record,
                *old(rwa),
                beneficiary,
                rwa_number,
            ) == Some(e) && *final(rwa) == *old(rwa),
        },
{
    if estate.is_locked {
        return Err(EstateError::EstateLocked);
    }
    if !estate.is_claimable {
        return Err(EstateError::NotClaimable);
    }
    if claim_record.estate != estate_address {
        return Err(EstateError::InvalidClaimRecord);
    }
    if claim_record.beneficiary != beneficiary {
        return Err(EstateError::UnauthorizedBeneficiary);
    }
    if rwa.estate != estate_address {
        return Err(EstateError::InvalidRWA);
    }
    if rwa.rwa_number != rwa_number {
        return Err(EstateError::InvalidRWA);
    }
    if !rwa.is_active {
        return Err(EstateError::RWAAlreadyDeleted);
    }
    rwa.current_owner = beneficiary;
    Ok(())
}

} // verus!
