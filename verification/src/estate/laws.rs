//! What holds of an estate across its operations.

use vstd::prelude::*;
use crate::arith::lemma_mul_div_floor_bounded;
use crate::estate::claims::{
    asset_claim_error,
    claim_inheritance_error,
    claim_nft_error,
    claim_token_error,
    marked_claimed,
    sol_share,
    token_recorded,
    transfer_rwa_error,
    valid_index,
};
use crate::estate::emergency::{lock_error, EmergencyLockState, EmergencyLockContext};
use crate::estate::lifecycle::{
    attach_error,
    beneficiaries_wf,
    check_in_error,
    close_error,
    lemma_payouts_within_value,
    lemma_share_within_sum,
    payout_sum,
    share_sum,
    trigger_error,
    update_beneficiaries_error,
};
use crate::estate::risk_management::{
    update_mix_error,
    update_risk_error,
    RiskManagementSettings,
    StrategyMix,
};
use crate::estate::rwa::{create_rwa_error, delete_rwa_error};
use crate::estate::state::{Beneficiary, ClaimRecord, Estate, EstateError, RWA};
use crate::estate::trading::{
    contribute_error,
    deposit_error,
    distribute_error,
    enable_trading_error,
    execute_withdrawal_error,
    initiate_withdrawal_error,
    pause_trading_error,
    resume_trading_error,
    update_value_error,
    vault_error,
    DistributeTradingProfits,
    TradingTerms,
    VaultPayment,
};
use crate::types::{Pubkey, TokenAccount};

verus! {

/// While an estate is locked, every operation of its owner is refused as
/// locked: checking in, changing the beneficiaries, recording and striking
/// assets, triggering the inheritance, attaching a multisig, closing the
/// estate and asking for a token vault.  A second lock is refused too.
pub proof fn lemma_lock_gates_estate_operations(
    estate: Estate,
    state: EmergencyLockState,
    estate_address: Pubkey,
    caller: Pubkey,
    beneficiaries: Seq<Beneficiary>,
    rwa: RWA,
    request: EmergencyLockContext,
    now: i64,
)
    requires
        estate.is_locked,
    ensures
        check_in_error(estate, caller) == Some(EstateError::EstateLocked),
        update_beneficiaries_error(estate, caller, beneficiaries) == Some(
            EstateError::EstateLocked,
        ),
        create_rwa_error(estate, caller) == Some(EstateError::EstateLocked),
        delete_rwa_error(estate, estate_address, rwa, caller) == Some(EstateError::EstateLocked),
        trigger_error(estate, now) == Some(EstateError::EstateLocked),
        attach_error(estate, caller) == Some(EstateError::EstateLocked),
        close_error(estate) == Some(EstateError::EstateLocked),
        vault_error(estate, caller) == Some(EstateError::EstateLocked),
        lock_error(estate, state, estate_address, request, now) is Some,
{
}

/// While an estate is locked, nothing leaves it for a beneficiary: every
/// claim of the balance, of tokens, of an NFT or of an asset on record is
/// refused, whoever asks and whatever the estate holds.  A claim that would
/// go through if the estate were not locked is refused as locked; one that
/// would fail anyway, such as a second claim of a slot or of a mint, keeps
/// the answer it would have had.
pub proof fn lemma_lock_gates_claims(
    estate: Estate,
    estate_address: Pubkey,
    record: ClaimRecord,
    beneficiary: Pubkey,
    index: u8,
    estate_balance: u64,
    mint: Pubkey,
    estate_account: TokenAccount,
    rwa: RWA,
    rwa_number: u32,
)
    requires
        estate.is_locked,
    ensures
        claim_inheritance_error(estate, beneficiary, index, estate_balance) is Some,
        claim_inheritance_error(
            (Estate { is_locked: false, ..estate }),
            beneficiary,
            index,
            estate_balance,
        ) is None ==> claim_inheritance_error(estate, beneficiary, index, estate_balance) == Some(
            EstateError::EstateLocked,
        ),
        claim_token_error(
            estate,
            estate_address,
            record,
            beneficiary,
            index,
            mint,
            estate_account,
        ) is Some,
        claim_token_error(
            (Estate { is_locked: false, ..estate }),
            estate_address,
            record,
            beneficiary,
            index,
            mint,
            estate_account,
        ) is None ==> claim_token_error(
            estate,
            estate_address,
            record,
            beneficiary,
            index,
            mint,
            estate_account,
        ) == Some(EstateError::EstateLocked),
        claim_nft_error(
            estate,
            estate_address,
            record,
            beneficiary,
            index,
            mint,
            estate_account,
        ) is Some,
        claim_nft_error(
            (Estate { is_locked: false, ..estate }),
            estate_address,
            record,
            beneficiary,
            index,
            mint,
            estate_account,
        ) is None ==> claim_nft_error(
            estate,
            estate_address,
            record,
            beneficiary,
            index,
            mint,
            estate_account,
        ) == Some(EstateError::EstateLocked),
        transfer_rwa_error(estate, estate_address, record, rwa, beneficiary, rwa_number) == Some(
            EstateError::EstateLocked,
        ),
{
}

/// While an estate is locked, every operation of its trading is refused:
/// setting it up, pausing and resuming it, paying in, reporting its value,
/// sharing out its gains, both steps of the emergency withdrawal, and
/// changing its risk settings or its mix of strategies.  Pausing, resuming
/// and paying in first say whether trading runs at all; whatever would go
/// through on the unlocked estate is refused as locked.
pub proof fn lemma_lock_gates_trading_operations(
    estate: Estate,
    estate_address: Pubkey,
    caller: Pubkey,
    terms: TradingTerms,
    payment: VaultPayment,
    amount: u64,
    new_total_value: u64,
    accounts: DistributeTradingProfits,
    settings: RiskManagementSettings,
    strategy_mix: StrategyMix,
    now: i64,
)
    requires
        estate.is_locked,
    ensures
        enable_trading_error(estate, caller, terms) == Some(EstateError::EstateLocked),
        pause_trading_error(estate, caller) == Some(
            if estate.trading_enabled {
                EstateError::EstateLocked
            } else {
                EstateError::TradingNotEnabled
            },
        ),
        resume_trading_error(estate, caller) == Some(
            if estate.trading_enabled {
                EstateError::TradingAlreadyEnabled
            } else {
                EstateError::EstateLocked
            },
        ),
        deposit_error(estate, estate_address, payment) == Some(EstateError::EstateLocked),
        contribute_error(estate, estate_address, payment, amount) is Some,
        contribute_error((Estate { is_locked: false, ..estate }), estate_address, payment, amount)
            is None ==> contribute_error(estate, estate_address, payment, amount) == Some(
            EstateError::EstateLocked,
        ),
        update_value_error(estate, caller, new_total_value) == Some(EstateError::EstateLocked),
        distribute_error(estate, accounts) == Some(EstateError::EstateLocked),
        initiate_withdrawal_error(estate, caller, now) == Some(EstateError::EstateLocked),
        execute_withdrawal_error(estate, caller, now) == Some(EstateError::EstateLocked),
        update_risk_error(estate, caller, settings) == Some(EstateError::EstateLocked),
        update_mix_error(estate, caller, strategy_mix) == Some(EstateError::EstateLocked),
{
}

/// A slot that has claimed cannot claim again: after a claim at `index`,
/// every further claim at that index is refused, whoever asks and whatever
/// the balance.  The beneficiary of the slot is told that the slot has
/// claimed, whether the estate has been locked or unlocked since or not.
pub proof fn lemma_no_double_claim(
    pre: Estate,
    post: Estate,
    index: u8,
    anyone: Pubkey,
    any_balance: u64,
    locked: bool,
)
    requires
        valid_index(pre, index),
        marked_claimed(pre, post, index),
    ensures
        claim_inheritance_error(
            (Estate { is_locked: locked, ..post }),
            anyone,
            index,
            any_balance,
        ) is Some,
        pre.is_claimable ==> claim_inheritance_error(
            (Estate { is_locked: locked, ..post }),
            pre.beneficiaries@[index as int].address,
            index,
            any_balance,
        ) == Some(EstateError::AlreadyClaimed),
{
}

/// Tokens of a mint cannot be claimed on the same record again, whatever
/// the first claim paid, and whether the estate has been locked or unlocked
/// since or not.
pub proof fn lemma_no_double_token_claim(
    estate: Estate,
    estate_address: Pubkey,
    pre: ClaimRecord,
    post: ClaimRecord,
    beneficiary: Pubkey,
    index: u8,
    token_mint: Pubkey,
    estate_account: TokenAccount,
    later_account: TokenAccount,
    share: u64,
    locked: bool,
)
    requires
        claim_token_error(
            estate,
            estate_address,
            pre,
            beneficiary,
            index,
            token_mint,
            estate_account,
        ) is None,
        token_recorded(pre, post, token_mint, share),
        later_account.mint == token_mint,
        later_account.owner == estate_address,
    ensures
        claim_token_error(
            (Estate { is_locked: locked, ..estate }),
            estate_address,
            post,
            beneficiary,
            index,
            token_mint,
            later_account,
        ) == Some(EstateError::TokenAlreadyClaimed),
{
    let listed = post.tokens_claimed@;
    assert(listed[listed.len() - 1].mint == token_mint);
    assert(asset_claim_error(
        (Estate { is_locked: locked, ..estate }),
        estate_address,
        post,
        beneficiary,
        index,
        token_mint,
        later_account,
    ) is None);
}

/// An NFT that was claimed cannot be claimed on the same record again,
/// whether the estate has been locked or unlocked since or not.
pub proof fn lemma_no_double_nft_claim(
    estate: Estate,
    estate_address: Pubkey,
    pre: ClaimRecord,
    post: ClaimRecord,
    beneficiary: Pubkey,
    index: u8,
    nft_mint: Pubkey,
    estate_account: TokenAccount,
    later_account: TokenAccount,
    locked: bool,
)
    requires
        claim_nft_error(
            estate,
            estate_address,
            pre,
            beneficiary,
            index,
            nft_mint,
            estate_account,
        ) is None,
        post.nfts_claimed@ == pre.nfts_claimed@.push(nft_mint),
        post == (ClaimRecord { nfts_claimed: post.nfts_claimed, ..pre }),
        later_account.mint == nft_mint,
        later_account.owner == estate_address,
    ensures
        claim_nft_error(
            (Estate { is_locked: locked, ..estate }),
            estate_address,
            post,
            beneficiary,
            index,
            nft_mint,
            later_account,
        ) == Some(EstateError::NFTAlreadyClaimed),
{
    let listed = post.nfts_claimed@;
    assert(listed[listed.len() - 1] == nft_mint);
    assert(asset_claim_error(
        (Estate { is_locked: locked, ..estate }),
        estate_address,
        post,
        beneficiary,
        index,
        nft_mint,
        later_account,
    ) is None);
}

/// A list of beneficiaries is taken only if its shares add up to exactly
/// 100: any other sum is refused, whoever asks and whatever the state of the
/// estate.
pub proof fn lemma_shares_must_sum_to_100(
    estate: Estate,
    caller: Pubkey,
    beneficiaries: Seq<Beneficiary>,
)
    ensures
        share_sum(beneficiaries) != 100 ==> update_beneficiaries_error(
            estate,
            caller,
            beneficiaries,
        ) is Some,
        update_beneficiaries_error(estate, caller, beneficiaries) is None ==> share_sum(
            beneficiaries,
        ) == 100,
{
}

/// Where the shares of an estate add up to 100, no share exceeds the whole:
/// every beneficiary's payout is within the value that was fixed when the
/// inheritance was triggered.
pub proof fn lemma_share_within_value(estate: Estate, index: u8)
    requires
        beneficiaries_wf(estate),
        valid_index(estate, index),
    ensures
        estate.beneficiaries@[index as int].share_percentage <= 100,
        0 <= sol_share(estate, index) <= estate.estate_value,
{
    lemma_share_within_sum(estate.beneficiaries@, index as int);
    lemma_mul_div_floor_bounded(
        estate.estate_value as int,
        estate.beneficiaries@[index as int].share_percentage as int,
        100,
    );
}

/// The payouts of all beneficiaries of an estate, each taken of the value
/// that was fixed when the inheritance was triggered, add up to no more than
/// that value: the order of the claims takes nothing from anyone.
pub proof fn lemma_payouts_within_estate_value(estate: Estate)
    requires
        beneficiaries_wf(estate),
    ensures
        0 <= payout_sum(estate.beneficiaries@, estate.estate_value as int) <= estate.estate_value,
{
    lemma_payouts_within_value(estate.beneficiaries@, estate.estate_value as int);
}

} // verus!
