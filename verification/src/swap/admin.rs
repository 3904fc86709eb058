//! Administration of the swap program: setup, prices, pausing and the
//! timelocked hand-over of the admin key.

use vstd::prelude::*;
use crate::swap::state::{
    AdminAction,
    AdminActionKind,
    CollectionConfig,
    Config,
    ErrorCode,
    Escrow,
    TaxState,
    Whitelist,
    ADMIN_TIMELOCK_DURATION,
    INITIAL_TAX_BPS,
    WHITELIST_ROOT,
};
use crate::types::{add_seconds, Pubkey};

verus! {

/// The addresses that a new configuration records.
#[derive(Clone, Copy, Debug, PartialEq, Eq)]
pub struct Initialize {
    pub admin: Pubkey,
    pub old_mint: Pubkey,
    pub new_mint: Pubkey,
    pub collection: Pubkey,
    pub treasury: Pubkey,
    pub escrow_bump: u8,
    pub tax_state_bump: u8,
}

/// The five tier prices out of a list, or nothing unless the list holds
/// exactly five.
pub fn tier_prices(prices: &Vec<u64>) -> (out: Option<[u64; 5]>)
    ensures
        out is Some <==> prices@.len() == 5,
        out is Some ==> out->0@ == prices@,
{
    if prices.len() != 5 {
        return None;
    }
    let out = [prices[0], prices[1], prices[2], prices[3], prices[4]];
    assert(out@ =~= prices@);
    Some(out)
}

/// Sets the program up with five tier prices.  The oracle path is switched
/// on from the start, and the tax record starts at the initial rate.
pub fn initialize(accounts: &Initialize, prices: &Vec<u64>, now: i64) -> (outcome: Result<
    (Config, Escrow, TaxState),
    ErrorCode,
>)
    ensures
        match outcome {
            Ok((config, escrow, tax_state)) => {
                &&& prices@.len() == 5
                &&& config.prices@ == prices@
                &&& config == (Config {
                    admin: accounts.admin,
                    old_mint: accounts.old_mint,
                    new_mint: accounts.new_mint,
                    collection: accounts.collection,
                    treasury: accounts.treasury,
                    prices: config.prices,
                    paused: false,
                    pending_admin: None,
                    admin_change_timestamp: 0,
                    vrf_enabled: true,
                })
                &&& escrow == (Escrow { bump: accounts.escrow_bump })
                &&& tax_state == (TaxState {
                    current_bps: INITIAL_TAX_BPS,
                    bump: accounts.tax_state_bump,
                    last_reset_ts: now,
                })
            },
            Err(e) => prices@.len() != 5 && e == ErrorCode::InvalidInput,
        },
{
    match tier_prices(prices) {
        None => Err(ErrorCode::InvalidInput),
        Some(five) => Ok(
            (
                Config {
                    admin: accounts.admin,
                    old_mint: accounts.old_mint,
                    new_mint: accounts.new_mint,
                    collection: accounts.collection,
                    treasury: accounts.treasury,
                    prices: five,
                    paused: false,
                    pending_admin: None,
                    admin_change_timestamp: 0,
                    vrf_enabled: true,
                },
                Escrow { bump: accounts.escrow_bump },
                TaxState {
                    current_bps: INITIAL_TAX_BPS,
                    bump: accounts.tax_state_bump,
                    last_reset_ts: now,
                },
            ),
        ),
    }
}

/// Admits the creation of the escrow account for the old token: only the
/// admin may ask for it.
pub fn init_escrow_old(config: &Config, admin: Pubkey) -> (outcome: Result<(), ErrorCode>)
    ensures
        outcome is Ok <==> admin == config.admin,
        outcome is Err ==> outcome == Err::<(), ErrorCode>(ErrorCode::Unauthorized),
{
    if admin != config.admin {
        return Err(ErrorCode::Unauthorized);
    }
    Ok(())
}

/// Replaces the five tier prices.  The list is checked before the caller is.
pub fn update_prices(config: &mut Config, admin: Pubkey, prices: &Vec<u64>) -> (outcome: Result<
    (),
    ErrorCode,
>)
    ensures
        match outcome {
            Ok(_) => {
                &&& prices@.len() == 5
                &&& admin == old(config).admin
                &&& final(config).prices@ == prices@
                &&& *final(config) == (Config { prices: final(config).prices, ..*old(config) })
            },
            Err(e) => {
                &&& *final(config) == *old(config)
                &&& e == if prices@.len() != 5 {
                    ErrorCode::InvalidInput
                } else {
                    ErrorCode::Unauthorized
                }
                &&& prices@.len() != 5 || admin != old(config).admin
            },
        },
{
    let five = match tier_prices(prices) {
        None => {
            return Err(ErrorCode::InvalidInput);
        },
        Some(five) => five,
    };
    if admin != config.admin {
        return Err(ErrorCode::Unauthorized);
    }
    config.prices = five;
    Ok(())
}

/// Points the program at another treasury.
pub fn update_treasury(config: &mut Config, admin: Pubkey, new_treasury: Pubkey) -> (outcome: Result<
    (),
    ErrorCode,
>)
    ensures
        match outcome {
            Ok(_) => admin == old(config).admin && *final(config) == (Config {
                treasury: new_treasury,
                ..*old(config)
            }),
            Err(e) => admin != old(config).admin && e == ErrorCode::Unauthorized && *final(config)
                == *old(config),
        },
{
    if admin != config.admin {
        return Err(ErrorCode::Unauthorized);
    }
    config.treasury = new_treasury;
    Ok(())
}

/// The first check that fails when the program is paused, if any.
pub open spec fn pause_error(config: Config, admin: Pubkey) -> Option<ErrorCode> {
    if admin != config.admin {
        Some(ErrorCode::Unauthorized)
    } else if config.paused {
        Some(ErrorCode::AlreadyPaused)
    } else {
        None
    }
}

/// Stops swaps, claims and redemptions.
pub fn pause(config: &mut Config, admin: Pubkey, now: i64) -> (outcome: Result<
    AdminAction,
    ErrorCode,
>)
    ensures
        match outcome {
            Ok(event) => {
                &&& pause_error(*old(config), admin) is None
                &&& *final(config) == (Config { paused: true, ..*old(config) })
                &&& event == (AdminAction { admin, action: AdminActionKind::Pause, timestamp: now })
            },
            Err(e) => pause_error(*old(config), admin) == Some(e) && *final(config) == *old(config),
        },
{
    if admin != config.admin {
        return Err(ErrorCode::Unauthorized);
    }
    if config.paused {
        return Err(ErrorCode::AlreadyPaused);
    }
    config.paused = true;
    Ok(AdminAction { admin, action: AdminActionKind::Pause, timestamp: now })
}

/// The first check that fails when the program is resumed, if any.
pub open spec fn unpause_error(config: Config, admin: Pubkey) -> Option<ErrorCode> {
    if admin != config.admin {
        Some(ErrorCode::Unauthorized)
    } else if !config.paused {
        Some(ErrorCode::NotPaused)
    } else {
        None
    }
}

/// Resumes a paused program.
pub fn unpause(config: &mut Config, admin: Pubkey, now: i64) -> (outcome: Result<
    AdminAction,
    ErrorCode,
>)
    ensures
        match outcome {
            Ok(event) => {
                &&& unpause_error(*old(config), admin) is None
                &&& *final(config) == (Config { paused: false, ..*old(config) })
                &&& event == (AdminAction {
                    admin,
                    action: AdminActionKind::Unpause,
                    timestamp: now,
                })
            },
            Err(e) => unpause_error(*old(config), admin) == Some(e) && *final(config) == *old(config),
        },
{
    if admin != config.admin {
        return Err(ErrorCode::Unauthorized);
    }
    if !config.paused {
        return Err(ErrorCode::NotPaused);
    }
    config.paused = false;
    Ok(AdminAction { admin, action: AdminActionKind::Unpause, timestamp: now })
}

/// Creates the whitelist record with the built-in root and no claims.
pub fn initialize_whitelist(config: &Config, admin: Pubkey) -> (outcome: Result<
    Whitelist,
    ErrorCode,
>)
    ensures
        match outcome {
            Ok(whitelist) => admin == config.admin && whitelist == (Whitelist {
                root: WHITELIST_ROOT,
                claimed_count: 0,
            }),
            Err(e) => admin != config.admin && e == ErrorCode::Unauthorized,
        },
{
    if admin != config.admin {
        return Err(ErrorCode::Unauthorized);
    }
    Ok(Whitelist { root: WHITELIST_ROOT, claimed_count: 0 })
}

/// The first check that fails when a new admin is proposed, if any.
pub open spec fn propose_error(config: Config, admin: Pubkey, now: i64) -> Option<ErrorCode> {
    if admin != config.admin {
        Some(ErrorCode::Unauthorized)
    } else if now + ADMIN_TIMELOCK_DURATION > i64::MAX {
        Some(ErrorCode::MathOverflow)
    } else {
        None
    }
}

/// Proposes a new admin.  The change can be accepted once the timelock has
/// run out; a later proposal replaces an earlier one and restarts the clock.
pub fn propose_admin_change(config: &mut Config, admin: Pubkey, new_admin: Pubkey, now: i64) -> (outcome:
    Result<AdminAction, ErrorCode>)
    ensures
        match outcome {
            Ok(event) => {
                &&& propose_error(*old(config), admin, now) is None
                &&& *final(config) == (Config {
                    pending_admin: Some(new_admin),
                    admin_change_timestamp: (now + ADMIN_TIMELOCK_DURATION) as i64,
                    ..*old(config)
                })
                &&& event == (AdminAction {
                    admin,
                    action: AdminActionKind::ProposeAdminChange { new_admin },
                    timestamp: now,
                })
            },
            Err(e) => propose_error(*old(config), admin, now) == Some(e) && *final(config) == *old(config),
        },
{
    if admin != config.admin {
        return Err(ErrorCode::Unauthorized);
    }
    let execute_after = match add_seconds(now, ADMIN_TIMELOCK_DURATION) {
        Some(t) => t,
        None => {
            return Err(ErrorCode::MathOverflow);
        },
    };
    config.pending_admin = Some(new_admin);
    config.admin_change_timestamp = execute_after;
    Ok(
        AdminAction {
            admin,
            action: AdminActionKind::ProposeAdminChange { new_admin },
            timestamp: now,
        },
    )
}

/// The first check that fails when a proposed admin change is accepted, if any.
pub open spec fn accept_error(config: Config, admin: Pubkey, now: i64) -> Option<ErrorCode> {
    if admin != config.admin {
        Some(ErrorCode::Unauthorized)
    } else if config.pending_admin is None {
        Some(ErrorCode::NoPendingAdminChange)
    } else if now < config.admin_change_timestamp {
        Some(ErrorCode::TimelockNotExpired)
    } else {
        None
    }
}

/// Hands the admin key to the proposed admin once the timelock has run out.
/// The event names the admin that gave the key up.
pub fn accept_admin_change(config: &mut Config, admin: Pubkey, now: i64) -> (outcome: Result<
    AdminAction,
    ErrorCode,
>)
    ensures
        match outcome {
            Ok(event) => {
                &&& accept_error(*old(config), admin, now) is None
                &&& *final(config) == (Config {
                    admin: old(config).pending_admin->0,
                    pending_admin: None,
                    admin_change_timestamp: 0,
                    ..*old(config)
                })
                &&& event == (AdminAction {
                    admin: old(config).admin,
                    action: AdminActionKind::AdminChanged {
                        new_admin: old(config).pending_admin->0,
                    },
                    timestamp: now,
                })
            },
            Err(e) => accept_error(*old(config), admin, now) == Some(e) && *final(config) == *old(config),
        },
{
    if admin != config.admin {
        return Err(ErrorCode::Unauthorized);
    }
    let new_admin = match config.pending_admin {
        None => {
            return Err(ErrorCode::NoPendingAdminChange);
        },
        Some(key) => key,
    };
    if now < config.admin_change_timestamp {
        return Err(ErrorCode::TimelockNotExpired);
    }
    let old_admin = config.admin;
    config.admin = new_admin;
    config.pending_admin = None;
    config.admin_change_timestamp = 0;
    Ok(
        AdminAction {
            admin: old_admin,
            action: AdminActionKind::AdminChanged { new_admin },
            timestamp: now,
        },
    )
}

/// The first check that fails when the oracle path is switched on, if any.
pub open spec fn enable_vrf_error(config: Config, admin: Pubkey) -> Option<ErrorCode> {
    if admin != config.admin {
        Some(ErrorCode::Unauthorized)
    } else if config.vrf_enabled {
        Some(ErrorCode::VrfAlreadyEnabled)
    } else {
        None
    }
}

/// Switches bonus draws over to the oracle's results.
pub fn enable_vrf(config: &mut Config, admin: Pubkey, now: i64) -> (outcome: Result<
    AdminAction,
    ErrorCode,
>)
    ensures
        match outcome {
            Ok(event) => {
                &&& enable_vrf_error(*old(config), admin) is None
                &&& *final(config) == (Config { vrf_enabled: true, ..*old(config) })
                &&& event == (AdminAction {
                    admin,
                    action: AdminActionKind::EnableVrf,
                    timestamp: now,
                })
            },
            Err(e) => enable_vrf_error(*old(config), admin) == Some(e) && *final(config) == *old(config),
        },
{
    if admin != config.admin {
        return Err(ErrorCode::Unauthorized);
    }
    if config.vrf_enabled {
        return Err(ErrorCode::VrfAlreadyEnabled);
    }
    config.vrf_enabled = true;
    Ok(AdminAction { admin, action: AdminActionKind::EnableVrf, timestamp: now })
}

/// Admits a withdrawal of `amount` escrowed tokens of the old kind: only the
/// admin may withdraw.  The caller moves the tokens.
pub fn admin_withdraw(config: &Config, admin: Pubkey, amount: u64, now: i64) -> (outcome: Result<
    AdminAction,
    ErrorCode,
>)
    ensures
        match outcome {
            Ok(event) => admin == config.admin && event == (AdminAction {
                admin,
                action: AdminActionKind::Withdraw { amount },
                timestamp: now,
            }),
            Err(e) => admin != config.admin && e == ErrorCode::Unauthorized,
        },
{
    if admin != config.admin {
        return Err(ErrorCode::Unauthorized);
    }
    Ok(AdminAction { admin, action: AdminActionKind::Withdraw { amount }, timestamp: now })
}

/// Admits a withdrawal of `amount` escrowed tokens of the new kind: only the
/// admin may withdraw.  The caller moves the tokens.
pub fn admin_withdraw_token2022(config: &Config, admin: Pubkey, amount: u64, now: i64) -> (outcome:
    Result<AdminAction, ErrorCode>)
    ensures
        match outcome {
            Ok(event) => admin == config.admin && event == (AdminAction {
                admin,
                action: AdminActionKind::WithdrawToken2022 { amount },
                timestamp: now,
            }),
            Err(e) => admin != config.admin && e == ErrorCode::Unauthorized,
        },
{
    if admin != config.admin {
        return Err(ErrorCode::Unauthorized);
    }
    Ok(
        AdminAction {
            admin,
            action: AdminActionKind::WithdrawToken2022 { amount },
            timestamp: now,
        },
    )
}

/// The addresses and tier tables that a new collection records.
#[derive(Clone, Debug, PartialEq, Eq)]
pub struct InitializeCollection {
    pub authority: Pubkey,
    pub collection_mint: Pubkey,
    pub treasury: Pubkey,
    pub defai_mint: Pubkey,
    pub old_defai_mint: Pubkey,
    pub tier_prices: [u64; 5],
    pub tier_supplies: [u16; 5],
    pub og_tier_0_merkle_root: [u8; 32],
    pub airdrop_merkle_root: [u8; 32],
    pub og_tier_0_supply: u16,
}

/// The text of tier `i` out of a list that may be shorter than five: the
/// list's entry where it has one, the empty text where it has none.
pub open spec fn tier_text(texts: Seq<String>, i: int) -> Seq<char> {
    if i < texts.len() {
        texts[i]@
    } else {
        Seq::empty()
    }
}

/// Whether `filled` holds, for each of the five tiers, the text of `texts`.
pub open spec fn holds_tier_texts(filled: Seq<String>, texts: Seq<String>) -> bool {
    &&& filled.len() == 5
    &&& forall|i: int| 0 <= i < 5 ==> (#[trigger] filled[i])@ == tier_text(texts, i)
}

/// Five tier texts out of a list, padded with empty texts.
pub fn fill_tier_texts(texts: &Vec<String>) -> (filled: Vec<String>)
    ensures
        holds_tier_texts(filled@, texts@),
{
    let mut filled: Vec<String> = Vec::new();
    let mut i: usize = 0;
    while i < 5
        invariant
            i <= 5,
            filled@.len() == i,
            forall|j: int| 0 <= j < i ==> (#[trigger] filled@[j])@ == tier_text(texts@, j),
        decreases 5 - i,
    {
        if i < texts.len() {
            filled.push(texts[i].clone());
        } else {
            filled.push(String::new());
        }
        i = i + 1;
    }
    filled
}

/// Creates the collection settings with nothing minted yet.
pub fn initialize_collection(
    accounts: InitializeCollection,
    tier_names: &Vec<String>,
    tier_symbols: &Vec<String>,
    tier_uri_prefixes: &Vec<String>,
) -> (collection: CollectionConfig)
    ensures
        holds_tier_texts(collection.tier_names@, tier_names@),
        holds_tier_texts(collection.tier_symbols@, tier_symbols@),
        holds_tier_texts(collection.tier_uri_prefixes@, tier_uri_prefixes@),
        forall|i: int| 0 <= i < 5 ==> collection.tier_minted[i] == 0,
        crate::swap::swaps::supply_respected(collection),
        collection == (CollectionConfig {
            authority: accounts.authority,
            collection_mint: accounts.collection_mint,
            treasury: accounts.treasury,
            defai_mint: accounts.defai_mint,
            old_defai_mint: accounts.old_defai_mint,
            tier_names: collection.tier_names,
            tier_symbols: collection.tier_symbols,
            tier_prices: accounts.tier_prices,
            tier_supplies: accounts.tier_supplies,
            tier_minted: collection.tier_minted,
            tier_uri_prefixes: collection.tier_uri_prefixes,
            og_tier_0_merkle_root: accounts.og_tier_0_merkle_root,
            airdrop_merkle_root: accounts.airdrop_merkle_root,
            og_tier_0_supply: accounts.og_tier_0_supply,
            og_tier_0_minted: 0,
        }),
{
    CollectionConfig {
        authority: accounts.authority,
        collection_mint: accounts.collection_mint,
        treasury: accounts.treasury,
        defai_mint: accounts.defai_mint,
        old_defai_mint: accounts.old_defai_mint,
        tier_names: fill_tier_texts(tier_names),
        tier_symbols: fill_tier_texts(tier_symbols),
        tier_prices: accounts.tier_prices,
        tier_supplies: accounts.tier_supplies,
        tier_minted: [0u16; 5],
        tier_uri_prefixes: fill_tier_texts(tier_uri_prefixes),
        og_tier_0_merkle_root: accounts.og_tier_0_merkle_root,
        airdrop_merkle_root: accounts.airdrop_merkle_root,
        og_tier_0_supply: accounts.og_tier_0_supply,
        og_tier_0_minted: 0,
    }
}

} // verus!
