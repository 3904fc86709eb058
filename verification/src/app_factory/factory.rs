//! Setting up the marketplace and putting applications on sale.

use vstd::prelude::*;
use crate::app_factory::state::{
    factory_wf,
    listing_wf,
    AppFactory,
    AppFactoryError,
    AppRegistered,
    AppRegistration,
    AppStatusChanged,
    Mint,
    PlatformSettingsUpdated,
    DEFAI_DECIMALS,
    MAX_METADATA_URI_LEN,
};
use crate::types::{byte_len, is_some_key, text_len, Pubkey};

verus! {

/// What a new marketplace is set up with.
#[derive(Clone, Copy, Debug, PartialEq, Eq)]
pub struct InitializeAppFactory {
    pub authority: Pubkey,
    pub defai_mint: Pubkey,
    pub defai_mint_info: Mint,
    pub treasury: Pubkey,
    /// Whether the treasury is an ordinary wallet.
    pub treasury_is_system_account: bool,
    pub master_collection: Pubkey,
    pub master_collection_info: Mint,
    pub bump: u8,
}

/// The first check that fails when the marketplace is set up, if any.
pub open spec fn initialize_error(accounts: InitializeAppFactory, platform_fee_bps: u16) -> Option<
    AppFactoryError,
> {
    if accounts.defai_mint_info.mint_authority is None {
        Some(AppFactoryError::InvalidDefaiMint)
    } else if accounts.defai_mint_info.decimals != DEFAI_DECIMALS {
        Some(AppFactoryError::InvalidMintDecimals)
    } else if !accounts.treasury_is_system_account {
        Some(AppFactoryError::InvalidTreasury)
    } else if accounts.master_collection_info.supply == 0 {
        Some(AppFactoryError::InvalidCollection)
    } else if platform_fee_bps > 10_000 {
        Some(AppFactoryError::InvalidPlatformFee)
    } else {
        None
    }
}

/// Sets the marketplace up with a platform fee of at most 100%.
pub fn initialize_app_factory(accounts: &InitializeAppFactory, platform_fee_bps: u16) -> (outcome:
    Result<AppFactory, AppFactoryError>)
    ensures
        match outcome {
            Ok(factory) => {
                &&& initialize_error(*accounts, platform_fee_bps) is None
                &&& factory == (AppFactory {
                    authority: accounts.authority,
                    defai_mint: accounts.defai_mint,
                    treasury: accounts.treasury,
                    master_collection: accounts.master_collection,
                    platform_fee_bps,
                    total_apps: 0,
                    bump: accounts.bump,
                    pending_authority: None,
                })
                &&& factory_wf(factory)
            },
            Err(e) => initialize_error(*accounts, platform_fee_bps) == Some(e),
        },
{
    if accounts.defai_mint_info.mint_authority.is_none() {
        return Err(AppFactoryError::InvalidDefaiMint);
    }
    if accounts.defai_mint_info.decimals != DEFAI_DECIMALS {
        return Err(AppFactoryError::InvalidMintDecimals);
    }
    if !accounts.treasury_is_system_account {
        return Err(AppFactoryError::InvalidTreasury);
    }
    if accounts.master_collection_info.supply == 0 {
        return Err(AppFactoryError::InvalidCollection);
    }
    if platform_fee_bps > 10_000 {
        return Err(AppFactoryError::InvalidPlatformFee);
    }
    Ok(
        AppFactory {
            authority: accounts.authority,
            defai_mint: accounts.defai_mint,
            treasury: accounts.treasury,
            master_collection: accounts.master_collection,
            platform_fee_bps,
            total_apps: 0,
            bump: accounts.bump,
            pending_authority: None,
        },
    )
}

/// What an application is registered with.
#[derive(Clone, Copy, Debug, PartialEq, Eq)]
pub struct RegisterApp {
    pub creator: Pubkey,
    /// The address of the application's own record, which must control the
    /// mint of its access tokens.
    pub app_registration: Pubkey,
    pub sft_mint: Pubkey,
    pub sft_mint_info: Mint,
    pub bump: u8,
}

/// The first of the checks on an application's mint that fails, if any: the
/// application's record must be able to mint and to freeze, and the mint
/// must be unused and indivisible.
pub open spec fn sft_mint_error(accounts: RegisterApp) -> Option<AppFactoryError> {
    if accounts.sft_mint_info.mint_authority != Some(accounts.app_registration) {
        Some(AppFactoryError::InvalidMintAuthority)
    } else if accounts.sft_mint_info.freeze_authority != Some(accounts.app_registration) {
        Some(AppFactoryError::InvalidFreezeAuthority)
    } else if accounts.sft_mint_info.supply != 0 {
        Some(AppFactoryError::MintAlreadyInUse)
    } else if accounts.sft_mint_info.decimals != 0 {
        Some(AppFactoryError::InvalidMintDecimals)
    } else {
        None
    }
}

/// The first check that fails when an application is registered, if any.
pub open spec fn register_error(
    factory: AppFactory,
    accounts: RegisterApp,
    price: u64,
    max_supply: u64,
    metadata_uri: Seq<char>,
) -> Option<AppFactoryError> {
    if sft_mint_error(accounts) is Some {
        sft_mint_error(accounts)
    } else if price == 0 {
        Some(AppFactoryError::InvalidPrice)
    } else if max_supply == 0 {
        Some(AppFactoryError::InvalidMaxSupply)
    } else if text_len(metadata_uri) > MAX_METADATA_URI_LEN {
        Some(AppFactoryError::MetadataUriTooLong)
    } else if factory.total_apps == u64::MAX {
        Some(AppFactoryError::MathOverflow)
    } else {
        None
    }
}

/// Puts an application on sale and gives it the next id.  The price and the
/// supply must not be zero and the metadata URI must be at most 100 bytes.
/// The application starts active with nothing sold.
pub fn register_app(
    factory: &mut AppFactory,
    accounts: &RegisterApp,
    price: u64,
    max_supply: u64,
    metadata_uri: String,
    now: i64,
) -> (outcome: Result<(AppRegistration, AppRegistered), AppFactoryError>)
    ensures
        match outcome {
            Ok((app, event)) => {
                &&& register_error(*old(factory), *accounts, price, max_supply, metadata_uri@)
                    is None
                &&& *final(factory) == (AppFactory {
                    total_apps: (old(factory).total_apps + 1) as u64,
                    ..*old(factory)
                })
                &&& app == (AppRegistration {
                    app_id: old(factory).total_apps,
                    creator: accounts.creator,
                    sft_mint: accounts.sft_mint,
                    price,
                    max_supply,
                    current_supply: 0,
                    is_active: true,
                    metadata_uri,
                    created_at: now,
                    bump: accounts.bump,
                })
                &&& listing_wf(app)
                &&& event == (AppRegistered {
                    app_id: old(factory).total_apps,
                    creator: accounts.creator,
                    sft_mint: accounts.sft_mint,
                    price,
                    max_supply,
                    timestamp: now,
                })
            },
            Err(e) => register_error(*old(factory), *accounts, price, max_supply, metadata_uri@)
                == Some(e) && *final(factory) == *old(factory),
        },
{
    if !is_some_key(accounts.sft_mint_info.mint_authority, accounts.app_registration) {
        return Err(AppFactoryError::InvalidMintAuthority);
    }
    if !is_some_key(accounts.sft_mint_info.freeze_authority, accounts.app_registration) {
        return Err(AppFactoryError::InvalidFreezeAuthority);
    }
    if accounts.sft_mint_info.supply != 0 {
        return Err(AppFactoryError::MintAlreadyInUse);
    }
    if accounts.sft_mint_info.decimals != 0 {
        return Err(AppFactoryError::InvalidMintDecimals);
    }
    if price == 0 {
        return Err(AppFactoryError::InvalidPrice);
    }
    if max_supply == 0 {
        return Err(AppFactoryError::InvalidMaxSupply);
    }
    if byte_len(&metadata_uri) > MAX_METADATA_URI_LEN {
        return Err(AppFactoryError::MetadataUriTooLong);
    }
    if factory.total_apps == u64::MAX {
        return Err(AppFactoryError::MathOverflow);
    }
    let app_id = factory.total_apps;
    factory.total_apps = app_id + 1;
    Ok(
        (
            AppRegistration {
                app_id,
                creator: accounts.creator,
                sft_mint: accounts.sft_mint,
                price,
                max_supply,
                current_supply: 0,
                is_active: true,
                metadata_uri,
                created_at: now,
                bump: accounts.bump,
            },
            AppRegistered {
                app_id,
                creator: accounts.creator,
                sft_mint: accounts.sft_mint,
                price,
                max_supply,
                timestamp: now,
            },
        ),
    )
}

/// Takes an application off sale, or puts it back on.  Only its creator may
/// do so.
pub fn toggle_app_status(app: &mut AppRegistration, creator: Pubkey, now: i64) -> (outcome: Result<
    AppStatusChanged,
    AppFactoryError,
>)
    ensures
        match outcome {
            Ok(event) => {
                &&& creator == old(app).creator
                &&& *final(app) == (AppRegistration { is_active: !old(app).is_active, ..*old(app) })
                &&& event == (AppStatusChanged {
                    app_id: old(app).app_id,
                    is_active: !old(app).is_active,
                    timestamp: now,
                })
            },
            Err(e) => creator != old(app).creator && e == AppFactoryError::UnauthorizedCreator
                && *final(app) == *old(app),
        },
        listing_wf(*old(app)) ==> listing_wf(*final(app)),
{
    if creator != app.creator {
        return Err(AppFactoryError::UnauthorizedCreator);
    }
    app.is_active = !app.is_active;
    Ok(AppStatusChanged { app_id: app.app_id, is_active: app.is_active, timestamp: now })
}

/// The first check that fails when the platform settings are changed, if any.
pub open spec fn settings_error(factory: AppFactory, authority: Pubkey, new_fee: Option<u16>) -> Option<
    AppFactoryError,
> {
    if authority != factory.authority {
        Some(AppFactoryError::UnauthorizedAuthority)
    } else if new_fee is Some && new_fee->0 > 10_000 {
        Some(AppFactoryError::InvalidPlatformFee)
    } else {
        None
    }
}

/// The settings after a change: each of the fee and the treasury is
/// replaced where a new one is given, and stays where none is.
pub open spec fn settings_updated(
    factory: AppFactory,
    new_fee: Option<u16>,
    new_treasury: Option<Pubkey>,
) -> AppFactory {
    AppFactory {
        platform_fee_bps: match new_fee {
            Some(fee) => fee,
            None => factory.platform_fee_bps,
        },
        treasury: match new_treasury {
            Some(treasury) => treasury,
            None => factory.treasury,
        },
        ..factory
    }
}

/// Changes the platform fee, the treasury, or both.  Only the authority may
/// do so, and the fee stays at most 100%.
pub fn update_platform_settings(
    factory: &mut AppFactory,
    authority: Pubkey,
    new_platform_fee_bps: Option<u16>,
    new_treasury: Option<Pubkey>,
    now: i64,
) -> (outcome: Result<PlatformSettingsUpdated, AppFactoryError>)
    ensures
        match outcome {
            Ok(event) => {
                &&& settings_error(*old(factory), authority, new_platform_fee_bps) is None
                &&& *final(factory) == settings_updated(
                    *old(factory),
                    new_platform_fee_bps,
                    new_treasury,
                )
                &&& event == (PlatformSettingsUpdated {
                    platform_fee_bps: new_platform_fee_bps,
                    treasury: new_treasury,
                    timestamp: now,
                })
            },
            Err(e) => settings_error(*old(factory), authority, new_platform_fee_bps) == Some(e)
                && *final(factory) == *old(factory),
        },
        factory_wf(*old(factory)) ==> factory_wf(*final(factory)),
{
    if authority != factory.authority {
        return Err(AppFactoryError::UnauthorizedAuthority);
    }
    match new_platform_fee_bps {
        Some(fee) => {
            if fee > 10_000 {
                return Err(AppFactoryError::InvalidPlatformFee);
            }
            factory.platform_fee_bps = fee;
        },
        None => {},
    }
    match new_treasury {
        Some(treasury) => {
            factory.treasury = treasury;
        },
        None => {},
    }
    Ok(
        PlatformSettingsUpdated {
            platform_fee_bps: new_platform_fee_bps,
            treasury: new_treasury,
            timestamp: now,
        },
    )
}

} // verus!
