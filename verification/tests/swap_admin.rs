use defai_core::swap::admin::{
    accept_admin_change, admin_withdraw, admin_withdraw_token2022, enable_vrf, fill_tier_texts,
    init_escrow_old, initialize, initialize_collection, initialize_whitelist, pause,
    propose_admin_change, tier_prices, unpause, update_prices, update_treasury, Initialize,
    InitializeCollection,
};
use defai_core::swap::state::{
    AdminAction, AdminActionKind, Config, ErrorCode, Escrow, TaxState, Whitelist, WHITELIST_ROOT,
};
use defai_core::types::Pubkey;

fn admin_key(tag: u8) -> Pubkey {
    Pubkey::new([tag; 32])
}

fn init_accounts() -> Initialize {
    Initialize {
        admin: admin_key(1),
        old_mint: admin_key(2),
        new_mint: admin_key(3),
        collection: admin_key(4),
        treasury: admin_key(5),
        escrow_bump: 254,
        tax_state_bump: 253,
    }
}

fn fresh_config() -> Config {
    initialize(&init_accounts(), &vec![10, 20, 30, 40, 50], 1_000).unwrap().0
}

#[test]
fn initialize_records_prices_and_switches_the_oracle_on() {
    let (config, escrow, tax_state) = initialize(&init_accounts(), &vec![10, 20, 30, 40, 50], 1_000).unwrap();
    assert_eq!(
        config,
        Config {
            admin: admin_key(1),
            old_mint: admin_key(2),
            new_mint: admin_key(3),
            collection: admin_key(4),
            treasury: admin_key(5),
            prices: [10, 20, 30, 40, 50],
            paused: false,
            pending_admin: None,
            admin_change_timestamp: 0,
            vrf_enabled: true,
        }
    );
    assert_eq!(escrow, Escrow { bump: 254 });
    assert_eq!(tax_state, TaxState { current_bps: 500, bump: 253, last_reset_ts: 1_000 });
}

#[test]
fn initialize_needs_exactly_five_prices() {
    assert_eq!(initialize(&init_accounts(), &vec![1, 2, 3, 4], 0), Err(ErrorCode::InvalidInput));
    assert_eq!(initialize(&init_accounts(), &vec![1, 2, 3, 4, 5, 6], 0), Err(ErrorCode::InvalidInput));
    assert_eq!(initialize(&init_accounts(), &vec![], 0), Err(ErrorCode::InvalidInput));
    assert_eq!(tier_prices(&vec![1, 2, 3, 4, 5]), Some([1, 2, 3, 4, 5]));
    assert_eq!(tier_prices(&vec![1]), None);
}

#[test]
fn escrow_creation_is_for_the_admin_only() {
    let config = fresh_config();
    assert_eq!(init_escrow_old(&config, admin_key(1)), Ok(()));
    assert_eq!(init_escrow_old(&config, admin_key(9)), Err(ErrorCode::Unauthorized));
}

#[test]
fn update_prices_checks_the_list_before_the_caller() {
    let mut config = fresh_config();
    assert_eq!(update_prices(&mut config, admin_key(9), &vec![1, 2]), Err(ErrorCode::InvalidInput));
    assert_eq!(update_prices(&mut config, admin_key(9), &vec![1, 2, 3, 4, 5]), Err(ErrorCode::Unauthorized));
    assert_eq!(config, fresh_config());
    assert_eq!(update_prices(&mut config, admin_key(1), &vec![1, 2, 3, 4, 5]), Ok(()));
    assert_eq!(config.prices, [1, 2, 3, 4, 5]);
    assert_eq!(config, Config { prices: [1, 2, 3, 4, 5], ..fresh_config() });
}

#[test]
fn update_treasury_is_for_the_admin_only() {
    let mut config = fresh_config();
    assert_eq!(update_treasury(&mut config, admin_key(9), admin_key(7)), Err(ErrorCode::Unauthorized));
    assert_eq!(config, fresh_config());
    assert_eq!(update_treasury(&mut config, admin_key(1), admin_key(7)), Ok(()));
    assert_eq!(config, Config { treasury: admin_key(7), ..fresh_config() });
}

#[test]
fn pause_and_unpause_alternate() {
    let mut config = fresh_config();
    assert_eq!(unpause(&mut config, admin_key(1), 5), Err(ErrorCode::NotPaused));
    assert_eq!(pause(&mut config, admin_key(9), 5), Err(ErrorCode::Unauthorized));
    assert_eq!(
        pause(&mut config, admin_key(1), 5),
        Ok(AdminAction { admin: admin_key(1), action: AdminActionKind::Pause, timestamp: 5 })
    );
    assert!(config.paused);
    assert_eq!(pause(&mut config, admin_key(1), 6), Err(ErrorCode::AlreadyPaused));
    assert_eq!(unpause(&mut config, admin_key(9), 6), Err(ErrorCode::Unauthorized));
    assert_eq!(
        unpause(&mut config, admin_key(1), 7),
        Ok(AdminAction { admin: admin_key(1), action: AdminActionKind::Unpause, timestamp: 7 })
    );
    assert_eq!(config, fresh_config());
}

#[test]
fn whitelist_starts_with_the_built_in_root() {
    let config = fresh_config();
    assert_eq!(initialize_whitelist(&config, admin_key(9)), Err(ErrorCode::Unauthorized));
    assert_eq!(
        initialize_whitelist(&config, admin_key(1)),
        Ok(Whitelist { root: WHITELIST_ROOT, claimed_count: 0 })
    );
    assert_eq!(WHITELIST_ROOT[0], 75);
    assert_eq!(WHITELIST_ROOT[31], 142);
}

#[test]
fn admin_change_waits_for_the_timelock() {
    let mut config = fresh_config();
    assert_eq!(accept_admin_change(&mut config, admin_key(1), 10), Err(ErrorCode::NoPendingAdminChange));
    assert_eq!(propose_admin_change(&mut config, admin_key(9), admin_key(8), 10), Err(ErrorCode::Unauthorized));
    let event = propose_admin_change(&mut config, admin_key(1), admin_key(8), 10).unwrap();
    assert_eq!(
        event,
        AdminAction {
            admin: admin_key(1),
            action: AdminActionKind::ProposeAdminChange { new_admin: admin_key(8) },
            timestamp: 10
        }
    );
    assert_eq!(config.pending_admin, Some(admin_key(8)));
    assert_eq!(config.admin_change_timestamp, 10 + 172_800);
    assert_eq!(accept_admin_change(&mut config, admin_key(1), 10 + 172_799), Err(ErrorCode::TimelockNotExpired));
    assert_eq!(accept_admin_change(&mut config, admin_key(8), 10 + 172_800), Err(ErrorCode::Unauthorized));
    let event = accept_admin_change(&mut config, admin_key(1), 10 + 172_800).unwrap();
    assert_eq!(
        event,
        AdminAction {
            admin: admin_key(1),
            action: AdminActionKind::AdminChanged { new_admin: admin_key(8) },
            timestamp: 172_810
        }
    );
    assert_eq!(config, Config { admin: admin_key(8), ..fresh_config() });
    assert_eq!(accept_admin_change(&mut config, admin_key(8), 500_000), Err(ErrorCode::NoPendingAdminChange));
}

#[test]
fn admin_proposal_at_the_end_of_time_overflows() {
    let mut config = fresh_config();
    assert_eq!(
        propose_admin_change(&mut config, admin_key(1), admin_key(8), i64::MAX - 172_799),
        Err(ErrorCode::MathOverflow)
    );
    assert_eq!(config, fresh_config());
    assert!(propose_admin_change(&mut config, admin_key(1), admin_key(8), i64::MAX - 172_800).is_ok());
    assert_eq!(config.admin_change_timestamp, i64::MAX);
}

#[test]
fn oracle_path_is_enabled_once() {
    let mut config = fresh_config();
    assert_eq!(enable_vrf(&mut config, admin_key(1), 3), Err(ErrorCode::VrfAlreadyEnabled));
    config.vrf_enabled = false;
    assert_eq!(enable_vrf(&mut config, admin_key(9), 3), Err(ErrorCode::Unauthorized));
    assert_eq!(
        enable_vrf(&mut config, admin_key(1), 3),
        Ok(AdminAction { admin: admin_key(1), action: AdminActionKind::EnableVrf, timestamp: 3 })
    );
    assert!(config.vrf_enabled);
}

#[test]
fn withdrawals_are_for_the_admin_only() {
    let config = fresh_config();
    assert_eq!(admin_withdraw(&config, admin_key(9), 5, 1), Err(ErrorCode::Unauthorized));
    assert_eq!(admin_withdraw_token2022(&config, admin_key(9), 5, 1), Err(ErrorCode::Unauthorized));
    assert_eq!(
        admin_withdraw(&config, admin_key(1), 5, 1),
        Ok(AdminAction { admin: admin_key(1), action: AdminActionKind::Withdraw { amount: 5 }, timestamp: 1 })
    );
    assert_eq!(
        admin_withdraw_token2022(&config, admin_key(1), 6, 2),
        Ok(AdminAction {
            admin: admin_key(1),
            action: AdminActionKind::WithdrawToken2022 { amount: 6 },
            timestamp: 2
        })
    );
}

#[test]
fn collection_texts_are_padded_to_five_tiers() {
    let names = vec!["OG".to_string(), "Train".to_string()];
    assert_eq!(
        fill_tier_texts(&names),
        vec!["OG".to_string(), "Train".to_string(), String::new(), String::new(), String::new()]
    );
    let seven: Vec<String> = (0..7).map(|i| format!("t{}", i)).collect();
    assert_eq!(fill_tier_texts(&seven), seven[..5].to_vec());
    let accounts = InitializeCollection {
        authority: admin_key(1),
        collection_mint: admin_key(2),
        treasury: admin_key(3),
        defai_mint: admin_key(4),
        old_defai_mint: admin_key(5),
        tier_prices: [1, 2, 3, 4, 5],
        tier_supplies: [10, 20, 30, 40, 50],
        og_tier_0_merkle_root: [6; 32],
        airdrop_merkle_root: [7; 32],
        og_tier_0_supply: 4,
    };
    let collection = initialize_collection(accounts, &names, &vec![], &seven);
    assert_eq!(collection.tier_names.len(), 5);
    assert_eq!(collection.tier_names[1], "Train");
    assert_eq!(collection.tier_names[4], "");
    assert_eq!(collection.tier_symbols, vec![String::new(); 5]);
    assert_eq!(collection.tier_uri_prefixes[4], "t4");
    assert_eq!(collection.tier_minted, [0; 5]);
    assert_eq!(collection.og_tier_0_minted, 0);
    assert_eq!(collection.og_tier_0_supply, 4);
    assert_eq!(collection.tier_prices, [1, 2, 3, 4, 5]);
    assert_eq!(collection.tier_supplies, [10, 20, 30, 40, 50]);
    assert_eq!(collection.airdrop_merkle_root, [7; 32]);
    assert_eq!(collection.og_tier_0_merkle_root, [6; 32]);
    assert_eq!(collection.authority, admin_key(1));
}
