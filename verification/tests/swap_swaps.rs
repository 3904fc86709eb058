use defai_core::merkle::{compute_leaf, hash_sorted_pair};
use defai_core::swap::admin::{initialize_collection, InitializeCollection};
use defai_core::swap::bonus::{bonus_for_tier, derive_bonus, draw_random, get_tier_bonus_range};
use defai_core::swap::state::{
    BonusStateV6, CollectionConfig, Config, ErrorCode, OgTier0Claim, SwapExecuted, UserTaxState,
    VestingStateV6,
};
use defai_core::swap::swaps::{
    check_old_accounts, complete_defai_swap, complete_old_defai_swap, swap_defai_for_pnft_v6,
    swap_og_tier0_for_pnft_v6, swap_old_defai_for_pnft_v6, tier_has_supply, SwapOldDefaiForPnftV6,
    SwapReceipt,
};
use defai_core::swap::tax::initialize_user_tax;
use defai_core::swap::vrf::{initialize_vrf, VrfState};
use defai_core::types::{Clock, Pubkey, TokenAccount};

const VESTING: i64 = 7_776_000;
const VRF7_VALUE: u64 = 7_698_142_389_021_903_762;
const FALLBACK_VALUE: u64 = 1_561_687_044_091_316_763;

fn sk(tag: u8) -> Pubkey {
    Pubkey::new([tag; 32])
}

fn config(vrf_enabled: bool) -> Config {
    Config {
        admin: sk(100),
        old_mint: sk(101),
        new_mint: sk(102),
        collection: sk(103),
        treasury: sk(104),
        prices: [1_000, 10_000, 100_000, 1_000_000, 10_000_000],
        paused: false,
        pending_admin: None,
        admin_change_timestamp: 0,
        vrf_enabled,
    }
}

fn collection() -> CollectionConfig {
    initialize_collection(
        InitializeCollection {
            authority: sk(100),
            collection_mint: sk(103),
            treasury: sk(104),
            defai_mint: sk(102),
            old_defai_mint: sk(101),
            tier_prices: [1_000, 10_000, 100_000, 1_000_000, 10_000_000],
            tier_supplies: [5, 2, 2, 2, 1],
            og_tier_0_merkle_root: [0; 32],
            airdrop_merkle_root: [0; 32],
            og_tier_0_supply: 3,
        },
        &vec![],
        &vec![],
        &vec![],
    )
}

fn vrf_with(result: [u8; 32]) -> VrfState {
    let mut vrf = initialize_vrf(255, sk(50));
    vrf.result_buffer = result;
    vrf
}

fn clock(now: i64) -> Clock {
    Clock { slot: 55, epoch: 2, unix_timestamp: now }
}

fn old_accounts() -> SwapOldDefaiForPnftV6 {
    SwapOldDefaiForPnftV6 {
        user_old: TokenAccount { mint: sk(101), owner: sk(1), amount: 1_000_000_000 },
        old_defai_mint: sk(101),
        escrow_old: TokenAccount { mint: sk(101), owner: sk(60), amount: 0 },
        escrow: sk(60),
    }
}

#[test]
fn tier_ranges_are_fixed() {
    assert_eq!(get_tier_bonus_range(0), (0, 0));
    assert_eq!(get_tier_bonus_range(1), (0, 1_500));
    assert_eq!(get_tier_bonus_range(2), (1_500, 5_000));
    assert_eq!(get_tier_bonus_range(3), (2_000, 10_000));
    assert_eq!(get_tier_bonus_range(4), (5_000, 30_000));
    assert_eq!(get_tier_bonus_range(5), (0, 0));
    assert_eq!(get_tier_bonus_range(255), (0, 0));
}

#[test]
fn bonus_is_picked_within_the_tier_range() {
    assert_eq!(bonus_for_tier(0, 12_345), 0);
    assert_eq!(bonus_for_tier(1, 0), 0);
    assert_eq!(bonus_for_tier(1, 1_500), 1_500);
    assert_eq!(bonus_for_tier(1, 1_501), 0);
    assert_eq!(bonus_for_tier(2, 0), 1_500);
    assert_eq!(bonus_for_tier(2, 3_500), 5_000);
    assert_eq!(bonus_for_tier(2, 3_501), 1_500);
    assert_eq!(bonus_for_tier(4, 25_000), 30_000);
    assert_eq!(bonus_for_tier(4, u64::MAX), 5_000 + (u64::MAX % 25_001) as u16);
    assert_eq!(bonus_for_tier(9, 77), 0);
    for value in [0u64, 1, 999, 123_456_789, u64::MAX] {
        for tier in 0u8..5 {
            let (lo, hi) = get_tier_bonus_range(tier);
            let b = bonus_for_tier(tier, value);
            assert!(lo <= b && b <= hi);
        }
    }
}

#[test]
fn draw_uses_the_oracle_result_when_the_oracle_path_is_on() {
    let vrf = vrf_with([7; 32]);
    assert_eq!(draw_random(&config(true), &vrf, &sk(1), &sk(9), &clock(1_000), &[3; 32]), Ok(VRF7_VALUE));
    assert_eq!(draw_random(&config(true), &vrf, &sk(1), &sk(9), &clock(99), &[4; 32]), Ok(VRF7_VALUE));
}

#[test]
fn draw_fails_while_the_oracle_result_is_missing() {
    let vrf = vrf_with([0; 32]);
    assert_eq!(
        draw_random(&config(true), &vrf, &sk(1), &sk(9), &clock(1_000), &[3; 32]),
        Err(ErrorCode::VrfNotReady)
    );
}

#[test]
fn draw_falls_back_to_clock_and_block_hash() {
    let vrf = vrf_with([0; 32]);
    assert_eq!(
        draw_random(&config(false), &vrf, &sk(1), &sk(9), &clock(1_000), &[3; 32]),
        Ok(FALLBACK_VALUE)
    );
    assert_ne!(
        draw_random(&config(false), &vrf, &sk(1), &sk(9), &clock(1_001), &[3; 32]),
        Ok(FALLBACK_VALUE)
    );
}

#[test]
fn derive_bonus_uses_the_oracle_result_up() {
    let mut vrf = vrf_with([7; 32]);
    assert_eq!(derive_bonus(&config(true), &mut vrf, &sk(1), &sk(9), 2, &clock(1_000), &[3; 32]), Ok(4_638));
    assert_eq!(vrf.result_buffer, [0; 32]);
    assert_eq!(
        derive_bonus(&config(true), &mut vrf, &sk(1), &sk(9), 2, &clock(1_000), &[3; 32]),
        Err(ErrorCode::VrfNotReady)
    );
    let mut vrf = vrf_with([7; 32]);
    assert_eq!(derive_bonus(&config(false), &mut vrf, &sk(1), &sk(9), 1, &clock(1_000), &[3; 32]), Ok(1_282));
    assert_eq!(vrf.result_buffer, [7; 32]);
    assert_eq!(derive_bonus(&config(false), &mut vrf, &sk(1), &sk(9), 4, &clock(1_000), &[3; 32]), Ok(7_437));
}

#[test]
fn paid_swap_splits_the_price_and_opens_the_schedule() {
    let mut cc = collection();
    let mut tax = initialize_user_tax(sk(1), 0);
    let receipt = complete_defai_swap(&config(true), &mut cc, &mut tax, sk(1), sk(9), 2, 1_000, 3_500).unwrap();
    assert_eq!(
        receipt,
        SwapReceipt {
            bonus_state: BonusStateV6 {
                mint: sk(9),
                tier: 2,
                bonus_bps: 5_000,
                vesting_start: 1_000,
                vesting_duration: VESTING,
                claimed: false,
                fee_deducted: 0,
            },
            vesting_state: VestingStateV6 {
                mint: sk(9),
                total_amount: 50_000,
                released_amount: 0,
                start_timestamp: 1_000,
                end_timestamp: 1_000 + VESTING,
                last_claimed_timestamp: 1_000,
            },
            tax_amount: 5_000,
            escrow_amount: 95_000,
            event: SwapExecuted {
                user: sk(1),
                tier: 2,
                price: 100_000,
                tax_amount: 5_000,
                bonus_bps: 5_000,
                nft_mint: sk(9),
                timestamp: 1_000,
            },
        }
    );
    assert_eq!(cc.tier_minted, [0, 0, 1, 0, 0]);
    assert_eq!(tax, UserTaxState { user: sk(1), tax_rate_bps: 600, last_swap_timestamp: 1_000, swap_count: 1 });
}

#[test]
fn tax_escalates_within_the_cool_down_and_resets_after_it() {
    let mut cc = collection();
    cc.tier_supplies = [100; 5];
    let mut tax = initialize_user_tax(sk(1), 0);
    let cfg = config(true);
    let r1 = complete_defai_swap(&cfg, &mut cc, &mut tax, sk(1), sk(9), 1, 10, 0).unwrap();
    assert_eq!(r1.tax_amount, 500);
    assert_eq!(tax.tax_rate_bps, 600);
    let r2 = complete_defai_swap(&cfg, &mut cc, &mut tax, sk(1), sk(10), 1, 20, 0).unwrap();
    assert_eq!(r2.tax_amount, 600);
    assert_eq!(tax.tax_rate_bps, 700);
    let r3 = complete_defai_swap(&cfg, &mut cc, &mut tax, sk(1), sk(11), 1, 20 + 86_399, 0).unwrap();
    assert_eq!(r3.tax_amount, 700);
    assert_eq!(tax.tax_rate_bps, 800);
    assert_eq!(tax.swap_count, 3);
    let r4 = complete_defai_swap(&cfg, &mut cc, &mut tax, sk(1), sk(12), 1, 20 + 86_399 + 86_400, 0).unwrap();
    assert_eq!(r4.tax_amount, 500);
    assert_eq!(r4.escrow_amount, 9_500);
    assert_eq!(tax.tax_rate_bps, 600);
    assert_eq!(tax.swap_count, 1);
    assert_eq!(tax.last_swap_timestamp, 20 + 86_399 + 86_400);
}

#[test]
fn tax_rate_is_capped() {
    let mut cc = collection();
    cc.tier_supplies = [100; 5];
    let mut tax = UserTaxState { user: sk(1), tax_rate_bps: 2_950, last_swap_timestamp: 0, swap_count: 30 };
    let r = complete_defai_swap(&config(true), &mut cc, &mut tax, sk(1), sk(9), 1, 10, 0).unwrap();
    assert_eq!(r.tax_amount, 2_950);
    assert_eq!(tax.tax_rate_bps, 3_000);
    let r = complete_defai_swap(&config(true), &mut cc, &mut tax, sk(1), sk(10), 1, 11, 0).unwrap();
    assert_eq!(r.tax_amount, 3_000);
    assert_eq!(r.escrow_amount, 7_000);
    assert_eq!(tax.tax_rate_bps, 3_000);
}

#[test]
fn paid_swap_is_refused_in_order_of_its_checks() {
    let mut cc = collection();
    let mut tax = initialize_user_tax(sk(1), 0);
    let mut paused = config(true);
    paused.paused = true;
    assert_eq!(
        complete_defai_swap(&paused, &mut cc, &mut tax, sk(2), sk(9), 7, 0, 0),
        Err(ErrorCode::Unauthorized)
    );
    assert_eq!(
        complete_defai_swap(&paused, &mut cc, &mut tax, sk(1), sk(9), 5, 0, 0),
        Err(ErrorCode::InvalidTier)
    );
    assert_eq!(
        complete_defai_swap(&paused, &mut cc, &mut tax, sk(1), sk(9), 4, 0, 0),
        Err(ErrorCode::ProtocolPaused)
    );
    cc.tier_minted = [2, 2, 2, 2, 1];
    for tier in 0u8..5 {
        assert_eq!(
            complete_defai_swap(&config(true), &mut cc, &mut tax, sk(1), sk(9), tier, 0, 0),
            Err(ErrorCode::NoLiquidity)
        );
    }
    assert_eq!(cc.tier_minted, [2, 2, 2, 2, 1]);
    assert_eq!(tax, initialize_user_tax(sk(1), 0));
}

#[test]
fn tier_zero_keeps_the_whitelist_share_back() {
    let mut cc = collection();
    assert!(tier_has_supply(&cc, 0));
    cc.tier_minted[0] = 1;
    assert!(tier_has_supply(&cc, 0));
    cc.tier_minted[0] = 2;
    assert!(!tier_has_supply(&cc, 0));
    cc.og_tier_0_supply = 9;
    cc.tier_minted[0] = 0;
    assert!(!tier_has_supply(&cc, 0));
    assert!(tier_has_supply(&cc, 4));
    cc.tier_minted[4] = 1;
    assert!(!tier_has_supply(&cc, 4));
}

#[test]
fn paid_swap_reports_overflow_of_bonus_schedule_and_counter() {
    let mut cc = collection();
    cc.tier_prices[4] = u64::MAX;
    let mut tax = initialize_user_tax(sk(1), 0);
    assert_eq!(
        complete_defai_swap(&config(true), &mut cc, &mut tax, sk(1), sk(9), 4, 0, 25_000),
        Err(ErrorCode::MathOverflow)
    );
    let mut cc = collection();
    assert_eq!(
        complete_defai_swap(&config(true), &mut cc, &mut tax, sk(1), sk(9), 1, i64::MAX - VESTING + 1, 0),
        Err(ErrorCode::MathOverflow)
    );
    let mut full = UserTaxState { user: sk(1), tax_rate_bps: 500, last_swap_timestamp: 0, swap_count: u32::MAX };
    assert_eq!(
        complete_defai_swap(&config(true), &mut cc, &mut full, sk(1), sk(9), 1, 5, 0),
        Err(ErrorCode::MathOverflow)
    );
    let mut broken = UserTaxState { user: sk(1), tax_rate_bps: 20_000, last_swap_timestamp: 0, swap_count: 0 };
    assert_eq!(
        complete_defai_swap(&config(true), &mut cc, &mut broken, sk(1), sk(9), 1, 5, 0),
        Err(ErrorCode::MathOverflow)
    );
    assert_eq!(cc, collection());
    assert!(complete_defai_swap(&config(true), &mut cc, &mut tax, sk(1), sk(9), 1, i64::MAX - VESTING, 0).is_ok());
}

#[test]
fn paid_swap_draws_from_the_oracle_and_uses_its_result_up() {
    let mut cc = collection();
    let mut tax = initialize_user_tax(sk(1), 0);
    let mut vrf = vrf_with([7; 32]);
    let receipt = swap_defai_for_pnft_v6(
        &config(true), &mut cc, &mut tax, &mut vrf, sk(1), sk(9), 3, &clock(1_000), &[3; 32],
    )
    .unwrap();
    assert_eq!(receipt.bonus_state.bonus_bps, 7_298);
    assert_eq!(receipt.vesting_state.total_amount, 729_800);
    assert_eq!(receipt.tax_amount, 50_000);
    assert_eq!(receipt.escrow_amount, 950_000);
    assert_eq!(vrf.result_buffer, [0; 32]);
    assert_eq!(cc.tier_minted, [0, 0, 0, 1, 0]);
    let before = (cc.clone(), tax, vrf);
    assert_eq!(
        swap_defai_for_pnft_v6(&config(true), &mut cc, &mut tax, &mut vrf, sk(1), sk(10), 3, &clock(1_001), &[3; 32]),
        Err(ErrorCode::VrfNotReady)
    );
    assert_eq!((cc.clone(), tax, vrf), before);
}

#[test]
fn paid_swap_on_the_fallback_path_leaves_the_oracle_record_alone() {
    let mut cc = collection();
    let mut tax = initialize_user_tax(sk(1), 0);
    let mut vrf = vrf_with([0; 32]);
    let receipt = swap_defai_for_pnft_v6(
        &config(false), &mut cc, &mut tax, &mut vrf, sk(1), sk(9), 4, &clock(1_000), &[3; 32],
    )
    .unwrap();
    assert_eq!(receipt.bonus_state.bonus_bps, 7_437);
    assert_eq!(receipt.vesting_state.total_amount, 7_437_000);
    assert_eq!(vrf, vrf_with([0; 32]));
}

#[test]
fn swap_checks_come_before_the_draw() {
    let mut cc = collection();
    let mut tax = initialize_user_tax(sk(1), 0);
    let mut vrf = vrf_with([0; 32]);
    assert_eq!(
        swap_defai_for_pnft_v6(&config(true), &mut cc, &mut tax, &mut vrf, sk(1), sk(9), 5, &clock(0), &[3; 32]),
        Err(ErrorCode::InvalidTier)
    );
    cc.tier_minted[1] = 2;
    assert_eq!(
        swap_defai_for_pnft_v6(&config(true), &mut cc, &mut tax, &mut vrf, sk(1), sk(9), 1, &clock(0), &[3; 32]),
        Err(ErrorCode::NoLiquidity)
    );
    assert_eq!(
        swap_defai_for_pnft_v6(&config(true), &mut cc, &mut tax, &mut vrf, sk(2), sk(9), 1, &clock(0), &[3; 32]),
        Err(ErrorCode::Unauthorized)
    );
}

#[test]
fn old_token_swap_is_tax_exempt_and_keeps_the_cool_down() {
    let mut cc = collection();
    let mut tax = UserTaxState { user: sk(1), tax_rate_bps: 900, last_swap_timestamp: 77, swap_count: 4 };
    let receipt = complete_old_defai_swap(
        &config(true), &mut cc, &mut tax, &old_accounts(), sk(1), sk(9), 1, 1_000_000, 1_500,
    )
    .unwrap();
    assert_eq!(receipt.tax_amount, 0);
    assert_eq!(receipt.escrow_amount, 10_000);
    assert_eq!(receipt.bonus_state.bonus_bps, 1_500);
    assert_eq!(receipt.vesting_state.total_amount, 1_500);
    assert_eq!(receipt.vesting_state.end_timestamp, 1_000_000 + VESTING);
    assert_eq!(
        receipt.event,
        SwapExecuted {
            user: sk(1),
            tier: 1,
            price: 10_000,
            tax_amount: 0,
            bonus_bps: 1_500,
            nft_mint: sk(9),
            timestamp: 1_000_000
        }
    );
    assert_eq!(tax, UserTaxState { user: sk(1), tax_rate_bps: 900, last_swap_timestamp: 77, swap_count: 5 });
    assert_eq!(cc.tier_minted, [0, 1, 0, 0, 0]);
}

#[test]
fn old_token_swap_checks_its_accounts() {
    let cc = collection();
    let good = old_accounts();
    assert_eq!(check_old_accounts(&cc, &good, sk(1)), Ok(()));
    assert_eq!(check_old_accounts(&cc, &good, sk(2)), Err(ErrorCode::Unauthorized));
    let mut bad = good;
    bad.user_old.mint = sk(7);
    assert_eq!(check_old_accounts(&cc, &bad, sk(1)), Err(ErrorCode::InvalidMint));
    let mut bad = good;
    bad.old_defai_mint = sk(7);
    bad.user_old.mint = sk(7);
    bad.escrow_old.mint = sk(7);
    assert_eq!(check_old_accounts(&cc, &bad, sk(1)), Err(ErrorCode::InvalidMint));
    let mut bad = good;
    bad.escrow_old.owner = sk(61);
    assert_eq!(check_old_accounts(&cc, &bad, sk(1)), Err(ErrorCode::Unauthorized));
    let mut bad = good;
    bad.escrow_old.mint = sk(7);
    assert_eq!(check_old_accounts(&cc, &bad, sk(1)), Err(ErrorCode::InvalidMint));
}

#[test]
fn old_token_swap_draws_and_counts() {
    let mut cc = collection();
    let mut tax = initialize_user_tax(sk(1), 0);
    let mut vrf = vrf_with([7; 32]);
    let receipt = swap_old_defai_for_pnft_v6(
        &config(true), &mut cc, &mut tax, &mut vrf, &old_accounts(), sk(1), sk(9), 4, &clock(1_000), &[3; 32],
    )
    .unwrap();
    assert_eq!(receipt.bonus_state.bonus_bps, 8_047);
    assert_eq!(receipt.vesting_state.total_amount, 8_047_000);
    assert_eq!(receipt.escrow_amount, 10_000_000);
    assert_eq!(vrf.result_buffer, [0; 32]);
    assert_eq!(tax.tax_rate_bps, 500);
    assert_eq!(tax.swap_count, 1);
    assert_eq!(
        swap_old_defai_for_pnft_v6(
            &config(true), &mut cc, &mut tax, &mut vrf, &old_accounts(), sk(1), sk(9), 4, &clock(1_000), &[3; 32],
        ),
        Err(ErrorCode::NoLiquidity)
    );
    let mut paused = config(true);
    paused.paused = true;
    assert_eq!(
        swap_old_defai_for_pnft_v6(
            &paused, &mut cc, &mut tax, &mut vrf, &old_accounts(), sk(1), sk(9), 3, &clock(1_000), &[3; 32],
        ),
        Err(ErrorCode::ProtocolPaused)
    );
    assert_eq!(
        swap_old_defai_for_pnft_v6(
            &config(true), &mut cc, &mut tax, &mut vrf, &old_accounts(), sk(1), sk(9), 9, &clock(1_000), &[3; 32],
        ),
        Err(ErrorCode::InvalidTier)
    );
    assert_eq!(
        swap_old_defai_for_pnft_v6(
            &config(true), &mut cc, &mut tax, &mut vrf, &old_accounts(), sk(1), sk(9), 3, &clock(1_000), &[3; 32],
        ),
        Err(ErrorCode::VrfNotReady)
    );
}

#[test]
fn whitelisted_holder_gets_the_free_nft_once() {
    let mut cc = collection();
    let other = compute_leaf(sk(2), 900);
    cc.og_tier_0_merkle_root = hash_sorted_pair(&compute_leaf(sk(1), 5_000), &other);
    let mut claim = OgTier0Claim { claimer: Pubkey::zero(), claimed: false };
    let mut vrf = vrf_with([7; 32]);
    let proof = vec![other];
    let receipt = swap_og_tier0_for_pnft_v6(
        &config(true), &mut cc, &mut claim, &mut vrf, sk(1), sk(9), 5_000, &proof, &clock(1_000), &[3; 32],
    )
    .unwrap();
    assert_eq!(receipt.tax_amount, 0);
    assert_eq!(receipt.escrow_amount, 0);
    assert_eq!(receipt.bonus_state.tier, 0);
    assert_eq!(receipt.bonus_state.bonus_bps, 0);
    assert_eq!(receipt.vesting_state.total_amount, 5_000);
    assert_eq!(receipt.vesting_state.end_timestamp, 1_000 + VESTING);
    assert_eq!(receipt.event.price, 0);
    assert_eq!(claim, OgTier0Claim { claimer: sk(1), claimed: true });
    assert_eq!(cc.og_tier_0_minted, 1);
    assert_eq!(cc.tier_minted, [0; 5]);
    assert_eq!(vrf.result_buffer, [0; 32]);
    vrf.result_buffer = [8; 32];
    assert_eq!(
        swap_og_tier0_for_pnft_v6(
            &config(true), &mut cc, &mut claim, &mut vrf, sk(1), sk(10), 5_000, &proof, &clock(1_001), &[3; 32],
        ),
        Err(ErrorCode::OgTier0AlreadyClaimed)
    );
}

#[test]
fn whitelist_swap_is_refused_in_order_of_its_checks() {
    let mut cc = collection();
    let other = compute_leaf(sk(2), 900);
    cc.og_tier_0_merkle_root = hash_sorted_pair(&compute_leaf(sk(1), 5_000), &other);
    let mut claim = OgTier0Claim { claimer: Pubkey::zero(), claimed: false };
    let mut vrf = vrf_with([0; 32]);
    let proof = vec![other];
    let mut paused = config(true);
    paused.paused = true;
    assert_eq!(
        swap_og_tier0_for_pnft_v6(&paused, &mut cc, &mut claim, &mut vrf, sk(1), sk(9), 5_000, &proof, &clock(0), &[3; 32]),
        Err(ErrorCode::ProtocolPaused)
    );
    assert_eq!(
        swap_og_tier0_for_pnft_v6(&config(true), &mut cc, &mut claim, &mut vrf, sk(1), sk(9), 5_001, &proof, &clock(0), &[3; 32]),
        Err(ErrorCode::NotOnOgWhitelist)
    );
    assert_eq!(
        swap_og_tier0_for_pnft_v6(&config(true), &mut cc, &mut claim, &mut vrf, sk(3), sk(9), 5_000, &proof, &clock(0), &[3; 32]),
        Err(ErrorCode::NotOnOgWhitelist)
    );
    cc.og_tier_0_minted = 3;
    assert_eq!(
        swap_og_tier0_for_pnft_v6(&config(true), &mut cc, &mut claim, &mut vrf, sk(1), sk(9), 5_000, &proof, &clock(0), &[3; 32]),
        Err(ErrorCode::NoLiquidity)
    );
    cc.og_tier_0_minted = 2;
    assert_eq!(
        swap_og_tier0_for_pnft_v6(&config(true), &mut cc, &mut claim, &mut vrf, sk(1), sk(9), 5_000, &proof, &clock(0), &[3; 32]),
        Err(ErrorCode::VrfNotReady)
    );
    assert_eq!(
        swap_og_tier0_for_pnft_v6(&config(false), &mut cc, &mut claim, &mut vrf, sk(1), sk(9), 5_000, &proof, &clock(i64::MAX), &[3; 32]),
        Err(ErrorCode::MathOverflow)
    );
    assert_eq!(claim, OgTier0Claim { claimer: Pubkey::zero(), claimed: false });
    assert_eq!(cc.og_tier_0_minted, 2);
    assert!(swap_og_tier0_for_pnft_v6(&config(false), &mut cc, &mut claim, &mut vrf, sk(1), sk(9), 5_000, &proof, &clock(0), &[3; 32]).is_ok());
    assert_eq!(cc.og_tier_0_minted, 3);
}
