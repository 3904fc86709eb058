use defai_core::swap::nft::{
    check_holder, claim_vested_v6, complete_reroll, redeem_v6, reroll_bonus_v6,
    update_nft_metadata_v6, NftMetadata, RedeemReceipt, RerollBonusV6, RerollReceipt,
};
use defai_core::swap::state::{
    BonusRerolled, BonusStateV6, Config, ErrorCode, RedemptionExecuted, UserTaxState,
    VestingClaimed, VestingStateV6,
};
use defai_core::swap::vrf::{initialize_vrf, VrfState};
use defai_core::types::{Clock, Pubkey, TokenAccount};

const DAY: i64 = 86_400;
const VESTING: i64 = 90 * DAY;

fn nk(tag: u8) -> Pubkey {
    Pubkey::new([tag; 32])
}

fn nft_config(vrf_enabled: bool) -> Config {
    Config {
        admin: nk(100),
        old_mint: nk(101),
        new_mint: nk(102),
        collection: nk(103),
        treasury: nk(104),
        prices: [1_000, 10_000, 100_000, 1_000_000, 10_000_000],
        paused: false,
        pending_admin: None,
        admin_change_timestamp: 0,
        vrf_enabled,
    }
}

fn holder_ata() -> TokenAccount {
    TokenAccount { mint: nk(9), owner: nk(1), amount: 1 }
}

fn bonus(tier: u8, bps: u16) -> BonusStateV6 {
    BonusStateV6 {
        mint: nk(9),
        tier,
        bonus_bps: bps,
        vesting_start: 0,
        vesting_duration: VESTING,
        claimed: false,
        fee_deducted: 0,
    }
}

fn schedule(total: u64) -> VestingStateV6 {
    VestingStateV6 {
        mint: nk(9),
        total_amount: total,
        released_amount: 0,
        start_timestamp: 0,
        end_timestamp: VESTING,
        last_claimed_timestamp: 0,
    }
}

fn reroll_accounts() -> RerollBonusV6 {
    RerollBonusV6 {
        user: nk(1),
        nft_mint: nk(9),
        user_nft_ata: holder_ata(),
        user_defai_ata: TokenAccount { mint: nk(102), owner: nk(1), amount: 100_000 },
    }
}

fn nft_vrf(result: [u8; 32]) -> VrfState {
    let mut vrf = initialize_vrf(255, nk(50));
    vrf.result_buffer = result;
    vrf
}

#[test]
fn holder_must_hold_exactly_this_nft() {
    assert_eq!(check_holder(&holder_ata(), nk(9), nk(1)), Ok(()));
    assert_eq!(check_holder(&holder_ata(), nk(8), nk(1)), Err(ErrorCode::InvalidNft));
    assert_eq!(check_holder(&holder_ata(), nk(9), nk(2)), Err(ErrorCode::NoNft));
    let empty = TokenAccount { amount: 0, ..holder_ata() };
    assert_eq!(check_holder(&empty, nk(9), nk(1)), Err(ErrorCode::NoNft));
    let two = TokenAccount { amount: 2, ..holder_ata() };
    assert_eq!(check_holder(&two, nk(9), nk(1)), Err(ErrorCode::NoNft));
}

#[test]
fn vested_bonus_is_paid_after_the_cliff() {
    let mut s = schedule(9_000);
    assert_eq!(
        claim_vested_v6(&nft_config(true), &mut s, &holder_ata(), nk(9), nk(1), 2 * DAY - 1),
        Err(ErrorCode::StillInCliff)
    );
    let event = claim_vested_v6(&nft_config(true), &mut s, &holder_ata(), nk(9), nk(1), 2 * DAY).unwrap();
    assert_eq!(
        event,
        VestingClaimed { user: nk(1), nft_mint: nk(9), amount_claimed: 200, total_vested: 200, timestamp: 2 * DAY }
    );
    assert_eq!(s.released_amount, 200);
    assert_eq!(s.last_claimed_timestamp, 2 * DAY);
    assert_eq!(
        claim_vested_v6(&nft_config(true), &mut s, &holder_ata(), nk(9), nk(1), 2 * DAY),
        Err(ErrorCode::NothingToClaim)
    );
    let event = claim_vested_v6(&nft_config(true), &mut s, &holder_ata(), nk(9), nk(1), 45 * DAY).unwrap();
    assert_eq!(event.amount_claimed, 4_300);
    assert_eq!(event.total_vested, 4_500);
    let event = claim_vested_v6(&nft_config(true), &mut s, &holder_ata(), nk(9), nk(1), 200 * DAY).unwrap();
    assert_eq!(event.amount_claimed, 4_500);
    assert_eq!(event.total_vested, 9_000);
    assert_eq!(s.released_amount, 9_000);
    assert_eq!(
        claim_vested_v6(&nft_config(true), &mut s, &holder_ata(), nk(9), nk(1), 300 * DAY),
        Err(ErrorCode::NothingToClaim)
    );
}

#[test]
fn vested_claim_checks_holder_record_and_pause() {
    let mut s = schedule(9_000);
    let before = s;
    let stranger = TokenAccount { owner: nk(2), ..holder_ata() };
    assert_eq!(
        claim_vested_v6(&nft_config(true), &mut s, &stranger, nk(9), nk(1), 50 * DAY),
        Err(ErrorCode::NoNft)
    );
    let other = TokenAccount { mint: nk(8), ..holder_ata() };
    assert_eq!(
        claim_vested_v6(&nft_config(true), &mut s, &other, nk(8), nk(1), 50 * DAY),
        Err(ErrorCode::InvalidNft)
    );
    let mut paused = nft_config(true);
    paused.paused = true;
    assert_eq!(
        claim_vested_v6(&paused, &mut s, &holder_ata(), nk(9), nk(1), 50 * DAY),
        Err(ErrorCode::ProtocolPaused)
    );
    assert_eq!(s, before);
}

#[test]
fn redeem_returns_the_base_price_less_fees_once() {
    let mut b = bonus(2, 3_000);
    b.fee_deducted = 7_000;
    let receipt = redeem_v6(&nft_config(true), &mut b, &holder_ata(), nk(9), nk(1), 500).unwrap();
    assert_eq!(
        receipt,
        RedeemReceipt {
            amount_returned: 93_000,
            burn_amount: 1,
            event: RedemptionExecuted {
                user: nk(1),
                nft_mint: nk(9),
                amount_returned: 93_000,
                fees_deducted: 7_000,
                timestamp: 500
            },
        }
    );
    assert!(b.claimed);
    assert_eq!(
        redeem_v6(&nft_config(true), &mut b, &holder_ata(), nk(9), nk(1), 501),
        Err(ErrorCode::NftAlreadyRedeemed)
    );
    assert!(b.claimed);
}

#[test]
fn redeem_never_pays_less_than_nothing() {
    let mut b = bonus(0, 0);
    b.fee_deducted = 1_001;
    assert_eq!(redeem_v6(&nft_config(true), &mut b, &holder_ata(), nk(9), nk(1), 1).unwrap().amount_returned, 0);
    let mut b = bonus(0, 0);
    b.fee_deducted = 1_000;
    assert_eq!(redeem_v6(&nft_config(true), &mut b, &holder_ata(), nk(9), nk(1), 1).unwrap().amount_returned, 0);
    let mut b = bonus(0, 0);
    b.fee_deducted = 999;
    assert_eq!(redeem_v6(&nft_config(true), &mut b, &holder_ata(), nk(9), nk(1), 1).unwrap().amount_returned, 1);
}

#[test]
fn redeem_is_refused_in_order_of_its_checks() {
    let mut b = bonus(7, 0);
    b.claimed = true;
    let mut paused = nft_config(true);
    paused.paused = true;
    let before = b;
    let stranger = TokenAccount { owner: nk(2), ..holder_ata() };
    assert_eq!(redeem_v6(&paused, &mut b, &stranger, nk(9), nk(1), 1), Err(ErrorCode::NoNft));
    let other = TokenAccount { mint: nk(8), ..holder_ata() };
    assert_eq!(redeem_v6(&paused, &mut b, &other, nk(8), nk(1), 1), Err(ErrorCode::InvalidNft));
    assert_eq!(redeem_v6(&paused, &mut b, &holder_ata(), nk(9), nk(1), 1), Err(ErrorCode::ProtocolPaused));
    assert_eq!(
        redeem_v6(&nft_config(true), &mut b, &holder_ata(), nk(9), nk(1), 1),
        Err(ErrorCode::NftAlreadyRedeemed)
    );
    b.claimed = false;
    assert_eq!(redeem_v6(&nft_config(true), &mut b, &holder_ata(), nk(9), nk(1), 1), Err(ErrorCode::InvalidTier));
    b.claimed = true;
    assert_eq!(b, before);
}

#[test]
fn reroll_resets_the_schedule_and_forfeits_what_was_unreleased() {
    let mut b = bonus(2, 3_000);
    let mut s = schedule(30_000);
    s.released_amount = 1_000;
    let mut tax = UserTaxState { user: nk(1), tax_rate_bps: 700, last_swap_timestamp: 5, swap_count: 2 };
    let receipt =
        complete_reroll(&nft_config(true), &mut b, &mut s, &mut tax, &reroll_accounts(), 45 * DAY, 3_500).unwrap();
    assert_eq!(
        receipt,
        RerollReceipt {
            forfeited: 14_000,
            event: BonusRerolled {
                user: nk(1),
                nft_mint: nk(9),
                old_bonus_bps: 3_000,
                new_bonus_bps: 5_000,
                tax_paid: 7_000,
                timestamp: 45 * DAY
            },
        }
    );
    assert_eq!(
        b,
        BonusStateV6 {
            mint: nk(9),
            tier: 2,
            bonus_bps: 5_000,
            vesting_start: 45 * DAY,
            vesting_duration: VESTING,
            claimed: false,
            fee_deducted: 7_000,
        }
    );
    assert_eq!(
        s,
        VestingStateV6 {
            mint: nk(9),
            total_amount: 50_000,
            released_amount: 0,
            start_timestamp: 45 * DAY,
            end_timestamp: 45 * DAY + VESTING,
            last_claimed_timestamp: 45 * DAY,
        }
    );
    assert_eq!(tax, UserTaxState { user: nk(1), tax_rate_bps: 800, last_swap_timestamp: 5, swap_count: 2 });
}

#[test]
fn reroll_fees_add_up_and_come_off_the_redemption() {
    let mut b = bonus(1, 100);
    let mut s = schedule(100);
    let mut tax = UserTaxState { user: nk(1), tax_rate_bps: 500, last_swap_timestamp: 0, swap_count: 0 };
    complete_reroll(&nft_config(true), &mut b, &mut s, &mut tax, &reroll_accounts(), 10 * DAY, 700).unwrap();
    assert_eq!(b.fee_deducted, 500);
    assert_eq!(b.bonus_bps, 700);
    assert_eq!(s.total_amount, 700);
    complete_reroll(&nft_config(true), &mut b, &mut s, &mut tax, &reroll_accounts(), 20 * DAY, 1_500).unwrap();
    assert_eq!(b.fee_deducted, 1_100);
    assert_eq!(tax.tax_rate_bps, 700);
    assert_eq!(redeem_v6(&nft_config(true), &mut b, &holder_ata(), nk(9), nk(1), 1).unwrap().amount_returned, 8_900);
}

#[test]
fn reroll_is_refused_in_order_of_its_checks() {
    let cfg = nft_config(true);
    let mut b = bonus(2, 3_000);
    let mut s = schedule(30_000);
    let mut tax = UserTaxState { user: nk(1), tax_rate_bps: 700, last_swap_timestamp: 5, swap_count: 2 };
    let before = (b, s, tax);
    let mut acc = reroll_accounts();
    acc.user_nft_ata.amount = 0;
    assert_eq!(complete_reroll(&cfg, &mut b, &mut s, &mut tax, &acc, 45 * DAY, 0), Err(ErrorCode::NoNft));
    let mut acc = reroll_accounts();
    acc.nft_mint = nk(8);
    acc.user_nft_ata.mint = nk(8);
    assert_eq!(complete_reroll(&cfg, &mut b, &mut s, &mut tax, &acc, 45 * DAY, 0), Err(ErrorCode::InvalidNft));
    let mut acc = reroll_accounts();
    acc.user_defai_ata.owner = nk(2);
    assert_eq!(complete_reroll(&cfg, &mut b, &mut s, &mut tax, &acc, 45 * DAY, 0), Err(ErrorCode::Unauthorized));
    let mut foreign = UserTaxState { user: nk(2), ..tax };
    assert_eq!(
        complete_reroll(&cfg, &mut b, &mut s, &mut foreign, &reroll_accounts(), 45 * DAY, 0),
        Err(ErrorCode::Unauthorized)
    );
    let mut paused = nft_config(true);
    paused.paused = true;
    assert_eq!(
        complete_reroll(&paused, &mut b, &mut s, &mut tax, &reroll_accounts(), 45 * DAY, 0),
        Err(ErrorCode::ProtocolPaused)
    );
    let mut acc = reroll_accounts();
    acc.user_defai_ata.amount = 99_999;
    assert_eq!(
        complete_reroll(&cfg, &mut b, &mut s, &mut tax, &acc, 45 * DAY, 0),
        Err(ErrorCode::InsufficientDefaiForReroll)
    );
    assert_eq!(
        complete_reroll(&cfg, &mut b, &mut s, &mut tax, &reroll_accounts(), 0, 0),
        Err(ErrorCode::NothingToClaim)
    );
    assert_eq!(
        complete_reroll(&cfg, &mut b, &mut s, &mut tax, &reroll_accounts(), i64::MAX, 0),
        Err(ErrorCode::MathOverflow)
    );
    assert_eq!((b, s, tax), before);
    let mut odd = bonus(6, 0);
    assert_eq!(
        complete_reroll(&cfg, &mut odd, &mut s, &mut tax, &reroll_accounts(), 45 * DAY, 0),
        Err(ErrorCode::InvalidTier)
    );
    let mut heavy = bonus(2, 3_000);
    heavy.fee_deducted = u64::MAX - 6_999;
    assert_eq!(
        complete_reroll(&cfg, &mut heavy, &mut s, &mut tax, &reroll_accounts(), 45 * DAY, 0),
        Err(ErrorCode::MathOverflow)
    );
}

#[test]
fn reroll_needs_a_fresh_oracle_result() {
    let cfg = nft_config(true);
    let mut b = bonus(2, 4_638);
    let mut s = schedule(46_380);
    let mut tax = UserTaxState { user: nk(1), tax_rate_bps: 500, last_swap_timestamp: 0, swap_count: 1 };
    let mut vrf = nft_vrf([0; 32]);
    let clock = Clock { slot: 1, epoch: 1, unix_timestamp: 10 * DAY };
    assert_eq!(
        reroll_bonus_v6(&cfg, &mut b, &mut s, &mut tax, &mut vrf, &reroll_accounts(), &clock, &[3; 32]),
        Err(ErrorCode::VrfNotReady)
    );
    assert_eq!(b, bonus(2, 4_638));
    vrf.result_buffer = [8; 32];
    let receipt =
        reroll_bonus_v6(&cfg, &mut b, &mut s, &mut tax, &mut vrf, &reroll_accounts(), &clock, &[3; 32]).unwrap();
    assert_eq!(receipt.event.old_bonus_bps, 4_638);
    assert_eq!(receipt.event.new_bonus_bps, 1_505);
    assert_eq!(receipt.event.tax_paid, 5_000);
    assert_eq!(receipt.forfeited, 5_153);
    assert_eq!(s.total_amount, 15_050);
    assert_eq!(vrf.result_buffer, [0; 32]);
    let later = Clock { slot: 2, epoch: 1, unix_timestamp: 20 * DAY };
    assert_eq!(
        reroll_bonus_v6(&cfg, &mut b, &mut s, &mut tax, &mut vrf, &reroll_accounts(), &later, &[3; 32]),
        Err(ErrorCode::VrfNotReady)
    );
}

#[test]
fn reroll_on_the_fallback_path_draws_from_a_later_time() {
    let cfg = nft_config(false);
    let mut b = bonus(1, 1_282);
    let mut s = schedule(1_282);
    s.start_timestamp = 1_000;
    s.end_timestamp = 1_000 + VESTING;
    let mut tax = UserTaxState { user: nk(1), tax_rate_bps: 500, last_swap_timestamp: 0, swap_count: 1 };
    let mut vrf = nft_vrf([0; 32]);
    let same = Clock { slot: 55, epoch: 2, unix_timestamp: 1_000 };
    assert_eq!(
        reroll_bonus_v6(&cfg, &mut b, &mut s, &mut tax, &mut vrf, &reroll_accounts(), &same, &[3; 32]),
        Err(ErrorCode::NothingToClaim)
    );
    let later = Clock { slot: 56, epoch: 2, unix_timestamp: 1_000 + 10 * DAY };
    let receipt =
        reroll_bonus_v6(&cfg, &mut b, &mut s, &mut tax, &mut vrf, &reroll_accounts(), &later, &[3; 32]).unwrap();
    assert!(receipt.event.new_bonus_bps <= 1_500);
    assert_eq!(receipt.forfeited, 142);
    assert_eq!(s.start_timestamp, 1_000 + 10 * DAY);
    assert_eq!(vrf, nft_vrf([0; 32]));
}

#[test]
fn metadata_shows_the_state_of_the_schedule() {
    let mut b = bonus(3, 2_500);
    b.fee_deducted = 12;
    let mut s = schedule(9_000);
    s.released_amount = 100;
    assert_eq!(
        update_nft_metadata_v6(nk(9), &b, &s, 45 * DAY + 1),
        NftMetadata {
            nft_mint: nk(9),
            tier: 3,
            bonus_bps: 2_500,
            redeemed: false,
            fee_deducted: 12,
            vesting_total: 9_000,
            vesting_released: 100,
            vesting_remaining: 4_400,
            days_remaining: 44,
        }
    );
    assert_eq!(update_nft_metadata_v6(nk(9), &b, &s, 0).days_remaining, 90);
    assert_eq!(update_nft_metadata_v6(nk(9), &b, &s, -5).days_remaining, 90);
    assert_eq!(update_nft_metadata_v6(nk(9), &b, &s, 90 * DAY).days_remaining, 0);
    assert_eq!(update_nft_metadata_v6(nk(9), &b, &s, 90 * DAY).vesting_remaining, 8_900);
    assert_eq!(update_nft_metadata_v6(nk(9), &b, &s, 90 * DAY - 1).days_remaining, 0);
    assert_eq!(update_nft_metadata_v6(nk(9), &b, &s, 89 * DAY).days_remaining, 1);
}
