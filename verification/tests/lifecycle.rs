use anchor_lang::prelude::{ProgramError, Pubkey};
use presale_token::clock::seconds;
use presale_token::constants::{FEE_AMOUNT_NORMAL, FEE_AMOUNT_SPECIAL};
use presale_token::contexts::{ClaimOrRefund, FinalizePresale, Initialize, InitializePresale};
use presale_token::errors::{PresaleTokenError, TimedCallError};
use presale_token::states::{PlatformConfig, PresaleConfig, RoundConfig, UserAllocation};

fn key(byte: u8) -> Pubkey {
    Pubkey::new_from_array([byte; 32])
}

fn presale_with_totals(target: u64, bought: u64) -> PresaleConfig {
    let mut presale = PresaleConfig::default();
    presale.creator = key(4);
    presale.start_timestamp = 1_000;
    presale.duration = 500;
    presale.target_amount = target;
    presale.total_buy_amount = bought;
    presale
}

#[test]
fn initialize_writes_wallet_mint_and_both_fees() {
    let mut ctx = Initialize {
        platform_config: PlatformConfig::default(),
        fee_mint: key(7),
        platform_wallet: key(8),
    };
    ctx.platform_config.fee_percent = 77;
    assert_eq!(ctx.initialize(), Ok(()));
    assert_eq!(ctx.platform_config.platform_wallet, key(8));
    assert_eq!(ctx.platform_config.fee_mint, key(7));
    assert_eq!(ctx.platform_config.fee_amount_normal, 2_000_000);
    assert_eq!(ctx.platform_config.fee_amount_special, 10_000_000);
    assert_eq!(ctx.platform_config.fee_percent, 77);
    assert_eq!(FEE_AMOUNT_NORMAL, 2_000_000);
    assert_eq!(FEE_AMOUNT_SPECIAL, 10_000_000);

    let mut again = Initialize {
        platform_config: PlatformConfig::default(),
        fee_mint: key(1),
        platform_wallet: key(2),
    };
    assert_eq!(presale_token::initialize(&mut again), Ok(()));
    assert_eq!(again.platform_config.platform_wallet, key(2));
    assert_eq!(again.platform_config.fee_amount_normal, 2_000_000);
}

fn opening(platform: PlatformConfig) -> InitializePresale {
    InitializePresale {
        platform_config: platform,
        presale_config: PresaleConfig::default(),
        creator: key(1),
        base_mint: key(2),
        new_mint: key(3),
    }
}

#[test]
fn initialize_presale_derives_supply_split_from_decimals() {
    let mut platform = PlatformConfig::default();
    platform.fee_amount_normal = 2_000_000;
    platform.fee_amount_special = 10_000_000;
    let mut ctx = opening(platform);
    let fee = presale_token::initialize_presale(&mut ctx, 6, 111, 222, [1_000, 2_000, 3_000, 4_000], 250);
    assert_eq!(fee, Ok(2_000_000));
    let p = ctx.presale_config;
    assert_eq!(p.creator, key(1));
    assert_eq!(p.base_mint, key(2));
    assert_eq!(p.new_mint, key(3));
    assert_eq!(p.decimals, 6);
    assert_eq!(p.current_round, 0);
    assert_eq!(p.start_timestamp, 111);
    assert_eq!(p.duration, 222);
    assert_eq!(p.fee_percent, 250);
    assert_eq!(p.target_amount, 800_000_000_000_000);
    assert_eq!(p.liquidity_amount, 200_000_000_000_000);
    assert_eq!(p.total_buy_amount, 0);
    assert_eq!(p.total_return_amount, 0);
    assert!(!p.is_finalized);
    assert!(!p.is_success);
    let capacities: [u64; 4] =
        [245_000_000_000_000, 235_000_000_000_000, 215_000_000_000_000, 105_000_000_000_000];
    for i in 0..4 {
        assert_eq!(
            p.round_configs[i],
            RoundConfig {
                round_end_time: 0,
                round_total_amount: capacities[i],
                remained_amount: capacities[i],
                price: 1_000 * (i as u64 + 1),
            }
        );
    }
}

#[test]
fn initialize_presale_at_both_ends_of_the_decimals_range() {
    let mut ctx = opening(PlatformConfig::default());
    assert_eq!(presale_token::initialize_presale(&mut ctx, 0, 0, 0, [1, 1, 1, 1], 0), Ok(0));
    assert_eq!(ctx.presale_config.target_amount, 800_000_000);
    assert_eq!(ctx.presale_config.liquidity_amount, 200_000_000);
    assert_eq!(ctx.presale_config.round_configs[3].round_total_amount, 105_000_000);

    let mut ctx = opening(PlatformConfig::default());
    assert_eq!(presale_token::initialize_presale(&mut ctx, 10, 0, 0, [1, 1, 1, 1], 0), Ok(0));
    assert_eq!(ctx.presale_config.target_amount, 8_000_000_000_000_000_000);
    assert_eq!(ctx.presale_config.liquidity_amount, 2_000_000_000_000_000_000);
    assert_eq!(ctx.presale_config.round_configs[0].remained_amount, 2_450_000_000_000_000_000);
}

#[test]
fn initialize_presale_method_takes_amounts_as_given() {
    let mut platform = PlatformConfig::default();
    platform.fee_amount_normal = 5;
    platform.fee_amount_special = 9;
    let mut ctx = opening(platform);
    ctx.presale_config.current_round = 3;
    ctx.presale_config.total_return_amount = 8;
    ctx.presale_config.total_buy_amount = 17;
    ctx.presale_config.is_finalized = true;
    ctx.presale_config.is_success = true;
    let fee = ctx.initialize_presale(9, 10, 20, [1, 2, 3, 4], [5, 6, 7, 8], 30, 40, 50);
    assert_eq!(fee, Ok(5));
    let p = ctx.presale_config;
    assert_eq!(p.decimals, 9);
    assert_eq!(p.liquidity_amount, 30);
    assert_eq!(p.target_amount, 40);
    assert_eq!(p.fee_percent, 50);
    assert_eq!(p.current_round, 0);
    assert_eq!(p.total_return_amount, 0);
    // what was bought is not written
    assert_eq!(p.total_buy_amount, 17);
    assert!(!p.is_finalized);
    assert!(!p.is_success);
    assert_eq!(p.round_configs[2].round_total_amount, 3);
    assert_eq!(p.round_configs[2].remained_amount, 3);
    assert_eq!(p.round_configs[2].price, 7);
    assert_eq!(ctx.platform_config.fee_amount_special, 9);
}

#[test]
fn finalize_below_target_fails_the_presale_and_settlement_is_not_offered() {
    let mut ctx = FinalizePresale { presale_config: presale_with_totals(1_000, 999) };
    assert_eq!(ctx.finalize_presale_at(1_500), Ok(()));
    assert!(ctx.presale_config.is_finalized);
    assert!(!ctx.presale_config.is_success);

    for who in 0..3u64 {
        let mut claim = ClaimOrRefund {
            presale_config: ctx.presale_config,
            user_allocation: UserAllocation { amounts: [who, 5, 0, 0], is_proceeded: false },
        };
        let settled = claim.claim_or_refund(1);
        assert_eq!(settled.err(), Some(PresaleTokenError::NotImplemented));
        assert_eq!(claim.user_allocation.amounts, [who, 5, 0, 0]);
    }
}

#[test]
fn finalize_at_target_succeeds() {
    let mut ctx = FinalizePresale { presale_config: presale_with_totals(1_000, 1_000) };
    assert_eq!(ctx.finalize_presale_at(1_500), Ok(()));
    assert!(ctx.presale_config.is_finalized);
    assert!(ctx.presale_config.is_success);
    assert_eq!(ctx.presale_config.total_buy_amount, 1_000);

    let mut above = FinalizePresale { presale_config: presale_with_totals(1_000, 1_001) };
    assert_eq!(above.finalize_presale_at(9_999), Ok(()));
    assert!(above.presale_config.is_success);
}

#[test]
fn finalize_refuses_before_the_window_is_over() {
    let mut ctx = FinalizePresale { presale_config: presale_with_totals(1_000, 1_000) };
    assert_eq!(ctx.finalize_presale_at(1_499), Err(PresaleTokenError::PresaleNotEnded));
    assert_eq!(ctx.finalize_presale_at(0), Err(PresaleTokenError::PresaleNotEnded));
    assert!(!ctx.presale_config.is_finalized);
    assert!(!ctx.presale_config.is_success);
    assert_eq!(ctx.finalize_presale_at(1_500), Ok(()));
}

#[test]
fn finalize_with_end_beyond_sixty_four_bits_is_never_due() {
    let mut presale = presale_with_totals(1, 1);
    presale.start_timestamp = u64::MAX;
    presale.duration = 1;
    let mut ctx = FinalizePresale { presale_config: presale };
    assert_eq!(ctx.finalize_presale_at(u64::MAX), Err(PresaleTokenError::PresaleNotEnded));
    assert_eq!(ctx.finalize_presale_at(0), Err(PresaleTokenError::PresaleNotEnded));
}

#[test]
fn finalize_twice_is_refused_and_keeps_the_outcome() {
    let mut ctx = FinalizePresale { presale_config: presale_with_totals(1_000, 999) };
    assert_eq!(ctx.finalize_presale_at(1_500), Ok(()));
    ctx.presale_config.total_buy_amount = 5_000;
    assert_eq!(ctx.finalize_presale_at(1_600), Err(PresaleTokenError::PresaleAlreadyFinalized));
    assert_eq!(ctx.finalize_presale_at(0), Err(PresaleTokenError::PresaleAlreadyFinalized));
    assert!(ctx.presale_config.is_finalized);
    assert!(!ctx.presale_config.is_success);
}

#[test]
fn finalize_without_a_cluster_clock_writes_nothing() {
    let mut ctx = FinalizePresale { presale_config: presale_with_totals(1_000, 1_000) };
    assert!(matches!(
        ctx.finalize_presale(),
        Err(TimedCallError::NoClock(ProgramError::UnsupportedSysvar))
    ));
    assert!(!ctx.presale_config.is_finalized);
    assert!(!ctx.presale_config.is_success);
    assert!(matches!(
        presale_token::finalize_presale(&mut ctx),
        Err(TimedCallError::NoClock(_))
    ));
}

#[test]
fn finalize_refuses_a_finalized_presale_before_it_asks_for_the_time() {
    let mut ctx = FinalizePresale { presale_config: finalized(true) };
    assert!(matches!(
        ctx.finalize_presale(),
        Err(TimedCallError::Refused(PresaleTokenError::PresaleAlreadyFinalized))
    ));
    assert!(matches!(
        presale_token::finalize_presale(&mut ctx),
        Err(TimedCallError::Refused(PresaleTokenError::PresaleAlreadyFinalized))
    ));
    assert!(ctx.presale_config.is_success);
}

#[test]
fn timestamps_before_the_epoch_wrap_around() {
    assert_eq!(seconds(0), 0);
    assert_eq!(seconds(1_700_000_000), 1_700_000_000);
    assert_eq!(seconds(i64::MAX), 9_223_372_036_854_775_807);
    assert_eq!(seconds(-1), u64::MAX);
    assert_eq!(seconds(i64::MIN), 9_223_372_036_854_775_808);
}

fn finalized(success: bool) -> PresaleConfig {
    let mut presale = presale_with_totals(1_000, if success { 1_000 } else { 10 });
    presale.is_finalized = true;
    presale.is_success = success;
    presale
}

#[test]
fn claim_mints_the_sum_of_all_rounds() {
    let mut ctx = ClaimOrRefund {
        presale_config: finalized(true),
        user_allocation: UserAllocation { amounts: [1, 20, 300, 4_000], is_proceeded: false },
    };
    let mint = ctx.claim_or_refund(253).unwrap();
    assert_eq!(mint.amount, 4_321);
    assert_eq!(mint.authority.creator, key(4));
    assert_eq!(mint.authority.bump, 253);
    assert!(ctx.user_allocation.is_proceeded);
    assert_eq!(ctx.user_allocation.amounts, [1, 20, 300, 4_000]);
    assert!(ctx.presale_config.is_success);
}

#[test]
fn claim_of_nothing_mints_nothing() {
    let mut ctx =
        ClaimOrRefund { presale_config: finalized(true), user_allocation: UserAllocation::default() };
    assert_eq!(presale_token::claim_or_refund(&mut ctx, 0).unwrap().amount, 0);
    assert!(ctx.user_allocation.is_proceeded);
}

#[test]
fn claim_twice_is_refused() {
    let mut ctx = ClaimOrRefund {
        presale_config: finalized(true),
        user_allocation: UserAllocation { amounts: [1, 2, 3, 4], is_proceeded: false },
    };
    assert!(ctx.claim_or_refund(1).is_ok());
    assert_eq!(
        ctx.claim_or_refund(1).err(),
        Some(PresaleTokenError::UserAlreadyClaimedOrRefunded)
    );
    assert!(ctx.user_allocation.is_proceeded);
}

#[test]
fn claim_marks_the_user_before_it_looks_at_the_outcome() {
    let mut ctx = ClaimOrRefund {
        presale_config: finalized(false),
        user_allocation: UserAllocation { amounts: [1, 2, 3, 4], is_proceeded: false },
    };
    assert_eq!(ctx.claim_or_refund(1).err(), Some(PresaleTokenError::NotImplemented));
    assert!(ctx.user_allocation.is_proceeded);
    assert_eq!(
        ctx.claim_or_refund(1).err(),
        Some(PresaleTokenError::UserAlreadyClaimedOrRefunded)
    );
}

#[test]
fn claim_refuses_before_finalization() {
    let mut ctx = ClaimOrRefund {
        presale_config: presale_with_totals(1_000, 1_000),
        user_allocation: UserAllocation { amounts: [1, 2, 3, 4], is_proceeded: false },
    };
    assert_eq!(ctx.claim_or_refund(1).err(), Some(PresaleTokenError::PresaleNotFinalized));
    assert!(!ctx.user_allocation.is_proceeded);
    ctx.user_allocation.is_proceeded = true;
    assert_eq!(ctx.claim_or_refund(1).err(), Some(PresaleTokenError::PresaleNotFinalized));
}

#[test]
fn claim_range_test_reports_holdings_that_do_not_add_up() {
    let too_much = UserAllocation { amounts: [u64::MAX, 1, 0, 0], is_proceeded: false };
    let ctx = ClaimOrRefund { presale_config: finalized(true), user_allocation: too_much };
    assert!(!ctx.claim_stays_in_range());
    // nothing is added up where the call is refused
    let ctx = ClaimOrRefund { presale_config: finalized(false), user_allocation: too_much };
    assert!(ctx.claim_stays_in_range());
    let ctx = ClaimOrRefund {
        presale_config: finalized(true),
        user_allocation: UserAllocation { amounts: [u64::MAX, 0, 0, 0], is_proceeded: false },
    };
    assert!(ctx.claim_stays_in_range());
}

#[test]
fn total_amount_adds_the_four_rounds() {
    let allocation = UserAllocation { amounts: [u64::MAX - 6, 1, 2, 3], is_proceeded: true };
    assert!(allocation.total_fits());
    assert_eq!(allocation.total_amount(), u64::MAX);
    let too_much = UserAllocation { amounts: [u64::MAX - 6, 1, 2, 4], is_proceeded: false };
    assert!(!too_much.total_fits());
    assert_eq!(UserAllocation::default().total_amount(), 0);
}

#[test]
fn blank_records_hold_zeros() {
    let presale = PresaleConfig::default();
    assert_eq!(presale.current_round, 0);
    assert_eq!(presale.total_buy_amount, 0);
    assert_eq!(presale.round_configs[3], RoundConfig::default());
    assert!(!presale.is_finalized && !presale.is_success);
    let user = UserAllocation::default();
    assert_eq!(user.amounts, [0, 0, 0, 0]);
    assert!(!user.is_proceeded);
    let round = RoundConfig::default();
    assert_eq!(round.round_total_amount, 0);
    assert_eq!(round.price, 0);
}
