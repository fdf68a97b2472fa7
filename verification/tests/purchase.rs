use anchor_lang::prelude::{ProgramError, Pubkey};
use presale_token::contexts::{BuySellPretoken, InitializePresale};
use presale_token::errors::{PresaleTokenError, TimedCallError};
use presale_token::states::{PlatformConfig, PresaleConfig, UserAllocation};

const START: u64 = 1_000;

fn opened_presale(decimals: u8, prices: [u64; 4]) -> PresaleConfig {
    let mut ctx = InitializePresale {
        platform_config: PlatformConfig::default(),
        presale_config: PresaleConfig::default(),
        creator: Pubkey::new_from_array([1u8; 32]),
        base_mint: Pubkey::new_from_array([2u8; 32]),
        new_mint: Pubkey::new_from_array([3u8; 32]),
    };
    presale_token::initialize_presale(&mut ctx, decimals, START, 500, prices, 250).unwrap();
    ctx.presale_config
}

fn buyer_of(presale: PresaleConfig) -> BuySellPretoken {
    BuySellPretoken { presale_config: presale, user_allocation: UserAllocation::default() }
}

fn small_presale(capacities: [u64; 4], prices: [u64; 4]) -> PresaleConfig {
    let mut presale = opened_presale(0, prices);
    let mut target: u64 = 0;
    for i in 0..4 {
        presale.round_configs[i].round_total_amount = capacities[i];
        presale.round_configs[i].remained_amount = capacities[i];
        target += capacities[i];
    }
    presale.target_amount = target;
    presale
}

#[test]
fn buy_hundred_in_first_round_costs_one() {
    let mut ctx = buyer_of(opened_presale(6, [1_000, 2_000, 3_000, 4_000]));
    assert_eq!(ctx.presale_config.round_configs[0].remained_amount, 245_000_000 * 1_000_000);
    assert!(ctx.buy_stays_in_range(0, 100, START));
    let payment = ctx.buy_pretoken_at(0, 100, START);
    assert_eq!(payment, Ok(1));
    assert_eq!(ctx.user_allocation.amounts, [100, 0, 0, 0]);
    assert_eq!(ctx.presale_config.total_buy_amount, 100);
    assert_eq!(ctx.presale_config.round_configs[0].remained_amount, 245_000_000 * 1_000_000 - 100);
    assert_eq!(ctx.presale_config.current_round, 0);
    assert_eq!(ctx.presale_config.total_return_amount, 0);
}

#[test]
fn buy_in_last_round_draws_on_returns_when_capacity_is_gone() {
    let mut presale = small_presale([10, 10, 10, 10], [1, 1, 1, 2_000_000_000]);
    presale.current_round = 3;
    presale.round_configs[3].remained_amount = 0;
    presale.total_return_amount = 500;
    let mut ctx = buyer_of(presale);
    assert!(ctx.buy_stays_in_range(3, 700, START));
    let payment = ctx.buy_pretoken_at(3, 700, START);
    assert_eq!(payment, Ok(1_000));
    assert_eq!(ctx.user_allocation.amounts, [0, 0, 0, 500]);
    assert_eq!(ctx.presale_config.total_return_amount, 0);
    assert_eq!(ctx.presale_config.round_configs[3].remained_amount, 0);
    assert_eq!(ctx.presale_config.total_buy_amount, 500);
    assert_eq!(ctx.presale_config.current_round, 4);
}

#[test]
fn buy_in_last_round_uses_returns_before_capacity() {
    let mut presale = small_presale([10, 10, 10, 100], [1, 1, 1, 1_000_000_000]);
    presale.current_round = 3;
    presale.total_return_amount = 30;
    let mut ctx = buyer_of(presale);
    assert_eq!(ctx.buy_pretoken_at(3, 50, START), Ok(50));
    assert_eq!(ctx.presale_config.total_return_amount, 0);
    assert_eq!(ctx.presale_config.round_configs[3].remained_amount, 80);
    assert_eq!(ctx.presale_config.current_round, 3);
    assert_eq!(ctx.user_allocation.amounts[3], 50);

    let mut presale = small_presale([10, 10, 10, 100], [1, 1, 1, 1_000_000_000]);
    presale.current_round = 3;
    presale.total_return_amount = 30;
    let mut ctx = buyer_of(presale);
    assert_eq!(ctx.buy_pretoken_at(3, 20, START), Ok(20));
    assert_eq!(ctx.presale_config.total_return_amount, 10);
    assert_eq!(ctx.presale_config.round_configs[3].remained_amount, 100);
}

#[test]
fn buy_request_above_capacity_is_cut_down_not_refused() {
    let mut ctx = buyer_of(small_presale([10, 20, 30, 40], [3_000_000_000, 1, 1, 1]));
    assert_eq!(ctx.buy_pretoken_at(0, 25, START), Ok(30));
    assert_eq!(ctx.user_allocation.amounts, [10, 0, 0, 0]);
    assert_eq!(ctx.presale_config.round_configs[0].remained_amount, 0);
    assert_eq!(ctx.presale_config.total_buy_amount, 10);
    assert_eq!(ctx.presale_config.current_round, 1);
}

#[test]
fn returns_do_not_count_before_the_last_round() {
    let mut presale = small_presale([10, 20, 30, 40], [1_000_000_000, 1, 1, 1]);
    presale.total_return_amount = 1_000;
    let mut ctx = buyer_of(presale);
    assert_eq!(ctx.buy_pretoken_at(0, 25, START), Ok(10));
    assert_eq!(ctx.user_allocation.amounts[0], 10);
    assert_eq!(ctx.presale_config.total_return_amount, 1_000);
}

#[test]
fn round_advances_exactly_when_capacity_reaches_zero() {
    let mut ctx = buyer_of(small_presale([10, 20, 30, 40], [1, 1, 1, 1]));
    ctx.buy_pretoken_at(0, 9, START).unwrap();
    assert_eq!(ctx.presale_config.current_round, 0);
    ctx.buy_pretoken_at(0, 1, START).unwrap();
    assert_eq!(ctx.presale_config.current_round, 1);
    ctx.buy_pretoken_at(1, 20, 0).unwrap();
    assert_eq!(ctx.presale_config.current_round, 2);
    ctx.buy_pretoken_at(2, 29, 0).unwrap();
    assert_eq!(ctx.presale_config.current_round, 2);
    ctx.buy_pretoken_at(2, 5, 0).unwrap();
    assert_eq!(ctx.presale_config.current_round, 3);
    ctx.buy_pretoken_at(3, 40, 0).unwrap();
    assert_eq!(ctx.presale_config.current_round, 4);
    assert_eq!(ctx.user_allocation.amounts, [10, 20, 30, 40]);
    assert_eq!(ctx.presale_config.total_buy_amount, 100);
    assert_eq!(ctx.buy_pretoken_at(3, 1, 0), Err(PresaleTokenError::RoundEnded));
}

#[test]
fn buy_refuses_round_out_of_range() {
    let mut ctx = buyer_of(small_presale([10, 20, 30, 40], [1, 1, 1, 1]));
    let before = ctx;
    assert_eq!(ctx.buy_pretoken_at(4, 1, START), Err(PresaleTokenError::InvalidRound));
    assert_eq!(ctx.buy_pretoken_at(255, 1, START), Err(PresaleTokenError::InvalidRound));
    assert_eq!(ctx.presale_config.total_buy_amount, before.presale_config.total_buy_amount);
    assert_eq!(ctx.user_allocation.amounts, before.user_allocation.amounts);
}

#[test]
fn buy_refuses_zero_amount() {
    let mut ctx = buyer_of(small_presale([10, 20, 30, 40], [1, 1, 1, 1]));
    assert_eq!(ctx.buy_pretoken_at(0, 0, START), Err(PresaleTokenError::InvalidAmount));
    assert_eq!(ctx.presale_config.current_round, 0);
}

#[test]
fn buy_refuses_round_ahead_of_the_open_one() {
    let mut ctx = buyer_of(small_presale([10, 20, 30, 40], [1, 1, 1, 1]));
    assert_eq!(ctx.buy_pretoken_at(1, 5, START), Err(PresaleTokenError::RoundNotStarted));
    assert_eq!(ctx.buy_pretoken_at(3, 5, START), Err(PresaleTokenError::RoundNotStarted));
    assert_eq!(ctx.presale_config.round_configs[1].remained_amount, 20);
}

#[test]
fn buy_refuses_round_behind_the_open_one() {
    let mut presale = small_presale([10, 20, 30, 40], [1, 1, 1, 1]);
    presale.current_round = 2;
    let mut ctx = buyer_of(presale);
    assert_eq!(ctx.buy_pretoken_at(0, 5, START), Err(PresaleTokenError::RoundEnded));
    assert_eq!(ctx.buy_pretoken_at(1, 5, START), Err(PresaleTokenError::RoundEnded));
}

#[test]
fn buy_refuses_first_round_before_start() {
    let mut ctx = buyer_of(small_presale([10, 20, 30, 40], [1, 1, 1, 1]));
    assert_eq!(ctx.buy_pretoken_at(0, 5, START - 1), Err(PresaleTokenError::PresaleNotStarted));
    assert_eq!(ctx.buy_pretoken_at(0, 5, START), Ok(1));
}

#[test]
fn start_time_gates_only_the_first_round() {
    let mut presale = small_presale([10, 20, 30, 40], [1, 1, 1, 1]);
    presale.current_round = 1;
    let mut ctx = buyer_of(presale);
    assert_eq!(ctx.buy_pretoken_at(1, 5, 0), Ok(1));
}

#[test]
fn buy_looks_at_round_and_amount_before_the_cursor() {
    let mut presale = small_presale([10, 20, 30, 40], [1, 1, 1, 1]);
    presale.current_round = 2;
    let mut ctx = buyer_of(presale);
    assert_eq!(ctx.buy_pretoken_at(3, 0, START), Err(PresaleTokenError::InvalidAmount));
    assert_eq!(ctx.buy_pretoken_at(9, 0, START), Err(PresaleTokenError::InvalidRound));
}

#[test]
fn buy_leaves_flags_and_schedule_alone() {
    let mut presale = small_presale([10, 20, 30, 40], [7, 8, 9, 10]);
    presale.is_finalized = true;
    presale.is_success = true;
    let mut ctx = buyer_of(presale);
    assert_eq!(ctx.buy_pretoken_at(0, 4, START), Ok(1));
    assert!(ctx.presale_config.is_finalized);
    assert!(ctx.presale_config.is_success);
    assert_eq!(ctx.presale_config.round_configs[0].round_total_amount, 10);
    assert_eq!(ctx.presale_config.round_configs[0].price, 7);
    assert_eq!(ctx.presale_config.target_amount, 100);
    assert_eq!(ctx.presale_config.creator, Pubkey::new_from_array([1u8; 32]));
    assert!(!ctx.user_allocation.is_proceeded);
}

#[test]
fn buy_range_test_reports_overflow_of_the_total() {
    let mut presale = small_presale([10, 20, 30, 40], [1, 1, 1, 1]);
    presale.total_buy_amount = u64::MAX - 3;
    let ctx = buyer_of(presale);
    assert!(ctx.buy_stays_in_range(0, 3, START));
    assert!(!ctx.buy_stays_in_range(0, 4, START));
    // a refused purchase writes nothing, so it is always in range
    assert!(ctx.buy_stays_in_range(1, 4, START));
    assert!(ctx.buy_stays_in_range(0, 4, START - 1));
}

#[test]
fn buy_range_test_reports_overflow_of_the_payment() {
    let mut presale = small_presale([u64::MAX, 20, 30, 40], [u64::MAX, 1, 1, 1]);
    presale.target_amount = 0;
    let ctx = buyer_of(presale);
    assert!(ctx.buy_stays_in_range(0, 1_000_000_000, START));
    assert!(!ctx.buy_stays_in_range(0, 1_000_000_001, START));
}

#[test]
fn buy_without_a_cluster_clock_writes_nothing() {
    let presale = small_presale([10, 20, 30, 40], [500_000_000, 1, 1, 1]);
    let mut ctx = buyer_of(presale);
    let outcome = ctx.buy_pretoken(0, 3);
    assert!(matches!(outcome, Err(TimedCallError::NoClock(ProgramError::UnsupportedSysvar))));
    assert_eq!(ctx.user_allocation.amounts, [0, 0, 0, 0]);
    assert_eq!(ctx.presale_config.total_buy_amount, 0);
    assert_eq!(ctx.presale_config.round_configs[0].remained_amount, 10);

    let outcome = presale_token::buy_pretoken(&mut ctx, 0, 3);
    assert!(matches!(outcome, Err(TimedCallError::NoClock(_))));
    assert_eq!(ctx.presale_config.total_buy_amount, 0);
}

#[test]
fn buy_refuses_round_and_amount_before_it_asks_for_the_time() {
    let mut ctx = buyer_of(small_presale([10, 20, 30, 40], [1, 1, 1, 1]));
    assert!(matches!(
        ctx.buy_pretoken(4, 3),
        Err(TimedCallError::Refused(PresaleTokenError::InvalidRound))
    ));
    assert!(matches!(
        ctx.buy_pretoken(0, 0),
        Err(TimedCallError::Refused(PresaleTokenError::InvalidAmount))
    ));
    assert!(matches!(
        presale_token::buy_pretoken(&mut ctx, 9, 0),
        Err(TimedCallError::Refused(PresaleTokenError::InvalidRound))
    ));
    // a round that is not open is found out only after the time is known
    assert!(matches!(ctx.buy_pretoken(2, 1), Err(TimedCallError::NoClock(_))));
}
