//! A presale of a token that is not minted yet, sold in four rounds.
//!
//! Buyers reserve tokens against a base currency at the price of the open
//! round, and may hand them back. After the sale window the presale is
//! finalized, once, as a success or a failure; after a success each buyer
//! settles once and is minted what they hold.
//!
//! The library decides and keeps the records. It moves no currency: each
//! operation returns what the ledger has to move, and on whose authority.
//! A host is expected to run each call as a transaction, and to drop what
//! a call wrote when the call is refused or the ledger fails.
//!
//! Two operations depend on the time. Each comes in two forms: one that
//! asks the runtime's clock, and one, named with `_at`, that takes the
//! time as an argument and says exactly what happens at that time.
//!
//! The rules of each operation are the contracts in [`processors`]; what
//! holds of whole sequences of operations is proved in [`laws`].

use vstd::prelude::*;
use vstd::arithmetic::power::pow;

pub mod clock;
pub mod constants;
pub mod contexts;
pub mod errors;
pub mod laws;
pub mod pricing;
pub mod processors;
pub mod states;

use crate::constants::{MAX_DECIMALS, ROUND_COUNT, ROUND_UNITS, TOTAL_SUPPLY_UNITS};
use crate::contexts::{
    AuthorizedAmount, BuySellPretoken, ClaimOrRefund, FinalizePresale, Initialize,
    InitializePresale,
};
use crate::errors::{PresaleTokenError, TimedCallError};

verus! {

/// `units` whole tokens in the smallest unit of a token with `decimals`
/// decimals.
pub open spec fn scaled(units: u64, decimals: u8) -> int {
    units * pow(10, decimals as nat)
}

/// Capacity of each round of a presale of a token with `decimals` decimals.
pub open spec fn round_amounts(decimals: u8) -> [u64; ROUND_COUNT] {
    [
        scaled(ROUND_UNITS[0], decimals) as u64,
        scaled(ROUND_UNITS[1], decimals) as u64,
        scaled(ROUND_UNITS[2], decimals) as u64,
        scaled(ROUND_UNITS[3], decimals) as u64,
    ]
}

/// What a presale sets out to sell: the capacity of all rounds together.
pub open spec fn target_amount(decimals: u8) -> int {
    scaled(ROUND_UNITS[0], decimals) + scaled(ROUND_UNITS[1], decimals) + scaled(
        ROUND_UNITS[2],
        decimals,
    ) + scaled(ROUND_UNITS[3], decimals)
}

/// The part of the total supply that is not for sale.
pub open spec fn liquidity_amount(decimals: u8) -> int {
    scaled(TOTAL_SUPPLY_UNITS, decimals) - target_amount(decimals)
}

/// With at most `MAX_DECIMALS` decimals the scaled total supply, and with it
/// every round's capacity, fits in 64 bits; the rounds take 800 million of
/// the one billion whole tokens.
pub proof fn lemma_supply_fits(decimals: u8)
    requires
        decimals <= MAX_DECIMALS,
    ensures
        1 <= pow(10, decimals as nat) <= 10_000_000_000,
        scaled(TOTAL_SUPPLY_UNITS, decimals) <= u64::MAX,
        target_amount(decimals) == scaled(800_000_000, decimals),
        liquidity_amount(decimals) == scaled(200_000_000, decimals),
        0 <= target_amount(decimals) <= scaled(TOTAL_SUPPLY_UNITS, decimals),
{
    let m: int = pow(10, decimals as nat);
    vstd::arithmetic::power::lemma_pow_positive(10, decimals as nat);
    vstd::arithmetic::power::lemma_pow_increases(10, decimals as nat, 10);
    assert(pow(10, 10) == 10_000_000_000) by {
        reveal_with_fuel(pow, 11);
    }
    assert(1_000_000_000 * m <= 1_000_000_000 * 10_000_000_000) by (nonlinear_arith)
        requires
            m <= 10_000_000_000,
    ;
    assert(245_000_000 * m + 235_000_000 * m + 215_000_000 * m + 105_000_000 * m == 800_000_000
        * m) by (nonlinear_arith);
    assert(1_000_000_000 * m - 800_000_000 * m == 200_000_000 * m) by (nonlinear_arith);
    assert(0 <= 800_000_000 * m <= 1_000_000_000 * m) by (nonlinear_arith)
        requires
            0 < m,
    ;
}

/// Ten to the power of `decimals`.
fn ten_to_the(decimals: u8) -> (multiplier: u64)
    requires
        decimals <= MAX_DECIMALS,
    ensures
        multiplier == pow(10, decimals as nat),
{
    let mut multiplier: u64 = 1;
    let mut done: u8 = 0;
    proof {
        vstd::arithmetic::power::lemma_pow0(10);
    }
    while done < decimals
        invariant
            done <= decimals <= MAX_DECIMALS,
            multiplier == pow(10, done as nat),
        decreases decimals - done,
    {
        proof {
            lemma_supply_fits((done + 1) as u8);
            reveal_with_fuel(pow, 2);
        }
        multiplier = multiplier * 10;
        done = done + 1;
    }
    multiplier
}

/// Sets the platform up.
pub fn initialize(ctx: &mut Initialize) -> (result: Result<(), PresaleTokenError>)
    ensures
        result is Ok,
        *final(ctx) == old(ctx).after_initialize(),
{
    ctx.initialize()
}

/// Opens a presale of a token with `decimals` decimals.
///
/// The total supply is one billion whole tokens. The four rounds offer 245,
/// 235, 215 and 105 million of them; the target is their sum, and the rest
/// of the supply is set aside as liquidity.
///
/// Returns the flat fee that the creator has to pay the platform.
pub fn initialize_presale(
    ctx: &mut InitializePresale,
    decimals: u8,
    start_timestamp: u64,
    duration: u64,
    round_prices: [u64; ROUND_COUNT],
    fee_percent: u16,
) -> (result: Result<u64, PresaleTokenError>)
    requires
        decimals <= MAX_DECIMALS,
    ensures
        result == Ok::<u64, PresaleTokenError>(old(ctx).platform_config.fee_amount_normal),
        *final(ctx) == old(ctx).after_initialize_presale(
            decimals,
            start_timestamp,
            duration,
            round_amounts(decimals),
            round_prices,
            liquidity_amount(decimals) as u64,
            target_amount(decimals) as u64,
            fee_percent,
        ),
        final(ctx).presale_config.well_formed(),
{
    let multiplier: u64 = ten_to_the(decimals);
    proof {
        lemma_supply_fits(decimals);
    }
    let total_supply: u64 = TOTAL_SUPPLY_UNITS * multiplier;
    let amounts: [u64; ROUND_COUNT] = [
        ROUND_UNITS[0] * multiplier,
        ROUND_UNITS[1] * multiplier,
        ROUND_UNITS[2] * multiplier,
        ROUND_UNITS[3] * multiplier,
    ];
    let target: u64 = amounts[0] + amounts[1] + amounts[2] + amounts[3];
    let liquidity: u64 = total_supply - target;
    ctx.initialize_presale(
        decimals,
        start_timestamp,
        duration,
        amounts,
        round_prices,
        liquidity,
        target,
        fee_percent,
    )
}

/// Buys up to `amount` tokens in `round` at the time that the runtime
/// reports; see [`BuySellPretoken::buy_pretoken`].
pub fn buy_pretoken(ctx: &mut BuySellPretoken, round: u8, amount: u64) -> (result: Result<
    u64,
    TimedCallError,
>)
    requires
        old(ctx).buy_refusal(round, amount, u64::MAX) is None ==> old(ctx).buy_in_range(
            round,
            amount,
        ),
    ensures
        round >= ROUND_COUNT ==> result matches Err(
            TimedCallError::Refused(PresaleTokenError::InvalidRound),
        ),
        round < ROUND_COUNT && amount == 0 ==> result matches Err(
            TimedCallError::Refused(PresaleTokenError::InvalidAmount),
        ),
        match result {
            Ok(payment) => {
                &&& exists|now: u64| #[trigger] old(ctx).buy_refusal(round, amount, now) is None
                &&& *final(ctx) == old(ctx).after_buy(round, amount)
                &&& payment == old(ctx).buy_payment(round, amount)
            },
            Err(TimedCallError::Refused(e)) => {
                &&& exists|now: u64| #[trigger] old(ctx).buy_refusal(round, amount, now) == Some(e)
                &&& *final(ctx) == *old(ctx)
            },
            Err(TimedCallError::NoClock(_)) => {
                &&& round < ROUND_COUNT
                &&& amount > 0
                &&& *final(ctx) == *old(ctx)
            },
        },
{
    ctx.buy_pretoken(round, amount)
}

/// Sells `amount` tokens of `round` back; see
/// [`BuySellPretoken::sell_pretoken`].
pub fn sell_pretoken(
    ctx: &mut BuySellPretoken,
    round: u8,
    amount: u64,
    presale_config_bump: u8,
) -> (result: Result<AuthorizedAmount, PresaleTokenError>)
    requires
        old(ctx).sell_refusal(round, amount) is None ==> old(ctx).sell_in_range(round, amount),
    ensures
        match result {
            Ok(payout) => {
                &&& old(ctx).sell_refusal(round, amount) is None
                &&& *final(ctx) == old(ctx).after_sell(round, amount)
                &&& payout.amount == old(ctx).sell_payout(round, amount)
                &&& payout.authority == old(ctx).presale_config.authority(presale_config_bump)
            },
            Err(e) => {
                &&& old(ctx).sell_refusal(round, amount) == Some(e)
                &&& *final(ctx) == *old(ctx)
            },
        },
{
    ctx.sell_pretoken(round, amount, presale_config_bump)
}

/// Closes the presale at the time that the runtime reports; see
/// [`FinalizePresale::finalize_presale`].
pub fn finalize_presale(ctx: &mut FinalizePresale) -> (result: Result<(), TimedCallError>)
    ensures
        old(ctx).presale_config.is_finalized ==> result matches Err(
            TimedCallError::Refused(PresaleTokenError::PresaleAlreadyFinalized),
        ),
        match result {
            Ok(_) => {
                &&& exists|now: u64| #[trigger] old(ctx).finalize_refusal(now) is None
                &&& *final(ctx) == old(ctx).after_finalize()
            },
            Err(TimedCallError::Refused(e)) => {
                &&& exists|now: u64| #[trigger] old(ctx).finalize_refusal(now) == Some(e)
                &&& *final(ctx) == *old(ctx)
            },
            Err(TimedCallError::NoClock(_)) => {
                &&& !old(ctx).presale_config.is_finalized
                &&& *final(ctx) == *old(ctx)
            },
        },
{
    ctx.finalize_presale()
}

/// Settles the caller's holdings; see [`ClaimOrRefund::claim_or_refund`].
pub fn claim_or_refund(ctx: &mut ClaimOrRefund, presale_config_bump: u8) -> (result: Result<
    AuthorizedAmount,
    PresaleTokenError,
>)
    requires
        old(ctx).claim_refusal() is None ==> old(ctx).user_allocation.total() <= u64::MAX,
    ensures
        *final(ctx) == old(ctx).after_claim(),
        match result {
            Ok(mint) => {
                &&& old(ctx).claim_refusal() is None
                &&& mint.amount == old(ctx).user_allocation.total()
                &&& mint.authority == old(ctx).presale_config.authority(presale_config_bump)
            },
            Err(e) => old(ctx).claim_refusal() == Some(e),
        },
{
    ctx.claim_or_refund(presale_config_bump)
}

} // verus!
