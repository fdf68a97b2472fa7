use vstd::prelude::*;
use crate::constants::{PERCENT_DENOMINATOR, PRECISION};

verus! {

/// `n / d` rounded up, for `n >= 0` and `d > 0`.
pub open spec fn ceil_div(n: int, d: int) -> int {
    if n % d == 0 {
        n / d
    } else {
        n / d + 1
    }
}

/// Base currency a buyer owes for `amount` tokens at `price`: the exact
/// value `amount * price / PRECISION`, rounded up.
pub open spec fn payment_due(amount: int, price: int) -> int {
    ceil_div(amount * price, PRECISION as int)
}

/// Base currency that `amount` tokens are worth at `price` when handed
/// back: the exact value `amount * price / PRECISION`, rounded down.
pub open spec fn gross_proceeds(amount: int, price: int) -> int {
    (amount * price) / (PRECISION as int)
}

/// Fee withheld from `gross` at `fee_percent` basis points, rounded down.
pub open spec fn sale_fee(gross: int, fee_percent: int) -> int {
    (gross * fee_percent) / (PERCENT_DENOMINATOR as int)
}

/// What a seller receives: the gross proceeds less the fee, each rounded
/// down on its own.
pub open spec fn net_proceeds(amount: int, price: int, fee_percent: int) -> int {
    gross_proceeds(amount, price) - sale_fee(gross_proceeds(amount, price), fee_percent)
}

/// The rounded-up quotient is the least whole number of `d`-sized steps
/// that covers `n`.
pub proof fn lemma_ceil_div_is_least_cover(n: int, d: int)
    requires
        0 <= n,
        0 < d,
    ensures
        0 <= ceil_div(n, d),
        ceil_div(n, d) * d >= n,
        (ceil_div(n, d) - 1) * d < n,
{
    vstd::arithmetic::div_mod::lemma_fundamental_div_mod(n, d);
    vstd::arithmetic::div_mod::lemma_mod_bound(n, d);
    let q: int = n / d;
    assert(d * q == q * d) by (nonlinear_arith);
    assert((q + 1) * d == q * d + d) by (nonlinear_arith);
    assert((q - 1) * d == q * d - d) by (nonlinear_arith);
}

/// Rounding up after adding `d - 1` and dividing is the rounded-up quotient.
pub proof fn lemma_ceil_div_by_offset(n: int, d: int)
    requires
        0 <= n,
        0 < d,
    ensures
        (n + d - 1) / d == ceil_div(n, d),
{
    vstd::arithmetic::div_mod::lemma_fundamental_div_mod(n, d);
    vstd::arithmetic::div_mod::lemma_mod_bound(n, d);
    let q: int = n / d;
    let r: int = n % d;
    assert(d * q == q * d) by (nonlinear_arith);
    if r == 0 {
        // n + d - 1 == q * d + (d - 1)
        vstd::arithmetic::div_mod::lemma_fundamental_div_mod_converse(n + d - 1, d, q, d - 1);
    } else {
        // n + d - 1 == (q + 1) * d + (r - 1)
        assert((q + 1) * d == q * d + d) by (nonlinear_arith);
        vstd::arithmetic::div_mod::lemma_fundamental_div_mod_converse(n + d - 1, d, q + 1, r - 1);
    }
}

/// The rounded-down quotient `q` of `n` by `d` is the one with
/// `q * d <= n < (q + 1) * d`.
pub proof fn lemma_floor_div_brackets(n: int, d: int)
    requires
        0 < d,
    ensures
        (n / d) * d <= n < (n / d + 1) * d,
{
    vstd::arithmetic::div_mod::lemma_fundamental_div_mod(n, d);
    vstd::arithmetic::div_mod::lemma_mod_bound(n, d);
    let q: int = n / d;
    assert(d * q == q * d) by (nonlinear_arith);
    assert((q + 1) * d == q * d + d) by (nonlinear_arith);
}

/// A larger numerator never gives a smaller rounded-up quotient.
pub proof fn lemma_ceil_div_monotone(a: int, b: int, d: int)
    requires
        0 <= a <= b,
        0 < d,
    ensures
        ceil_div(a, d) <= ceil_div(b, d),
{
    lemma_ceil_div_by_offset(a, d);
    lemma_ceil_div_by_offset(b, d);
    vstd::arithmetic::div_mod::lemma_div_is_ordered(a + d - 1, b + d - 1, d);
}

/// The product of two 64-bit values, with room to spare below 2^128.
pub proof fn lemma_product_fits(a: u64, b: u64)
    ensures
        0 <= a * b <= 0xffff_ffff_ffff_ffff * 0xffff_ffff_ffff_ffff,
        a * b + PRECISION < 0x1_0000_0000_0000_0000_0000_0000_0000_0000,
{
    assert(0 <= a * b <= 0xffff_ffff_ffff_ffff * 0xffff_ffff_ffff_ffff) by (nonlinear_arith)
        requires
            0 <= a <= 0xffff_ffff_ffff_ffff,
            0 <= b <= 0xffff_ffff_ffff_ffff,
    ;
}

/// Whether the payment for `amount` tokens at `price` fits in 64 bits.
pub fn payment_fits(amount: u64, price: u64) -> (fits: bool)
    ensures
        fits == (payment_due(amount as int, price as int) <= u64::MAX),
{
    let product: u128 = widening_product(amount, price);
    let rounded: u128 = (product + (PRECISION as u128 - 1)) / (PRECISION as u128);
    proof {
        lemma_ceil_div_by_offset(amount * price, PRECISION as int);
    }
    rounded <= u64::MAX as u128
}

/// `a * b`, exactly.
pub fn widening_product(a: u64, b: u64) -> (product: u128)
    ensures
        product == a * b,
        product + PRECISION < 0x1_0000_0000_0000_0000_0000_0000_0000_0000,
{
    proof {
        lemma_product_fits(a, b);
    }
    (a as u128) * (b as u128)
}

/// Base currency owed for `amount` tokens at `price`, rounded up.
pub fn required_payment(amount: u64, price: u64) -> (payment: u64)
    requires
        payment_due(amount as int, price as int) <= u64::MAX,
    ensures
        payment == payment_due(amount as int, price as int),
{
    let product: u128 = widening_product(amount, price);
    let rounded: u128 = (product + (PRECISION as u128 - 1)) / (PRECISION as u128);
    proof {
        lemma_ceil_div_by_offset(amount * price, PRECISION as int);
    }
    rounded as u64
}

/// Whether the proceeds of handing back `amount` tokens at `price` can be
/// paid out: the gross value fits in 64 bits and the fee does not exceed it.
pub fn proceeds_fit(amount: u64, price: u64, fee_percent: u16) -> (fits: bool)
    ensures
        fits == (gross_proceeds(amount as int, price as int) <= u64::MAX && sale_fee(
            gross_proceeds(amount as int, price as int),
            fee_percent as int,
        ) <= gross_proceeds(amount as int, price as int)),
{
    let product: u128 = widening_product(amount, price);
    let gross: u128 = product / (PRECISION as u128);
    if gross > u64::MAX as u128 {
        return false;
    }
    proof {
        lemma_scaled_fits(gross as u64, fee_percent);
    }
    let fee: u128 = gross * (fee_percent as u128) / (PERCENT_DENOMINATOR as u128);
    fee <= gross
}

/// A 64-bit value times a 16-bit value stays below 2^128.
pub proof fn lemma_scaled_fits(a: u64, f: u16)
    ensures
        0 <= a * f < 0x1_0000_0000_0000_0000_0000,
{
    assert(0 <= a * f < 0x1_0000_0000_0000_0000_0000) by (nonlinear_arith)
        requires
            0 <= a <= 0xffff_ffff_ffff_ffff,
            0 <= f <= 0xffff,
    ;
}

/// Base currency paid out for `amount` tokens handed back at `price`, after
/// the fee of `fee_percent` basis points: rounded down at each of the two
/// divisions.
pub fn net_payout(amount: u64, price: u64, fee_percent: u16) -> (net: u64)
    requires
        gross_proceeds(amount as int, price as int) <= u64::MAX,
        sale_fee(gross_proceeds(amount as int, price as int), fee_percent as int)
            <= gross_proceeds(amount as int, price as int),
    ensures
        net == net_proceeds(amount as int, price as int, fee_percent as int),
{
    let product: u128 = widening_product(amount, price);
    let gross: u64 = (product / (PRECISION as u128)) as u64;
    proof {
        lemma_scaled_fits(gross, fee_percent);
    }
    let fee: u64 = ((gross as u128) * (fee_percent as u128) / (PERCENT_DENOMINATOR as u128)) as u64;
    gross - fee
}

/// A fee rate of at most the whole never takes more than the gross
/// proceeds, so at such a rate every sale whose gross proceeds fit in 64
/// bits can be paid out.
pub proof fn law_fee_stays_within_gross(gross: int, fee_percent: int)
    requires
        0 <= gross,
        0 <= fee_percent <= PERCENT_DENOMINATOR,
    ensures
        0 <= sale_fee(gross, fee_percent) <= gross,
{
    let d: int = PERCENT_DENOMINATOR as int;
    assert(0 <= gross * fee_percent <= gross * d) by (nonlinear_arith)
        requires
            0 <= gross,
            0 <= fee_percent <= d,
    ;
    vstd::arithmetic::div_mod::lemma_div_is_ordered(gross * fee_percent, gross * d, d);
    vstd::arithmetic::div_mod::lemma_div_multiples_vanish(gross, d);
    vstd::arithmetic::div_mod::lemma_div_pos_is_pos(gross * fee_percent, d);
    assert(gross * d == d * gross) by (nonlinear_arith);
}

/// Rounding favours the pool in both directions: what a seller receives for
/// an amount never exceeds what a buyer owes for the same amount at the
/// same price.
pub proof fn law_round_trip_never_profits(amount: int, price: int, fee_percent: int)
    requires
        0 <= amount,
        0 <= price,
        0 <= fee_percent,
    ensures
        net_proceeds(amount, price, fee_percent) <= gross_proceeds(amount, price),
        gross_proceeds(amount, price) <= payment_due(amount, price),
{
    let d: int = PERCENT_DENOMINATOR as int;
    let gross: int = gross_proceeds(amount, price);
    assert(0 <= amount * price) by (nonlinear_arith)
        requires
            0 <= amount,
            0 <= price,
    ;
    vstd::arithmetic::div_mod::lemma_div_pos_is_pos(amount * price, PRECISION as int);
    assert(0 <= gross * fee_percent) by (nonlinear_arith)
        requires
            0 <= gross,
            0 <= fee_percent,
    ;
    vstd::arithmetic::div_mod::lemma_div_pos_is_pos(gross * fee_percent, d);
}

/// A larger amount never costs less.
pub proof fn lemma_payment_monotone(smaller: int, larger: int, price: int)
    requires
        0 <= smaller <= larger,
        0 <= price,
    ensures
        0 <= payment_due(smaller, price) <= payment_due(larger, price),
{
    assert(0 <= smaller * price <= larger * price) by (nonlinear_arith)
        requires
            0 <= smaller <= larger,
            0 <= price,
    ;
    lemma_ceil_div_monotone(smaller * price, larger * price, PRECISION as int);
}

} // verus!
