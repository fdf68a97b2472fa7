use vstd::prelude::*;

verus! {

/// Scale of a round price: a price `p` stands for `p / PRECISION` units of
/// base currency per unit of the new token.
pub const PRECISION: u64 = 1_000_000_000;

/// Scale of a fee rate: a rate `f` stands for `f / PERCENT_DENOMINATOR`
/// (basis points).
pub const PERCENT_DENOMINATOR: u64 = 10_000;

/// Number of sale rounds. The last round is the only one that can draw on
/// capacity that sellers have handed back.
pub const ROUND_COUNT: usize = 4;

/// Index of the last round.
pub const FINAL_ROUND: u8 = 3;

/// Flat fee for opening a presale, normal tier.
pub const FEE_AMOUNT_NORMAL: u64 = 2_000_000;

/// Flat fee for opening a presale, special tier.
pub const FEE_AMOUNT_SPECIAL: u64 = 10_000_000;

/// Whole tokens of the total supply, before scaling by the decimals.
pub const TOTAL_SUPPLY_UNITS: u64 = 1_000_000_000;

/// Whole tokens offered in each round, before scaling by the decimals.
pub const ROUND_UNITS: [u64; 4] = [245_000_000, 235_000_000, 215_000_000, 105_000_000];

/// Largest number of decimals for which the scaled total supply fits in 64 bits.
pub const MAX_DECIMALS: u8 = 10;

} // verus!
