use vstd::prelude::*;
use anchor_lang::prelude::Pubkey;
use crate::constants::{FINAL_ROUND, ROUND_COUNT};

verus! {

/// `solana_program::pubkey::Pubkey`, the 32-byte address of an account.
/// The library stores and hands on such addresses and never looks inside.
#[verifier::external_type_specification]
#[verifier::external_body]
pub struct ExPubkey(Pubkey);

/// `Pubkey::default()`, the address a blank record holds. Nothing is
/// claimed of the address returned.
pub assume_specification[ <Pubkey as Default>::default ]() -> (key: Pubkey);

/// Platform-wide settings, written once.
#[derive(Clone, Copy, Debug)]
pub struct PlatformConfig {
    pub platform_wallet: Pubkey,
    pub fee_mint: Pubkey,
    pub fee_percent: u16,
    pub fee_amount_normal: u64,
    pub fee_amount_special: u64,
}

/// One sale round: its capacity, what is left of it, and its price.
#[derive(Clone, Copy, Debug, PartialEq, Eq, Structural)]
pub struct RoundConfig {
    /// Not used by any rule.
    pub round_end_time: u64,
    pub round_total_amount: u64,
    pub remained_amount: u64,
    /// Fixed-point price, scaled by `PRECISION`.
    pub price: u64,
}

/// One presale: its schedule, its cursor and its running totals.
#[derive(Clone, Copy, Debug)]
pub struct PresaleConfig {
    pub creator: Pubkey,
    pub base_mint: Pubkey,
    pub new_mint: Pubkey,
    pub decimals: u8,
    pub round_configs: [RoundConfig; ROUND_COUNT],
    /// The one round that accepts purchases; `ROUND_COUNT` once all are sold out.
    pub current_round: u8,
    pub start_timestamp: u64,
    pub duration: u64,
    pub liquidity_amount: u64,
    pub target_amount: u64,
    pub total_buy_amount: u64,
    /// Capacity handed back by sellers; only the last round can draw on it.
    pub total_return_amount: u64,
    /// Fee on sale proceeds, in basis points.
    pub fee_percent: u16,
    pub is_finalized: bool,
    pub is_success: bool,
}

/// What one user holds in one presale, round by round.
#[derive(Clone, Copy, Debug)]
pub struct UserAllocation {
    pub amounts: [u64; ROUND_COUNT],
    /// Set once the user has settled.
    pub is_proceeded: bool,
}

impl Default for RoundConfig {
    fn default() -> (round: RoundConfig)
        ensures
            round == (RoundConfig {
                round_end_time: 0,
                round_total_amount: 0,
                remained_amount: 0,
                price: 0,
            }),
    {
        RoundConfig { round_end_time: 0, round_total_amount: 0, remained_amount: 0, price: 0 }
    }
}

impl Default for UserAllocation {
    fn default() -> (allocation: UserAllocation)
        ensures
            allocation.holds_nothing(),
            !allocation.is_proceeded,
    {
        UserAllocation { amounts: [0, 0, 0, 0], is_proceeded: false }
    }
}

impl Default for PlatformConfig {
    fn default() -> (config: PlatformConfig)
        ensures
            config.fee_percent == 0,
            config.fee_amount_normal == 0,
            config.fee_amount_special == 0,
    {
        PlatformConfig {
            platform_wallet: Pubkey::default(),
            fee_mint: Pubkey::default(),
            fee_percent: 0,
            fee_amount_normal: 0,
            fee_amount_special: 0,
        }
    }
}

impl Default for PresaleConfig {
    fn default() -> (config: PresaleConfig)
        ensures
            config.is_blank(),
    {
        let round: RoundConfig = RoundConfig::default();
        PresaleConfig {
            creator: Pubkey::default(),
            base_mint: Pubkey::default(),
            new_mint: Pubkey::default(),
            decimals: 0,
            round_configs: [round, round, round, round],
            current_round: 0,
            start_timestamp: 0,
            duration: 0,
            liquidity_amount: 0,
            target_amount: 0,
            total_buy_amount: 0,
            total_return_amount: 0,
            fee_percent: 0,
            is_finalized: false,
            is_success: false,
        }
    }
}

impl UserAllocation {
    /// Tokens held over all rounds.
    pub open spec fn total(&self) -> int {
        self.amounts[0] + self.amounts[1] + self.amounts[2] + self.amounts[3]
    }

    /// No tokens in any round.
    pub open spec fn holds_nothing(&self) -> bool {
        forall|i: int| 0 <= i < ROUND_COUNT ==> self.amounts[i] == 0
    }

    /// Tokens held over all rounds.
    pub fn total_amount(&self) -> (total: u64)
        requires
            self.total() <= u64::MAX,
        ensures
            total == self.total(),
    {
        self.amounts[0] + self.amounts[1] + self.amounts[2] + self.amounts[3]
    }

    /// Whether the holdings over all rounds fit in 64 bits.
    pub fn total_fits(&self) -> (fits: bool)
        ensures
            fits == (self.total() <= u64::MAX),
    {
        let sum: u128 = self.amounts[0] as u128 + self.amounts[1] as u128 + self.amounts[2] as u128
            + self.amounts[3] as u128;
        sum <= u64::MAX as u128
    }
}

impl PresaleConfig {
    /// A record as it is before a presale is set up in it: every number
    /// zero, both flags down.
    pub open spec fn is_blank(&self) -> bool {
        &&& self.decimals == 0
        &&& forall|i: int| 0 <= i < ROUND_COUNT ==> self.round_configs[i] == (RoundConfig {
            round_end_time: 0,
            round_total_amount: 0,
            remained_amount: 0,
            price: 0,
        })
        &&& self.current_round == 0
        &&& self.start_timestamp == 0
        &&& self.duration == 0
        &&& self.liquidity_amount == 0
        &&& self.target_amount == 0
        &&& self.total_buy_amount == 0
        &&& self.total_return_amount == 0
        &&& self.fee_percent == 0
        &&& !self.is_finalized
        &&& !self.is_success
    }

    /// Capacity of `round` that has not been sold.
    pub open spec fn remaining(&self, round: int) -> int {
        self.round_configs[round].remained_amount as int
    }

    /// Price of `round`.
    pub open spec fn price(&self, round: int) -> int {
        self.round_configs[round].price as int
    }

    /// What a buyer in `round` can draw on: the round's remaining capacity,
    /// and in the last round also what sellers have handed back.
    pub open spec fn available(&self, round: int) -> int {
        if round == FINAL_ROUND {
            self.remaining(round) + self.total_return_amount
        } else {
            self.remaining(round)
        }
    }

    /// What a request for `amount` in `round` is filled with: the request,
    /// cut down to what is available.
    pub open spec fn granted(&self, round: int, amount: int) -> int {
        if amount <= self.available(round) {
            amount
        } else {
            self.available(round)
        }
    }

    /// The part of a fill that comes out of handed-back capacity, which is
    /// drawn on first, and only in the last round.
    pub open spec fn from_returns(&self, round: int, amount: int) -> int {
        if round != FINAL_ROUND {
            0
        } else if self.granted(round, amount) <= self.total_return_amount {
            self.granted(round, amount)
        } else {
            self.total_return_amount as int
        }
    }

    /// The part of a fill that comes out of the round's own capacity.
    pub open spec fn from_capacity(&self, round: int, amount: int) -> int {
        self.granted(round, amount) - self.from_returns(round, amount)
    }

    /// Capacity of all rounds together.
    pub open spec fn capacity(&self) -> int {
        self.round_configs[0].round_total_amount + self.round_configs[1].round_total_amount
            + self.round_configs[2].round_total_amount + self.round_configs[3].round_total_amount
    }

    /// What holds of every presale that was opened by the library and
    /// worked on by it since: the open round is one of the four or the end
    /// past the last, the target is the capacity of all rounds together,
    /// no round before the last one has more left than its capacity, and
    /// only a finalized presale is a success.
    pub open spec fn well_formed(&self) -> bool {
        &&& self.current_round <= ROUND_COUNT
        &&& self.capacity() == self.target_amount
        &&& forall|round: int|
            0 <= round < FINAL_ROUND ==> #[trigger] self.remaining(round)
                <= self.round_configs[round].round_total_amount
        &&& self.is_success ==> self.is_finalized
    }

    /// The time at which the sale window closes.
    pub open spec fn end_time(&self) -> int {
        self.start_timestamp + self.duration
    }
}

} // verus!
