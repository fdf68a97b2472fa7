use vstd::prelude::*;
use crate::constants::{
    FINAL_ROUND, MAX_DECIMALS, PERCENT_DENOMINATOR, PRECISION, ROUND_COUNT, TOTAL_SUPPLY_UNITS,
};
use crate::contexts::{BuySellPretoken, ClaimOrRefund, FinalizePresale, InitializePresale};
use crate::errors::PresaleTokenError;
use crate::pricing::{
    gross_proceeds, lemma_ceil_div_is_least_cover, lemma_floor_div_brackets,
    lemma_payment_monotone, payment_due, sale_fee,
};
use crate::states::{PresaleConfig, UserAllocation};

verus! {

/// One presale together with the holdings of everybody who takes part in
/// it. Each operation of the library works on the presale and on one
/// entry of `holders`.
pub struct Market {
    pub presale: PresaleConfig,
    pub holders: Seq<UserAllocation>,
}

/// One call made on a market. `user` is the caller's place in `holders`.
pub enum Call {
    /// A newcomer gets an empty record.
    Enter,
    Buy { user: int, round: u8, amount: u64, now: u64 },
    Sell { user: int, round: u8, amount: u64 },
    Finalize { now: u64 },
    Claim { user: int },
}

/// Tokens that all of `holders` together hold in `round`.
pub open spec fn held(holders: Seq<UserAllocation>, round: int) -> int
    decreases holders.len(),
{
    if holders.len() == 0 {
        0
    } else {
        held(holders.drop_last(), round) + holders.last().amounts[round]
    }
}

/// Tokens that all of `holders` together hold, over all rounds.
pub open spec fn held_total(holders: Seq<UserAllocation>) -> int {
    held(holders, 0) + held(holders, 1) + held(holders, 2) + held(holders, 3)
}

impl Market {
    /// Whether `user` has a record.
    pub open spec fn has(&self, user: int) -> bool {
        0 <= user < self.holders.len()
    }

    /// The presale with the record of `user`, as a purchase or a sale sees
    /// them.
    pub open spec fn trade(&self, user: int) -> BuySellPretoken {
        BuySellPretoken { presale_config: self.presale, user_allocation: self.holders[user] }
    }

    /// The presale with the record of `user`, as settlement sees them.
    pub open spec fn settlement(&self, user: int) -> ClaimOrRefund {
        ClaimOrRefund { presale_config: self.presale, user_allocation: self.holders[user] }
    }

    /// Whether `call` changes anything: its caller has a record, it is not
    /// refused, and its numbers are in range. A settlement call changes
    /// something whenever it marks the caller as settled.
    pub open spec fn takes_effect(&self, call: Call) -> bool {
        match call {
            Call::Enter => true,
            Call::Buy { user, round, amount, now } => {
                &&& self.has(user)
                &&& self.trade(user).buy_refusal(round, amount, now) is None
                &&& self.trade(user).buy_in_range(round, amount)
            },
            Call::Sell { user, round, amount } => {
                &&& self.has(user)
                &&& self.trade(user).sell_refusal(round, amount) is None
                &&& self.trade(user).sell_in_range(round, amount)
            },
            Call::Finalize { now } => (FinalizePresale {
                presale_config: self.presale,
            }).finalize_refusal(now) is None,
            Call::Claim { user } => {
                &&& self.has(user)
                &&& self.settlement(user).claim_marks()
                &&& (self.settlement(user).claim_refusal() is None ==> self.holders[user].total()
                    <= u64::MAX)
            },
        }
    }

    /// The market after `call`.
    pub open spec fn step(&self, call: Call) -> Market {
        if !self.takes_effect(call) {
            *self
        } else {
            match call {
                Call::Enter => Market {
                    holders: self.holders.push(
                        UserAllocation { amounts: [0, 0, 0, 0], is_proceeded: false },
                    ),
                    ..*self
                },
                Call::Buy { user, round, amount, now } => {
                    let after: BuySellPretoken = self.trade(user).after_buy(round, amount);
                    Market {
                        presale: after.presale_config,
                        holders: self.holders.update(user, after.user_allocation),
                    }
                },
                Call::Sell { user, round, amount } => {
                    let after: BuySellPretoken = self.trade(user).after_sell(round, amount);
                    Market {
                        presale: after.presale_config,
                        holders: self.holders.update(user, after.user_allocation),
                    }
                },
                Call::Finalize { now } => Market {
                    presale: (FinalizePresale {
                        presale_config: self.presale,
                    }).after_finalize().presale_config,
                    ..*self
                },
                Call::Claim { user } => Market {
                    holders: self.holders.update(
                        user,
                        self.settlement(user).after_claim().user_allocation,
                    ),
                    ..*self
                },
            }
        }
    }

    /// The market after `calls`, made one after the other.
    pub open spec fn run(&self, calls: Seq<Call>) -> Market
        decreases calls.len(),
    {
        if calls.len() == 0 {
            *self
        } else {
            self.run(calls.drop_last()).step(calls.last())
        }
    }

    /// What has been bought is what the holders hold.
    pub open spec fn conserved(&self) -> bool {
        self.presale.total_buy_amount == held_total(self.holders)
    }

    /// In `round`, what is left and what is held make up the capacity.
    pub open spec fn accounted(&self, round: int) -> bool {
        self.presale.remaining(round) + held(self.holders, round)
            == self.presale.round_configs[round].round_total_amount
    }

    /// The presale is well formed, the books are kept, and every round
    /// before the last one is accounted for.
    pub open spec fn balanced(&self) -> bool {
        &&& self.presale.well_formed()
        &&& self.conserved()
        &&& forall|round: int| 0 <= round < FINAL_ROUND ==> #[trigger] self.accounted(round)
    }

    /// Whether two markets have the same schedule: capacities, prices,
    /// times, target, fee rate and the rest of what set-up wrote.
    pub open spec fn same_terms(&self, other: Market) -> bool {
        &&& forall|i: int|
            0 <= i < ROUND_COUNT ==> {
                &&& #[trigger] self.presale.round_configs[i].round_total_amount
                    == other.presale.round_configs[i].round_total_amount
                &&& self.presale.round_configs[i].price == other.presale.round_configs[i].price
                &&& self.presale.round_configs[i].round_end_time
                    == other.presale.round_configs[i].round_end_time
            }
        &&& self.presale.creator == other.presale.creator
        &&& self.presale.base_mint == other.presale.base_mint
        &&& self.presale.new_mint == other.presale.new_mint
        &&& self.presale.decimals == other.presale.decimals
        &&& self.presale.start_timestamp == other.presale.start_timestamp
        &&& self.presale.duration == other.presale.duration
        &&& self.presale.liquidity_amount == other.presale.liquidity_amount
        &&& self.presale.target_amount == other.presale.target_amount
        &&& self.presale.fee_percent == other.presale.fee_percent
    }
}

proof fn lemma_held_after_update(
    holders: Seq<UserAllocation>,
    user: int,
    record: UserAllocation,
    round: int,
)
    requires
        0 <= user < holders.len(),
    ensures
        held(holders.update(user, record), round) == held(holders, round)
            - holders[user].amounts[round] + record.amounts[round],
    decreases holders.len(),
{
    let updated: Seq<UserAllocation> = holders.update(user, record);
    if user == holders.len() - 1 {
        assert(updated.drop_last() =~= holders.drop_last());
    } else {
        assert(updated.drop_last() =~= holders.drop_last().update(user, record));
        lemma_held_after_update(holders.drop_last(), user, record, round);
    }
}

proof fn lemma_held_after_push(holders: Seq<UserAllocation>, record: UserAllocation, round: int)
    ensures
        held(holders.push(record), round) == held(holders, round) + record.amounts[round],
{
    assert(holders.push(record).drop_last() =~= holders);
}

/// Nobody holds a negative amount.
proof fn lemma_held_is_not_negative(holders: Seq<UserAllocation>, round: int)
    ensures
        0 <= held(holders, round),
    decreases holders.len(),
{
    if holders.len() > 0 {
        lemma_held_is_not_negative(holders.drop_last(), round);
    }
}

/// What one holder holds in a round is part of what all hold in it.
proof fn lemma_held_covers_each_holder(holders: Seq<UserAllocation>, user: int, round: int)
    requires
        0 <= user < holders.len(),
    ensures
        holders[user].amounts[round] <= held(holders, round),
    decreases holders.len(),
{
    lemma_held_is_not_negative(holders.drop_last(), round);
    if user < holders.len() - 1 {
        lemma_held_covers_each_holder(holders.drop_last(), user, round);
    }
}

/// A purchase is charged the price of what was granted, rounded up to the
/// next whole unit of base currency: the least payment that covers the
/// exact price. What was granted is the request cut down to what was
/// available, so the buyer never pays more than the request, or than all
/// that was available, would have cost.
pub proof fn law_buy_payment_rounds_up(ctx: BuySellPretoken, round: u8, amount: u64)
    requires
        round < ROUND_COUNT,
    ensures
        ({
            let granted: int = ctx.presale_config.granted(round as int, amount as int);
            let price: int = ctx.presale_config.price(round as int);
            let payment: int = ctx.buy_payment(round, amount);
            &&& 0 <= granted <= amount
            &&& granted <= ctx.presale_config.available(round as int)
            &&& granted == amount || granted == ctx.presale_config.available(round as int)
            &&& payment * PRECISION >= granted * price
            &&& (payment - 1) * PRECISION < granted * price
            &&& payment <= payment_due(amount as int, price)
            &&& payment <= payment_due(ctx.presale_config.available(round as int), price)
        }),
{
    let granted: int = ctx.presale_config.granted(round as int, amount as int);
    let price: int = ctx.presale_config.price(round as int);
    lemma_ceil_div_is_least_cover(granted * price, PRECISION as int);
    lemma_payment_monotone(granted, amount as int, price);
    lemma_payment_monotone(granted, ctx.presale_config.available(round as int), price);
}

/// A sale pays out the gross proceeds less the fee, and each of the two is
/// rounded down on its own: the gross proceeds are the whole units of base
/// currency in the exact value, the fee is the whole units in the exact
/// share of the gross proceeds.
pub proof fn law_sell_payout_rounds_down_twice(ctx: BuySellPretoken, round: u8, amount: u64)
    requires
        round < ROUND_COUNT,
    ensures
        ({
            let price: int = ctx.presale_config.price(round as int);
            let rate: int = ctx.presale_config.fee_percent as int;
            let gross: int = gross_proceeds(amount as int, price);
            let fee: int = sale_fee(gross, rate);
            &&& ctx.sell_payout(round, amount) == gross - fee
            &&& gross * PRECISION <= amount * price < (gross + 1) * PRECISION
            &&& fee * PERCENT_DENOMINATOR <= gross * rate < (fee + 1) * PERCENT_DENOMINATOR
        }),
{
    let price: int = ctx.presale_config.price(round as int);
    let rate: int = ctx.presale_config.fee_percent as int;
    let gross: int = gross_proceeds(amount as int, price);
    lemma_floor_div_brackets(amount * price, PRECISION as int);
    lemma_floor_div_brackets(gross * rate, PERCENT_DENOMINATOR as int);
}

/// One call keeps the books: if what has been bought was what the holders
/// held before, it is so after.
pub proof fn law_step_conserves(market: Market, call: Call)
    requires
        market.conserved(),
    ensures
        market.step(call).conserved(),
{
    if market.takes_effect(call) {
        match call {
            Call::Enter => {
                let blank: UserAllocation = UserAllocation {
                    amounts: [0, 0, 0, 0],
                    is_proceeded: false,
                };
                lemma_held_after_push(market.holders, blank, 0);
                lemma_held_after_push(market.holders, blank, 1);
                lemma_held_after_push(market.holders, blank, 2);
                lemma_held_after_push(market.holders, blank, 3);
            },
            Call::Buy { user, round, amount, now } => {
                let record: UserAllocation = market.trade(user).after_buy(
                    round,
                    amount,
                ).user_allocation;
                lemma_held_after_update(market.holders, user, record, 0);
                lemma_held_after_update(market.holders, user, record, 1);
                lemma_held_after_update(market.holders, user, record, 2);
                lemma_held_after_update(market.holders, user, record, 3);
            },
            Call::Sell { user, round, amount } => {
                let record: UserAllocation = market.trade(user).after_sell(
                    round,
                    amount,
                ).user_allocation;
                lemma_held_after_update(market.holders, user, record, 0);
                lemma_held_after_update(market.holders, user, record, 1);
                lemma_held_after_update(market.holders, user, record, 2);
                lemma_held_after_update(market.holders, user, record, 3);
            },
            Call::Finalize { now } => {},
            Call::Claim { user } => {
                let record: UserAllocation = market.settlement(user).after_claim().user_allocation;
                lemma_held_after_update(market.holders, user, record, 0);
                lemma_held_after_update(market.holders, user, record, 1);
                lemma_held_after_update(market.holders, user, record, 2);
                lemma_held_after_update(market.holders, user, record, 3);
            },
        }
    }
}

/// Conservation: after any sequence of calls, what the presale counts as
/// bought is the sum, over all holders and all rounds, of what they hold.
pub proof fn law_conservation(market: Market, calls: Seq<Call>)
    requires
        market.conserved(),
    ensures
        market.run(calls).conserved(),
    decreases calls.len(),
{
    if calls.len() > 0 {
        law_conservation(market, calls.drop_last());
        law_step_conserves(market.run(calls.drop_last()), calls.last());
    }
}

/// One call keeps a round before the last one accounted for: what is left
/// of it and what is held in it make up its capacity.
pub proof fn law_step_accounts_for_round(market: Market, call: Call, round: int)
    requires
        0 <= round < FINAL_ROUND,
        market.accounted(round),
    ensures
        market.step(call).accounted(round),
{
    if market.takes_effect(call) {
        match call {
            Call::Enter => {
                let blank: UserAllocation = UserAllocation {
                    amounts: [0, 0, 0, 0],
                    is_proceeded: false,
                };
                lemma_held_after_push(market.holders, blank, round);
            },
            Call::Buy { user, round: bought, amount, now } => {
                let record: UserAllocation = market.trade(user).after_buy(
                    bought,
                    amount,
                ).user_allocation;
                lemma_held_after_update(market.holders, user, record, round);
            },
            Call::Sell { user, round: sold, amount } => {
                let record: UserAllocation = market.trade(user).after_sell(
                    sold,
                    amount,
                ).user_allocation;
                lemma_held_after_update(market.holders, user, record, round);
            },
            Call::Finalize { now } => {},
            Call::Claim { user } => {
                let record: UserAllocation = market.settlement(user).after_claim().user_allocation;
                lemma_held_after_update(market.holders, user, record, round);
            },
        }
    }
}

/// After any sequence of calls, each round before the last one is
/// accounted for, so what is left of it never exceeds its capacity.
pub proof fn law_round_capacity_accounted(market: Market, calls: Seq<Call>, round: int)
    requires
        0 <= round < FINAL_ROUND,
        market.accounted(round),
    ensures
        market.run(calls).accounted(round),
        market.run(calls).presale.remaining(round) <= market.run(
            calls,
        ).presale.round_configs[round].round_total_amount,
    decreases calls.len(),
{
    if calls.len() > 0 {
        law_round_capacity_accounted(market, calls.drop_last(), round);
        law_step_accounts_for_round(market.run(calls.drop_last()), calls.last(), round);
    }
    lemma_held_is_not_negative(market.run(calls).holders, round);
}

/// No call changes the schedule.
pub proof fn law_step_keeps_terms(market: Market, call: Call)
    ensures
        market.step(call).same_terms(market),
{
}

/// After any sequence of calls the schedule is as it was set up: if the
/// target was the sum of the capacities, it still is.
pub proof fn law_terms_are_fixed(market: Market, calls: Seq<Call>)
    ensures
        market.run(calls).same_terms(market),
        market.run(calls).presale.capacity() == market.presale.capacity(),
    decreases calls.len(),
{
    if calls.len() > 0 {
        law_terms_are_fixed(market, calls.drop_last());
        law_step_keeps_terms(market.run(calls.drop_last()), calls.last());
    }
}

/// Round advancement: a call moves the open round on by exactly one if it
/// is a purchase that takes effect and leaves nothing of the round it
/// bought in; no other call moves it at all.
pub proof fn law_round_advances_when_sold_out(market: Market, call: Call)
    ensures
        ({
            let before: u8 = market.presale.current_round;
            let after: u8 = market.step(call).presale.current_round;
            let sold_out: bool = call is Buy && market.takes_effect(call) && market.step(
                call,
            ).presale.remaining(before as int) == 0;
            &&& sold_out ==> after == before + 1
            &&& !sold_out ==> after == before
        }),
{
}

/// The open round never moves back, and never past the last round's end.
pub proof fn law_round_never_moves_back(market: Market, calls: Seq<Call>)
    ensures
        market.presale.current_round <= market.run(calls).presale.current_round,
        market.presale.current_round <= ROUND_COUNT ==> market.run(calls).presale.current_round
            <= ROUND_COUNT,
    decreases calls.len(),
{
    if calls.len() > 0 {
        law_round_never_moves_back(market, calls.drop_last());
        law_round_advances_when_sold_out(market.run(calls.drop_last()), calls.last());
    }
}

/// Only finalization writes the two flags, and it is accepted only while
/// the presale is not finalized.
pub proof fn law_step_keeps_outcome(market: Market, call: Call)
    ensures
        market.presale.is_finalized || !(call is Finalize) ==> {
            &&& market.step(call).presale.is_finalized == market.presale.is_finalized
            &&& market.step(call).presale.is_success == market.presale.is_success
        },
        market.step(call).presale.is_finalized != market.presale.is_finalized ==> {
            &&& market.step(call).presale.is_finalized
            &&& market.step(call).presale.is_success == (market.presale.total_buy_amount
                >= market.presale.target_amount)
        },
{
}

/// Once a presale is finalized, no sequence of calls changes its outcome.
pub proof fn law_outcome_is_final(market: Market, calls: Seq<Call>)
    requires
        market.presale.is_finalized,
    ensures
        market.run(calls).presale.is_finalized,
        market.run(calls).presale.is_success == market.presale.is_success,
    decreases calls.len(),
{
    if calls.len() > 0 {
        law_outcome_is_final(market, calls.drop_last());
        law_step_keeps_outcome(market.run(calls.drop_last()), calls.last());
    }
}

/// The records after a call of `finalize_presale` at time `now`, accepted
/// or not.
pub open spec fn finalized_at(ctx: FinalizePresale, now: u64) -> FinalizePresale {
    if ctx.finalize_refusal(now) is None {
        ctx.after_finalize()
    } else {
        ctx
    }
}

/// Finalization is accepted once: unless the first call came before the
/// end of the sale window, a second call, at whatever time, is refused as
/// already finalized and leaves the outcome as the first call left it.
pub proof fn law_finalize_twice(ctx: FinalizePresale, first: u64, second: u64)
    requires
        ctx.finalize_refusal(first) != Some(PresaleTokenError::PresaleNotEnded),
    ensures
        finalized_at(ctx, first).finalize_refusal(second) == Some(
            PresaleTokenError::PresaleAlreadyFinalized,
        ),
        finalized_at(finalized_at(ctx, first), second) == finalized_at(ctx, first),
{
}

/// Settlement is accepted once: on a finalized presale, whatever the first
/// call of a user ended in, the second is refused as already settled and
/// changes nothing.
pub proof fn law_claim_twice(ctx: ClaimOrRefund)
    requires
        ctx.presale_config.is_finalized,
    ensures
        ctx.after_claim().claim_refusal() == Some(
            PresaleTokenError::UserAlreadyClaimedOrRefunded,
        ),
        ctx.after_claim().after_claim() == ctx.after_claim(),
{
}

/// After a failed presale every user's first settlement call ends in
/// `NotImplemented`.
pub proof fn law_failed_presale_never_settles(ctx: ClaimOrRefund)
    requires
        ctx.presale_config.is_finalized,
        !ctx.presale_config.is_success,
        !ctx.user_allocation.is_proceeded,
    ensures
        ctx.claim_refusal() == Some(PresaleTokenError::NotImplemented),
{
}

/// Balance is kept: whatever calls are made on a balanced market, in
/// whatever order and whether they are accepted or refused, the market
/// they leave is balanced.
pub proof fn law_balance_is_kept(market: Market, calls: Seq<Call>)
    requires
        market.balanced(),
    ensures
        market.run(calls).balanced(),
    decreases calls.len(),
{
    if calls.len() > 0 {
        let before: Market = market.run(calls.drop_last());
        let call: Call = calls.last();
        law_balance_is_kept(market, calls.drop_last());
        law_step_conserves(before, call);
        law_round_advances_when_sold_out(before, call);
        let after: Market = before.step(call);
        assert forall|round: int| 0 <= round < FINAL_ROUND implies #[trigger] after.accounted(
            round,
        ) by {
            assert(before.accounted(round));
            law_step_accounts_for_round(before, call, round);
        }
        assert forall|round: int| 0 <= round < FINAL_ROUND implies #[trigger] after.presale.remaining(
            round,
        ) <= after.presale.round_configs[round].round_total_amount by {
            assert(after.accounted(round));
            lemma_held_is_not_negative(after.holders, round);
        }
    }
}

/// A presale opened in a record that counted nothing as bought starts in
/// balance: the target is the capacity of all rounds together, target and
/// liquidity make up the total supply, every round is at full capacity,
/// and with nobody holding anything the books are kept.
pub proof fn law_new_presale_is_balanced(
    ctx: InitializePresale,
    decimals: u8,
    start_timestamp: u64,
    duration: u64,
    round_prices: [u64; ROUND_COUNT],
    fee_percent: u16,
)
    requires
        decimals <= MAX_DECIMALS,
        ctx.presale_config.total_buy_amount == 0,
    ensures
        ({
            let opened: PresaleConfig = ctx.after_initialize_presale(
                decimals,
                start_timestamp,
                duration,
                crate::round_amounts(decimals),
                round_prices,
                crate::liquidity_amount(decimals) as u64,
                crate::target_amount(decimals) as u64,
                fee_percent,
            ).presale_config;
            let market: Market = Market { presale: opened, holders: Seq::empty() };
            &&& opened.capacity() == opened.target_amount
            &&& opened.target_amount + opened.liquidity_amount == crate::scaled(
                TOTAL_SUPPLY_UNITS,
                decimals,
            )
            &&& market.balanced()
            &&& forall|round: int|
                0 <= round < ROUND_COUNT ==> {
                    &&& #[trigger] market.accounted(round)
                    &&& opened.remaining(round)
                        == opened.round_configs[round].round_total_amount
                }
        }),
{
    crate::lemma_supply_fits(decimals);
}

/// Where the books are kept, nobody holds more than has been bought, so
/// settlement can always add a holder's rounds up, and no sale takes more
/// out of the bought total than is in it.
pub proof fn law_kept_books_bound_each_holder(market: Market, user: int)
    requires
        market.conserved(),
        market.has(user),
    ensures
        market.holders[user].total() <= market.presale.total_buy_amount,
        market.holders[user].total() <= u64::MAX,
        forall|round: int|
            0 <= round < ROUND_COUNT ==> #[trigger] market.holders[user].amounts[round]
                <= market.presale.total_buy_amount,
{
    lemma_held_covers_each_holder(market.holders, user, 0);
    lemma_held_covers_each_holder(market.holders, user, 1);
    lemma_held_covers_each_holder(market.holders, user, 2);
    lemma_held_covers_each_holder(market.holders, user, 3);
    lemma_held_is_not_negative(market.holders, 0);
    lemma_held_is_not_negative(market.holders, 1);
    lemma_held_is_not_negative(market.holders, 2);
    lemma_held_is_not_negative(market.holders, 3);
}

/// Where a round before the last one is accounted for, handing back what
/// one holds in it never lifts what is left of it above its capacity.
pub proof fn law_accounted_round_takes_back(market: Market, user: int, round: u8, amount: u64)
    requires
        round < FINAL_ROUND,
        market.accounted(round as int),
        market.has(user),
        amount <= market.holders[user].amounts[round as int],
    ensures
        market.presale.remaining(round as int) + amount
            <= market.presale.round_configs[round as int].round_total_amount,
{
    lemma_held_covers_each_holder(market.holders, user, round as int);
}

} // verus!
