use vstd::prelude::*;
use vstd::array::spec_array_update;
use crate::constants::{FEE_AMOUNT_NORMAL, FEE_AMOUNT_SPECIAL, FINAL_ROUND, ROUND_COUNT};
use crate::contexts::{
    AuthorizedAmount, BuySellPretoken, ClaimOrRefund, FinalizePresale, Initialize,
    InitializePresale, PresaleAuthority,
};
use crate::clock::{cluster_unix_timestamp, seconds};
use crate::errors::{PresaleTokenError, TimedCallError};
use crate::pricing::{
    gross_proceeds, net_payout, net_proceeds, payment_due, payment_fits, proceeds_fit,
    required_payment, sale_fee,
};
use crate::states::{PlatformConfig, PresaleConfig, RoundConfig, UserAllocation};

verus! {

impl BuySellPretoken {
    /// Why a purchase of `amount` in `round` at time `now` is refused, if it
    /// is. Only the open round sells; the first round opens at the start
    /// time, each later one when the round before it is sold out.
    pub open spec fn buy_refusal(&self, round: u8, amount: u64, now: u64) -> Option<
        PresaleTokenError,
    > {
        if round >= ROUND_COUNT {
            Some(PresaleTokenError::InvalidRound)
        } else if amount == 0 {
            Some(PresaleTokenError::InvalidAmount)
        } else if round > self.presale_config.current_round {
            Some(PresaleTokenError::RoundNotStarted)
        } else if round < self.presale_config.current_round {
            Some(PresaleTokenError::RoundEnded)
        } else if round == 0 && now < self.presale_config.start_timestamp {
            Some(PresaleTokenError::PresaleNotStarted)
        } else {
            None
        }
    }

    /// What the buyer owes for what a request for `amount` in `round` is
    /// filled with.
    pub open spec fn buy_payment(&self, round: u8, amount: u64) -> int {
        payment_due(
            self.presale_config.granted(round as int, amount as int),
            self.presale_config.price(round as int),
        )
    }

    /// Whether every number that a purchase writes or hands out fits in 64
    /// bits.
    pub open spec fn buy_in_range(&self, round: u8, amount: u64) -> bool {
        let granted: int = self.presale_config.granted(round as int, amount as int);
        &&& self.presale_config.total_buy_amount + granted <= u64::MAX
        &&& self.user_allocation.amounts[round as int] + granted <= u64::MAX
        &&& self.buy_payment(round, amount) <= u64::MAX
    }

    /// The records after an accepted purchase.
    pub open spec fn after_buy(&self, round: u8, amount: u64) -> BuySellPretoken {
        let presale: PresaleConfig = self.presale_config;
        let granted: int = presale.granted(round as int, amount as int);
        let left: int = presale.remaining(round as int) - presale.from_capacity(
            round as int,
            amount as int,
        );
        BuySellPretoken {
            presale_config: PresaleConfig {
                round_configs: spec_array_update(
                    presale.round_configs,
                    round as int,
                    RoundConfig {
                        remained_amount: left as u64,
                        ..presale.round_configs[round as int]
                    },
                ),
                total_return_amount: (presale.total_return_amount - presale.from_returns(
                    round as int,
                    amount as int,
                )) as u64,
                total_buy_amount: (presale.total_buy_amount + granted) as u64,
                current_round: if left == 0 {
                    (presale.current_round + 1) as u8
                } else {
                    presale.current_round
                },
                ..presale
            },
            user_allocation: UserAllocation {
                amounts: spec_array_update(
                    self.user_allocation.amounts,
                    round as int,
                    (self.user_allocation.amounts[round as int] + granted) as u64,
                ),
                ..self.user_allocation
            },
        }
    }

    /// Whether `buy_pretoken_at` may be called with these arguments: true
    /// unless the purchase would be accepted and a number in it would not
    /// fit in 64 bits.
    pub fn buy_stays_in_range(&self, round: u8, amount: u64, now: u64) -> (ok: bool)
        ensures
            ok == (self.buy_refusal(round, amount, now) is None ==> self.buy_in_range(
                round,
                amount,
            )),
    {
        if round >= ROUND_COUNT as u8 || amount == 0 || round != self.presale_config.current_round
            || (round == 0 && now < self.presale_config.start_timestamp) {
            return true;
        }
        let granted: u64 = self.fill(round, amount);
        let held: u64 = self.user_allocation.amounts[round as usize];
        granted <= u64::MAX - self.presale_config.total_buy_amount && granted <= u64::MAX - held
            && payment_fits(granted, self.presale_config.round_configs[round as usize].price)
    }

    /// What a request for `amount` in `round` is filled with.
    fn fill(&self, round: u8, amount: u64) -> (granted: u64)
        requires
            round < ROUND_COUNT,
        ensures
            granted == self.presale_config.granted(round as int, amount as int),
    {
        let remained: u64 = self.presale_config.round_configs[round as usize].remained_amount;
        let available: u128 = if round < FINAL_ROUND {
            remained as u128
        } else {
            remained as u128 + self.presale_config.total_return_amount as u128
        };
        if amount as u128 > available {
            available as u64
        } else {
            amount
        }
    }

    /// Buys up to `amount` tokens in `round` at time `now`.
    ///
    /// A request for more than is available is filled with what is
    /// available; that is no error. In the last round, capacity that sellers
    /// have handed back is used up before the round's own. The round closes,
    /// and the next one opens, exactly when the round's own capacity is down
    /// to zero after the purchase.
    ///
    /// Returns the base currency that the buyer has to pay into the vault:
    /// the price of what was granted, rounded up.
    pub fn buy_pretoken_at(&mut self, round: u8, amount: u64, now: u64) -> (result: Result<
        u64,
        PresaleTokenError,
    >)
        requires
            old(self).buy_refusal(round, amount, now) is None ==> old(self).buy_in_range(
                round,
                amount,
            ),
        ensures
            match result {
                Ok(payment) => {
                    &&& old(self).buy_refusal(round, amount, now) is None
                    &&& *final(self) == old(self).after_buy(round, amount)
                    &&& payment == old(self).buy_payment(round, amount)
                },
                Err(e) => {
                    &&& old(self).buy_refusal(round, amount, now) == Some(e)
                    &&& *final(self) == *old(self)
                },
            },
    {
        if round >= ROUND_COUNT as u8 {
            return Err(PresaleTokenError::InvalidRound);
        }
        if amount == 0 {
            return Err(PresaleTokenError::InvalidAmount);
        }
        let granted: u64 = self.fill(round, amount);
        if round > self.presale_config.current_round {
            return Err(PresaleTokenError::RoundNotStarted);
        }
        if round < self.presale_config.current_round {
            return Err(PresaleTokenError::RoundEnded);
        }
        if round == 0 && now < self.presale_config.start_timestamp {
            return Err(PresaleTokenError::PresaleNotStarted);
        }
        let round_config: RoundConfig = self.presale_config.round_configs[round as usize];
        let returned: u64 = self.presale_config.total_return_amount;
        let from_returns: u64 = if round == FINAL_ROUND {
            if granted <= returned {
                granted
            } else {
                returned
            }
        } else {
            0
        };
        let from_capacity: u64 = granted - from_returns;
        let left: u64 = round_config.remained_amount - from_capacity;

        self.presale_config.round_configs[round as usize].remained_amount = left;
        self.presale_config.total_return_amount = returned - from_returns;
        self.presale_config.total_buy_amount = self.presale_config.total_buy_amount + granted;
        if left == 0 {
            self.presale_config.current_round = self.presale_config.current_round + 1;
        }
        let payment: u64 = required_payment(granted, round_config.price);
        self.user_allocation.amounts[round as usize] = self.user_allocation.amounts[round as usize]
            + granted;
        Ok(payment)
    }

    /// Buys up to `amount` tokens in `round` at the time that the runtime
    /// reports; see `buy_pretoken_at` for what a purchase at a given time
    /// does.
    ///
    /// Round and amount are looked at first: a round out of range or an
    /// amount of zero is refused whatever the time. Then the runtime is
    /// asked for the time; where it has none, the call ends with the
    /// runtime's error and nothing is written.
    pub fn buy_pretoken(&mut self, round: u8, amount: u64) -> (result: Result<u64, TimedCallError>)
        requires
            old(self).buy_refusal(round, amount, u64::MAX) is None ==> old(self).buy_in_range(
                round,
                amount,
            ),
        ensures
            round >= ROUND_COUNT ==> result matches Err(
                TimedCallError::Refused(PresaleTokenError::InvalidRound),
            ),
            round < ROUND_COUNT && amount == 0 ==> result matches Err(
                TimedCallError::Refused(PresaleTokenError::InvalidAmount),
            ),
            match result {
                Ok(payment) => {
                    &&& exists|now: u64| #[trigger] old(self).buy_refusal(round, amount, now) is None
                    &&& *final(self) == old(self).after_buy(round, amount)
                    &&& payment == old(self).buy_payment(round, amount)
                },
                Err(TimedCallError::Refused(e)) => {
                    &&& exists|now: u64| #[trigger]
                        old(self).buy_refusal(round, amount, now) == Some(e)
                    &&& *final(self) == *old(self)
                },
                Err(TimedCallError::NoClock(_)) => {
                    &&& round < ROUND_COUNT
                    &&& amount > 0
                    &&& *final(self) == *old(self)
                },
            },
    {
        if round >= ROUND_COUNT as u8 {
            assert(self.buy_refusal(round, amount, 0) == Some(PresaleTokenError::InvalidRound));
            return Err(TimedCallError::Refused(PresaleTokenError::InvalidRound));
        }
        if amount == 0 {
            assert(self.buy_refusal(round, amount, 0) == Some(PresaleTokenError::InvalidAmount));
            return Err(TimedCallError::Refused(PresaleTokenError::InvalidAmount));
        }
        match cluster_unix_timestamp() {
            Ok(unix_timestamp) => {
                let now: u64 = seconds(unix_timestamp);
                match self.buy_pretoken_at(round, amount, now) {
                    Ok(payment) => Ok(payment),
                    Err(e) => Err(TimedCallError::Refused(e)),
                }
            },
            Err(e) => Err(TimedCallError::NoClock(e)),
        }
    }

    /// Why a sale of `amount` out of `round` is refused, if it is. Only
    /// what the seller holds in the round can be sold, and only out of a
    /// round that is closed, or out of the last round while it is open.
    pub open spec fn sell_refusal(&self, round: u8, amount: u64) -> Option<PresaleTokenError> {
        if round >= ROUND_COUNT {
            Some(PresaleTokenError::InvalidRound)
        } else if amount == 0 || amount > self.user_allocation.amounts[round as int] {
            Some(PresaleTokenError::InvalidAmount)
        } else if round > self.presale_config.current_round {
            Some(PresaleTokenError::RoundNotStarted)
        } else if round == self.presale_config.current_round && round != FINAL_ROUND {
            Some(PresaleTokenError::NotFinalRound)
        } else {
            None
        }
    }

    /// What the seller receives for `amount` tokens of `round`.
    pub open spec fn sell_payout(&self, round: u8, amount: u64) -> int {
        net_proceeds(
            amount as int,
            self.presale_config.price(round as int),
            self.presale_config.fee_percent as int,
        )
    }

    /// Whether every number that a sale writes or hands out fits in 64
    /// bits, and the fee does not exceed the gross proceeds.
    pub open spec fn sell_in_range(&self, round: u8, amount: u64) -> bool {
        let presale: PresaleConfig = self.presale_config;
        let gross: int = gross_proceeds(amount as int, presale.price(round as int));
        &&& presale.remaining(round as int) + amount <= u64::MAX
        &&& presale.total_return_amount + amount <= u64::MAX
        &&& amount <= presale.total_buy_amount
        &&& gross <= u64::MAX
        &&& sale_fee(gross, presale.fee_percent as int) <= gross
    }

    /// The records after an accepted sale.
    pub open spec fn after_sell(&self, round: u8, amount: u64) -> BuySellPretoken {
        let presale: PresaleConfig = self.presale_config;
        BuySellPretoken {
            presale_config: PresaleConfig {
                round_configs: spec_array_update(
                    presale.round_configs,
                    round as int,
                    RoundConfig {
                        remained_amount: (presale.remaining(round as int) + amount) as u64,
                        ..presale.round_configs[round as int]
                    },
                ),
                total_buy_amount: (presale.total_buy_amount - amount) as u64,
                total_return_amount: (presale.total_return_amount + amount) as u64,
                ..presale
            },
            user_allocation: UserAllocation {
                amounts: spec_array_update(
                    self.user_allocation.amounts,
                    round as int,
                    (self.user_allocation.amounts[round as int] - amount) as u64,
                ),
                ..self.user_allocation
            },
        }
    }

    /// Whether `sell_pretoken` may be called with these arguments: true
    /// unless the sale would be accepted and a number in it would be out of
    /// range.
    pub fn sell_stays_in_range(&self, round: u8, amount: u64) -> (ok: bool)
        ensures
            ok == (self.sell_refusal(round, amount) is None ==> self.sell_in_range(round, amount)),
    {
        if round >= ROUND_COUNT as u8 || amount == 0 || amount
            > self.user_allocation.amounts[round as usize] || round
            > self.presale_config.current_round || (round == self.presale_config.current_round
            && round != FINAL_ROUND) {
            return true;
        }
        let round_config: RoundConfig = self.presale_config.round_configs[round as usize];
        amount <= u64::MAX - round_config.remained_amount && amount <= u64::MAX
            - self.presale_config.total_return_amount && amount
            <= self.presale_config.total_buy_amount && proceeds_fit(
            amount,
            round_config.price,
            self.presale_config.fee_percent,
        )
    }

    /// Sells `amount` tokens that the caller holds in `round` back to the
    /// presale.
    ///
    /// The amount goes back into the round's remaining capacity and is
    /// counted as handed back, for buyers of the last round to draw on.
    ///
    /// Returns the base currency that the vault has to pay the seller, and
    /// the presale's own authority to sign for it: the value of the amount
    /// at the round's price, rounded down, less the fee, rounded down.
    pub fn sell_pretoken(&mut self, round: u8, amount: u64, presale_config_bump: u8) -> (result:
        Result<AuthorizedAmount, PresaleTokenError>)
        requires
            old(self).sell_refusal(round, amount) is None ==> old(self).sell_in_range(
                round,
                amount,
            ),
        ensures
            match result {
                Ok(payout) => {
                    &&& old(self).sell_refusal(round, amount) is None
                    &&& *final(self) == old(self).after_sell(round, amount)
                    &&& payout.amount == old(self).sell_payout(round, amount)
                    &&& payout.authority == old(self).presale_config.authority(
                        presale_config_bump,
                    )
                },
                Err(e) => {
                    &&& old(self).sell_refusal(round, amount) == Some(e)
                    &&& *final(self) == *old(self)
                },
            },
    {
        if round >= ROUND_COUNT as u8 {
            return Err(PresaleTokenError::InvalidRound);
        }
        let round_config: RoundConfig = self.presale_config.round_configs[round as usize];
        let held: u64 = self.user_allocation.amounts[round as usize];
        if amount == 0 {
            return Err(PresaleTokenError::InvalidAmount);
        }
        if amount > held {
            return Err(PresaleTokenError::InvalidAmount);
        }
        if round > self.presale_config.current_round {
            return Err(PresaleTokenError::RoundNotStarted);
        }
        if round == self.presale_config.current_round && round != FINAL_ROUND {
            return Err(PresaleTokenError::NotFinalRound);
        }
        self.presale_config.round_configs[round as usize].remained_amount =
            round_config.remained_amount + amount;
        self.presale_config.total_buy_amount = self.presale_config.total_buy_amount - amount;
        let net: u64 = net_payout(amount, round_config.price, self.presale_config.fee_percent);
        self.presale_config.total_return_amount = self.presale_config.total_return_amount + amount;
        self.user_allocation.amounts[round as usize] = held - amount;
        Ok(AuthorizedAmount { amount: net, authority: self.presale_config.signer(presale_config_bump) })
    }
}

impl PresaleConfig {
    /// The presale's own signing authority, as derived with `bump`.
    pub open spec fn authority(&self, bump: u8) -> PresaleAuthority {
        PresaleAuthority { creator: self.creator, bump }
    }

    /// The presale's own signing authority, as derived with `bump`.
    pub fn signer(&self, bump: u8) -> (authority: PresaleAuthority)
        ensures
            authority == self.authority(bump),
    {
        PresaleAuthority { creator: self.creator, bump }
    }
}

impl FinalizePresale {
    /// Why finalization at time `now` is refused, if it is.
    pub open spec fn finalize_refusal(&self, now: u64) -> Option<PresaleTokenError> {
        if self.presale_config.is_finalized {
            Some(PresaleTokenError::PresaleAlreadyFinalized)
        } else if now < self.presale_config.end_time() {
            Some(PresaleTokenError::PresaleNotEnded)
        } else {
            None
        }
    }

    /// The presale after an accepted finalization: closed for good, and a
    /// success exactly if the target was reached.
    pub open spec fn after_finalize(&self) -> FinalizePresale {
        FinalizePresale {
            presale_config: PresaleConfig {
                is_finalized: true,
                is_success: self.presale_config.total_buy_amount
                    >= self.presale_config.target_amount,
                ..self.presale_config
            },
        }
    }

    /// Closes the presale at time `now` and decides whether it succeeded.
    ///
    /// Accepted once, and not before the sale window is over. Nothing but
    /// the two flags changes.
    pub fn finalize_presale_at(&mut self, now: u64) -> (result: Result<(), PresaleTokenError>)
        ensures
            match result {
                Ok(_) => {
                    &&& old(self).finalize_refusal(now) is None
                    &&& *final(self) == old(self).after_finalize()
                },
                Err(e) => {
                    &&& old(self).finalize_refusal(now) == Some(e)
                    &&& *final(self) == *old(self)
                },
            },
    {
        if self.presale_config.is_finalized {
            return Err(PresaleTokenError::PresaleAlreadyFinalized);
        }
        let end: u128 = self.presale_config.start_timestamp as u128
            + self.presale_config.duration as u128;
        if (now as u128) < end {
            return Err(PresaleTokenError::PresaleNotEnded);
        }
        self.presale_config.is_finalized = true;
        self.presale_config.is_success = self.presale_config.total_buy_amount
            >= self.presale_config.target_amount;
        Ok(())
    }

    /// Closes the presale at the time that the runtime reports; see
    /// `finalize_presale_at` for what finalization at a given time does.
    ///
    /// A finalized presale is refused whatever the time. Else the runtime
    /// is asked for the time; where it has none, the call ends with the
    /// runtime's error and nothing is written.
    pub fn finalize_presale(&mut self) -> (result: Result<(), TimedCallError>)
        ensures
            old(self).presale_config.is_finalized ==> result matches Err(
                TimedCallError::Refused(PresaleTokenError::PresaleAlreadyFinalized),
            ),
            match result {
                Ok(_) => {
                    &&& exists|now: u64| #[trigger] old(self).finalize_refusal(now) is None
                    &&& *final(self) == old(self).after_finalize()
                },
                Err(TimedCallError::Refused(e)) => {
                    &&& exists|now: u64| #[trigger] old(self).finalize_refusal(now) == Some(e)
                    &&& *final(self) == *old(self)
                },
                Err(TimedCallError::NoClock(_)) => {
                    &&& !old(self).presale_config.is_finalized
                    &&& *final(self) == *old(self)
                },
            },
    {
        if self.presale_config.is_finalized {
            assert(self.finalize_refusal(0) == Some(PresaleTokenError::PresaleAlreadyFinalized));
            return Err(TimedCallError::Refused(PresaleTokenError::PresaleAlreadyFinalized));
        }
        match cluster_unix_timestamp() {
            Ok(unix_timestamp) => {
                let now: u64 = seconds(unix_timestamp);
                match self.finalize_presale_at(now) {
                    Ok(_) => Ok(()),
                    Err(e) => Err(TimedCallError::Refused(e)),
                }
            },
            Err(e) => Err(TimedCallError::NoClock(e)),
        }
    }
}

impl ClaimOrRefund {
    /// Why settlement is refused, if it is. After a failed presale it
    /// always is: refunds are not offered.
    pub open spec fn claim_refusal(&self) -> Option<PresaleTokenError> {
        if !self.presale_config.is_finalized {
            Some(PresaleTokenError::PresaleNotFinalized)
        } else if self.user_allocation.is_proceeded {
            Some(PresaleTokenError::UserAlreadyClaimedOrRefunded)
        } else if !self.presale_config.is_success {
            Some(PresaleTokenError::NotImplemented)
        } else {
            None
        }
    }

    /// Whether the call gets as far as marking the user as settled: the
    /// mark is made once the presale is finalized and the user has not
    /// settled before, whether the presale succeeded or not.
    pub open spec fn claim_marks(&self) -> bool {
        self.presale_config.is_finalized && !self.user_allocation.is_proceeded
    }

    /// The records after a settlement call.
    pub open spec fn after_claim(&self) -> ClaimOrRefund {
        if self.claim_marks() {
            ClaimOrRefund {
                user_allocation: UserAllocation { is_proceeded: true, ..self.user_allocation },
                ..*self
            }
        } else {
            *self
        }
    }

    /// Whether `claim_or_refund` may be called: true unless the call would
    /// be accepted and the caller's holdings would not add up in 64 bits.
    pub fn claim_stays_in_range(&self) -> (ok: bool)
        ensures
            ok == (self.claim_refusal() is None ==> self.user_allocation.total() <= u64::MAX),
    {
        !self.presale_config.is_finalized || self.user_allocation.is_proceeded
            || !self.presale_config.is_success || self.user_allocation.total_fits()
    }

    /// Settles the caller's holdings after finalization, once.
    ///
    /// After a successful presale, returns the number of new tokens to mint
    /// to the caller, which is all the caller holds over the four rounds,
    /// and the presale's own authority to sign for it. After a failed
    /// presale the call ends in `NotImplemented` and nothing is to be moved.
    ///
    /// The user is marked as settled before the outcome is looked at, so
    /// the mark is also made when the call ends in `NotImplemented`; a host
    /// that runs each call as a transaction drops it with the call.
    pub fn claim_or_refund(&mut self, presale_config_bump: u8) -> (result: Result<
        AuthorizedAmount,
        PresaleTokenError,
    >)
        requires
            old(self).claim_refusal() is None ==> old(self).user_allocation.total() <= u64::MAX,
        ensures
            *final(self) == old(self).after_claim(),
            match result {
                Ok(mint) => {
                    &&& old(self).claim_refusal() is None
                    &&& mint.amount == old(self).user_allocation.total()
                    &&& mint.authority == old(self).presale_config.authority(presale_config_bump)
                },
                Err(e) => old(self).claim_refusal() == Some(e),
            },
    {
        if !self.presale_config.is_finalized {
            return Err(PresaleTokenError::PresaleNotFinalized);
        }
        if self.user_allocation.is_proceeded {
            return Err(PresaleTokenError::UserAlreadyClaimedOrRefunded);
        }
        self.user_allocation.is_proceeded = true;
        if self.presale_config.is_success {
            let total: u64 = self.user_allocation.total_amount();
            Ok(AuthorizedAmount { amount: total, authority: self.presale_config.signer(presale_config_bump) })
        } else {
            Err(PresaleTokenError::NotImplemented)
        }
    }
}

impl Initialize {
    /// The platform settings after set-up: who collects the fees, in which
    /// currency, and the two flat fees for opening a presale.
    pub open spec fn after_initialize(&self) -> Initialize {
        Initialize {
            platform_config: PlatformConfig {
                platform_wallet: self.platform_wallet,
                fee_mint: self.fee_mint,
                fee_amount_normal: FEE_AMOUNT_NORMAL,
                fee_amount_special: FEE_AMOUNT_SPECIAL,
                ..self.platform_config
            },
            ..*self
        }
    }

    /// Sets the platform up. Never refused.
    pub fn initialize(&mut self) -> (result: Result<(), PresaleTokenError>)
        ensures
            result is Ok,
            *final(self) == old(self).after_initialize(),
    {
        self.platform_config.platform_wallet = self.platform_wallet;
        self.platform_config.fee_mint = self.fee_mint;
        self.platform_config.fee_amount_normal = FEE_AMOUNT_NORMAL;
        self.platform_config.fee_amount_special = FEE_AMOUNT_SPECIAL;
        Ok(())
    }
}

/// A round that has sold nothing yet.
pub open spec fn fresh_round(amount: u64, price: u64) -> RoundConfig {
    RoundConfig { round_end_time: 0, round_total_amount: amount, remained_amount: amount, price }
}

impl InitializePresale {
    /// The presale record after set-up. What has been bought so far is not
    /// written: a record that was blank before holds zero there.
    pub open spec fn after_initialize_presale(
        &self,
        decimals: u8,
        start_timestamp: u64,
        duration: u64,
        round_amounts: [u64; ROUND_COUNT],
        round_prices: [u64; ROUND_COUNT],
        liquidity_amount: u64,
        target_amount: u64,
        fee_percent: u16,
    ) -> InitializePresale {
        InitializePresale {
            presale_config: PresaleConfig {
                creator: self.creator,
                base_mint: self.base_mint,
                new_mint: self.new_mint,
                decimals,
                round_configs: [
                    fresh_round(round_amounts[0], round_prices[0]),
                    fresh_round(round_amounts[1], round_prices[1]),
                    fresh_round(round_amounts[2], round_prices[2]),
                    fresh_round(round_amounts[3], round_prices[3]),
                ],
                current_round: 0,
                start_timestamp,
                duration,
                liquidity_amount,
                target_amount,
                total_buy_amount: self.presale_config.total_buy_amount,
                total_return_amount: 0,
                fee_percent,
                is_finalized: false,
                is_success: false,
            },
            ..*self
        }
    }

    /// Sets a presale up in the record: the first round open, every round
    /// at full capacity, nothing handed back, both flags down.
    ///
    /// Returns the flat fee that the creator has to pay the platform. It is
    /// always the normal one: nothing selects the special fee.
    pub fn initialize_presale(
        &mut self,
        decimals: u8,
        start_timestamp: u64,
        duration: u64,
        round_amounts: [u64; ROUND_COUNT],
        round_prices: [u64; ROUND_COUNT],
        liquidity_amount: u64,
        target_amount: u64,
        fee_percent: u16,
    ) -> (result: Result<u64, PresaleTokenError>)
        ensures
            result == Ok::<u64, PresaleTokenError>(old(self).platform_config.fee_amount_normal),
            *final(self) == old(self).after_initialize_presale(
                decimals,
                start_timestamp,
                duration,
                round_amounts,
                round_prices,
                liquidity_amount,
                target_amount,
                fee_percent,
            ),
    {
        self.presale_config.creator = self.creator;
        self.presale_config.base_mint = self.base_mint;
        self.presale_config.new_mint = self.new_mint;
        self.presale_config.decimals = decimals;
        self.presale_config.current_round = 0;
        self.presale_config.start_timestamp = start_timestamp;
        self.presale_config.duration = duration;
        self.presale_config.liquidity_amount = liquidity_amount;
        self.presale_config.target_amount = target_amount;
        self.presale_config.total_return_amount = 0;
        self.presale_config.fee_percent = fee_percent;
        self.presale_config.is_finalized = false;
        self.presale_config.is_success = false;

        let mut i: usize = 0;
        while i < ROUND_COUNT
            invariant
                i <= ROUND_COUNT,
                forall|j: int|
                    0 <= j < i ==> self.presale_config.round_configs[j] == fresh_round(
                        round_amounts[j],
                        round_prices[j],
                    ),
                self.presale_config == (PresaleConfig {
                    round_configs: self.presale_config.round_configs,
                    ..old(self).after_initialize_presale(
                        decimals,
                        start_timestamp,
                        duration,
                        round_amounts,
                        round_prices,
                        liquidity_amount,
                        target_amount,
                        fee_percent,
                    ).presale_config
                }),
                self.platform_config == old(self).platform_config,
                self.creator == old(self).creator,
                self.base_mint == old(self).base_mint,
                self.new_mint == old(self).new_mint,
            decreases ROUND_COUNT - i,
        {
            self.presale_config.round_configs[i] = RoundConfig {
                round_end_time: 0,
                round_total_amount: round_amounts[i],
                remained_amount: round_amounts[i],
                price: round_prices[i],
            };
            i = i + 1;
        }
        assert(self.presale_config.round_configs =~= old(self).after_initialize_presale(
            decimals,
            start_timestamp,
            duration,
            round_amounts,
            round_prices,
            liquidity_amount,
            target_amount,
            fee_percent,
        ).presale_config.round_configs);

        let is_special: bool = false;
        let fee_amount: u64 = if is_special {
            self.platform_config.fee_amount_special
        } else {
            self.platform_config.fee_amount_normal
        };
        Ok(fee_amount)
    }
}

} // verus!
