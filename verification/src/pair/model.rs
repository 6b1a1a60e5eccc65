//! The pool as a mathematical state, and each operation as a function from
//! one state to the next.
use vstd::prelude::*;

use crate::mapping::total;
use crate::math::isqrt;
use crate::pair::fees::FeeConfig;
use crate::pair::types::{
    Burn, BurnReceipt, Mint, MintReceipt, PairError, Swap, SwapReceipt, Sync, FEE_DENOMINATOR,
    FEE_NUMERATOR, MINIMUM_LIQUIDITY, UQ112,
};
use crate::types::{AccountId, Env, Timestamp};

verus! {

/// The state of a pool.
pub struct PairView {
    pub token_0: AccountId,
    pub token_1: AccountId,
    pub factory: AccountId,
    pub reserve_0: u128,
    pub reserve_1: u128,
    pub block_timestamp_last: Timestamp,
    pub total_supply: u128,
    /// Shares by holder; a holder without an entry holds none.
    pub balances: Map<AccountId, u128>,
    /// No operation is under way.
    pub unlocked: bool,
    pub price_0_cumulative_last: u128,
    pub price_1_cumulative_last: u128,
    pub fees: FeeConfig,
}

/// One request to a pool.
pub enum Call {
    Mint { env: Env, to: AccountId, amount_0: u128, amount_1: u128 },
    Burn { env: Env, to: AccountId, liquidity: u128 },
    Swap {
        env: Env,
        amount_0_out: u128,
        amount_1_out: u128,
        amount_0_in: u128,
        amount_1_in: u128,
        to: AccountId,
    },
    Sync { env: Env, balance_0: u128, balance_1: u128 },
}

/// What the price of one asset in the other adds to its cumulative record
/// over `elapsed` seconds: the ratio of the reserves at scale `UQ112`, times
/// the seconds. `None` where a step of it does not fit.
pub open spec fn price_increment(numerator: u128, denominator: u128, elapsed: int) -> Option<
    u128,
> {
    if numerator * UQ112 > u128::MAX {
        None
    } else {
        let price = (numerator * UQ112) / (denominator as int);
        if price * elapsed > u128::MAX {
            None
        } else {
            Some((price * elapsed) as u128)
        }
    }
}

/// What counts for the trade of an amount that a swap was paid: the amount
/// discounted by the fee, rounded down.
pub open spec fn effective_input(amount_in: u128) -> int {
    amount_in * FEE_NUMERATOR / (FEE_DENOMINATOR as int)
}

/// The fee that a swap charges on `amount_in`: what does not count for the
/// trade.
pub open spec fn nominal_fee(amount_in: u128) -> int {
    amount_in - effective_input(amount_in)
}

/// A balance after a swap with the fee taken off what was paid in: what is
/// kept of the reserve, and what counts of the payment.
pub open spec fn fee_adjusted(kept: int, amount_in: u128) -> int {
    kept + effective_input(amount_in)
}

impl PairView {
    /// The pool as it is made: no reserves, no shares, no record of prices.
    pub open spec fn empty(
        factory: AccountId,
        token_0: AccountId,
        token_1: AccountId,
        fees: FeeConfig,
    ) -> PairView {
        PairView {
            token_0,
            token_1,
            factory,
            reserve_0: 0,
            reserve_1: 0,
            block_timestamp_last: 0,
            total_supply: 0,
            balances: Map::empty(),
            unlocked: true,
            price_0_cumulative_last: 0,
            price_1_cumulative_last: 0,
            fees,
        }
    }

    /// The same pool with the guard held or free.
    pub open spec fn with_guard(self, unlocked: bool) -> PairView {
        PairView { unlocked, ..self }
    }

    /// The shares that `holder` has.
    pub open spec fn balance_of(self, holder: AccountId) -> u128 {
        if self.balances.dom().contains(holder) {
            self.balances[holder]
        } else {
            0
        }
    }

    /// What holds of a pool between operations.
    pub open spec fn consistent(self) -> bool {
        &&& self.balances.dom().finite()
        &&& total(self.balances) == self.total_supply
        &&& (self.reserve_0 > 0 <==> self.total_supply > 0)
        &&& (self.reserve_1 > 0 <==> self.total_supply > 0)
        &&& (self.total_supply > 0 ==> self.balance_of(AccountId::spec_zero()) >= MINIMUM_LIQUIDITY)
        &&& self.fees.valid()
    }

    /// The product of the reserves.
    pub open spec fn k(self) -> int {
        self.reserve_0 * self.reserve_1
    }

    /// The cumulative prices as they stand at `now`, or `None` where they
    /// would not fit. Time that has not advanced, or an empty reserve, adds
    /// nothing.
    pub open spec fn accrued(self, now: Timestamp) -> Option<(u128, u128)> {
        if now > self.block_timestamp_last && self.reserve_0 != 0 && self.reserve_1 != 0 {
            let elapsed = now - self.block_timestamp_last;
            match (
                price_increment(self.reserve_1, self.reserve_0, elapsed),
                price_increment(self.reserve_0, self.reserve_1, elapsed),
            ) {
                (Some(step_0), Some(step_1)) => {
                    if self.price_0_cumulative_last + step_0 > u128::MAX
                        || self.price_1_cumulative_last + step_1 > u128::MAX {
                        None
                    } else {
                        Some(
                            (
                                (self.price_0_cumulative_last + step_0) as u128,
                                (self.price_1_cumulative_last + step_1) as u128,
                            ),
                        )
                    }
                },
                _ => None,
            }
        } else {
            Some((self.price_0_cumulative_last, self.price_1_cumulative_last))
        }
    }

    /// The state with the reserves set to the given balances at `now`, the
    /// prices accrued up to then. `None` where the prices would not fit.
    pub open spec fn updated(self, balance_0: u128, balance_1: u128, now: Timestamp) -> Option<
        PairView,
    > {
        match self.accrued(now) {
            Some((price_0, price_1)) => Some(
                PairView {
                    reserve_0: balance_0,
                    reserve_1: balance_1,
                    block_timestamp_last: now,
                    price_0_cumulative_last: price_0,
                    price_1_cumulative_last: price_1,
                    ..self
                },
            ),
            None => None,
        }
    }

    /// The state with `amount` more shares in the hands of `holder`.
    pub open spec fn credited(self, holder: AccountId, amount: int) -> PairView {
        PairView {
            total_supply: (self.total_supply + amount) as u128,
            balances: self.balances.insert(holder, (self.balance_of(holder) + amount) as u128),
            ..self
        }
    }

    /// The shares that a deposit of `amount_0` and `amount_1` earns its
    /// recipient. The first deposit earns the integer square root of the
    /// product of the amounts, less the locked minimum; a later one the
    /// smaller of the two amounts' proportions of the supply.
    pub open spec fn minted_shares(self, amount_0: u128, amount_1: u128) -> Result<
        u128,
        PairError,
    > {
        if self.total_supply == 0 {
            if amount_0 * amount_1 > u128::MAX {
                Err(PairError::Overflow)
            } else if isqrt((amount_0 * amount_1) as nat) <= MINIMUM_LIQUIDITY {
                Err(PairError::InsufficientInitialLiquidity)
            } else {
                Ok((isqrt((amount_0 * amount_1) as nat) - MINIMUM_LIQUIDITY) as u128)
            }
        } else {
            if amount_0 * self.total_supply > u128::MAX || amount_1 * self.total_supply
                > u128::MAX {
                Err(PairError::Overflow)
            } else {
                let by_0 = (amount_0 * self.total_supply) / (self.reserve_0 as int);
                let by_1 = (amount_1 * self.total_supply) / (self.reserve_1 as int);
                let shares = if by_0 < by_1 {
                    by_0
                } else {
                    by_1
                };
                if shares == 0 {
                    Err(PairError::InsufficientLiquidityMinted)
                } else {
                    Ok(shares as u128)
                }
            }
        }
    }

    /// A deposit of `amount_0` and `amount_1`, its shares going to `to`,
    /// on a pool that no operation holds.
    pub open spec fn mint_unguarded(self, env: Env, to: AccountId, amount_0: u128, amount_1: u128)
        -> Result<(PairView, MintReceipt), PairError> {
        match self.minted_shares(amount_0, amount_1) {
            Err(e) => Err(e),
            Ok(shares) => {
                let locked: int = if self.total_supply == 0 {
                    MINIMUM_LIQUIDITY as int
                } else {
                    0
                };
                if self.reserve_0 + amount_0 > u128::MAX || self.reserve_1 + amount_1 > u128::MAX
                    || self.total_supply + locked + shares > u128::MAX {
                    Err(PairError::Overflow)
                } else {
                    let funded = if self.total_supply == 0 {
                        self.credited(AccountId::spec_zero(), locked)
                    } else {
                        self
                    };
                    match funded.credited(to, shares as int).updated(
                        (self.reserve_0 + amount_0) as u128,
                        (self.reserve_1 + amount_1) as u128,
                        env.block_timestamp,
                    ) {
                        None => Err(PairError::Overflow),
                        Some(state) => Ok(
                            (
                                state,
                                MintReceipt {
                                    liquidity: shares,
                                    sync: Sync {
                                        reserve_0: state.reserve_0,
                                        reserve_1: state.reserve_1,
                                    },
                                    mint: Mint { sender: env.caller, amount_0, amount_1 },
                                },
                            ),
                        ),
                    }
                }
            },
        }
    }

    /// What `liquidity` shares redeem of a reserve, rounded down.
    pub open spec fn redeemed(self, liquidity: u128, reserve: u128) -> int {
        (liquidity * reserve) / (self.total_supply as int)
    }

    /// The caller redeems `liquidity` of its shares, the assets going to
    /// `to`, on a pool that no operation holds. The zero account redeems
    /// nothing: what it holds is locked.
    pub open spec fn burn_unguarded(self, env: Env, to: AccountId, liquidity: u128) -> Result<
        (PairView, BurnReceipt),
        PairError,
    > {
        if liquidity == 0 || self.total_supply == 0 || env.caller == AccountId::spec_zero()
            || self.balance_of(env.caller) < liquidity {
            Err(PairError::InsufficientLiquidityBurned)
        } else if liquidity * self.reserve_0 > u128::MAX || liquidity * self.reserve_1
            > u128::MAX {
            Err(PairError::Overflow)
        } else if self.redeemed(liquidity, self.reserve_0) == 0 || self.redeemed(
            liquidity,
            self.reserve_1,
        ) == 0 {
            Err(PairError::InsufficientLiquidityBurned)
        } else {
            let amount_0 = self.redeemed(liquidity, self.reserve_0) as u128;
            let amount_1 = self.redeemed(liquidity, self.reserve_1) as u128;
            match self.credited(env.caller, -(liquidity as int)).updated(
                (self.reserve_0 - amount_0) as u128,
                (self.reserve_1 - amount_1) as u128,
                env.block_timestamp,
            ) {
                None => Err(PairError::Overflow),
                Some(state) => Ok(
                    (
                        state,
                        BurnReceipt {
                            amount_0,
                            amount_1,
                            sync: Sync { reserve_0: state.reserve_0, reserve_1: state.reserve_1 },
                            burn: Burn { sender: env.caller, to, amount_0, amount_1 },
                        },
                    ),
                ),
            }
        }
    }

    /// A swap that pays out `amount_0_out` and `amount_1_out` and has been
    /// paid `amount_0_in` and `amount_1_in`, on a pool that no operation
    /// holds.
    pub open spec fn swap_unguarded(
        self,
        env: Env,
        amount_0_out: u128,
        amount_1_out: u128,
        amount_0_in: u128,
        amount_1_in: u128,
        to: AccountId,
    ) -> Result<(PairView, SwapReceipt), PairError> {
        if amount_0_out == 0 && amount_1_out == 0 {
            Err(PairError::InsufficientOutputAmount)
        } else if amount_0_out >= self.reserve_0 || amount_1_out >= self.reserve_1 {
            Err(PairError::InsufficientLiquidity)
        } else {
            let balance_0 = self.reserve_0 - amount_0_out + amount_0_in;
            let balance_1 = self.reserve_1 - amount_1_out + amount_1_in;
            let adjusted_0 = fee_adjusted(self.reserve_0 - amount_0_out, amount_0_in);
            let adjusted_1 = fee_adjusted(self.reserve_1 - amount_1_out, amount_1_in);
            if balance_0 > u128::MAX || balance_1 > u128::MAX || amount_0_in * FEE_NUMERATOR
                > u128::MAX || amount_1_in * FEE_NUMERATOR > u128::MAX || adjusted_0 * adjusted_1
                > u128::MAX || self.reserve_0 * self.reserve_1 > u128::MAX {
                Err(PairError::Overflow)
            } else if adjusted_0 * adjusted_1 < self.reserve_0 * self.reserve_1 {
                Err(PairError::KInvariantViolated)
            } else {
                match self.updated(balance_0 as u128, balance_1 as u128, env.block_timestamp) {
                    None => Err(PairError::Overflow),
                    Some(state) => Ok(
                        (
                            state,
                            SwapReceipt {
                                sync: Sync {
                                    reserve_0: state.reserve_0,
                                    reserve_1: state.reserve_1,
                                },
                                swap: Swap {
                                    sender: env.caller,
                                    to,
                                    amount_0_in,
                                    amount_1_in,
                                    amount_0_out,
                                    amount_1_out,
                                },
                                fee_0: self.fees.spec_split(nominal_fee(amount_0_in) as u128),
                                fee_1: self.fees.spec_split(nominal_fee(amount_1_in) as u128),
                            },
                        ),
                    ),
                }
            }
        }
    }

    /// The recorded reserves are set to what the pool actually holds, on a
    /// pool that no operation holds. Balances that would leave a pool with
    /// shares and an empty reserve, or without shares and a filled one, are
    /// refused.
    pub open spec fn sync_unguarded(self, env: Env, balance_0: u128, balance_1: u128) -> Result<
        (PairView, Sync),
        PairError,
    > {
        if (balance_0 > 0) != (self.total_supply > 0) || (balance_1 > 0) != (self.total_supply
            > 0) {
            Err(PairError::InvalidTokenAmounts)
        } else {
            match self.updated(balance_0, balance_1, env.block_timestamp) {
                None => Err(PairError::Overflow),
                Some(state) => Ok((state, Sync { reserve_0: balance_0, reserve_1: balance_1 })),
            }
        }
    }

    /// An operation as its caller meets it: refused while another is under
    /// way, and else what it is on a pool that none holds.
    pub open spec fn guarded<T>(self, outcome: Result<(PairView, T), PairError>) -> Result<
        (PairView, T),
        PairError,
    > {
        if !self.unlocked {
            Err(PairError::Locked)
        } else {
            outcome
        }
    }

    /// A deposit as its caller meets it.
    pub open spec fn mint(self, env: Env, to: AccountId, amount_0: u128, amount_1: u128) -> Result<
        (PairView, MintReceipt),
        PairError,
    > {
        self.guarded(self.mint_unguarded(env, to, amount_0, amount_1))
    }

    /// A redemption as its caller meets it.
    pub open spec fn burn(self, env: Env, to: AccountId, liquidity: u128) -> Result<
        (PairView, BurnReceipt),
        PairError,
    > {
        self.guarded(self.burn_unguarded(env, to, liquidity))
    }

    /// A swap as its caller meets it.
    pub open spec fn swap(
        self,
        env: Env,
        amount_0_out: u128,
        amount_1_out: u128,
        amount_0_in: u128,
        amount_1_in: u128,
        to: AccountId,
    ) -> Result<(PairView, SwapReceipt), PairError> {
        self.guarded(
            self.swap_unguarded(env, amount_0_out, amount_1_out, amount_0_in, amount_1_in, to),
        )
    }

    /// A setting of the reserves as its caller meets it.
    pub open spec fn sync(self, env: Env, balance_0: u128, balance_1: u128) -> Result<
        (PairView, Sync),
        PairError,
    > {
        self.guarded(self.sync_unguarded(env, balance_0, balance_1))
    }

    /// The pool after `call`: as the operation leaves it where it succeeds,
    /// and as it was where the operation is refused.
    pub open spec fn step(self, call: Call) -> PairView {
        match call {
            Call::Mint { env, to, amount_0, amount_1 } => match self.mint(
                env,
                to,
                amount_0,
                amount_1,
            ) {
                Ok((state, _)) => state,
                Err(_) => self,
            },
            Call::Burn { env, to, liquidity } => match self.burn(env, to, liquidity) {
                Ok((state, _)) => state,
                Err(_) => self,
            },
            Call::Swap { env, amount_0_out, amount_1_out, amount_0_in, amount_1_in, to } => match self.swap(
                env,
                amount_0_out,
                amount_1_out,
                amount_0_in,
                amount_1_in,
                to,
            ) {
                Ok((state, _)) => state,
                Err(_) => self,
            },
            Call::Sync { env, balance_0, balance_1 } => match self.sync(env, balance_0, balance_1) {
                Ok((state, _)) => state,
                Err(_) => self,
            },
        }
    }

    /// The pool after a sequence of calls, first call first.
    pub open spec fn run(self, calls: Seq<Call>) -> PairView
        decreases calls.len(),
    {
        if calls.len() == 0 {
            self
        } else {
            self.run(calls.drop_last()).step(calls.last())
        }
    }
}

} // verus!
