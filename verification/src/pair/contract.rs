//! The pool itself: the state that is kept, and the operations on it.
use vstd::prelude::*;

use crate::mapping::{lemma_total_empty, Mapping};
use crate::math::{
    is_sqrt, isqrt, lemma_heron_step_above, lemma_heron_step_stops_or_not, lemma_isqrt,
    lemma_isqrt_is, lemma_sqrt_candidate, min,
};
use crate::pair::fees::FeeConfig;
use crate::pair::laws::{
    lemma_burn_consistent, lemma_effective_input_bounded, lemma_guard_apart,
    lemma_holdings_bounded, lemma_mint_consistent, lemma_quotient_bounded, lemma_swap_consistent,
};
use crate::pair::model::{fee_adjusted, nominal_fee, price_increment, PairView};
use crate::pair::types::{
    Burn, BurnReceipt, Mint, MintReceipt, PairError, Swap, SwapReceipt, Sync, FEE_DENOMINATOR,
    FEE_NUMERATOR, MINIMUM_LIQUIDITY, UQ112,
};
use crate::types::{AccountId, Balance, Env, Timestamp};

verus! {

/// A pool of two assets.
#[derive(Clone, Debug)]
pub struct PairContract {
    token_0: AccountId,
    token_1: AccountId,
    factory: AccountId,
    reserve_0: Balance,
    reserve_1: Balance,
    block_timestamp_last: Timestamp,
    total_supply: Balance,
    balances: Mapping<AccountId, Balance>,
    unlocked: bool,
    price_0_cumulative_last: u128,
    price_1_cumulative_last: u128,
    fees: FeeConfig,
}

impl View for PairContract {
    type V = PairView;

    closed spec fn view(&self) -> PairView {
        PairView {
            token_0: self.token_0,
            token_1: self.token_1,
            factory: self.factory,
            reserve_0: self.reserve_0,
            reserve_1: self.reserve_1,
            block_timestamp_last: self.block_timestamp_last,
            total_supply: self.total_supply,
            balances: self.balances@,
            unlocked: self.unlocked,
            price_0_cumulative_last: self.price_0_cumulative_last,
            price_1_cumulative_last: self.price_1_cumulative_last,
            fees: self.fees,
        }
    }
}

impl Default for PairContract {
    /// An empty pool whose assets and registry are yet to be named: all three
    /// are the zero account.
    fn default() -> (r: Self)
        ensures
            r.wf(),
            r@ == PairView::empty(
                AccountId::spec_zero(),
                AccountId::spec_zero(),
                AccountId::spec_zero(),
                FeeConfig::standard(),
            ),
    {
        PairContract::new(AccountId::zero(), AccountId::zero(), AccountId::zero())
    }
}

/// The increment of a cumulative price, or `None` where it does not fit.
fn price_step(numerator: Balance, denominator: Balance, elapsed: u64) -> (r: Option<u128>)
    requires
        denominator != 0,
    ensures
        r == price_increment(numerator, denominator, elapsed as int),
{
    match numerator.checked_mul(UQ112) {
        None => None,
        Some(scaled) => {
            let price: u128 = scaled / denominator;
            price.checked_mul(elapsed as u128)
        },
    }
}

impl PairContract {
    /// The share ledger is in order.
    pub closed spec fn ledger_wf(&self) -> bool {
        self.balances.wf()
    }

    /// The pool is in order: its ledger is, and its state is consistent.
    pub open spec fn wf(&self) -> bool {
        self.ledger_wf() && self@.consistent()
    }

    /// An empty pool for `token_0` and `token_1` with the standard fee shares.
    pub fn new(factory: AccountId, token_0: AccountId, token_1: AccountId) -> (r: Self)
        ensures
            r.wf(),
            r@ == PairView::empty(factory, token_0, token_1, FeeConfig::standard()),
    {
        let r = PairContract {
            token_0,
            token_1,
            factory,
            reserve_0: 0,
            reserve_1: 0,
            block_timestamp_last: 0,
            total_supply: 0,
            balances: Mapping::new(),
            unlocked: true,
            price_0_cumulative_last: 0,
            price_1_cumulative_last: 0,
            fees: FeeConfig::standard(),
        };
        proof {
            lemma_total_empty::<AccountId>();
            r.balances.lemma_finite();
        }
        r
    }

    /// An empty pool with fee shares of the caller's choice, where these make
    /// up the whole.
    pub fn with_fees(factory: AccountId, token_0: AccountId, token_1: AccountId, fees: FeeConfig)
        -> (r: Option<Self>)
        ensures
            fees.valid() <==> r is Some,
            r matches Some(pool) ==> pool.wf() && pool@ == PairView::empty(
                factory,
                token_0,
                token_1,
                fees,
            ),
    {
        if !fees.is_valid() {
            return None;
        }
        let r = PairContract {
            token_0,
            token_1,
            factory,
            reserve_0: 0,
            reserve_1: 0,
            block_timestamp_last: 0,
            total_supply: 0,
            balances: Mapping::new(),
            unlocked: true,
            price_0_cumulative_last: 0,
            price_1_cumulative_last: 0,
            fees,
        };
        proof {
            lemma_total_empty::<AccountId>();
            r.balances.lemma_finite();
        }
        Some(r)
    }

    /// The same pool with the guard held or free.
    pub closed spec fn guard_set(self, unlocked: bool) -> PairContract {
        PairContract { unlocked, ..self }
    }

    /// Takes the guard, unless an operation holds it.
    pub fn lock(&mut self) -> (r: Result<(), PairError>)
        ensures
            old(self)@.unlocked ==> r is Ok && *final(self) == old(self).guard_set(false),
            !old(self)@.unlocked ==> r == Err::<(), PairError>(PairError::Locked) && *final(self)
                == *old(self),
            final(self)@ == old(self)@.with_guard(false),
            final(self).ledger_wf() == old(self).ledger_wf(),
    {
        if !self.unlocked {
            return Err(PairError::Locked);
        }
        self.unlocked = false;
        Ok(())
    }

    /// Gives the guard back, whoever held it.
    pub fn unlock(&mut self)
        ensures
            *final(self) == old(self).guard_set(true),
            final(self)@ == old(self)@.with_guard(true),
            final(self).ledger_wf() == old(self).ledger_wf(),
            old(self)@.unlocked ==> *final(self) == *old(self),
    {
        self.unlocked = true;
    }

    /// Whether an operation holds the guard.
    pub fn is_locked(&self) -> (r: bool)
        ensures
            r == !self@.unlocked,
    {
        !self.unlocked
    }

    /// The reserves, and when they were last recorded.
    pub fn get_reserves(&self) -> (r: (Balance, Balance, Timestamp))
        ensures
            r == (self@.reserve_0, self@.reserve_1, self@.block_timestamp_last),
    {
        (self.reserve_0, self.reserve_1, self.block_timestamp_last)
    }

    /// The two cumulative prices, for oracles to sample.
    pub fn get_cumulative_prices(&self) -> (r: (u128, u128))
        ensures
            r == (self@.price_0_cumulative_last, self@.price_1_cumulative_last),
    {
        (self.price_0_cumulative_last, self.price_1_cumulative_last)
    }

    /// The first asset of the pool.
    pub fn token_0(&self) -> (r: AccountId)
        ensures
            r == self@.token_0,
    {
        self.token_0
    }

    /// The second asset of the pool.
    pub fn token_1(&self) -> (r: AccountId)
        ensures
            r == self@.token_1,
    {
        self.token_1
    }

    /// The registry that made the pool.
    pub fn factory(&self) -> (r: AccountId)
        ensures
            r == self@.factory,
    {
        self.factory
    }

    /// The cumulative price of the first asset in the second.
    pub fn price_0_cumulative_last(&self) -> (r: u128)
        ensures
            r == self@.price_0_cumulative_last,
    {
        self.price_0_cumulative_last
    }

    /// The cumulative price of the second asset in the first.
    pub fn price_1_cumulative_last(&self) -> (r: u128)
        ensures
            r == self@.price_1_cumulative_last,
    {
        self.price_1_cumulative_last
    }

    /// All shares there are.
    pub fn total_supply(&self) -> (r: Balance)
        ensures
            r == self@.total_supply,
    {
        self.total_supply
    }

    /// The fee shares that the pool was made with.
    pub fn fees(&self) -> (r: FeeConfig)
        ensures
            r == self@.fees,
    {
        self.fees
    }

    /// The shares that `holder` has.
    pub fn balance_of(&self, holder: AccountId) -> (r: Balance)
        requires
            self.ledger_wf(),
        ensures
            r == self@.balance_of(holder),
    {
        match self.balances.get(&holder) {
            Some(amount) => *amount,
            None => 0,
        }
    }

    /// The integer square root of `y`, by Heron's method.
    pub fn sqrt(y: u128) -> (r: u128)
        ensures
            r == isqrt(y as nat),
            is_sqrt(y as nat, r as nat),
    {
        proof {
            lemma_isqrt(y as nat);
        }
        if y > 3 {
            let ghost root = isqrt(y as nat);
            proof {
                if root < 2 {
                    assert((root + 1) * (root + 1) <= 4) by (nonlinear_arith)
                        requires
                            root < 2,
                    ;
                }
                if root > y / 2 {
                    let h = (y / 2) as nat;
                    assert((h + 1) * (h + 1) <= root * root) by (nonlinear_arith)
                        requires
                            h + 1 <= root,
                    ;
                    assert((h + 1) * (h + 1) > 2 * h + 1) by (nonlinear_arith)
                        requires
                            h >= 2,
                    ;
                }
            }
            let mut z: u128 = y;
            let mut x: u128 = y / 2 + 1;
            while x < z
                invariant
                    y > 3,
                    root == isqrt(y as nat),
                    is_sqrt(y as nat, root),
                    root >= 2,
                    z >= root,
                    x >= root,
                    z <= y,
                    x <= y / 2 + 1,
                    x >= z ==> z * z <= y,
                decreases z,
            {
                proof {
                    lemma_heron_step_above(y as nat, x as nat, root);
                    lemma_heron_step_stops_or_not(y as nat, x as nat);
                    assert(y / x <= y / 2) by (nonlinear_arith)
                        requires
                            x >= 2,
                            y >= 0,
                    ;
                }
                z = x;
                x = (y / x + x) / 2;
            }
            proof {
                lemma_sqrt_candidate(y as nat, z as nat, root);
            }
            z
        } else if y != 0 {
            proof {
                assert(is_sqrt(y as nat, 1)) by (nonlinear_arith)
                    requires
                        1 <= y <= 3,
                ;
                lemma_isqrt_is(y as nat, 1);
            }
            1
        } else {
            0
        }
    }

    /// The cumulative prices as they stand at `now`.
    fn accrue(&self, now: Timestamp) -> (r: Option<(u128, u128)>)
        ensures
            r == self@.accrued(now),
    {
        if now > self.block_timestamp_last && self.reserve_0 != 0 && self.reserve_1 != 0 {
            let elapsed: u64 = now - self.block_timestamp_last;
            let step_0 = match price_step(self.reserve_1, self.reserve_0, elapsed) {
                Some(step) => step,
                None => {
                    return None;
                },
            };
            let step_1 = match price_step(self.reserve_0, self.reserve_1, elapsed) {
                Some(step) => step,
                None => {
                    return None;
                },
            };
            let price_0 = match self.price_0_cumulative_last.checked_add(step_0) {
                Some(price) => price,
                None => {
                    return None;
                },
            };
            let price_1 = match self.price_1_cumulative_last.checked_add(step_1) {
                Some(price) => price,
                None => {
                    return None;
                },
            };
            Some((price_0, price_1))
        } else {
            Some((self.price_0_cumulative_last, self.price_1_cumulative_last))
        }
    }

    /// Records the prices up to `now`, then the new reserves.
    fn update(&mut self, balance_0: Balance, balance_1: Balance, now: Timestamp) -> (r: Result<
        Sync,
        PairError,
    >)
        ensures
            final(self).ledger_wf() == old(self).ledger_wf(),
            match old(self)@.updated(balance_0, balance_1, now) {
                Some(state) => r == Ok::<Sync, PairError>(
                    Sync { reserve_0: balance_0, reserve_1: balance_1 },
                ) && final(self)@ == state,
                None => r == Err::<Sync, PairError>(PairError::Overflow) && *final(self) == *old(self),
            },
    {
        let (price_0, price_1) = match self.accrue(now) {
            Some(prices) => prices,
            None => {
                return Err(PairError::Overflow);
            },
        };
        self.price_0_cumulative_last = price_0;
        self.price_1_cumulative_last = price_1;
        self.reserve_0 = balance_0;
        self.reserve_1 = balance_1;
        self.block_timestamp_last = now;
        Ok(Sync { reserve_0: balance_0, reserve_1: balance_1 })
    }

    /// Credits `to` with the shares that a deposit of `amount_0` and
    /// `amount_1` earns. The amounts are those that the pool has received
    /// since its reserves were last recorded.
    ///
    /// Refused while an operation holds the guard. A refusal changes nothing.
    pub fn mint(&mut self, env: &Env, to: AccountId, amount_0: Balance, amount_1: Balance) -> (r:
        Result<MintReceipt, PairError>)
        requires
            old(self).wf(),
        ensures
            final(self).wf(),
            match old(self)@.mint(*env, to, amount_0, amount_1) {
                Ok((state, receipt)) => r == Ok::<MintReceipt, PairError>(receipt) && final(self)@
                    == state,
                Err(e) => r == Err::<MintReceipt, PairError>(e) && *final(self) == *old(self),
            },
            old(self)@.total_supply > 0 ==> final(self)@.total_supply >= old(self)@.total_supply,
            final(self)@.total_supply > 0 ==> final(self)@.total_supply >= MINIMUM_LIQUIDITY,
    {
        proof {
            lemma_guard_apart(self@, false);
            lemma_holdings_bounded(self@, to, to);
        }
        match self.lock() {
            Err(e) => {
                return Err(e);
            },
            Ok(_) => {},
        }
        let result = self.mint_internal(env, to, amount_0, amount_1);
        self.unlock();
        proof {
            lemma_holdings_bounded(self@, to, to);
        }
        result
    }

    fn mint_internal(
        &mut self,
        env: &Env,
        to: AccountId,
        amount_0: Balance,
        amount_1: Balance,
    ) -> (r: Result<MintReceipt, PairError>)
        requires
            old(self).wf(),
        ensures
            final(self).wf(),
            match old(self)@.mint_unguarded(*env, to, amount_0, amount_1) {
                Ok((state, receipt)) => r == Ok::<MintReceipt, PairError>(receipt) && final(self)@
                    == state,
                Err(e) => r == Err::<MintReceipt, PairError>(e) && *final(self) == *old(self),
            },
            old(self)@.total_supply > 0 ==> final(self)@.total_supply >= old(self)@.total_supply,
    {
        let total_supply = self.total_supply;
        let liquidity: Balance = if total_supply == 0 {
            let product = match amount_0.checked_mul(amount_1) {
                Some(product) => product,
                None => {
                    return Err(PairError::Overflow);
                },
            };
            let root = Self::sqrt(product);
            if root <= MINIMUM_LIQUIDITY {
                return Err(PairError::InsufficientInitialLiquidity);
            }
            root - MINIMUM_LIQUIDITY
        } else {
            let product_0 = amount_0.checked_mul(total_supply);
            let product_1 = amount_1.checked_mul(total_supply);
            match (product_0, product_1) {
                (Some(product_0), Some(product_1)) => {
                    let shares = min(product_0 / self.reserve_0, product_1 / self.reserve_1);
                    if shares == 0 {
                        return Err(PairError::InsufficientLiquidityMinted);
                    }
                    shares
                },
                _ => {
                    return Err(PairError::Overflow);
                },
            }
        };
        let locked: Balance = if total_supply == 0 {
            MINIMUM_LIQUIDITY
        } else {
            0
        };
        let reserve_0 = match self.reserve_0.checked_add(amount_0) {
            Some(reserve) => reserve,
            None => {
                return Err(PairError::Overflow);
            },
        };
        let reserve_1 = match self.reserve_1.checked_add(amount_1) {
            Some(reserve) => reserve,
            None => {
                return Err(PairError::Overflow);
            },
        };
        let funded_supply = match total_supply.checked_add(locked) {
            Some(supply) => supply,
            None => {
                return Err(PairError::Overflow);
            },
        };
        let supply = match funded_supply.checked_add(liquidity) {
            Some(supply) => supply,
            None => {
                return Err(PairError::Overflow);
            },
        };
        if self.accrue(env.block_timestamp).is_none() {
            return Err(PairError::Overflow);
        }
        let ghost before = self@;
        let sink = AccountId::zero();
        proof {
            assert(before.mint_unguarded(*env, to, amount_0, amount_1) is Ok);
            lemma_mint_consistent(before, *env, to, amount_0, amount_1);
            lemma_holdings_bounded(before, sink, to);
        }
        if total_supply == 0 {
            let held = self.balance_of(sink);
            self.balances.insert(sink, held + locked);
        }
        let held = self.balance_of(to);
        proof {
            let state = before.mint_unguarded(*env, to, amount_0, amount_1)->Ok_0.0;
            assert(state.balance_of(to) == held + liquidity);
        }
        self.balances.insert(to, held + liquidity);
        self.total_supply = supply;
        let sync = match self.update(reserve_0, reserve_1, env.block_timestamp) {
            Ok(sync) => sync,
            Err(e) => {
                return Err(e);
            },
        };
        proof {
            let state = before.mint_unguarded(*env, to, amount_0, amount_1)->Ok_0.0;
            assert(self@.balances =~= state.balances);
            assert(self@ == state);
        }
        Ok(
            MintReceipt {
                liquidity,
                sync,
                mint: Mint { sender: env.caller, amount_0, amount_1 },
            },
        )
    }

    /// Redeems `liquidity` of the caller's shares: its part of each reserve
    /// is released, to be sent to `to`.
    ///
    /// Refused while an operation holds the guard. A refusal changes nothing.
    pub fn burn(&mut self, env: &Env, to: AccountId, liquidity: Balance) -> (r: Result<
        BurnReceipt,
        PairError,
    >)
        requires
            old(self).wf(),
        ensures
            final(self).wf(),
            match old(self)@.burn(*env, to, liquidity) {
                Ok((state, receipt)) => r == Ok::<BurnReceipt, PairError>(receipt) && final(self)@
                    == state,
                Err(e) => r == Err::<BurnReceipt, PairError>(e) && *final(self) == *old(self),
            },
            old(self)@.total_supply > 0 ==> final(self)@.total_supply >= MINIMUM_LIQUIDITY,
    {
        proof {
            lemma_guard_apart(self@, false);
            lemma_holdings_bounded(self@, to, to);
        }
        match self.lock() {
            Err(e) => {
                return Err(e);
            },
            Ok(_) => {},
        }
        let result = self.burn_internal(env, to, liquidity);
        self.unlock();
        proof {
            lemma_holdings_bounded(self@, to, to);
        }
        result
    }

    fn burn_internal(&mut self, env: &Env, to: AccountId, liquidity: Balance) -> (r: Result<
        BurnReceipt,
        PairError,
    >)
        requires
            old(self).wf(),
        ensures
            final(self).wf(),
            match old(self)@.burn_unguarded(*env, to, liquidity) {
                Ok((state, receipt)) => r == Ok::<BurnReceipt, PairError>(receipt) && final(self)@
                    == state,
                Err(e) => r == Err::<BurnReceipt, PairError>(e) && *final(self) == *old(self),
            },
            old(self)@.total_supply > 0 ==> final(self)@.total_supply > 0,
    {
        let caller = env.caller;
        let total_supply = self.total_supply;
        let held = self.balance_of(caller);
        if liquidity == 0 || total_supply == 0 || caller.is_zero() || held < liquidity {
            return Err(PairError::InsufficientLiquidityBurned);
        }
        let product_0 = liquidity.checked_mul(self.reserve_0);
        let product_1 = liquidity.checked_mul(self.reserve_1);
        let (amount_0, amount_1): (Balance, Balance) = match (product_0, product_1) {
            (Some(product_0), Some(product_1)) => (
                product_0 / total_supply,
                product_1 / total_supply,
            ),
            _ => {
                return Err(PairError::Overflow);
            },
        };
        if amount_0 == 0 || amount_1 == 0 {
            return Err(PairError::InsufficientLiquidityBurned);
        }
        if self.accrue(env.block_timestamp).is_none() {
            return Err(PairError::Overflow);
        }
        let ghost before = self@;
        proof {
            lemma_quotient_bounded(liquidity * self.reserve_0, total_supply as int);
            lemma_quotient_bounded(liquidity * self.reserve_1, total_supply as int);
            assert(before.burn_unguarded(*env, to, liquidity) is Ok);
            lemma_burn_consistent(before, *env, to, liquidity);
        }
        let reserve_0: Balance = self.reserve_0 - amount_0;
        let reserve_1: Balance = self.reserve_1 - amount_1;
        self.balances.insert(caller, held - liquidity);
        self.total_supply = total_supply - liquidity;
        let sync = match self.update(reserve_0, reserve_1, env.block_timestamp) {
            Ok(sync) => sync,
            Err(e) => {
                return Err(e);
            },
        };
        proof {
            let state = before.burn_unguarded(*env, to, liquidity)->Ok_0.0;
            assert(self@.balances =~= state.balances);
            assert(self@ == state);
        }
        Ok(
            BurnReceipt {
                amount_0,
                amount_1,
                sync,
                burn: Burn { sender: env.caller, to, amount_0, amount_1 },
            },
        )
    }

    /// Trades: pays out `amount_0_out` and `amount_1_out`, to be sent to
    /// `to`, against the `amount_0_in` and `amount_1_in` that the pool has
    /// received since its reserves were last recorded. The product of the
    /// reserves, with the fee taken off what came in, must not fall.
    ///
    /// Refused while an operation holds the guard. A refusal changes nothing.
    pub fn swap(
        &mut self,
        env: &Env,
        amount_0_out: Balance,
        amount_1_out: Balance,
        amount_0_in: Balance,
        amount_1_in: Balance,
        to: AccountId,
    ) -> (r: Result<SwapReceipt, PairError>)
        requires
            old(self).wf(),
        ensures
            final(self).wf(),
            match old(self)@.swap(
                *env,
                amount_0_out,
                amount_1_out,
                amount_0_in,
                amount_1_in,
                to,
            ) {
                Ok((state, receipt)) => r == Ok::<SwapReceipt, PairError>(receipt) && final(self)@
                    == state,
                Err(e) => r == Err::<SwapReceipt, PairError>(e) && *final(self) == *old(self),
            },
            final(self)@.k() >= old(self)@.k(),
            final(self)@.total_supply == old(self)@.total_supply,
    {
        proof {
            lemma_guard_apart(self@, false);
        }
        match self.lock() {
            Err(e) => {
                return Err(e);
            },
            Ok(_) => {},
        }
        let result = self.swap_internal(
            env,
            amount_0_out,
            amount_1_out,
            amount_0_in,
            amount_1_in,
            to,
        );
        self.unlock();
        result
    }

    fn swap_internal(
        &mut self,
        env: &Env,
        amount_0_out: Balance,
        amount_1_out: Balance,
        amount_0_in: Balance,
        amount_1_in: Balance,
        to: AccountId,
    ) -> (r: Result<SwapReceipt, PairError>)
        requires
            old(self).wf(),
        ensures
            final(self).wf(),
            match old(self)@.swap_unguarded(
                *env,
                amount_0_out,
                amount_1_out,
                amount_0_in,
                amount_1_in,
                to,
            ) {
                Ok((state, receipt)) => r == Ok::<SwapReceipt, PairError>(receipt) && final(self)@
                    == state,
                Err(e) => r == Err::<SwapReceipt, PairError>(e) && *final(self) == *old(self),
            },
            final(self)@.k() >= old(self)@.k(),
            final(self)@.total_supply == old(self)@.total_supply,
    {
        if amount_0_out == 0 && amount_1_out == 0 {
            return Err(PairError::InsufficientOutputAmount);
        }
        if amount_0_out >= self.reserve_0 || amount_1_out >= self.reserve_1 {
            return Err(PairError::InsufficientLiquidity);
        }
        let traded_0 = adjusted_balance(self.reserve_0 - amount_0_out, amount_0_in);
        let traded_1 = adjusted_balance(self.reserve_1 - amount_1_out, amount_1_in);
        let k_old = self.reserve_0.checked_mul(self.reserve_1);
        let (balance_0, balance_1, fee_0, fee_1): (Balance, Balance, Balance, Balance) = match (
            traded_0,
            traded_1,
            k_old,
        ) {
            (
                Some((balance_0, adjusted_0, fee_0)),
                Some((balance_1, adjusted_1, fee_1)),
                Some(k_old),
            ) => {
                match adjusted_0.checked_mul(adjusted_1) {
                    Some(k_new) => {
                        if k_new < k_old {
                            return Err(PairError::KInvariantViolated);
                        }
                        (balance_0, balance_1, fee_0, fee_1)
                    },
                    None => {
                        return Err(PairError::Overflow);
                    },
                }
            },
            _ => {
                return Err(PairError::Overflow);
            },
        };
        let ghost before = self@;
        let fee_0 = self.fees.split(fee_0);
        let fee_1 = self.fees.split(fee_1);
        let sync = match self.update(balance_0, balance_1, env.block_timestamp) {
            Ok(sync) => sync,
            Err(e) => {
                return Err(e);
            },
        };
        proof {
            lemma_swap_consistent(
                before,
                *env,
                amount_0_out,
                amount_1_out,
                amount_0_in,
                amount_1_in,
                to,
            );
        }
        Ok(
            SwapReceipt {
                sync,
                swap: Swap {
                    sender: env.caller,
                    to,
                    amount_0_in,
                    amount_1_in,
                    amount_0_out,
                    amount_1_out,
                },
                fee_0,
                fee_1,
            },
        )
    }

    /// Sets the recorded reserves to `balance_0` and `balance_1`, what the
    /// pool actually holds.
    ///
    /// Refused while an operation holds the guard. A refusal changes nothing.
    pub fn sync(&mut self, env: &Env, balance_0: Balance, balance_1: Balance) -> (r: Result<
        Sync,
        PairError,
    >)
        requires
            old(self).wf(),
        ensures
            final(self).wf(),
            match old(self)@.sync(*env, balance_0, balance_1) {
                Ok((state, event)) => r == Ok::<Sync, PairError>(event) && final(self)@ == state,
                Err(e) => r == Err::<Sync, PairError>(e) && *final(self) == *old(self),
            },
            final(self)@.total_supply == old(self)@.total_supply,
    {
        proof {
            lemma_guard_apart(self@, false);
        }
        match self.lock() {
            Err(e) => {
                return Err(e);
            },
            Ok(_) => {},
        }
        let result = if (balance_0 > 0) != (self.total_supply > 0) || (balance_1 > 0) != (
        self.total_supply > 0) {
            Err(PairError::InvalidTokenAmounts)
        } else {
            self.update(balance_0, balance_1, env.block_timestamp)
        };
        self.unlock();
        result
    }
}

/// A balance after a swap, the same with the fee taken off what was paid in,
/// and the fee; `None` where the balance or the discount does not fit.
fn adjusted_balance(kept: Balance, amount_in: Balance) -> (r: Option<(Balance, Balance, Balance)>)
    ensures
        kept + amount_in > u128::MAX || amount_in * FEE_NUMERATOR > u128::MAX <==> r is None,
        r matches Some((balance, adjusted, fee)) ==> balance == kept + amount_in && adjusted
            == fee_adjusted(kept as int, amount_in) && fee == nominal_fee(amount_in),
{
    proof {
        lemma_effective_input_bounded(amount_in);
    }
    match (kept.checked_add(amount_in), amount_in.checked_mul(FEE_NUMERATOR)) {
        (Some(balance), Some(discounted)) => {
            let effective: Balance = discounted / FEE_DENOMINATOR;
            Some((balance, kept + effective, amount_in - effective))
        },
        _ => None,
    }
}

} // verus!
