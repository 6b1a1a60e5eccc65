//! What holds of the pool whatever is asked of it.
use vstd::prelude::*;

use crate::mapping::{lemma_total_bounds, lemma_total_insert, lemma_total_remove, total};
use crate::math::{isqrt, lemma_isqrt, lemma_isqrt_bounded};
use crate::pair::model::{effective_input, fee_adjusted, nominal_fee, Call, PairView};
use crate::pair::types::{
    BurnReceipt, MintReceipt, PairError, SwapReceipt, Sync, FEE_DENOMINATOR, FEE_NUMERATOR,
    MINIMUM_LIQUIDITY,
};
use crate::types::{AccountId, Env};

verus! {

/// A first deposit that earns shares holds something of both assets.
pub proof fn lemma_first_deposit_is_positive(amount_0: u128, amount_1: u128)
    requires
        isqrt((amount_0 * amount_1) as nat) > 0,
    ensures
        amount_0 > 0,
        amount_1 > 0,
{
    if amount_0 == 0 || amount_1 == 0 {
        assert(amount_0 * amount_1 == 0) by (nonlinear_arith)
            requires
                amount_0 == 0 || amount_1 == 0,
        ;
        assert(isqrt(0) == 0) by {
            lemma_isqrt(0);
            assert(forall|r: nat| r >= 1 ==> #[trigger] (r * r) >= 1) by (nonlinear_arith);
        }
    }
}

/// Dividing what is not negative by what is positive gives something between
/// zero and the dividend.
pub proof fn lemma_quotient_bounded(x: int, d: int)
    requires
        x >= 0,
        d > 0,
    ensures
        0 <= x / d <= x,
{
    assert(0 <= x / d <= x) by (nonlinear_arith)
        requires
            x >= 0,
            d > 0,
    ;
}

/// Shares short of the whole supply redeem less than the whole reserve.
pub proof fn lemma_redeemed_below_reserve(liquidity: u128, reserve: u128, supply: u128)
    requires
        liquidity < supply,
        reserve > 0,
    ensures
        (liquidity * reserve) / (supply as int) < reserve,
        0 <= (liquidity * reserve) / (supply as int),
{
    assert((liquidity * reserve) / (supply as int) < reserve && (liquidity * reserve) / (
    supply as int) >= 0) by (nonlinear_arith)
        requires
            0 <= liquidity < supply,
            reserve > 0,
    ;
}

/// What counts of a payment for the trade is no more than the payment.
pub proof fn lemma_effective_input_bounded(amount_in: u128)
    ensures
        0 <= effective_input(amount_in) <= amount_in,
        0 <= nominal_fee(amount_in) <= amount_in,
{
    assert(0 <= (amount_in * 995) / 1000 <= amount_in) by (nonlinear_arith)
        requires
            amount_in >= 0,
    ;
}

/// Where the balances after a swap, with the fee taken off what came in,
/// multiply to at least the product of the reserves, the full balances do so
/// too.
pub proof fn lemma_swap_keeps_product(
    reserve_0: u128,
    reserve_1: u128,
    kept_0: u128,
    kept_1: u128,
    amount_0_in: u128,
    amount_1_in: u128,
)
    requires
        fee_adjusted(kept_0 as int, amount_0_in) * fee_adjusted(kept_1 as int, amount_1_in)
            >= reserve_0 * reserve_1,
    ensures
        (kept_0 + amount_0_in) * (kept_1 + amount_1_in) >= reserve_0 * reserve_1,
{
    lemma_effective_input_bounded(amount_0_in);
    lemma_effective_input_bounded(amount_1_in);
    let x = fee_adjusted(kept_0 as int, amount_0_in);
    let y = fee_adjusted(kept_1 as int, amount_1_in);
    let full_x = kept_0 + amount_0_in;
    let full_y = kept_1 + amount_1_in;
    assert(x * y <= full_x * full_y) by (nonlinear_arith)
        requires
            0 <= x <= full_x,
            0 <= y <= full_y,
    ;
}

/// No holder has more shares than there are, nor have two holders together.
pub proof fn lemma_holdings_bounded(s: PairView, a: AccountId, b: AccountId)
    requires
        s.consistent(),
    ensures
        s.balance_of(a) <= s.total_supply,
        a != b ==> s.balance_of(a) + s.balance_of(b) <= s.total_supply,
        s.total_supply > 0 ==> s.total_supply >= MINIMUM_LIQUIDITY,
{
    let sink = AccountId::spec_zero();
    if s.balances.dom().contains(a) {
        lemma_total_bounds(s.balances, a, b);
    } else if s.balances.dom().contains(b) {
        lemma_total_bounds(s.balances, b, a);
    }
    if s.balances.dom().contains(sink) {
        lemma_total_bounds(s.balances, sink, sink);
    }
}

/// Whether the guard is held makes no difference to what an operation does
/// once it is let in.
pub proof fn lemma_guard_apart(s: PairView, unlocked: bool)
    ensures
        forall|env: Env, to: AccountId, amount_0: u128, amount_1: u128|
            #![trigger s.with_guard(unlocked).mint_unguarded(env, to, amount_0, amount_1)]
            s.with_guard(unlocked).mint_unguarded(env, to, amount_0, amount_1) == (
            match s.mint_unguarded(env, to, amount_0, amount_1) {
                Ok((t, receipt)) => Ok((t.with_guard(unlocked), receipt)),
                Err(e) => Err(e),
            }),
        forall|env: Env, to: AccountId, liquidity: u128|
            #![trigger s.with_guard(unlocked).burn_unguarded(env, to, liquidity)]
            s.with_guard(unlocked).burn_unguarded(env, to, liquidity) == (match s.burn_unguarded(
                env,
                to,
                liquidity,
            ) {
                Ok((t, receipt)) => Ok((t.with_guard(unlocked), receipt)),
                Err(e) => Err(e),
            }),
        forall|env: Env, out_0: u128, out_1: u128, in_0: u128, in_1: u128, to: AccountId|
            #![trigger s.with_guard(unlocked).swap_unguarded(env, out_0, out_1, in_0, in_1, to)]
            s.with_guard(unlocked).swap_unguarded(env, out_0, out_1, in_0, in_1, to) == (
            match s.swap_unguarded(env, out_0, out_1, in_0, in_1, to) {
                Ok((t, receipt)) => Ok((t.with_guard(unlocked), receipt)),
                Err(e) => Err(e),
            }),
        forall|env: Env, balance_0: u128, balance_1: u128|
            #![trigger s.with_guard(unlocked).sync_unguarded(env, balance_0, balance_1)]
            s.with_guard(unlocked).sync_unguarded(env, balance_0, balance_1) == (
            match s.sync_unguarded(env, balance_0, balance_1) {
                Ok((t, event)) => Ok((t.with_guard(unlocked), event)),
                Err(e) => Err(e),
            }),
{
}

/// A deposit that succeeds leaves a consistent pool with more shares than
/// before, at least the locked minimum, and took something of both assets
/// where it was the first.
pub proof fn lemma_mint_consistent(
    s: PairView,
    env: Env,
    to: AccountId,
    amount_0: u128,
    amount_1: u128,
)
    requires
        s.consistent(),
        s.mint_unguarded(env, to, amount_0, amount_1) is Ok,
    ensures
        ({
            let (t, receipt) = s.mint_unguarded(env, to, amount_0, amount_1)->Ok_0;
            &&& t.consistent()
            &&& t.total_supply > s.total_supply
            &&& t.total_supply >= MINIMUM_LIQUIDITY
            &&& receipt.liquidity > 0
            &&& t.reserve_0 == s.reserve_0 + amount_0
            &&& t.reserve_1 == s.reserve_1 + amount_1
            &&& t.total_supply == s.total_supply + receipt.liquidity + (if s.total_supply == 0 {
                MINIMUM_LIQUIDITY as int
            } else {
                0
            })
            &&& t.balance_of(to) >= receipt.liquidity
        }),
{
    let sink = AccountId::spec_zero();
    let (t, receipt) = s.mint_unguarded(env, to, amount_0, amount_1)->Ok_0;
    let shares = receipt.liquidity;
    assert(s.minted_shares(amount_0, amount_1) == Ok::<u128, PairError>(shares));
    let locked: int = if s.total_supply == 0 {
        MINIMUM_LIQUIDITY as int
    } else {
        0
    };
    lemma_holdings_bounded(s, sink, to);
    if s.total_supply == 0 {
        lemma_isqrt_bounded((amount_0 * amount_1) as nat);
    } else {
        lemma_quotient_bounded(amount_0 * s.total_supply, s.reserve_0 as int);
        lemma_quotient_bounded(amount_1 * s.total_supply, s.reserve_1 as int);
    }
    let funded = if s.total_supply == 0 {
        s.credited(sink, locked)
    } else {
        s
    };
    if s.total_supply == 0 {
        lemma_first_deposit_is_positive(amount_0, amount_1);
        lemma_total_insert(s.balances, sink, (s.balance_of(sink) + locked) as u128);
    }
    assert(funded.balances.dom().finite());
    assert(total(funded.balances) == s.total_supply + locked);
    assert(funded.total_supply == s.total_supply + locked);
    assert(funded.balance_of(sink) >= MINIMUM_LIQUIDITY);
    if funded.balances.dom().contains(to) {
        lemma_total_bounds(funded.balances, to, to);
    }
    lemma_total_insert(funded.balances, to, (funded.balance_of(to) + shares) as u128);
    let credited = funded.credited(to, shares as int);
    assert(credited.balances.dom().finite());
    assert(total(credited.balances) == s.total_supply + locked + shares);
    assert(credited.balance_of(sink) >= MINIMUM_LIQUIDITY);
    assert(credited.balance_of(to) >= shares);
    assert(t.balances == credited.balances);
    assert(t.total_supply == credited.total_supply);
}

/// A redemption that succeeds leaves a consistent pool that still has the
/// locked minimum of shares, and releases less than each reserve.
pub proof fn lemma_burn_consistent(s: PairView, env: Env, to: AccountId, liquidity: u128)
    requires
        s.consistent(),
        s.burn_unguarded(env, to, liquidity) is Ok,
    ensures
        ({
            let (t, receipt) = s.burn_unguarded(env, to, liquidity)->Ok_0;
            &&& t.consistent()
            &&& t.total_supply == s.total_supply - liquidity
            &&& t.total_supply >= MINIMUM_LIQUIDITY
            &&& 0 < receipt.amount_0 < s.reserve_0
            &&& 0 < receipt.amount_1 < s.reserve_1
            &&& t.reserve_0 == s.reserve_0 - receipt.amount_0
            &&& t.reserve_1 == s.reserve_1 - receipt.amount_1
            &&& t.balance_of(AccountId::spec_zero()) == s.balance_of(AccountId::spec_zero())
        }),
{
    let sink = AccountId::spec_zero();
    let caller = env.caller;
    let (t, receipt) = s.burn_unguarded(env, to, liquidity)->Ok_0;
    lemma_total_bounds(s.balances, caller, sink);
    lemma_total_insert(s.balances, caller, (s.balance_of(caller) - liquidity) as u128);
    lemma_redeemed_below_reserve(liquidity, s.reserve_0, s.total_supply);
    lemma_redeemed_below_reserve(liquidity, s.reserve_1, s.total_supply);
    let debited = s.credited(caller, -(liquidity as int));
    assert(t.balances == debited.balances);
    assert(debited.balance_of(sink) == s.balance_of(sink));
}

/// A swap that succeeds leaves a consistent pool with the same shares and a
/// product of reserves that is no smaller.
pub proof fn lemma_swap_consistent(
    s: PairView,
    env: Env,
    amount_0_out: u128,
    amount_1_out: u128,
    amount_0_in: u128,
    amount_1_in: u128,
    to: AccountId,
)
    requires
        s.consistent(),
        s.swap_unguarded(env, amount_0_out, amount_1_out, amount_0_in, amount_1_in, to) is Ok,
    ensures
        ({
            let (t, receipt) = s.swap_unguarded(
                env,
                amount_0_out,
                amount_1_out,
                amount_0_in,
                amount_1_in,
                to,
            )->Ok_0;
            &&& t.consistent()
            &&& t.total_supply == s.total_supply
            &&& t.balances == s.balances
            &&& t.reserve_0 == s.reserve_0 - amount_0_out + amount_0_in
            &&& t.reserve_1 == s.reserve_1 - amount_1_out + amount_1_in
            &&& t.k() >= s.k()
        }),
{
    lemma_swap_keeps_product(
        s.reserve_0,
        s.reserve_1,
        (s.reserve_0 - amount_0_out) as u128,
        (s.reserve_1 - amount_1_out) as u128,
        amount_0_in,
        amount_1_in,
    );
}

/// Setting the reserves, where it succeeds, leaves a consistent pool with the
/// same shares.
pub proof fn lemma_sync_consistent(s: PairView, env: Env, balance_0: u128, balance_1: u128)
    requires
        s.consistent(),
        s.sync_unguarded(env, balance_0, balance_1) is Ok,
    ensures
        ({
            let (t, event) = s.sync_unguarded(env, balance_0, balance_1)->Ok_0;
            &&& t.consistent()
            &&& t.total_supply == s.total_supply
            &&& t.balances == s.balances
        }),
{
}

/// Whatever is asked of a consistent pool, it stays consistent: no reserve,
/// supply or holding ever wraps, since each stays the number that the model
/// gives it.
pub proof fn lemma_step_consistent(s: PairView, call: Call)
    requires
        s.consistent(),
    ensures
        s.step(call).consistent(),
{
    match call {
        Call::Mint { env, to, amount_0, amount_1 } => {
            if s.mint(env, to, amount_0, amount_1) is Ok {
                lemma_mint_consistent(s, env, to, amount_0, amount_1);
            }
        },
        Call::Burn { env, to, liquidity } => {
            if s.burn(env, to, liquidity) is Ok {
                lemma_burn_consistent(s, env, to, liquidity);
            }
        },
        Call::Swap { env, amount_0_out, amount_1_out, amount_0_in, amount_1_in, to } => {
            if s.swap(env, amount_0_out, amount_1_out, amount_0_in, amount_1_in, to) is Ok {
                lemma_swap_consistent(
                    s,
                    env,
                    amount_0_out,
                    amount_1_out,
                    amount_0_in,
                    amount_1_in,
                    to,
                );
            }
        },
        Call::Sync { env, balance_0, balance_1 } => {
            if s.sync(env, balance_0, balance_1) is Ok {
                lemma_sync_consistent(s, env, balance_0, balance_1);
            }
        },
    }
}

/// A consistent pool stays consistent over any sequence of calls.
pub proof fn lemma_run_consistent(s: PairView, calls: Seq<Call>)
    requires
        s.consistent(),
    ensures
        s.run(calls).consistent(),
    decreases calls.len(),
{
    if calls.len() > 0 {
        lemma_run_consistent(s, calls.drop_last());
        lemma_step_consistent(s.run(calls.drop_last()), calls.last());
    }
}

/// Over any sequence of swaps the product of the reserves never falls.
pub proof fn lemma_product_never_falls(s: PairView, calls: Seq<Call>)
    requires
        s.consistent(),
        forall|i: int| 0 <= i < calls.len() ==> #[trigger] calls[i] is Swap,
    ensures
        s.run(calls).k() >= s.k(),
    decreases calls.len(),
{
    if calls.len() > 0 {
        let before = s.run(calls.drop_last());
        assert forall|i: int| 0 <= i < calls.drop_last().len() implies #[trigger] calls.drop_last()[i] is Swap by {
            assert(calls.drop_last()[i] == calls[i]);
        }
        lemma_product_never_falls(s, calls.drop_last());
        lemma_run_consistent(s, calls.drop_last());
        assert(calls.last() == calls[calls.len() - 1]);
        match calls.last() {
            Call::Swap { env, amount_0_out, amount_1_out, amount_0_in, amount_1_in, to } => {
                if before.swap(env, amount_0_out, amount_1_out, amount_0_in, amount_1_in, to) is Ok {
                    lemma_swap_consistent(
                        before,
                        env,
                        amount_0_out,
                        amount_1_out,
                        amount_0_in,
                        amount_1_in,
                        to,
                    );
                }
            },
            _ => {},
        }
    }
}

/// Shares minted for a deposit and redeemed at once release no more of
/// either asset than was deposited.
pub proof fn lemma_mint_then_burn(
    s: PairView,
    env: Env,
    to: AccountId,
    amount_0: u128,
    amount_1: u128,
    burn_env: Env,
    burn_to: AccountId,
)
    requires
        s.consistent(),
        s.mint(env, to, amount_0, amount_1) is Ok,
        s.mint(env, to, amount_0, amount_1)->Ok_0.0.burn(
            burn_env,
            burn_to,
            s.mint(env, to, amount_0, amount_1)->Ok_0.1.liquidity,
        ) is Ok,
    ensures
        ({
            let (t, minted) = s.mint(env, to, amount_0, amount_1)->Ok_0;
            let (u, burned) = t.burn(burn_env, burn_to, minted.liquidity)->Ok_0;
            &&& burned.amount_0 <= amount_0
            &&& burned.amount_1 <= amount_1
        }),
{
    let (t, minted) = s.mint(env, to, amount_0, amount_1)->Ok_0;
    let shares = minted.liquidity;
    lemma_mint_consistent(s, env, to, amount_0, amount_1);
    lemma_round_trip(s.total_supply, s.reserve_0, amount_0, shares, t.total_supply);
    lemma_round_trip(s.total_supply, s.reserve_1, amount_1, shares, t.total_supply);
}

/// Shares minted for a later deposit and redeemed at once release exactly
/// what was deposited, where the deposit is in the proportion of the reserves
/// and earns its shares without rounding.
pub proof fn lemma_mint_then_burn_exact(
    s: PairView,
    env: Env,
    to: AccountId,
    amount_0: u128,
    amount_1: u128,
    burn_env: Env,
    burn_to: AccountId,
)
    requires
        s.consistent(),
        s.total_supply > 0,
        (amount_0 * s.total_supply) % (s.reserve_0 as int) == 0,
        (amount_1 * s.total_supply) % (s.reserve_1 as int) == 0,
        (amount_0 * s.total_supply) / (s.reserve_0 as int) == (amount_1 * s.total_supply) / (
        s.reserve_1 as int),
        s.mint(env, to, amount_0, amount_1) is Ok,
        s.mint(env, to, amount_0, amount_1)->Ok_0.0.burn(
            burn_env,
            burn_to,
            s.mint(env, to, amount_0, amount_1)->Ok_0.1.liquidity,
        ) is Ok,
    ensures
        ({
            let (t, minted) = s.mint(env, to, amount_0, amount_1)->Ok_0;
            let (u, burned) = t.burn(burn_env, burn_to, minted.liquidity)->Ok_0;
            &&& burned.amount_0 == amount_0
            &&& burned.amount_1 == amount_1
            &&& u.reserve_0 == s.reserve_0
            &&& u.reserve_1 == s.reserve_1
            &&& u.total_supply == s.total_supply
        }),
{
    let (t, minted) = s.mint(env, to, amount_0, amount_1)->Ok_0;
    let shares = minted.liquidity;
    lemma_mint_consistent(s, env, to, amount_0, amount_1);
    lemma_burn_consistent(t, burn_env, burn_to, shares);
    lemma_round_trip_exact(s.total_supply, s.reserve_0, amount_0, shares);
    lemma_round_trip_exact(s.total_supply, s.reserve_1, amount_1, shares);
}

/// The arithmetic of one asset in a deposit that earns its shares without
/// rounding and is redeemed at once.
proof fn lemma_round_trip_exact(supply: u128, reserve: u128, amount: u128, shares: u128)
    requires
        supply > 0,
        reserve > 0,
        (amount * supply) % (reserve as int) == 0,
        shares == (amount * supply) / (reserve as int),
    ensures
        (shares * (reserve + amount)) / ((supply + shares) as int) == amount,
{
    let x = amount * supply;
    assert(shares * reserve == x) by (nonlinear_arith)
        requires
            reserve > 0,
            x % (reserve as int) == 0,
            shares == x / (reserve as int),
    ;
    assert(shares * (reserve + amount) == amount * (supply + shares)) by (nonlinear_arith)
        requires
            shares * reserve == amount * supply,
    ;
    assert((amount * (supply + shares)) / ((supply + shares) as int) == amount)
        by (nonlinear_arith)
        requires
            supply + shares > 0,
    ;
}

/// The arithmetic of one asset in a deposit that is redeemed at once.
proof fn lemma_round_trip(supply: u128, reserve: u128, amount: u128, shares: u128, grown: u128)
    requires
        grown >= supply + shares,
        grown > 0,
        supply > 0 ==> reserve > 0 && amount * supply <= u128::MAX && shares <= (amount * supply)
            / (reserve as int),
        supply == 0 ==> reserve == 0,
    ensures
        (shares * (reserve + amount)) / (grown as int) <= amount,
{
    let x = shares * (reserve + amount);
    if supply > 0 {
        assert(shares * reserve <= amount * supply) by (nonlinear_arith)
            requires
                reserve > 0,
                amount * supply >= 0,
                shares <= (amount * supply) / (reserve as int),
                shares >= 0,
        ;
    }
    assert(x <= amount * grown) by (nonlinear_arith)
        requires
            x == shares * (reserve + amount),
            supply > 0 ==> shares * reserve <= amount * supply,
            supply == 0 ==> reserve == 0,
            grown >= supply + shares,
            amount >= 0,
            shares >= 0,
    ;
    assert(x / (grown as int) <= amount) by (nonlinear_arith)
        requires
            x <= amount * grown,
            grown > 0,
    ;
}

/// Once there are shares there are always at least the locked minimum of
/// them, whatever is asked of the pool; and holders other than the zero
/// account never hold more than the supply less that minimum, so that not
/// even all of them leaving takes the supply below it.
pub proof fn lemma_minimum_liquidity_stays(s: PairView, calls: Seq<Call>, holder: AccountId)
    requires
        s.consistent(),
        s.total_supply > 0,
        holder != AccountId::spec_zero(),
    ensures
        s.run(calls).total_supply >= MINIMUM_LIQUIDITY,
        s.run(calls).balance_of(AccountId::spec_zero()) >= MINIMUM_LIQUIDITY,
        s.run(calls).balance_of(holder) + MINIMUM_LIQUIDITY <= s.run(calls).total_supply,
        total(s.run(calls).balances.remove(AccountId::spec_zero())) + MINIMUM_LIQUIDITY <= s.run(
            calls,
        ).total_supply,
{
    lemma_run_consistent(s, calls);
    lemma_supply_stays_positive(s, calls);
    lemma_holdings_bounded(s.run(calls), holder, AccountId::spec_zero());
    lemma_total_remove(s.run(calls).balances, AccountId::spec_zero());
}

/// A pool that has shares keeps having some, whatever is asked of it.
pub proof fn lemma_supply_stays_positive(s: PairView, calls: Seq<Call>)
    requires
        s.consistent(),
        s.total_supply > 0,
    ensures
        s.run(calls).total_supply > 0,
    decreases calls.len(),
{
    if calls.len() > 0 {
        let before = s.run(calls.drop_last());
        lemma_supply_stays_positive(s, calls.drop_last());
        lemma_run_consistent(s, calls.drop_last());
        match calls.last() {
            Call::Mint { env, to, amount_0, amount_1 } => {
                if before.mint(env, to, amount_0, amount_1) is Ok {
                    lemma_mint_consistent(before, env, to, amount_0, amount_1);
                }
            },
            Call::Burn { env, to, liquidity } => {
                if before.burn(env, to, liquidity) is Ok {
                    lemma_burn_consistent(before, env, to, liquidity);
                }
            },
            Call::Swap { env, amount_0_out, amount_1_out, amount_0_in, amount_1_in, to } => {
                if before.swap(env, amount_0_out, amount_1_out, amount_0_in, amount_1_in, to) is Ok {
                    lemma_swap_consistent(
                        before,
                        env,
                        amount_0_out,
                        amount_1_out,
                        amount_0_in,
                        amount_1_in,
                        to,
                    );
                }
            },
            Call::Sync { env, balance_0, balance_1 } => {
                if before.sync(env, balance_0, balance_1) is Ok {
                    lemma_sync_consistent(before, env, balance_0, balance_1);
                }
            },
        }
    }
}

/// While the guard is held every request is refused with `Locked` and leaves
/// the pool as it was, the guard still held.
pub proof fn lemma_guard_excludes(s: PairView, call: Call)
    requires
        !s.unlocked,
    ensures
        s.step(call) == s,
        match call {
            Call::Mint { env, to, amount_0, amount_1 } => s.mint(env, to, amount_0, amount_1)
                == Err::<(PairView, MintReceipt), PairError>(PairError::Locked),
            Call::Burn { env, to, liquidity } => s.burn(env, to, liquidity) == Err::<
                (PairView, BurnReceipt),
                PairError,
            >(PairError::Locked),
            Call::Swap {
                env,
                amount_0_out,
                amount_1_out,
                amount_0_in,
                amount_1_in,
                to,
            } => s.swap(env, amount_0_out, amount_1_out, amount_0_in, amount_1_in, to) == Err::<
                (PairView, SwapReceipt),
                PairError,
            >(PairError::Locked),
            Call::Sync { env, balance_0, balance_1 } => s.sync(env, balance_0, balance_1) == Err::<
                (PairView, Sync),
                PairError,
            >(PairError::Locked),
        },
{
}

/// An operation that is let in leaves the guard free again, whether it
/// succeeds or is refused.
pub proof fn lemma_guard_released(s: PairView, call: Call)
    requires
        s.unlocked,
    ensures
        s.step(call).unlocked,
{
}

/// The cumulative prices never fall.
pub proof fn lemma_prices_never_fall(s: PairView, call: Call)
    ensures
        s.step(call).price_0_cumulative_last >= s.price_0_cumulative_last,
        s.step(call).price_1_cumulative_last >= s.price_1_cumulative_last,
{
}

} // verus!
