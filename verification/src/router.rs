//! The router: the checks and the arithmetic that stand between a trader and
//! the pools.
use vstd::prelude::*;

use crate::math::{
    is_sqrt, isqrt, lemma_heron_step_above, lemma_heron_step_stops, lemma_isqrt,
    lemma_sqrt_candidate,
};
use crate::types::{AccountId, Balance, Env};

verus! {

/// A liquidity figure must exceed this to count.
pub const MINIMUM_LIQUIDITY: u128 = 100;

/// A trade keeps `FEE_NUMERATOR / FEE_DENOMINATOR` of what is paid in.
pub const FEE_DENOMINATOR: u128 = 1000;

/// The part of what is paid in that counts for the trade, in thousandths.
pub const FEE_NUMERATOR: u128 = 997;

/// Liquidity was added through the router.
#[derive(Debug, PartialEq, Eq, Clone, Copy)]
pub struct LiquidityAdded {
    pub token_a: AccountId,
    pub token_b: AccountId,
    pub amount_a: Balance,
    pub amount_b: Balance,
    pub liquidity: Balance,
    pub to: AccountId,
}

/// Liquidity was removed through the router.
#[derive(Debug, PartialEq, Eq, Clone, Copy)]
pub struct LiquidityRemoved {
    pub token_a: AccountId,
    pub token_b: AccountId,
    pub amount_a: Balance,
    pub amount_b: Balance,
    pub liquidity: Balance,
    pub to: AccountId,
}

/// A trade went through the router.
#[derive(Debug, PartialEq, Eq, Clone)]
pub struct Swap {
    pub sender: AccountId,
    pub amount_in: Balance,
    pub amount_out: Balance,
    pub path: Vec<AccountId>,
    pub to: AccountId,
}

/// Why the router refused a request.
#[derive(Debug, PartialEq, Eq, Clone, Copy, Structural)]
pub enum RouterError {
    /// The deadline has passed.
    Expired,
    InsufficientAAmount,
    InsufficientBAmount,
    InsufficientOutputAmount,
    InsufficientLiquidity,
    /// A path needs two assets at least.
    InvalidPath,
    IdenticalAddresses,
    ZeroAddress,
    ExcessiveInputAmount,
    PairNotExists,
}

/// The router.
#[derive(Debug, PartialEq, Eq, Clone, Copy)]
pub struct RouterContract {
    factory: AccountId,
    wnative: AccountId,
}

/// Some asset of `path` is the zero account.
pub open spec fn has_zero(path: Seq<AccountId>) -> bool {
    exists|i: int| 0 <= i < path.len() && (#[trigger] path[i]).spec_is_zero()
}

/// What the router's square root answers: the integer square root, but 1 at
/// the largest number, where the first step of the method does not fit.
pub open spec fn router_sqrt(value: u128) -> nat {
    if value == u128::MAX {
        1
    } else {
        isqrt(value as nat)
    }
}

/// The liquidity figure for two amounts: the router's square root of their
/// product, which must exist, fit and exceed the minimum.
pub open spec fn liquidity_for(amount_a: Balance, amount_b: Balance) -> Result<
    Balance,
    RouterError,
> {
    if amount_a == 0 || amount_b == 0 || amount_a * amount_b > u128::MAX || router_sqrt(
        (amount_a * amount_b) as u128,
    ) <= MINIMUM_LIQUIDITY {
        Err(RouterError::InsufficientLiquidity)
    } else {
        Ok(router_sqrt((amount_a * amount_b) as u128) as u128)
    }
}

/// What `amount_in` buys along `path` at one to one, fee taken off.
pub open spec fn output_for(amount_in: Balance, path: Seq<AccountId>) -> Result<
    Balance,
    RouterError,
> {
    if amount_in == 0 || path.len() < 2 || amount_in * FEE_NUMERATOR > u128::MAX {
        Err(RouterError::InsufficientOutputAmount)
    } else {
        Ok((amount_in * FEE_NUMERATOR / (FEE_DENOMINATOR as int)) as u128)
    }
}

/// What must be paid along `path` at one to one to receive `amount_out`.
pub open spec fn input_for(amount_out: Balance, path: Seq<AccountId>) -> Result<
    Balance,
    RouterError,
> {
    if amount_out == 0 || path.len() < 2 || amount_out * FEE_DENOMINATOR > u128::MAX {
        Err(RouterError::ExcessiveInputAmount)
    } else {
        Ok((amount_out * FEE_DENOMINATOR / (FEE_NUMERATOR as int)) as u128)
    }
}

/// The check of two asset identifiers: neither is the zero account, and
/// they differ.
pub open spec fn addresses_error(token_a: AccountId, token_b: AccountId) -> Option<RouterError> {
    if token_a.spec_is_zero() || token_b.spec_is_zero() {
        Some(RouterError::ZeroAddress)
    } else if token_a == token_b {
        Some(RouterError::IdenticalAddresses)
    } else {
        None
    }
}

/// The check of a path: two assets at least, none of them the zero account.
pub open spec fn path_error(path: Seq<AccountId>) -> Option<RouterError> {
    if path.len() < 2 {
        Some(RouterError::InvalidPath)
    } else if has_zero(path) {
        Some(RouterError::ZeroAddress)
    } else {
        None
    }
}

/// What adding liquidity answers.
pub open spec fn add_liquidity_outcome(
    now: u64,
    token_a: AccountId,
    token_b: AccountId,
    amount_a_desired: Balance,
    amount_b_desired: Balance,
    amount_a_min: Balance,
    amount_b_min: Balance,
    to: AccountId,
    deadline: u64,
) -> Result<((Balance, Balance, Balance), LiquidityAdded), RouterError> {
    if now > deadline {
        Err(RouterError::Expired)
    } else if addresses_error(token_a, token_b) is Some {
        Err(addresses_error(token_a, token_b)->Some_0)
    } else if amount_a_desired < amount_a_min {
        Err(RouterError::InsufficientAAmount)
    } else if amount_b_desired < amount_b_min {
        Err(RouterError::InsufficientBAmount)
    } else {
        match liquidity_for(amount_a_desired, amount_b_desired) {
            Err(e) => Err(e),
            Ok(liquidity) => Ok(
                (
                    (amount_a_desired, amount_b_desired, liquidity),
                    LiquidityAdded {
                        token_a,
                        token_b,
                        amount_a: amount_a_desired,
                        amount_b: amount_b_desired,
                        liquidity,
                        to,
                    },
                ),
            ),
        }
    }
}

/// What removing liquidity answers: half of the liquidity figure for each
/// asset.
pub open spec fn remove_liquidity_outcome(
    now: u64,
    token_a: AccountId,
    token_b: AccountId,
    liquidity: Balance,
    amount_a_min: Balance,
    amount_b_min: Balance,
    to: AccountId,
    deadline: u64,
) -> Result<((Balance, Balance), LiquidityRemoved), RouterError> {
    if now > deadline {
        Err(RouterError::Expired)
    } else if addresses_error(token_a, token_b) is Some {
        Err(addresses_error(token_a, token_b)->Some_0)
    } else if liquidity == 0 {
        Err(RouterError::InsufficientLiquidity)
    } else if liquidity / 2 < amount_a_min {
        Err(RouterError::InsufficientAAmount)
    } else if liquidity / 2 < amount_b_min {
        Err(RouterError::InsufficientBAmount)
    } else {
        Ok(
            (
                (liquidity / 2, liquidity / 2),
                LiquidityRemoved {
                    token_a,
                    token_b,
                    amount_a: liquidity / 2,
                    amount_b: liquidity / 2,
                    liquidity,
                    to,
                },
            ),
        )
    }
}

/// The amounts of a trade that pays in exactly `amount_in`, or why it is
/// refused.
pub open spec fn exact_input_amounts(
    now: u64,
    amount_in: Balance,
    amount_out_min: Balance,
    path: Seq<AccountId>,
    deadline: u64,
) -> Result<(Balance, Balance), RouterError> {
    if now > deadline {
        Err(RouterError::Expired)
    } else if path_error(path) is Some {
        Err(path_error(path)->Some_0)
    } else if amount_in == 0 {
        Err(RouterError::InsufficientOutputAmount)
    } else {
        match output_for(amount_in, path) {
            Err(e) => Err(e),
            Ok(amount_out) => if amount_out < amount_out_min {
                Err(RouterError::InsufficientOutputAmount)
            } else {
                Ok((amount_in, amount_out))
            },
        }
    }
}

/// The amounts of a trade that pays out exactly `amount_out`, or why it is
/// refused.
pub open spec fn exact_output_amounts(
    now: u64,
    amount_out: Balance,
    amount_in_max: Balance,
    path: Seq<AccountId>,
    deadline: u64,
) -> Result<(Balance, Balance), RouterError> {
    if now > deadline {
        Err(RouterError::Expired)
    } else if path_error(path) is Some {
        Err(path_error(path)->Some_0)
    } else if amount_out == 0 {
        Err(RouterError::InsufficientOutputAmount)
    } else {
        match input_for(amount_out, path) {
            Err(e) => Err(e),
            Ok(amount_in) => if amount_in > amount_in_max {
                Err(RouterError::ExcessiveInputAmount)
            } else {
                Ok((amount_in, amount_out))
            },
        }
    }
}

/// A step of Heron's method from the number itself, or from at most half of
/// its successor, stays within the successor of the number.
proof fn lemma_step_fits(value: nat, x: nat)
    requires
        value >= 1,
        x >= 1,
        x == value || x <= (value + 1) / 2,
    ensures
        value / x + x <= value + 1,
        (value / x + x) / 2 <= (value + 1) / 2,
{
    if x == value {
        assert(value / x == 1) by (nonlinear_arith)
            requires
                x == value,
                value >= 1,
        ;
    } else if x >= 2 {
        assert(value / x <= value / 2) by (nonlinear_arith)
            requires
                x >= 2,
                value >= 0,
        ;
    } else {
        assert(value / 1 == value);
    }
}

impl RouterContract {
    /// The registry whose pools the router serves.
    pub closed spec fn spec_factory(&self) -> AccountId {
        self.factory
    }

    /// The wrapped native token that the router knows.
    pub closed spec fn spec_wnative(&self) -> AccountId {
        self.wnative
    }

    /// A router for the pools of `factory`, with `wnative` as the wrapped
    /// native asset.
    pub fn new(factory: AccountId, wnative: AccountId) -> (r: Self)
        ensures
            r.spec_factory() == factory,
            r.spec_wnative() == wnative,
    {
        RouterContract { factory, wnative }
    }

    /// The registry whose pools the router serves.
    #[verifier::when_used_as_spec(spec_factory)]
    pub fn factory(&self) -> (r: AccountId)
        ensures
            r == self.spec_factory(),
    {
        self.factory
    }

    /// The wrapped native token that the router knows.
    #[verifier::when_used_as_spec(spec_wnative)]
    pub fn wnative(&self) -> (r: AccountId)
        ensures
            r == self.spec_wnative(),
    {
        self.wnative
    }

    /// Works out what adding the desired amounts of two assets yields: the
    /// amounts taken and the liquidity figure, with the announcement.
    pub fn add_liquidity(
        &mut self,
        env: &Env,
        token_a: AccountId,
        token_b: AccountId,
        amount_a_desired: Balance,
        amount_b_desired: Balance,
        amount_a_min: Balance,
        amount_b_min: Balance,
        to: AccountId,
        deadline: u64,
    ) -> (r: Result<((Balance, Balance, Balance), LiquidityAdded), RouterError>)
        ensures
            *final(self) == *old(self),
            r == add_liquidity_outcome(
                env.block_timestamp,
                token_a,
                token_b,
                amount_a_desired,
                amount_b_desired,
                amount_a_min,
                amount_b_min,
                to,
                deadline,
            ),
    {
        match self.ensure_deadline(env, deadline) {
            Err(e) => {
                return Err(e);
            },
            Ok(_) => {},
        }
        match self.validate_addresses(token_a, token_b) {
            Err(e) => {
                return Err(e);
            },
            Ok(_) => {},
        }
        let amount_a = amount_a_desired;
        let amount_b = amount_b_desired;
        if amount_a < amount_a_min {
            return Err(RouterError::InsufficientAAmount);
        }
        if amount_b < amount_b_min {
            return Err(RouterError::InsufficientBAmount);
        }
        let liquidity = match self.calculate_liquidity(amount_a, amount_b) {
            Err(e) => {
                return Err(e);
            },
            Ok(liquidity) => liquidity,
        };
        Ok(
            (
                (amount_a, amount_b, liquidity),
                LiquidityAdded { token_a, token_b, amount_a, amount_b, liquidity, to },
            ),
        )
    }

    /// Works out what removing `liquidity` releases of two assets, with the
    /// announcement.
    pub fn remove_liquidity(
        &mut self,
        env: &Env,
        token_a: AccountId,
        token_b: AccountId,
        liquidity: Balance,
        amount_a_min: Balance,
        amount_b_min: Balance,
        to: AccountId,
        deadline: u64,
    ) -> (r: Result<((Balance, Balance), LiquidityRemoved), RouterError>)
        ensures
            *final(self) == *old(self),
            r == remove_liquidity_outcome(
                env.block_timestamp,
                token_a,
                token_b,
                liquidity,
                amount_a_min,
                amount_b_min,
                to,
                deadline,
            ),
    {
        match self.ensure_deadline(env, deadline) {
            Err(e) => {
                return Err(e);
            },
            Ok(_) => {},
        }
        match self.validate_addresses(token_a, token_b) {
            Err(e) => {
                return Err(e);
            },
            Ok(_) => {},
        }
        if liquidity == 0 {
            return Err(RouterError::InsufficientLiquidity);
        }
        let amount_a: Balance = liquidity / 2;
        let amount_b: Balance = liquidity / 2;
        if amount_a < amount_a_min {
            return Err(RouterError::InsufficientAAmount);
        }
        if amount_b < amount_b_min {
            return Err(RouterError::InsufficientBAmount);
        }
        Ok(
            (
                (amount_a, amount_b),
                LiquidityRemoved { token_a, token_b, amount_a, amount_b, liquidity, to },
            ),
        )
    }

    /// A trade that pays in exactly `amount_in` along `path`: the amounts
    /// paid in and received, with the announcement.
    pub fn swap_exact_tokens_for_tokens(
        &mut self,
        env: &Env,
        amount_in: Balance,
        amount_out_min: Balance,
        path: Vec<AccountId>,
        to: AccountId,
        deadline: u64,
    ) -> (r: Result<(Vec<Balance>, Swap), RouterError>)
        ensures
            *final(self) == *old(self),
            match exact_input_amounts(
                env.block_timestamp,
                amount_in,
                amount_out_min,
                path@,
                deadline,
            ) {
                Err(e) => r == Err::<(Vec<Balance>, Swap), RouterError>(e),
                Ok((paid, received)) => r is Ok && r->Ok_0.0@ == seq![paid, received] && r->Ok_0.1
                    == (Swap {
                    sender: env.caller,
                    amount_in: paid,
                    amount_out: received,
                    path,
                    to,
                }),
            },
    {
        match self.ensure_deadline(env, deadline) {
            Err(e) => {
                return Err(e);
            },
            Ok(_) => {},
        }
        match self.validate_path(&path) {
            Err(e) => {
                return Err(e);
            },
            Ok(_) => {},
        }
        if amount_in == 0 {
            return Err(RouterError::InsufficientOutputAmount);
        }
        let amount_out = match self.calculate_output_amount(amount_in, &path) {
            Err(e) => {
                return Err(e);
            },
            Ok(amount_out) => amount_out,
        };
        if amount_out < amount_out_min {
            return Err(RouterError::InsufficientOutputAmount);
        }
        let mut amounts: Vec<Balance> = Vec::new();
        amounts.push(amount_in);
        amounts.push(amount_out);
        assert(amounts@ =~= seq![amount_in, amount_out]);
        Ok((amounts, Swap { sender: env.caller, amount_in, amount_out, path, to }))
    }

    /// A trade that pays out exactly `amount_out` along `path`: the amounts
    /// paid in and received, with the announcement.
    pub fn swap_tokens_for_exact_tokens(
        &mut self,
        env: &Env,
        amount_out: Balance,
        amount_in_max: Balance,
        path: Vec<AccountId>,
        to: AccountId,
        deadline: u64,
    ) -> (r: Result<(Vec<Balance>, Swap), RouterError>)
        ensures
            *final(self) == *old(self),
            match exact_output_amounts(
                env.block_timestamp,
                amount_out,
                amount_in_max,
                path@,
                deadline,
            ) {
                Err(e) => r == Err::<(Vec<Balance>, Swap), RouterError>(e),
                Ok((paid, received)) => r is Ok && r->Ok_0.0@ == seq![paid, received] && r->Ok_0.1
                    == (Swap {
                    sender: env.caller,
                    amount_in: paid,
                    amount_out: received,
                    path,
                    to,
                }),
            },
    {
        match self.ensure_deadline(env, deadline) {
            Err(e) => {
                return Err(e);
            },
            Ok(_) => {},
        }
        match self.validate_path(&path) {
            Err(e) => {
                return Err(e);
            },
            Ok(_) => {},
        }
        if amount_out == 0 {
            return Err(RouterError::InsufficientOutputAmount);
        }
        let amount_in = match self.calculate_input_amount(amount_out, &path) {
            Err(e) => {
                return Err(e);
            },
            Ok(amount_in) => amount_in,
        };
        if amount_in > amount_in_max {
            return Err(RouterError::ExcessiveInputAmount);
        }
        let mut amounts: Vec<Balance> = Vec::new();
        amounts.push(amount_in);
        amounts.push(amount_out);
        assert(amounts@ =~= seq![amount_in, amount_out]);
        Ok((amounts, Swap { sender: env.caller, amount_in, amount_out, path, to }))
    }

    /// Refuses a request whose deadline has passed.
    pub fn ensure_deadline(&self, env: &Env, deadline: u64) -> (r: Result<(), RouterError>)
        ensures
            r == (if env.block_timestamp > deadline {
                Err::<(), RouterError>(RouterError::Expired)
            } else {
                Ok::<(), RouterError>(())
            }),
    {
        if env.block_timestamp > deadline {
            return Err(RouterError::Expired);
        }
        Ok(())
    }

    /// Refuses two asset identifiers of which one is the zero account, or
    /// which are the same.
    pub fn validate_addresses(&self, token_a: AccountId, token_b: AccountId) -> (r: Result<
        (),
        RouterError,
    >)
        ensures
            r == (match addresses_error(token_a, token_b) {
                Some(e) => Err::<(), RouterError>(e),
                None => Ok::<(), RouterError>(()),
            }),
    {
        if token_a.is_zero() || token_b.is_zero() {
            return Err(RouterError::ZeroAddress);
        }
        if token_a == token_b {
            return Err(RouterError::IdenticalAddresses);
        }
        Ok(())
    }

    /// Refuses a path of fewer than two assets, or with the zero account in it.
    pub fn validate_path(&self, path: &Vec<AccountId>) -> (r: Result<(), RouterError>)
        ensures
            r == (match path_error(path@) {
                Some(e) => Err::<(), RouterError>(e),
                None => Ok::<(), RouterError>(()),
            }),
    {
        if path.len() < 2 {
            return Err(RouterError::InvalidPath);
        }
        let mut i: usize = 0;
        while i < path.len()
            invariant
                path@.len() >= 2,
                i <= path@.len(),
                forall|j: int| 0 <= j < i ==> !(#[trigger] path@[j]).spec_is_zero(),
            decreases path@.len() - i,
        {
            if path[i].is_zero() {
                assert(path@[i as int].spec_is_zero());
                return Err(RouterError::ZeroAddress);
            }
            i += 1;
        }
        Ok(())
    }

    /// The liquidity figure for two amounts.
    pub fn calculate_liquidity(&self, amount_a: Balance, amount_b: Balance) -> (r: Result<
        Balance,
        RouterError,
    >)
        ensures
            r == liquidity_for(amount_a, amount_b),
    {
        if amount_a == 0 || amount_b == 0 {
            return Err(RouterError::InsufficientLiquidity);
        }
        let product = match amount_a.checked_mul(amount_b) {
            Some(product) => product,
            None => {
                return Err(RouterError::InsufficientLiquidity);
            },
        };
        let liquidity = self.sqrt(product);
        if liquidity <= MINIMUM_LIQUIDITY {
            return Err(RouterError::InsufficientLiquidity);
        }
        Ok(liquidity)
    }

    /// What `amount_in` buys along `path`.
    pub fn calculate_output_amount(&self, amount_in: Balance, path: &Vec<AccountId>) -> (r: Result<
        Balance,
        RouterError,
    >)
        ensures
            r == output_for(amount_in, path@),
    {
        if amount_in == 0 || path.len() < 2 {
            return Err(RouterError::InsufficientOutputAmount);
        }
        match amount_in.checked_mul(FEE_NUMERATOR) {
            Some(scaled) => Ok(scaled / FEE_DENOMINATOR),
            None => Err(RouterError::InsufficientOutputAmount),
        }
    }

    /// What must be paid along `path` to receive `amount_out`.
    pub fn calculate_input_amount(&self, amount_out: Balance, path: &Vec<AccountId>) -> (r: Result<
        Balance,
        RouterError,
    >)
        ensures
            r == input_for(amount_out, path@),
    {
        if amount_out == 0 || path.len() < 2 {
            return Err(RouterError::ExcessiveInputAmount);
        }
        match amount_out.checked_mul(FEE_DENOMINATOR) {
            Some(scaled) => Ok(scaled / FEE_NUMERATOR),
            None => Err(RouterError::ExcessiveInputAmount),
        }
    }

    /// The integer square root by Heron's method in checked arithmetic. At
    /// the largest number the first step does not fit, and the answer is 1.
    pub fn sqrt(&self, value: Balance) -> (r: Balance)
        ensures
            r == router_sqrt(value),
            value < u128::MAX ==> is_sqrt(value as nat, r as nat),
    {
        proof {
            lemma_isqrt(value as nat);
        }
        if value == 0 {
            return 0;
        }
        let ghost root = isqrt(value as nat);
        let mut x: u128 = value;
        let mut y: u128 = match value.checked_add(1) {
            Some(sum) => sum / 2,
            None => 1,
        };
        proof {
            if root == 0 {
                assert((root + 1) * (root + 1) == 1) by (nonlinear_arith)
                    requires
                        root == 0,
                ;
            }
            if value < u128::MAX {
                assert(value as nat / 1 == value);
                lemma_heron_step_above(value as nat, 1, root);
                assert(value as nat / (value as nat) == 1) by (nonlinear_arith)
                    requires
                        value > 0,
                ;
            }
        }
        while y < x
            invariant
                value > 0,
                root == isqrt(value as nat),
                is_sqrt(value as nat, root),
                root >= 1,
                value == u128::MAX ==> y == 1 && (x == 1 || x == value),
                value < u128::MAX ==> x >= root && y >= root && x <= value && y == (value / x
                    + x) / 2 && (x == value || x <= (value + 1) / 2),
            decreases x,
        {
            proof {
                if value < u128::MAX {
                    lemma_step_fits(value as nat, x as nat);
                }
            }
            x = y;
            proof {
                if value < u128::MAX {
                    lemma_heron_step_above(value as nat, x as nat, root);
                    lemma_step_fits(value as nat, x as nat);
                }
            }
            y = match value.checked_div(x) {
                Some(quotient) => match quotient.checked_add(x) {
                    Some(sum) => sum / 2,
                    None => x,
                },
                None => x,
            };
        }
        proof {
            if value < u128::MAX {
                lemma_heron_step_stops(value as nat, x as nat);
                lemma_sqrt_candidate(value as nat, x as nat, root);
            }
        }
        x
    }
}

} // verus!
