//! The wrapped native token: native value that is deposited is matched, one
//! for one, by tokens that can be handed on and redeemed.
use vstd::prelude::*;

use crate::mapping::{
    lemma_total_bounds, lemma_total_empty, lemma_total_insert, total, Mapping,
};
use crate::types::{AccountId, Balance, Env};

verus! {

/// Native value was deposited and tokens were minted for it.
#[derive(Debug, PartialEq, Eq, Clone, Copy)]
pub struct Deposit {
    pub dst: AccountId,
    pub wad: Balance,
}

/// Tokens were burnt and their native value is to be paid out.
#[derive(Debug, PartialEq, Eq, Clone, Copy)]
pub struct Withdrawal {
    pub src: AccountId,
    pub wad: Balance,
}

/// Tokens moved; from nobody where they were minted, to nobody where they
/// were burnt.
#[derive(Debug, PartialEq, Eq, Clone, Copy)]
pub struct Transfer {
    pub from: Option<AccountId>,
    pub to: Option<AccountId>,
    pub value: Balance,
}

/// An owner allowed a spender to move this much.
#[derive(Debug, PartialEq, Eq, Clone, Copy)]
pub struct Approval {
    pub owner: AccountId,
    pub spender: AccountId,
    pub value: Balance,
}

/// Why the token refused a request.
#[derive(Debug, PartialEq, Eq, Clone, Copy, Structural)]
pub enum WnativeError {
    InsufficientBalance,
    InsufficientAllowance,
    /// The host could not pay native value out.
    TransferFailed,
    ZeroAmount,
    /// Sender and receiver, or owner and spender, are the same.
    SelfTransfer,
    Overflow,
}

/// The token.
#[derive(Clone, Debug)]
pub struct WnativeContract {
    total_supply: Balance,
    balances: Mapping<AccountId, Balance>,
    allowances: Mapping<(AccountId, AccountId), Balance>,
    name: Option<String>,
    symbol: Option<String>,
    decimals: u8,
}

/// The state of the token.
pub struct WnativeView {
    pub total_supply: u128,
    /// Tokens by holder; a holder without an entry holds none.
    pub balances: Map<AccountId, u128>,
    /// What each owner lets each spender move; no entry, no allowance.
    pub allowances: Map<(AccountId, AccountId), u128>,
    pub name: Option<Seq<char>>,
    pub symbol: Option<Seq<char>>,
    pub decimals: u8,
}

impl WnativeView {
    /// The tokens that `owner` holds.
    pub open spec fn balance_of(self, owner: AccountId) -> u128 {
        if self.balances.dom().contains(owner) {
            self.balances[owner]
        } else {
            0
        }
    }

    /// What `owner` lets `spender` move.
    pub open spec fn allowance(self, owner: AccountId, spender: AccountId) -> u128 {
        if self.allowances.dom().contains((owner, spender)) {
            self.allowances[(owner, spender)]
        } else {
            0
        }
    }

    /// The tokens of all holders make up the supply.
    pub open spec fn consistent(self) -> bool {
        self.balances.dom().finite() && total(self.balances) == self.total_supply
    }

    /// The state with `value` moved from one holder to another.
    pub open spec fn moved(self, from: AccountId, to: AccountId, value: u128) -> WnativeView {
        WnativeView {
            balances: self.balances.insert(from, (self.balance_of(from) - value) as u128).insert(
                to,
                (self.balance_of(to) + value) as u128,
            ),
            ..self
        }
    }

    /// A transfer: refused between a holder and itself and beyond what the
    /// sender holds; of nothing, it does nothing and announces nothing.
    pub open spec fn transfer(self, from: AccountId, to: AccountId, value: u128) -> Result<
        (WnativeView, Option<Transfer>),
        WnativeError,
    > {
        if from == to {
            Err(WnativeError::SelfTransfer)
        } else if value == 0 {
            Ok((self, None))
        } else if self.balance_of(from) < value {
            Err(WnativeError::InsufficientBalance)
        } else {
            Ok((self.moved(from, to, value), Some(Transfer { from: Some(from), to: Some(to), value })))
        }
    }

    /// A transfer by a spender on an owner's allowance, which it uses up.
    pub open spec fn transfer_from(
        self,
        spender: AccountId,
        from: AccountId,
        to: AccountId,
        value: u128,
    ) -> Result<(WnativeView, Option<Transfer>), WnativeError> {
        if self.allowance(from, spender) < value {
            Err(WnativeError::InsufficientAllowance)
        } else {
            let allowed = WnativeView {
                allowances: self.allowances.insert(
                    (from, spender),
                    (self.allowance(from, spender) - value) as u128,
                ),
                ..self
            };
            allowed.transfer(from, to, value)
        }
    }

    /// The state with `value` new tokens in the hands of `to`.
    pub open spec fn minted(self, to: AccountId, value: u128) -> WnativeView {
        WnativeView {
            total_supply: (self.total_supply + value) as u128,
            balances: self.balances.insert(to, (self.balance_of(to) + value) as u128),
            ..self
        }
    }

    /// The state with `value` tokens of `from` gone.
    pub open spec fn burnt(self, from: AccountId, value: u128) -> WnativeView {
        WnativeView {
            total_supply: (self.total_supply - value) as u128,
            balances: self.balances.insert(from, (self.balance_of(from) - value) as u128),
            ..self
        }
    }

    /// A deposit of `value` by `caller`.
    pub open spec fn deposit(self, caller: AccountId, value: u128) -> Result<
        (WnativeView, (Transfer, Deposit)),
        WnativeError,
    > {
        if value == 0 {
            Err(WnativeError::ZeroAmount)
        } else if self.total_supply + value > u128::MAX {
            Err(WnativeError::Overflow)
        } else {
            Ok(
                (
                    self.minted(caller, value),
                    (
                        Transfer { from: None, to: Some(caller), value },
                        Deposit { dst: caller, wad: value },
                    ),
                ),
            )
        }
    }

    /// A withdrawal of `amount` by `caller`.
    pub open spec fn withdraw(self, caller: AccountId, amount: u128) -> Result<
        (WnativeView, (Transfer, Withdrawal)),
        WnativeError,
    > {
        if amount == 0 {
            Err(WnativeError::ZeroAmount)
        } else if self.balance_of(caller) < amount {
            Err(WnativeError::InsufficientBalance)
        } else {
            Ok(
                (
                    self.burnt(caller, amount),
                    (
                        Transfer { from: Some(caller), to: None, value: amount },
                        Withdrawal { src: caller, wad: amount },
                    ),
                ),
            )
        }
    }
}

/// No holder has more tokens than there are, nor have two holders together.
pub proof fn lemma_holdings_bounded(s: WnativeView, a: AccountId, b: AccountId)
    requires
        s.consistent(),
    ensures
        s.balance_of(a) <= s.total_supply,
        a != b ==> s.balance_of(a) + s.balance_of(b) <= s.total_supply,
{
    if s.balances.dom().contains(a) {
        lemma_total_bounds(s.balances, a, b);
    } else if s.balances.dom().contains(b) {
        lemma_total_bounds(s.balances, b, a);
    }
}

/// A transfer that succeeds leaves the supply as it was and the tokens of
/// all holders making it up.
pub proof fn lemma_transfer_consistent(s: WnativeView, from: AccountId, to: AccountId, value: u128)
    requires
        s.consistent(),
        s.transfer(from, to, value) is Ok,
    ensures
        s.transfer(from, to, value)->Ok_0.0.consistent(),
        s.transfer(from, to, value)->Ok_0.0.total_supply == s.total_supply,
        s.balance_of(to) + value <= u128::MAX,
{
    lemma_holdings_bounded(s, from, to);
    if value != 0 {
        let debited = s.balances.insert(from, (s.balance_of(from) - value) as u128);
        lemma_total_insert(s.balances, from, (s.balance_of(from) - value) as u128);
        lemma_total_insert(debited, to, (s.balance_of(to) + value) as u128);
    }
}

/// Deposits and withdrawals that succeed keep the tokens of all holders
/// making up the supply.
pub proof fn lemma_supply_consistent(s: WnativeView, holder: AccountId, value: u128)
    requires
        s.consistent(),
    ensures
        s.total_supply + value <= u128::MAX ==> s.minted(holder, value).consistent(),
        s.balance_of(holder) >= value ==> s.burnt(holder, value).consistent(),
{
    lemma_holdings_bounded(s, holder, holder);
    if s.total_supply + value <= u128::MAX {
        lemma_total_insert(s.balances, holder, (s.balance_of(holder) + value) as u128);
    }
    if s.balance_of(holder) >= value {
        lemma_total_insert(s.balances, holder, (s.balance_of(holder) - value) as u128);
    }
}

impl View for WnativeContract {
    type V = WnativeView;

    closed spec fn view(&self) -> WnativeView {
        WnativeView {
            total_supply: self.total_supply,
            balances: self.balances@,
            allowances: self.allowances@,
            name: match self.name {
                Some(name) => Some(name@),
                None => None,
            },
            symbol: match self.symbol {
                Some(symbol) => Some(symbol@),
                None => None,
            },
            decimals: self.decimals,
        }
    }
}

/// The text of an optional string.
pub open spec fn text_of(s: Option<String>) -> Option<Seq<char>> {
    match s {
        Some(s) => Some(s@),
        None => None,
    }
}

impl WnativeContract {
    /// The two tables are in order.
    pub closed spec fn tables_wf(&self) -> bool {
        self.balances.wf() && self.allowances.wf()
    }

    /// The token is in order.
    pub open spec fn wf(&self) -> bool {
        self.tables_wf() && self@.consistent()
    }

    /// A token of which there is none yet.
    pub fn new(name: Option<String>, symbol: Option<String>, decimals: u8) -> (r: Self)
        ensures
            r.wf(),
            r@ == (WnativeView {
                total_supply: 0,
                balances: Map::empty(),
                allowances: Map::empty(),
                name: text_of(name),
                symbol: text_of(symbol),
                decimals,
            }),
    {
        let r = WnativeContract {
            total_supply: 0,
            balances: Mapping::new(),
            allowances: Mapping::new(),
            name,
            symbol,
            decimals,
        };
        proof {
            lemma_total_empty::<AccountId>();
            r.balances.lemma_finite();
        }
        r
    }

    /// All tokens there are.
    pub fn total_supply(&self) -> (r: Balance)
        ensures
            r == self@.total_supply,
    {
        self.total_supply
    }

    /// The tokens that `owner` holds.
    pub fn balance_of(&self, owner: AccountId) -> (r: Balance)
        requires
            self.tables_wf(),
        ensures
            r == self@.balance_of(owner),
    {
        match self.balances.get(&owner) {
            Some(amount) => *amount,
            None => 0,
        }
    }

    /// What `owner` lets `spender` move.
    pub fn allowance(&self, owner: AccountId, spender: AccountId) -> (r: Balance)
        requires
            self.tables_wf(),
        ensures
            r == self@.allowance(owner, spender),
    {
        match self.allowances.get(&(owner, spender)) {
            Some(amount) => *amount,
            None => 0,
        }
    }

    /// The name of the token, if it has one.
    pub fn token_name(&self) -> (r: Option<String>)
        ensures
            text_of(r) == self@.name,
    {
        match &self.name {
            Some(name) => Some(name.clone()),
            None => None,
        }
    }

    /// The symbol of the token, if it has one.
    pub fn token_symbol(&self) -> (r: Option<String>)
        ensures
            text_of(r) == self@.symbol,
    {
        match &self.symbol {
            Some(symbol) => Some(symbol.clone()),
            None => None,
        }
    }

    /// How many decimals an amount of the token is written with.
    pub fn token_decimals(&self) -> (r: u8)
        ensures
            r == self@.decimals,
    {
        self.decimals
    }

    /// Moves `value` of the caller's tokens to `to`.
    pub fn transfer(&mut self, env: &Env, to: AccountId, value: Balance) -> (r: Result<
        Option<Transfer>,
        WnativeError,
    >)
        requires
            old(self).wf(),
        ensures
            final(self).wf(),
            match old(self)@.transfer(env.caller, to, value) {
                Ok((state, event)) => r == Ok::<Option<Transfer>, WnativeError>(event) && final(self)@ == state,
                Err(e) => r == Err::<Option<Transfer>, WnativeError>(e) && *final(self) == *old(self),
            },
    {
        let from = env.caller;
        self._transfer(from, to, value)
    }

    /// Moves `value` of the tokens of `from` to `to`, on the allowance that
    /// `from` gave the caller, which shrinks by as much.
    pub fn transfer_from(&mut self, env: &Env, from: AccountId, to: AccountId, value: Balance) -> (r:
        Result<Option<Transfer>, WnativeError>)
        requires
            old(self).wf(),
        ensures
            final(self).wf(),
            match old(self)@.transfer_from(env.caller, from, to, value) {
                Ok((state, event)) => r == Ok::<Option<Transfer>, WnativeError>(event) && final(self)@ == state,
                Err(e) => r == Err::<Option<Transfer>, WnativeError>(e) && *final(self) == *old(self),
            },
    {
        let spender = env.caller;
        let current_allowance = self.allowance(from, spender);
        if current_allowance < value {
            return Err(WnativeError::InsufficientAllowance);
        }
        if from == to {
            return Err(WnativeError::SelfTransfer);
        }
        if value != 0 && self.balance_of(from) < value {
            return Err(WnativeError::InsufficientBalance);
        }
        self.allowances.insert((from, spender), current_allowance - value);
        self._transfer(from, to, value)
    }

    /// Lets `spender` move up to `value` of the caller's tokens.
    pub fn approve(&mut self, env: &Env, spender: AccountId, value: Balance) -> (r: Result<
        Approval,
        WnativeError,
    >)
        requires
            old(self).wf(),
        ensures
            final(self).wf(),
            env.caller == spender ==> r == Err::<Approval, WnativeError>(
                WnativeError::SelfTransfer,
            ) && *final(self) == *old(self),
            env.caller != spender ==> r == Ok::<Approval, WnativeError>(
                Approval { owner: env.caller, spender, value },
            ) && final(self)@ == (WnativeView {
                allowances: old(self)@.allowances.insert((env.caller, spender), value),
                ..old(self)@
            }),
    {
        let owner = env.caller;
        if owner == spender {
            return Err(WnativeError::SelfTransfer);
        }
        self.allowances.insert((owner, spender), value);
        Ok(Approval { owner, spender, value })
    }

    /// Mints tokens for the native value that came with the call, to the
    /// caller.
    pub fn deposit(&mut self, env: &Env) -> (r: Result<(Transfer, Deposit), WnativeError>)
        requires
            old(self).wf(),
        ensures
            final(self).wf(),
            match old(self)@.deposit(env.caller, env.transferred_value) {
                Ok((state, events)) => r == Ok::<(Transfer, Deposit), WnativeError>(events)
                    && final(self)@ == state,
                Err(e) => r == Err::<(Transfer, Deposit), WnativeError>(e) && *final(self) == *old(self),
            },
    {
        let caller = env.caller;
        let amount = env.transferred_value;
        if amount == 0 {
            return Err(WnativeError::ZeroAmount);
        }
        match self._mint(caller, amount) {
            Err(e) => Err(e),
            Ok(_) => Ok(
                (
                    Transfer { from: None, to: Some(caller), value: amount },
                    Deposit { dst: caller, wad: amount },
                ),
            ),
        }
    }

    /// Burns `amount` of the caller's tokens; the host is to pay the caller
    /// as much native value.
    pub fn withdraw(&mut self, env: &Env, amount: Balance) -> (r: Result<
        (Transfer, Withdrawal),
        WnativeError,
    >)
        requires
            old(self).wf(),
        ensures
            final(self).wf(),
            match old(self)@.withdraw(env.caller, amount) {
                Ok((state, events)) => r == Ok::<(Transfer, Withdrawal), WnativeError>(events)
                    && final(self)@ == state,
                Err(e) => r == Err::<(Transfer, Withdrawal), WnativeError>(e) && *final(self)
                    == *old(self),
            },
    {
        let caller = env.caller;
        if amount == 0 {
            return Err(WnativeError::ZeroAmount);
        }
        if self.balance_of(caller) < amount {
            return Err(WnativeError::InsufficientBalance);
        }
        proof {
            lemma_holdings_bounded(self@, caller, caller);
        }
        match self._burn(caller, amount) {
            Err(e) => Err(e),
            Ok(_) => Ok(
                (
                    Transfer { from: Some(caller), to: None, value: amount },
                    Withdrawal { src: caller, wad: amount },
                ),
            ),
        }
    }

    /// The native value that the token's contract holds.
    pub fn native_balance(&self, env: &Env) -> (r: Balance)
        ensures
            r == env.balance,
    {
        env.balance
    }

    /// Whether every token is matched by native value that the contract
    /// holds.
    pub fn is_healthy(&self, env: &Env) -> (r: bool)
        ensures
            r == (env.balance >= self@.total_supply),
    {
        env.balance >= self.total_supply
    }

    fn _transfer(&mut self, from: AccountId, to: AccountId, value: Balance) -> (r: Result<
        Option<Transfer>,
        WnativeError,
    >)
        requires
            old(self).wf(),
        ensures
            final(self).wf(),
            match old(self)@.transfer(from, to, value) {
                Ok((state, event)) => r == Ok::<Option<Transfer>, WnativeError>(event) && final(self)@ == state,
                Err(e) => r == Err::<Option<Transfer>, WnativeError>(e) && *final(self) == *old(self),
            },
    {
        if from == to {
            return Err(WnativeError::SelfTransfer);
        }
        if value == 0 {
            return Ok(None);
        }
        let from_balance = self.balance_of(from);
        if from_balance < value {
            return Err(WnativeError::InsufficientBalance);
        }
        let ghost before = self@;
        proof {
            lemma_transfer_consistent(before, from, to, value);
        }
        self.balances.insert(from, from_balance - value);
        let to_balance = self.balance_of(to);
        self.balances.insert(to, to_balance + value);
        proof {
            assert(self@.balances =~= before.moved(from, to, value).balances);
        }
        Ok(Some(Transfer { from: Some(from), to: Some(to), value }))
    }

    fn _mint(&mut self, to: AccountId, value: Balance) -> (r: Result<Option<Transfer>, WnativeError>)
        requires
            old(self).wf(),
        ensures
            final(self).wf(),
            value == 0 ==> r == Ok::<Option<Transfer>, WnativeError>(None) && *final(self) == *old(self),
            value != 0 && old(self)@.total_supply + value > u128::MAX ==> r == Err::<
                Option<Transfer>,
                WnativeError,
            >(WnativeError::Overflow) && *final(self) == *old(self),
            value != 0 && old(self)@.total_supply + value <= u128::MAX ==> r == Ok::<
                Option<Transfer>,
                WnativeError,
            >(Some(Transfer { from: None, to: Some(to), value })) && final(self)@ == old(self)@.minted(to, value),
    {
        if value == 0 {
            return Ok(None);
        }
        let supply = match self.total_supply.checked_add(value) {
            Some(supply) => supply,
            None => {
                return Err(WnativeError::Overflow);
            },
        };
        proof {
            lemma_holdings_bounded(self@, to, to);
            lemma_supply_consistent(self@, to, value);
        }
        let to_balance = self.balance_of(to);
        self.total_supply = supply;
        self.balances.insert(to, to_balance + value);
        Ok(Some(Transfer { from: None, to: Some(to), value }))
    }

    fn _burn(&mut self, from: AccountId, value: Balance) -> (r: Result<
        Option<Transfer>,
        WnativeError,
    >)
        requires
            old(self).wf(),
        ensures
            final(self).wf(),
            value == 0 ==> r == Ok::<Option<Transfer>, WnativeError>(None) && *final(self) == *old(self),
            value != 0 && old(self)@.balance_of(from) < value ==> r == Err::<
                Option<Transfer>,
                WnativeError,
            >(WnativeError::InsufficientBalance) && *final(self) == *old(self),
            value != 0 && old(self)@.balance_of(from) >= value ==> r == Ok::<
                Option<Transfer>,
                WnativeError,
            >(Some(Transfer { from: Some(from), to: None, value })) && final(self)@ == old(self)@.burnt(from, value),
    {
        if value == 0 {
            return Ok(None);
        }
        let from_balance = self.balance_of(from);
        if self.total_supply < value || from_balance < value {
            proof {
                lemma_holdings_bounded(self@, from, from);
            }
            return Err(WnativeError::InsufficientBalance);
        }
        proof {
            lemma_supply_consistent(self@, from, value);
        }
        self.total_supply = self.total_supply - value;
        self.balances.insert(from, from_balance - value);
        Ok(Some(Transfer { from: Some(from), to: None, value }))
    }
}

} // verus!
