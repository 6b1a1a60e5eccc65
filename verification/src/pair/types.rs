//! Errors, announcements and receipts of the pool.
use vstd::prelude::*;

use crate::pair::fees::FeeSplit;
use crate::types::{AccountId, Balance};

verus! {

/// Shares that the first deposit leaves with the zero account for good, so
/// that the price of a share stays defined.
pub const MINIMUM_LIQUIDITY: u128 = 100;

/// The scale of the cumulative prices: two to the power of 112.
pub const UQ112: u128 = 5192296858534827628530496329220096;

/// Of what a swap is paid, `FEE_NUMERATOR / FEE_DENOMINATOR` counts for the
/// trade, rounded down; the rest is the fee.
pub const FEE_DENOMINATOR: u128 = 1000;

/// The part of what a swap is paid that counts for the trade, in thousandths.
pub const FEE_NUMERATOR: u128 = 995;

/// Why the pool refused an operation.
#[derive(Debug, PartialEq, Eq, Clone, Copy, Structural)]
pub enum PairError {
    /// A swap asks for as much as a reserve holds, or more.
    InsufficientLiquidity,
    /// The first deposit is too small to leave anything beyond the locked shares.
    InsufficientInitialLiquidity,
    /// A later deposit is too small to earn a single share.
    InsufficientLiquidityMinted,
    /// The shares offered redeem nothing of one asset, exceed what the
    /// holder may redeem, or the pool has no shares at all.
    InsufficientLiquidityBurned,
    /// A swap asks for nothing.
    InsufficientOutputAmount,
    /// A swap was paid nothing.
    InsufficientInputAmount,
    /// The balances offered do not fit the state of the pool.
    InvalidTokenAmounts,
    /// The caller may not do this.
    Unauthorized,
    /// The swap would lower the product of the reserves, fee taken into account.
    KInvariantViolated,
    /// A number would not fit.
    Overflow,
    /// An operation is already under way.
    Locked,
}

/// Liquidity was added.
#[derive(Debug, PartialEq, Eq, Clone, Copy)]
pub struct Mint {
    pub sender: AccountId,
    pub amount_0: Balance,
    pub amount_1: Balance,
}

/// Liquidity was removed.
#[derive(Debug, PartialEq, Eq, Clone, Copy)]
pub struct Burn {
    pub sender: AccountId,
    pub to: AccountId,
    pub amount_0: Balance,
    pub amount_1: Balance,
}

/// One asset was traded for the other.
#[derive(Debug, PartialEq, Eq, Clone, Copy)]
pub struct Swap {
    pub sender: AccountId,
    pub to: AccountId,
    pub amount_0_in: Balance,
    pub amount_1_in: Balance,
    pub amount_0_out: Balance,
    pub amount_1_out: Balance,
}

/// The reserves changed to these.
#[derive(Debug, PartialEq, Eq, Clone, Copy)]
pub struct Sync {
    pub reserve_0: Balance,
    pub reserve_1: Balance,
}

/// What a deposit earned and what it announces.
#[derive(Debug, PartialEq, Eq, Clone, Copy)]
pub struct MintReceipt {
    /// Shares credited to the recipient.
    pub liquidity: Balance,
    pub sync: Sync,
    pub mint: Mint,
}

/// What a redemption releases and what it announces.
#[derive(Debug, PartialEq, Eq, Clone, Copy)]
pub struct BurnReceipt {
    pub amount_0: Balance,
    pub amount_1: Balance,
    pub sync: Sync,
    pub burn: Burn,
}

/// What a swap announces, and how its fee on each asset is shared out.
#[derive(Debug, PartialEq, Eq, Clone, Copy)]
pub struct SwapReceipt {
    pub sync: Sync,
    pub swap: Swap,
    pub fee_0: FeeSplit,
    pub fee_1: FeeSplit,
}

} // verus!
