//! How the fee of a swap is shared between liquidity providers, the protocol
//! treasury and the rewards pool.
use vstd::prelude::*;

use crate::types::Balance;

verus! {

/// The whole, in basis points.
pub const BASIS_POINTS: u128 = 10000;

/// The shares of a fee, in basis points of it.
#[derive(Debug, PartialEq, Eq, Clone, Copy, Structural)]
pub struct FeeConfig {
    pub lp_share_bp: u128,
    pub protocol_share_bp: u128,
    pub rewards_share_bp: u128,
}

/// The parts of a fee that leave the liquidity providers. What is left of the
/// fee, rounding included, stays in the reserves.
#[derive(Debug, PartialEq, Eq, Clone, Copy, Structural)]
pub struct FeeSplit {
    pub protocol: Balance,
    pub rewards: Balance,
}

/// `share_bp` basis points of `fee`, rounded down.
pub open spec fn portion(fee: u128, share_bp: u128) -> int {
    fee * share_bp / 10000
}

/// A portion of a fee never exceeds the fee.
pub proof fn lemma_portion_bounded(fee: u128, share_bp: u128)
    requires
        share_bp <= BASIS_POINTS,
    ensures
        0 <= portion(fee, share_bp) <= fee,
        portion(fee, share_bp) == (fee / 10000) * share_bp + (fee % 10000) * share_bp / 10000,
{
    let q = (fee / 10000) as int;
    let r = (fee % 10000) as int;
    let s = share_bp as int;
    assert(fee * s == (q * s) * 10000 + r * s) by (nonlinear_arith)
        requires
            fee == q * 10000 + r,
    ;
    assert(((q * s) * 10000 + r * s) / 10000 == q * s + (r * s) / 10000) by (nonlinear_arith)
        requires
            r * s >= 0,
    ;
    assert(0 <= r * s <= r * 10000) by (nonlinear_arith)
        requires
            0 <= r,
            0 <= s <= 10000,
    ;
    assert(0 <= q * s <= q * 10000) by (nonlinear_arith)
        requires
            0 <= q,
            0 <= s <= 10000,
    ;
}

impl FeeConfig {
    /// The three shares make up the whole.
    pub open spec fn valid(self) -> bool {
        self.lp_share_bp + self.protocol_share_bp + self.rewards_share_bp == BASIS_POINTS
    }

    /// What `fee` hands to the protocol and to the rewards pool.
    pub open spec fn spec_split(self, fee: Balance) -> FeeSplit {
        FeeSplit {
            protocol: portion(fee, self.protocol_share_bp) as u128,
            rewards: portion(fee, self.rewards_share_bp) as u128,
        }
    }

    /// Six tenths to the liquidity providers, two to the protocol, two to
    /// the rewards pool.
    pub open spec fn spec_standard() -> FeeConfig {
        FeeConfig { lp_share_bp: 6000, protocol_share_bp: 2000, rewards_share_bp: 2000 }
    }

    /// Six tenths to the liquidity providers, two to the protocol, two to
    /// the rewards pool.
    #[verifier::when_used_as_spec(spec_standard)]
    pub fn standard() -> (r: FeeConfig)
        ensures
            r.valid(),
            r == Self::spec_standard(),
    {
        FeeConfig { lp_share_bp: 6000, protocol_share_bp: 2000, rewards_share_bp: 2000 }
    }

    /// The configuration with these shares, where they make up the whole.
    pub fn new(lp_share_bp: u128, protocol_share_bp: u128, rewards_share_bp: u128) -> (r: Option<
        FeeConfig,
    >)
        ensures
            r == (if lp_share_bp + protocol_share_bp + rewards_share_bp == BASIS_POINTS {
                Some(FeeConfig { lp_share_bp, protocol_share_bp, rewards_share_bp })
            } else {
                None
            }),
    {
        if lp_share_bp <= BASIS_POINTS && protocol_share_bp <= BASIS_POINTS && rewards_share_bp
            <= BASIS_POINTS && lp_share_bp + protocol_share_bp + rewards_share_bp == BASIS_POINTS {
            Some(FeeConfig { lp_share_bp, protocol_share_bp, rewards_share_bp })
        } else {
            None
        }
    }

    /// Whether the three shares make up the whole.
    #[verifier::when_used_as_spec(spec_is_valid)]
    pub fn is_valid(&self) -> (r: bool)
        ensures
            r == self.valid(),
    {
        self.lp_share_bp <= BASIS_POINTS && self.protocol_share_bp <= BASIS_POINTS
            && self.rewards_share_bp <= BASIS_POINTS && self.lp_share_bp + self.protocol_share_bp
            + self.rewards_share_bp == BASIS_POINTS
    }

    /// Whether the three shares make up the whole.
    pub open spec fn spec_is_valid(&self) -> bool {
        self.valid()
    }

    /// Shares `fee` out: to the protocol and to the rewards pool their basis
    /// points of it, rounded down; the rest is not named and stays where it is.
    #[verifier::when_used_as_spec(spec_split)]
    pub fn split(self, fee: Balance) -> (r: FeeSplit)
        requires
            self.valid(),
        ensures
            r == self.spec_split(fee),
            r.protocol == portion(fee, self.protocol_share_bp),
            r.rewards == portion(fee, self.rewards_share_bp),
            r.protocol + r.rewards <= fee,
    {
        let protocol = share_of(fee, self.protocol_share_bp);
        let rewards = share_of(fee, self.rewards_share_bp);
        proof {
            lemma_split_fits(self, fee);
        }
        FeeSplit { protocol, rewards }
    }
}

/// The two portions that leave the liquidity providers fit into the fee
/// together.
pub proof fn lemma_split_fits(config: FeeConfig, fee: Balance)
    requires
        config.valid(),
    ensures
        portion(fee, config.protocol_share_bp) + portion(fee, config.rewards_share_bp) <= fee,
        0 <= portion(fee, config.protocol_share_bp),
        0 <= portion(fee, config.rewards_share_bp),
{
    let p = config.protocol_share_bp as int;
    let w = config.rewards_share_bp as int;
    let f = fee as int;
    lemma_portion_bounded(fee, config.protocol_share_bp);
    lemma_portion_bounded(fee, config.rewards_share_bp);
    assert(f * p / 10000 + f * w / 10000 <= (f * p + f * w) / 10000) by (nonlinear_arith)
        requires
            f * p >= 0,
            f * w >= 0,
    ;
    assert(f * p + f * w == f * (p + w)) by (nonlinear_arith);
    assert(f * (p + w) <= f * 10000) by (nonlinear_arith)
        requires
            0 <= f,
            0 <= p + w <= 10000,
    ;
    assert(f * p >= 0 && f * w >= 0) by (nonlinear_arith)
        requires
            f >= 0,
            p >= 0,
            w >= 0,
    ;
    assert((f * 10000) / 10000 == f) by (nonlinear_arith);
    assert((f * (p + w)) / 10000 <= (f * 10000) / 10000) by (nonlinear_arith)
        requires
            f * (p + w) <= f * 10000,
    ;
}

/// `share_bp` basis points of `fee`, rounded down, computed without leaving
/// the range of the amounts.
fn share_of(fee: Balance, share_bp: u128) -> (r: Balance)
    requires
        share_bp <= BASIS_POINTS,
    ensures
        r == portion(fee, share_bp),
{
    proof {
        lemma_portion_bounded(fee, share_bp);
    }
    let whole: u128 = fee / BASIS_POINTS;
    let rest: u128 = fee % BASIS_POINTS;
    assert(whole * share_bp <= fee) by (nonlinear_arith)
        requires
            whole == fee / 10000,
            share_bp <= 10000,
    ;
    assert(rest * share_bp <= 100000000) by (nonlinear_arith)
        requires
            rest < 10000,
            share_bp <= 10000,
    ;
    whole * share_bp + rest * share_bp / BASIS_POINTS
}

} // verus!
