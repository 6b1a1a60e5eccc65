//! Positions, tiers, errors and announcements of the trading rewards.
use vstd::prelude::*;

use crate::types::{AccountId, Balance, Timestamp};

verus! {

/// One whole unit of the native asset, which has eight decimals.
pub const DECIMALS_8: Balance = 100_000_000;

/// Monthly volume from which a trader is silver: ten thousand units.
pub const SILVER_THRESHOLD: Balance = 1_000_000_000_000;

/// Monthly volume from which a trader is gold: fifty thousand units.
pub const GOLD_THRESHOLD: Balance = 5_000_000_000_000;

/// Monthly volume from which a trader is platinum: two hundred thousand units.
pub const PLATINUM_THRESHOLD: Balance = 20_000_000_000_000;

/// The weight of a tier's volume, in hundredths.
pub const BRONZE_MULTIPLIER: u32 = 100;

/// The weight of silver volume, in hundredths.
pub const SILVER_MULTIPLIER: u32 = 120;

/// The weight of gold volume, in hundredths.
pub const GOLD_MULTIPLIER: u32 = 150;

/// The weight of platinum volume, in hundredths.
pub const PLATINUM_MULTIPLIER: u32 = 200;

/// Thirty days, in seconds: a longer pause between trades resets the
/// monthly volume.
pub const MONTHLY_RESET_PERIOD: Timestamp = 2_592_000;

/// The least volume of a trade that counts, unless set otherwise: a hundred
/// units.
pub const DEFAULT_MIN_TRADE_VOLUME: Balance = 10_000_000_000;

/// The pause between two trades of one trader, unless set otherwise.
pub const DEFAULT_TRADE_COOLDOWN: Timestamp = 60;

/// The most that one trader's trades of a day count for, unless set
/// otherwise: a million units.
pub const DEFAULT_MAX_DAILY_VOLUME: Balance = 100_000_000_000_000;

/// A day, in seconds.
pub const DAILY_RESET_PERIOD: Timestamp = 86_400;

/// The length of an epoch, unless set otherwise: a week.
pub const DEFAULT_EPOCH_DURATION: Timestamp = 604_800;

/// The shortest epoch that can be set: an hour.
pub const MIN_EPOCH_DURATION: Timestamp = 3600;

/// The flags of a trader whom nothing is held against.
pub const SUSPICIOUS_FLAG_NONE: u8 = 0;

/// Flags from this value on put their address on the blacklist.
pub const SUSPICIOUS_FLAG_BLACKLISTED: u8 = 128;

/// Of each fee allocation this many hundredths stay with the traders'
/// rewards; the rest goes to the stakers.
pub const TRADING_SHARE_PERCENT: u128 = 90;

/// The tier that a trader's monthly volume earns.
#[derive(Debug, PartialEq, Eq, Clone, Copy, Structural)]
pub enum TradingTier {
    Bronze,
    Silver,
    Gold,
    Platinum,
}

/// What is recorded of one trader.
#[derive(Debug, PartialEq, Eq, Clone, Copy, Structural)]
pub struct TradingPosition {
    pub total_volume: Balance,
    pub monthly_volume: Balance,
    pub daily_volume: Balance,
    pub last_trade_timestamp: Timestamp,
    pub last_daily_reset: Timestamp,
    pub tier: TradingTier,
    pub pending_rewards: Balance,
    pub claimed_rewards: Balance,
    pub trade_count: u32,
    pub suspicious_flags: u8,
}

/// Why the rewards refused a request.
#[derive(Debug, PartialEq, Eq, Clone, Copy, Structural)]
pub enum TradingRewardsError {
    AccessDenied,
    ContractPaused,
    ZeroAddress,
    NoRewardsToClaim,
    Overflow,
    InsufficientBalance,
    ReentrancyGuardActive,
    VolumeTooSmall,
    TradeCooldownActive,
    DailyLimitExceeded,
    SuspiciousAddress,
}

/// A trade was counted.
#[derive(Debug, PartialEq, Eq, Clone, Copy)]
pub struct VolumeTracked {
    pub trader: AccountId,
    pub volume: Balance,
    pub new_tier: TradingTier,
    pub timestamp: Timestamp,
}

/// The pool of rewards was shared out.
#[derive(Debug, PartialEq, Eq, Clone, Copy, Structural)]
pub struct RewardsDistributed {
    pub total_amount: Balance,
    pub traders_count: u32,
    pub timestamp: Timestamp,
}

/// A trader took its rewards; the host is to pay them out.
#[derive(Debug, PartialEq, Eq, Clone, Copy)]
pub struct RewardsClaimed {
    pub trader: AccountId,
    pub amount: Balance,
    pub timestamp: Timestamp,
}

/// A trader's tier changed.
#[derive(Debug, PartialEq, Eq, Clone, Copy)]
pub struct TierUpgraded {
    pub trader: AccountId,
    pub old_tier: TradingTier,
    pub new_tier: TradingTier,
}

/// A fee allocation arrived and was split between traders and stakers.
#[derive(Debug, PartialEq, Eq, Clone, Copy, Structural)]
pub struct RewardsPoolFunded {
    pub total_amount: Balance,
    pub trading_amount: Balance,
    pub staking_amount: Balance,
    pub timestamp: Timestamp,
}

/// The limits that keep wash trades out were set.
#[derive(Debug, PartialEq, Eq, Clone, Copy)]
pub struct AntifraudParametersUpdated {
    pub min_trade_volume: Balance,
    pub trade_cooldown: Timestamp,
    pub max_daily_volume: Balance,
    pub admin: AccountId,
    pub timestamp: Timestamp,
}

/// An epoch began.
#[derive(Debug, PartialEq, Eq, Clone, Copy, Structural)]
pub struct EpochStarted {
    pub epoch_id: u32,
    pub start_time: Timestamp,
    pub duration: Timestamp,
}

/// An epoch ended.
#[derive(Debug, PartialEq, Eq, Clone, Copy, Structural)]
pub struct EpochEnded {
    pub epoch_id: u32,
    pub total_rewards: Balance,
    pub active_traders: u32,
    pub end_time: Timestamp,
}

/// Another router reports the trades from now on.
#[derive(Debug, PartialEq, Eq, Clone, Copy)]
pub struct RouterChanged {
    pub old_router: AccountId,
    pub new_router: AccountId,
    pub admin: AccountId,
    pub timestamp: Timestamp,
}

/// Another account administers the rewards from now on.
#[derive(Debug, PartialEq, Eq, Clone, Copy)]
pub struct AdminTransferred {
    pub old_admin: AccountId,
    pub new_admin: AccountId,
    pub timestamp: Timestamp,
}

} // verus!
