//! The trading rewards as a mathematical state, and each operation as a
//! function from one state to the next.
use vstd::prelude::*;

use crate::rewards::types::{
    AdminTransferred, AntifraudParametersUpdated, EpochEnded, EpochStarted, RewardsClaimed,
    RewardsDistributed, RewardsPoolFunded, RouterChanged, TierUpgraded, TradingPosition,
    TradingRewardsError, TradingTier, VolumeTracked, BRONZE_MULTIPLIER, DAILY_RESET_PERIOD,
    DEFAULT_EPOCH_DURATION, DEFAULT_MAX_DAILY_VOLUME, DEFAULT_MIN_TRADE_VOLUME,
    DEFAULT_TRADE_COOLDOWN, GOLD_MULTIPLIER, GOLD_THRESHOLD, MONTHLY_RESET_PERIOD,
    PLATINUM_MULTIPLIER, PLATINUM_THRESHOLD, SILVER_MULTIPLIER, SILVER_THRESHOLD,
    SUSPICIOUS_FLAG_BLACKLISTED, SUSPICIOUS_FLAG_NONE, TRADING_SHARE_PERCENT,
};
use crate::types::{AccountId, Balance, Env, Timestamp};

verus! {

/// The state of the trading rewards.
pub struct RewardsView {
    pub admin: AccountId,
    pub authorized_router: AccountId,
    pub rewards_pool: Balance,
    pub trading_positions: Map<AccountId, TradingPosition>,
    pub active_traders: Map<AccountId, bool>,
    pub active_trader_count: u32,
    pub last_distribution: Timestamp,
    pub total_distributed: Balance,
    pub paused: bool,
    /// An operation is under way.
    pub reentrancy_guard: bool,
    pub blacklisted_addresses: Map<AccountId, bool>,
    pub total_suspicious_flags: u32,
    pub staking_contract: Option<AccountId>,
    pub cached_total_weight: Balance,
    pub weight_cache_timestamp: Timestamp,
    pub min_trade_volume: Balance,
    pub trade_cooldown: Timestamp,
    pub max_daily_volume: Balance,
    pub current_epoch: u32,
    pub epoch_start_time: Timestamp,
    pub epoch_duration: Timestamp,
    pub epoch_rewards: Map<u32, Balance>,
    pub epoch_trader_rewards: Map<(u32, AccountId), Balance>,
    pub epoch_active_traders: Map<u32, u32>,
}

/// The tier that a monthly volume earns.
pub open spec fn tier_for(monthly_volume: Balance) -> TradingTier {
    if monthly_volume >= PLATINUM_THRESHOLD {
        TradingTier::Platinum
    } else if monthly_volume >= GOLD_THRESHOLD {
        TradingTier::Gold
    } else if monthly_volume >= SILVER_THRESHOLD {
        TradingTier::Silver
    } else {
        TradingTier::Bronze
    }
}

/// The weight of a tier's volume, in hundredths.
pub open spec fn multiplier_of(tier: TradingTier) -> u32 {
    match tier {
        TradingTier::Bronze => BRONZE_MULTIPLIER,
        TradingTier::Silver => SILVER_MULTIPLIER,
        TradingTier::Gold => GOLD_MULTIPLIER,
        TradingTier::Platinum => PLATINUM_MULTIPLIER,
    }
}

/// The weight of a monthly volume at a tier; nothing where the volume times
/// the multiplier does not fit.
pub open spec fn tier_weight(tier: TradingTier, monthly_volume: Balance) -> Balance {
    if monthly_volume * multiplier_of(tier) > u128::MAX {
        0
    } else {
        (monthly_volume * multiplier_of(tier) / 100) as u128
    }
}

/// The total weight after one trader's weight changed from `old_weight` to
/// `new_weight`: the old weight comes off, as far as there is that much, and
/// the new one is added. `None` where the sum does not fit.
pub open spec fn reweighted(cached: Balance, old_weight: Balance, new_weight: Balance) -> Option<
    Balance,
> {
    let base = if cached >= old_weight {
        cached - old_weight
    } else {
        0
    };
    if base + new_weight > u128::MAX {
        None
    } else {
        Some((base + new_weight) as u128)
    }
}

/// The record of a trader who has not traded before `now`.
pub open spec fn fresh_position(now: Timestamp) -> TradingPosition {
    TradingPosition {
        total_volume: 0,
        monthly_volume: 0,
        daily_volume: 0,
        last_trade_timestamp: 0,
        last_daily_reset: now,
        tier: TradingTier::Bronze,
        pending_rewards: 0,
        claimed_rewards: 0,
        trade_count: 0,
        suspicious_flags: SUSPICIOUS_FLAG_NONE,
    }
}

/// The trader traded before, and less than `cooldown` seconds ago.
pub open spec fn cooling_down(position: TradingPosition, now: Timestamp, cooldown: Timestamp)
    -> bool {
    position.last_trade_timestamp > 0 && now > position.last_trade_timestamp && now
        - position.last_trade_timestamp < cooldown
}

/// More than a day has passed since the trader's daily volume began to count.
pub open spec fn day_over(position: TradingPosition, now: Timestamp) -> bool {
    now > position.last_daily_reset && now - position.last_daily_reset > DAILY_RESET_PERIOD
}

/// The trader traded before, and more than thirty days ago.
pub open spec fn month_over(position: TradingPosition, now: Timestamp) -> bool {
    position.last_trade_timestamp > 0 && now > position.last_trade_timestamp && now
        - position.last_trade_timestamp > MONTHLY_RESET_PERIOD
}

/// The record of a trader after a trade of `volume` at `now`: refused during
/// the cooldown and beyond the daily limit; the daily volume starts anew
/// after a day, the monthly volume after thirty days without a trade.
pub open spec fn traded(
    position: TradingPosition,
    volume: Balance,
    now: Timestamp,
    cooldown: Timestamp,
    max_daily_volume: Balance,
) -> Result<TradingPosition, TradingRewardsError> {
    let daily_base = if day_over(position, now) {
        0
    } else {
        position.daily_volume
    };
    let monthly_base = if month_over(position, now) {
        0
    } else {
        position.monthly_volume
    };
    if cooling_down(position, now, cooldown) {
        Err(TradingRewardsError::TradeCooldownActive)
    } else if daily_base + volume > u128::MAX {
        Err(TradingRewardsError::Overflow)
    } else if daily_base + volume > max_daily_volume {
        Err(TradingRewardsError::DailyLimitExceeded)
    } else if position.total_volume + volume > u128::MAX || monthly_base + volume > u128::MAX
        || position.trade_count + 1 > u32::MAX {
        Err(TradingRewardsError::Overflow)
    } else {
        Ok(
            TradingPosition {
                total_volume: (position.total_volume + volume) as u128,
                monthly_volume: (monthly_base + volume) as u128,
                daily_volume: (daily_base + volume) as u128,
                last_trade_timestamp: now,
                last_daily_reset: if day_over(position, now) {
                    now
                } else {
                    position.last_daily_reset
                },
                tier: tier_for((monthly_base + volume) as u128),
                trade_count: (position.trade_count + 1) as u32,
                ..position
            },
        )
    }
}

/// The split of a fee allocation: ninety hundredths for the traders, rounded
/// down, and the rest for the stakers. `None` where ninety times the amount
/// does not fit.
pub open spec fn allocation_split(amount: Balance) -> Option<(Balance, Balance)> {
    if amount * TRADING_SHARE_PERCENT > u128::MAX {
        None
    } else {
        let trading = (amount * TRADING_SHARE_PERCENT / 100) as u128;
        Some((trading, (amount - trading) as u128))
    }
}

impl RewardsView {
    /// The state as it is made by `admin` at `now`, with `router` to report
    /// the trades.
    pub open spec fn initial(admin: AccountId, router: AccountId, now: Timestamp) -> RewardsView {
        RewardsView {
            admin,
            authorized_router: router,
            rewards_pool: 0,
            trading_positions: Map::empty(),
            active_traders: Map::empty(),
            active_trader_count: 0,
            last_distribution: now,
            total_distributed: 0,
            paused: false,
            reentrancy_guard: false,
            blacklisted_addresses: Map::empty(),
            total_suspicious_flags: 0,
            staking_contract: None,
            cached_total_weight: 0,
            weight_cache_timestamp: now,
            min_trade_volume: DEFAULT_MIN_TRADE_VOLUME,
            trade_cooldown: DEFAULT_TRADE_COOLDOWN,
            max_daily_volume: DEFAULT_MAX_DAILY_VOLUME,
            current_epoch: 0,
            epoch_start_time: now,
            epoch_duration: DEFAULT_EPOCH_DURATION,
            epoch_rewards: Map::empty(),
            epoch_trader_rewards: Map::empty(),
            epoch_active_traders: Map::empty(),
        }
    }

    /// What is recorded of `trader`, if anything.
    pub open spec fn position_of(self, trader: AccountId) -> Option<TradingPosition> {
        if self.trading_positions.dom().contains(trader) {
            Some(self.trading_positions[trader])
        } else {
            None
        }
    }

    /// Whether `trader` has been counted among the traders.
    pub open spec fn is_active(self, trader: AccountId) -> bool {
        self.active_traders.dom().contains(trader) && self.active_traders[trader]
    }

    /// Whether `address` is on the blacklist.
    pub open spec fn is_blacklisted(self, address: AccountId) -> bool {
        self.blacklisted_addresses.dom().contains(address) && self.blacklisted_addresses[address]
    }

    /// The rewards of an epoch; nothing where none are recorded.
    pub open spec fn rewards_of_epoch(self, epoch_id: u32) -> Balance {
        if self.epoch_rewards.dom().contains(epoch_id) {
            self.epoch_rewards[epoch_id]
        } else {
            0
        }
    }

    /// The traders of an epoch; none where none are recorded.
    pub open spec fn traders_of_epoch(self, epoch_id: u32) -> u32 {
        if self.epoch_active_traders.dom().contains(epoch_id) {
            self.epoch_active_traders[epoch_id]
        } else {
            0
        }
    }

    /// The rewards of `trader` for an epoch; nothing where none are recorded.
    pub open spec fn epoch_reward_of(self, epoch_id: u32, trader: AccountId) -> Balance {
        if self.epoch_trader_rewards.dom().contains((epoch_id, trader)) {
            self.epoch_trader_rewards[(epoch_id, trader)]
        } else {
            0
        }
    }

    /// The announcement of the limits as they stand.
    pub open spec fn antifraud_event(self, now: Timestamp) -> AntifraudParametersUpdated {
        AntifraudParametersUpdated {
            min_trade_volume: self.min_trade_volume,
            trade_cooldown: self.trade_cooldown,
            max_daily_volume: self.max_daily_volume,
            admin: self.admin,
            timestamp: now,
        }
    }

    /// The router reports a trade of `volume` by `trader`.
    pub open spec fn track_trading_volume(self, env: Env, trader: AccountId, volume: Balance)
        -> Result<(RewardsView, (VolumeTracked, Option<TierUpgraded>)), TradingRewardsError> {
        let now = env.block_timestamp;
        let existing = self.position_of(trader);
        let newly_active = existing is None && !self.is_active(trader);
        let base = match existing {
            Some(position) => position,
            None => fresh_position(now),
        };
        if self.paused {
            Err(TradingRewardsError::ContractPaused)
        } else if env.caller != self.authorized_router {
            Err(TradingRewardsError::AccessDenied)
        } else if self.reentrancy_guard {
            Err(TradingRewardsError::ReentrancyGuardActive)
        } else if trader.spec_is_zero() {
            Err(TradingRewardsError::ZeroAddress)
        } else if volume < self.min_trade_volume {
            Err(TradingRewardsError::VolumeTooSmall)
        } else if self.is_blacklisted(trader) {
            Err(TradingRewardsError::SuspiciousAddress)
        } else if newly_active && self.active_trader_count + 1 > u32::MAX {
            Err(TradingRewardsError::Overflow)
        } else {
            match traded(base, volume, now, self.trade_cooldown, self.max_daily_volume) {
                Err(e) => Err(e),
                Ok(position) => {
                    let changed = base.tier != position.tier;
                    let weight = if changed {
                        reweighted(
                            self.cached_total_weight,
                            tier_weight(base.tier, position.monthly_volume),
                            tier_weight(position.tier, position.monthly_volume),
                        )
                    } else {
                        None
                    };
                    Ok(
                        (
                            RewardsView {
                                trading_positions: self.trading_positions.insert(trader, position),
                                active_traders: if newly_active {
                                    self.active_traders.insert(trader, true)
                                } else {
                                    self.active_traders
                                },
                                active_trader_count: if newly_active {
                                    (self.active_trader_count + 1) as u32
                                } else {
                                    self.active_trader_count
                                },
                                cached_total_weight: match weight {
                                    Some(w) => w,
                                    None => self.cached_total_weight,
                                },
                                weight_cache_timestamp: if weight is Some {
                                    now
                                } else {
                                    self.weight_cache_timestamp
                                },
                                ..self
                            },
                            (
                                VolumeTracked {
                                    trader,
                                    volume,
                                    new_tier: position.tier,
                                    timestamp: now,
                                },
                                if changed {
                                    Some(
                                        TierUpgraded {
                                            trader,
                                            old_tier: base.tier,
                                            new_tier: position.tier,
                                        },
                                    )
                                } else {
                                    None
                                },
                            ),
                        ),
                    )
                },
            }
        }
    }

    /// The admin adds the value that came with the call to the pool.
    pub open spec fn fund_rewards_pool(self, env: Env) -> Result<RewardsView, TradingRewardsError> {
        if env.caller != self.admin {
            Err(TradingRewardsError::AccessDenied)
        } else if self.paused {
            Err(TradingRewardsError::ContractPaused)
        } else if self.rewards_pool + env.transferred_value > u128::MAX {
            Err(TradingRewardsError::Overflow)
        } else {
            Ok(
                RewardsView {
                    rewards_pool: (self.rewards_pool + env.transferred_value) as u128,
                    ..self
                },
            )
        }
    }

    /// The admin shares the pool out: it is emptied into the total that was
    /// distributed. Nothing happens while no weight is recorded.
    pub open spec fn distribute_rewards(self, env: Env) -> Result<
        (RewardsView, Option<RewardsDistributed>),
        TradingRewardsError,
    > {
        if env.caller != self.admin {
            Err(TradingRewardsError::AccessDenied)
        } else if self.paused {
            Err(TradingRewardsError::ContractPaused)
        } else if self.reentrancy_guard {
            Err(TradingRewardsError::ReentrancyGuardActive)
        } else if self.rewards_pool == 0 {
            Err(TradingRewardsError::InsufficientBalance)
        } else if self.cached_total_weight == 0 {
            Ok((self, None))
        } else if self.total_distributed + self.rewards_pool > u128::MAX {
            Err(TradingRewardsError::Overflow)
        } else {
            Ok(
                (
                    RewardsView {
                        rewards_pool: 0,
                        total_distributed: (self.total_distributed + self.rewards_pool) as u128,
                        last_distribution: env.block_timestamp,
                        ..self
                    },
                    Some(
                        RewardsDistributed {
                            total_amount: self.rewards_pool,
                            traders_count: self.active_trader_count,
                            timestamp: env.block_timestamp,
                        },
                    ),
                ),
            )
        }
    }

    /// The caller takes its pending rewards.
    pub open spec fn claim_rewards(self, env: Env) -> Result<
        (RewardsView, (Balance, RewardsClaimed)),
        TradingRewardsError,
    > {
        if self.paused {
            Err(TradingRewardsError::ContractPaused)
        } else if self.reentrancy_guard {
            Err(TradingRewardsError::ReentrancyGuardActive)
        } else {
            match self.position_of(env.caller) {
                None => Err(TradingRewardsError::NoRewardsToClaim),
                Some(position) => if position.pending_rewards == 0 {
                    Err(TradingRewardsError::NoRewardsToClaim)
                } else if position.claimed_rewards + position.pending_rewards > u128::MAX {
                    Err(TradingRewardsError::Overflow)
                } else {
                    Ok(
                        (
                            RewardsView {
                                trading_positions: self.trading_positions.insert(
                                    env.caller,
                                    TradingPosition {
                                        pending_rewards: 0,
                                        claimed_rewards: (position.claimed_rewards
                                            + position.pending_rewards) as u128,
                                        ..position
                                    },
                                ),
                                ..self
                            },
                            (
                                position.pending_rewards,
                                RewardsClaimed {
                                    trader: env.caller,
                                    amount: position.pending_rewards,
                                    timestamp: env.block_timestamp,
                                },
                            ),
                        ),
                    )
                },
            }
        }
    }

    /// The admin names another router.
    pub open spec fn set_authorized_router(self, env: Env, router: AccountId) -> Result<
        (RewardsView, RouterChanged),
        TradingRewardsError,
    > {
        if env.caller != self.admin {
            Err(TradingRewardsError::AccessDenied)
        } else if router.spec_is_zero() {
            Err(TradingRewardsError::ZeroAddress)
        } else {
            Ok(
                (
                    RewardsView { authorized_router: router, ..self },
                    RouterChanged {
                        old_router: self.authorized_router,
                        new_router: router,
                        admin: self.admin,
                        timestamp: env.block_timestamp,
                    },
                ),
            )
        }
    }

    /// The admin hands the administration to another.
    pub open spec fn transfer_admin(self, env: Env, new_admin: AccountId) -> Result<
        (RewardsView, AdminTransferred),
        TradingRewardsError,
    > {
        if env.caller != self.admin {
            Err(TradingRewardsError::AccessDenied)
        } else if new_admin.spec_is_zero() {
            Err(TradingRewardsError::ZeroAddress)
        } else {
            Ok(
                (
                    RewardsView { admin: new_admin, ..self },
                    AdminTransferred {
                        old_admin: self.admin,
                        new_admin,
                        timestamp: env.block_timestamp,
                    },
                ),
            )
        }
    }

    /// The admin sets the three limits.
    pub open spec fn update_antifraud_parameters(
        self,
        env: Env,
        min_volume: Balance,
        cooldown: Timestamp,
        max_daily: Balance,
    ) -> Result<(RewardsView, AntifraudParametersUpdated), TradingRewardsError> {
        if env.caller != self.admin {
            Err(TradingRewardsError::AccessDenied)
        } else {
            let state = RewardsView {
                min_trade_volume: min_volume,
                trade_cooldown: cooldown,
                max_daily_volume: max_daily,
                ..self
            };
            Ok((state, state.antifraud_event(env.block_timestamp)))
        }
    }

    /// The announcement that the current epoch has ended, if one is running.
    pub open spec fn epoch_end(self, now: Timestamp) -> Option<EpochEnded> {
        if self.current_epoch == 0 {
            None
        } else {
            Some(
                EpochEnded {
                    epoch_id: self.current_epoch,
                    total_rewards: self.rewards_of_epoch(self.current_epoch),
                    active_traders: self.traders_of_epoch(self.current_epoch),
                    end_time: now,
                },
            )
        }
    }

    /// The current epoch has run its length at `now`.
    pub open spec fn epoch_is_over(self, now: Timestamp) -> bool {
        self.current_epoch > 0 && now >= (if self.epoch_start_time + self.epoch_duration
            > u64::MAX {
            u64::MAX as int
        } else {
            self.epoch_start_time + self.epoch_duration
        })
    }

    /// The admin starts the next epoch; the current one is announced as
    /// ended where it has run its length.
    pub open spec fn start_new_epoch(self, env: Env) -> Result<
        (RewardsView, (u32, Option<EpochEnded>, EpochStarted)),
        TradingRewardsError,
    > {
        if env.caller != self.admin {
            Err(TradingRewardsError::AccessDenied)
        } else if self.paused {
            Err(TradingRewardsError::ContractPaused)
        } else if self.current_epoch + 1 > u32::MAX {
            Err(TradingRewardsError::Overflow)
        } else {
            Ok(
                (
                    RewardsView {
                        current_epoch: (self.current_epoch + 1) as u32,
                        epoch_start_time: env.block_timestamp,
                        ..self
                    },
                    (
                        (self.current_epoch + 1) as u32,
                        if self.epoch_is_over(env.block_timestamp) {
                            self.epoch_end(env.block_timestamp)
                        } else {
                            None
                        },
                        EpochStarted {
                            epoch_id: (self.current_epoch + 1) as u32,
                            start_time: env.block_timestamp,
                            duration: self.epoch_duration,
                        },
                    ),
                ),
            )
        }
    }

    /// The caller takes its rewards of an epoch that has ended.
    pub open spec fn claim_epoch_rewards(self, env: Env, epoch_id: u32) -> Result<
        (RewardsView, (Balance, RewardsClaimed)),
        TradingRewardsError,
    > {
        if self.paused {
            Err(TradingRewardsError::ContractPaused)
        } else if self.reentrancy_guard {
            Err(TradingRewardsError::ReentrancyGuardActive)
        } else if epoch_id >= self.current_epoch || self.epoch_reward_of(epoch_id, env.caller)
            == 0 {
            Err(TradingRewardsError::NoRewardsToClaim)
        } else {
            Ok(
                (
                    RewardsView {
                        epoch_trader_rewards: self.epoch_trader_rewards.remove(
                            (epoch_id, env.caller),
                        ),
                        ..self
                    },
                    (
                        self.epoch_reward_of(epoch_id, env.caller),
                        RewardsClaimed {
                            trader: env.caller,
                            amount: self.epoch_reward_of(epoch_id, env.caller),
                            timestamp: env.block_timestamp,
                        },
                    ),
                ),
            )
        }
    }

    /// The state with `address` on the blacklist, or why it cannot go there.
    pub open spec fn blacklisted(self, address: AccountId) -> Result<
        RewardsView,
        TradingRewardsError,
    > {
        if address.spec_is_zero() {
            Err(TradingRewardsError::ZeroAddress)
        } else if self.total_suspicious_flags + 1 > u32::MAX {
            Err(TradingRewardsError::Overflow)
        } else {
            Ok(
                RewardsView {
                    blacklisted_addresses: self.blacklisted_addresses.insert(address, true),
                    total_suspicious_flags: (self.total_suspicious_flags + 1) as u32,
                    ..self
                },
            )
        }
    }

    /// The admin puts `address` on the blacklist.
    pub open spec fn blacklist_address(self, env: Env, address: AccountId) -> Result<
        RewardsView,
        TradingRewardsError,
    > {
        if env.caller != self.admin {
            Err(TradingRewardsError::AccessDenied)
        } else {
            self.blacklisted(address)
        }
    }

    /// The admin adds `flag` to the flags of a trader; flags from
    /// `SUSPICIOUS_FLAG_BLACKLISTED` on put the trader on the blacklist. An
    /// address without a record is left alone.
    pub open spec fn flag_suspicious_address(self, env: Env, address: AccountId, flag: u8)
        -> Result<RewardsView, TradingRewardsError> {
        if env.caller != self.admin {
            Err(TradingRewardsError::AccessDenied)
        } else {
            match self.position_of(address) {
                None => Ok(self),
                Some(position) => {
                    let flagged = RewardsView {
                        trading_positions: self.trading_positions.insert(
                            address,
                            TradingPosition {
                                suspicious_flags: position.suspicious_flags | flag,
                                ..position
                            },
                        ),
                        ..self
                    };
                    if (position.suspicious_flags | flag) >= SUSPICIOUS_FLAG_BLACKLISTED {
                        flagged.blacklisted(address)
                    } else {
                        Ok(flagged)
                    }
                },
            }
        }
    }

    /// A fee allocation arrives with the call: the traders' part joins the
    /// pool, the stakers' part is to be paid to the staking contract where
    /// one is named.
    pub open spec fn receive_fee_allocation(self, env: Env) -> Result<
        (RewardsView, (Option<(AccountId, Balance)>, RewardsPoolFunded)),
        TradingRewardsError,
    > {
        if self.paused {
            Err(TradingRewardsError::ContractPaused)
        } else if env.transferred_value == 0 {
            Err(TradingRewardsError::InsufficientBalance)
        } else {
            match allocation_split(env.transferred_value) {
                None => Err(TradingRewardsError::Overflow),
                Some((trading, staking)) => if self.rewards_pool + trading > u128::MAX {
                    Err(TradingRewardsError::Overflow)
                } else {
                    Ok(
                        (
                            RewardsView {
                                rewards_pool: (self.rewards_pool + trading) as u128,
                                ..self
                            },
                            (
                                match self.staking_contract {
                                    Some(staking_address) => if staking > 0 {
                                        Some((staking_address, staking))
                                    } else {
                                        None
                                    },
                                    None => None,
                                },
                                RewardsPoolFunded {
                                    total_amount: env.transferred_value,
                                    trading_amount: trading,
                                    staking_amount: staking,
                                    timestamp: env.block_timestamp,
                                },
                            ),
                        ),
                    )
                },
            }
        }
    }
}

} // verus!
