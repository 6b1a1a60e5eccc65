//! The trading rewards themselves: the state that is kept, and the
//! operations on it.
use vstd::prelude::*;

use crate::mapping::Mapping;
use crate::rewards::model::{reweighted, tier_for, tier_weight, traded, RewardsView};
use crate::rewards::types::{
    AdminTransferred, AntifraudParametersUpdated, EpochEnded, EpochStarted, RewardsClaimed,
    RewardsDistributed, RewardsPoolFunded, RouterChanged, TierUpgraded, TradingPosition,
    TradingRewardsError, TradingTier, VolumeTracked, BRONZE_MULTIPLIER, DAILY_RESET_PERIOD,
    DEFAULT_EPOCH_DURATION, DEFAULT_MAX_DAILY_VOLUME, DEFAULT_MIN_TRADE_VOLUME,
    DEFAULT_TRADE_COOLDOWN, GOLD_MULTIPLIER, GOLD_THRESHOLD, MIN_EPOCH_DURATION,
    MONTHLY_RESET_PERIOD, PLATINUM_MULTIPLIER, PLATINUM_THRESHOLD, SILVER_MULTIPLIER,
    SILVER_THRESHOLD, SUSPICIOUS_FLAG_BLACKLISTED, SUSPICIOUS_FLAG_NONE, TRADING_SHARE_PERCENT,
};
use crate::types::{AccountId, Balance, Env, Timestamp};

verus! {

/// The trading rewards.
#[derive(Clone, Debug)]
pub struct TradingRewardsContract {
    admin: AccountId,
    authorized_router: AccountId,
    rewards_pool: Balance,
    trading_positions: Mapping<AccountId, TradingPosition>,
    active_traders: Mapping<AccountId, bool>,
    active_trader_count: u32,
    last_distribution: Timestamp,
    total_distributed: Balance,
    paused: bool,
    reentrancy_guard: bool,
    blacklisted_addresses: Mapping<AccountId, bool>,
    total_suspicious_flags: u32,
    staking_contract: Option<AccountId>,
    cached_total_weight: Balance,
    weight_cache_timestamp: Timestamp,
    min_trade_volume: Balance,
    trade_cooldown: Timestamp,
    max_daily_volume: Balance,
    current_epoch: u32,
    epoch_start_time: Timestamp,
    epoch_duration: Timestamp,
    epoch_rewards: Mapping<u32, Balance>,
    epoch_trader_rewards: Mapping<(u32, AccountId), Balance>,
    epoch_active_traders: Mapping<u32, u32>,
}

impl View for TradingRewardsContract {
    type V = RewardsView;

    closed spec fn view(&self) -> RewardsView {
        RewardsView {
            admin: self.admin,
            authorized_router: self.authorized_router,
            rewards_pool: self.rewards_pool,
            trading_positions: self.trading_positions@,
            active_traders: self.active_traders@,
            active_trader_count: self.active_trader_count,
            last_distribution: self.last_distribution,
            total_distributed: self.total_distributed,
            paused: self.paused,
            reentrancy_guard: self.reentrancy_guard,
            blacklisted_addresses: self.blacklisted_addresses@,
            total_suspicious_flags: self.total_suspicious_flags,
            staking_contract: self.staking_contract,
            cached_total_weight: self.cached_total_weight,
            weight_cache_timestamp: self.weight_cache_timestamp,
            min_trade_volume: self.min_trade_volume,
            trade_cooldown: self.trade_cooldown,
            max_daily_volume: self.max_daily_volume,
            current_epoch: self.current_epoch,
            epoch_start_time: self.epoch_start_time,
            epoch_duration: self.epoch_duration,
            epoch_rewards: self.epoch_rewards@,
            epoch_trader_rewards: self.epoch_trader_rewards@,
            epoch_active_traders: self.epoch_active_traders@,
        }
    }
}

impl TradingRewardsContract {
    /// The tables are in order.
    pub closed spec fn wf(&self) -> bool {
        &&& self.trading_positions.wf()
        &&& self.active_traders.wf()
        &&& self.blacklisted_addresses.wf()
        &&& self.epoch_rewards.wf()
        &&& self.epoch_trader_rewards.wf()
        &&& self.epoch_active_traders.wf()
    }

    /// Rewards administered by `admin`, with `router` to report the trades.
    /// Neither may be the zero account.
    pub fn new(env: &Env, admin: AccountId, router: AccountId) -> (r: Result<
        Self,
        TradingRewardsError,
    >)
        ensures
            match r {
                Ok(contract) => contract.wf() && !admin.spec_is_zero() && !router.spec_is_zero()
                    && contract@ == RewardsView::initial(admin, router, env.block_timestamp),
                Err(e) => e == TradingRewardsError::ZeroAddress && (admin.spec_is_zero()
                    || router.spec_is_zero()),
            },
    {
        if admin.is_zero() || router.is_zero() {
            return Err(TradingRewardsError::ZeroAddress);
        }
        let current_time = env.block_timestamp;
        Ok(
            TradingRewardsContract {
                admin,
                authorized_router: router,
                rewards_pool: 0,
                trading_positions: Mapping::new(),
                active_traders: Mapping::new(),
                active_trader_count: 0,
                last_distribution: current_time,
                total_distributed: 0,
                paused: false,
                reentrancy_guard: false,
                blacklisted_addresses: Mapping::new(),
                total_suspicious_flags: 0,
                staking_contract: None,
                cached_total_weight: 0,
                weight_cache_timestamp: current_time,
                min_trade_volume: DEFAULT_MIN_TRADE_VOLUME,
                trade_cooldown: DEFAULT_TRADE_COOLDOWN,
                max_daily_volume: DEFAULT_MAX_DAILY_VOLUME,
                current_epoch: 0,
                epoch_start_time: current_time,
                epoch_duration: DEFAULT_EPOCH_DURATION,
                epoch_rewards: Mapping::new(),
                epoch_trader_rewards: Mapping::new(),
                epoch_active_traders: Mapping::new(),
            },
        )
    }

    /// Counts a trade of `volume` by `trader`, which only the router may
    /// report. A refusal changes nothing.
    pub fn track_trading_volume(&mut self, env: &Env, trader: AccountId, volume: Balance) -> (r:
        Result<(VolumeTracked, Option<TierUpgraded>), TradingRewardsError>)
        requires
            old(self).wf(),
        ensures
            final(self).wf(),
            match old(self)@.track_trading_volume(*env, trader, volume) {
                Ok((state, events)) => r == Ok::<
                    (VolumeTracked, Option<TierUpgraded>),
                    TradingRewardsError,
                >(events) && final(self)@ == state,
                Err(e) => r == Err::<(VolumeTracked, Option<TierUpgraded>), TradingRewardsError>(e)
                    && *final(self) == *old(self),
            },
    {
        match self.ensure_not_paused() {
            Err(e) => {
                return Err(e);
            },
            Ok(_) => {},
        }
        match self.ensure_authorized_router(env) {
            Err(e) => {
                return Err(e);
            },
            Ok(_) => {},
        }
        match self.acquire_reentrancy_guard() {
            Err(e) => {
                return Err(e);
            },
            Ok(_) => {},
        }
        if trader.is_zero() {
            self.release_reentrancy_guard();
            return Err(TradingRewardsError::ZeroAddress);
        }
        if volume < self.min_trade_volume {
            self.release_reentrancy_guard();
            return Err(TradingRewardsError::VolumeTooSmall);
        }
        if self.is_blacklisted(trader) {
            self.release_reentrancy_guard();
            return Err(TradingRewardsError::SuspiciousAddress);
        }
        let current_time = env.block_timestamp;
        let existing = self.get_trading_position(trader);
        let newly_active = existing.is_none() && !self.is_active(trader);
        let active_trader_count = if newly_active {
            match self.active_trader_count.checked_add(1) {
                Some(count) => count,
                None => {
                    self.release_reentrancy_guard();
                    return Err(TradingRewardsError::Overflow);
                },
            }
        } else {
            self.active_trader_count
        };
        let base = match existing {
            Some(position) => position,
            None => TradingPosition {
                total_volume: 0,
                monthly_volume: 0,
                daily_volume: 0,
                last_trade_timestamp: 0,
                last_daily_reset: current_time,
                tier: TradingTier::Bronze,
                pending_rewards: 0,
                claimed_rewards: 0,
                trade_count: 0,
                suspicious_flags: SUSPICIOUS_FLAG_NONE,
            },
        };
        let position = match self.record_trade(base, volume, current_time) {
            Ok(position) => position,
            Err(e) => {
                self.release_reentrancy_guard();
                return Err(e);
            },
        };
        let old_tier = base.tier;
        let new_tier = position.tier;
        if newly_active {
            self.active_traders.insert(trader, true);
            self.active_trader_count = active_trader_count;
        }
        if old_tier != new_tier {
            let old_weight = self.calculate_tier_weight(old_tier, position.monthly_volume);
            let new_weight = self.calculate_tier_weight(new_tier, position.monthly_volume);
            let _ = self.update_weight_cache(env, old_weight, new_weight);
        }
        self.trading_positions.insert(trader, position);
        let counted = VolumeTracked { trader, volume, new_tier, timestamp: current_time };
        let upgraded = if old_tier != new_tier {
            Some(TierUpgraded { trader, old_tier, new_tier })
        } else {
            None
        };
        self.release_reentrancy_guard();
        proof {
            let state = old(self)@.track_trading_volume(*env, trader, volume)->Ok_0.0;
            assert(self@.active_traders =~= state.active_traders);
            assert(self@.trading_positions =~= state.trading_positions);
        }
        Ok((counted, upgraded))
    }

    /// Adds the value that came with the call to the pool. Only the admin
    /// may do so.
    pub fn fund_rewards_pool(&mut self, env: &Env) -> (r: Result<(), TradingRewardsError>)
        ensures
            final(self).wf() == old(self).wf(),
            match old(self)@.fund_rewards_pool(*env) {
                Ok(state) => r is Ok && final(self)@ == state,
                Err(e) => r == Err::<(), TradingRewardsError>(e) && *final(self) == *old(self),
            },
    {
        match self.ensure_admin(env) {
            Err(e) => {
                return Err(e);
            },
            Ok(_) => {},
        }
        match self.ensure_not_paused() {
            Err(e) => {
                return Err(e);
            },
            Ok(_) => {},
        }
        let amount = env.transferred_value;
        match self.rewards_pool.checked_add(amount) {
            Some(pool) => {
                self.rewards_pool = pool;
                Ok(())
            },
            None => Err(TradingRewardsError::Overflow),
        }
    }

    /// Shares the pool out. Only the admin may do so.
    pub fn distribute_rewards(&mut self, env: &Env) -> (r: Result<
        Option<RewardsDistributed>,
        TradingRewardsError,
    >)
        ensures
            final(self).wf() == old(self).wf(),
            match old(self)@.distribute_rewards(*env) {
                Ok((state, event)) => r == Ok::<Option<RewardsDistributed>, TradingRewardsError>(
                    event,
                ) && final(self)@ == state,
                Err(e) => r == Err::<Option<RewardsDistributed>, TradingRewardsError>(e) && *final(self) == *old(self),
            },
    {
        match self.ensure_admin(env) {
            Err(e) => {
                return Err(e);
            },
            Ok(_) => {},
        }
        match self.ensure_not_paused() {
            Err(e) => {
                return Err(e);
            },
            Ok(_) => {},
        }
        match self.acquire_reentrancy_guard() {
            Err(e) => {
                return Err(e);
            },
            Ok(_) => {},
        }
        if self.rewards_pool == 0 {
            self.release_reentrancy_guard();
            return Err(TradingRewardsError::InsufficientBalance);
        }
        let current_time = env.block_timestamp;
        let total_weight = self.calculate_total_weight();
        if total_weight == 0 {
            self.release_reentrancy_guard();
            return Ok(None);
        }
        let amount_to_distribute = self.rewards_pool;
        let distributed_count = self.active_trader_count;
        let total_distributed = match self.total_distributed.checked_add(amount_to_distribute) {
            Some(total) => total,
            None => {
                self.release_reentrancy_guard();
                return Err(TradingRewardsError::Overflow);
            },
        };
        self.total_distributed = total_distributed;
        self.rewards_pool = 0;
        self.last_distribution = current_time;
        self.release_reentrancy_guard();
        Ok(
            Some(
                RewardsDistributed {
                    total_amount: amount_to_distribute,
                    traders_count: distributed_count,
                    timestamp: current_time,
                },
            ),
        )
    }

    /// The caller takes its pending rewards; the host is to pay them out.
    pub fn claim_rewards(&mut self, env: &Env) -> (r: Result<
        (Balance, RewardsClaimed),
        TradingRewardsError,
    >)
        requires
            old(self).wf(),
        ensures
            final(self).wf(),
            match old(self)@.claim_rewards(*env) {
                Ok((state, out)) => r == Ok::<(Balance, RewardsClaimed), TradingRewardsError>(out)
                    && final(self)@ == state,
                Err(e) => r == Err::<(Balance, RewardsClaimed), TradingRewardsError>(e) && *final(self) == *old(self),
            },
    {
        match self.ensure_not_paused() {
            Err(e) => {
                return Err(e);
            },
            Ok(_) => {},
        }
        match self.acquire_reentrancy_guard() {
            Err(e) => {
                return Err(e);
            },
            Ok(_) => {},
        }
        let caller = env.caller;
        let mut position = match self.get_trading_position(caller) {
            Some(position) => position,
            None => {
                self.release_reentrancy_guard();
                return Err(TradingRewardsError::NoRewardsToClaim);
            },
        };
        if position.pending_rewards == 0 {
            self.release_reentrancy_guard();
            return Err(TradingRewardsError::NoRewardsToClaim);
        }
        let amount = position.pending_rewards;
        position.pending_rewards = 0;
        position.claimed_rewards = match position.claimed_rewards.checked_add(amount) {
            Some(claimed) => claimed,
            None => {
                self.release_reentrancy_guard();
                return Err(TradingRewardsError::Overflow);
            },
        };
        self.trading_positions.insert(caller, position);
        self.release_reentrancy_guard();
        Ok((amount, RewardsClaimed { trader: caller, amount, timestamp: env.block_timestamp }))
    }

    /// What is recorded of `trader`.
    pub fn get_trading_position(&self, trader: AccountId) -> (r: Option<TradingPosition>)
        requires
            self.wf(),
        ensures
            r == self@.position_of(trader),
    {
        match self.trading_positions.get(&trader) {
            Some(position) => Some(*position),
            None => None,
        }
    }

    /// The tier of `trader`; bronze for one without a record.
    pub fn get_trader_tier(&self, trader: AccountId) -> (r: TradingTier)
        requires
            self.wf(),
        ensures
            r == (match self@.position_of(trader) {
                Some(position) => position.tier,
                None => TradingTier::Bronze,
            }),
    {
        match self.trading_positions.get(&trader) {
            Some(position) => position.tier,
            None => TradingTier::Bronze,
        }
    }

    /// The pool, the number of traders, the total distributed, and when the
    /// pool was last shared out.
    pub fn get_stats(&self) -> (r: (Balance, u32, Balance, Timestamp))
        ensures
            r == (
                self@.rewards_pool,
                self@.active_trader_count,
                self@.total_distributed,
                self@.last_distribution,
            ),
    {
        (
            self.rewards_pool,
            self.active_trader_count,
            self.total_distributed,
            self.last_distribution,
        )
    }

    /// Who administers the rewards.
    pub fn admin(&self) -> (r: AccountId)
        ensures
            r == self@.admin,
    {
        self.admin
    }

    /// Who reports the trades.
    pub fn authorized_router(&self) -> (r: AccountId)
        ensures
            r == self@.authorized_router,
    {
        self.authorized_router
    }

    /// Whether the rewards are paused.
    pub fn is_paused(&self) -> (r: bool)
        ensures
            r == self@.paused,
    {
        self.paused
    }

    /// Whether `trader` has been counted among the traders.
    pub fn is_active(&self, trader: AccountId) -> (r: bool)
        requires
            self.wf(),
        ensures
            r == self@.is_active(trader),
    {
        match self.active_traders.get(&trader) {
            Some(active) => *active,
            None => false,
        }
    }

    /// Pauses the rewards. Only the admin may do so.
    pub fn pause_contract(&mut self, env: &Env) -> (r: Result<(), TradingRewardsError>)
        ensures
            final(self).wf() == old(self).wf(),
            env.caller == old(self)@.admin ==> r is Ok && final(self)@ == (RewardsView {
                paused: true,
                ..old(self)@
            }),
            env.caller != old(self)@.admin ==> r == Err::<(), TradingRewardsError>(
                TradingRewardsError::AccessDenied,
            ) && *final(self) == *old(self),
    {
        match self.ensure_admin(env) {
            Err(e) => {
                return Err(e);
            },
            Ok(_) => {},
        }
        self.paused = true;
        Ok(())
    }

    /// Ends the pause. Only the admin may do so.
    pub fn unpause_contract(&mut self, env: &Env) -> (r: Result<(), TradingRewardsError>)
        ensures
            final(self).wf() == old(self).wf(),
            env.caller == old(self)@.admin ==> r is Ok && final(self)@ == (RewardsView {
                paused: false,
                ..old(self)@
            }),
            env.caller != old(self)@.admin ==> r == Err::<(), TradingRewardsError>(
                TradingRewardsError::AccessDenied,
            ) && *final(self) == *old(self),
    {
        match self.ensure_admin(env) {
            Err(e) => {
                return Err(e);
            },
            Ok(_) => {},
        }
        self.paused = false;
        Ok(())
    }

    /// Names another router to report the trades. Only the admin may do so.
    pub fn set_authorized_router(&mut self, env: &Env, router: AccountId) -> (r: Result<
        RouterChanged,
        TradingRewardsError,
    >)
        ensures
            final(self).wf() == old(self).wf(),
            match old(self)@.set_authorized_router(*env, router) {
                Ok((state, event)) => r == Ok::<RouterChanged, TradingRewardsError>(event)
                    && final(self)@ == state,
                Err(e) => r == Err::<RouterChanged, TradingRewardsError>(e) && *final(self) == *old(self),
            },
    {
        match self.ensure_admin(env) {
            Err(e) => {
                return Err(e);
            },
            Ok(_) => {},
        }
        if router.is_zero() {
            return Err(TradingRewardsError::ZeroAddress);
        }
        let old_router = self.authorized_router;
        self.authorized_router = router;
        Ok(
            RouterChanged {
                old_router,
                new_router: router,
                admin: self.admin,
                timestamp: env.block_timestamp,
            },
        )
    }

    /// Hands the administration to another. Only the admin may do so.
    pub fn transfer_admin(&mut self, env: &Env, new_admin: AccountId) -> (r: Result<
        AdminTransferred,
        TradingRewardsError,
    >)
        ensures
            final(self).wf() == old(self).wf(),
            match old(self)@.transfer_admin(*env, new_admin) {
                Ok((state, event)) => r == Ok::<AdminTransferred, TradingRewardsError>(event)
                    && final(self)@ == state,
                Err(e) => r == Err::<AdminTransferred, TradingRewardsError>(e) && *final(self)
                    == *old(self),
            },
    {
        match self.ensure_admin(env) {
            Err(e) => {
                return Err(e);
            },
            Ok(_) => {},
        }
        if new_admin.is_zero() {
            return Err(TradingRewardsError::ZeroAddress);
        }
        let old_admin = self.admin;
        self.admin = new_admin;
        Ok(AdminTransferred { old_admin, new_admin, timestamp: env.block_timestamp })
    }

    /// Sets the least volume of a trade that counts. Only the admin may do so.
    pub fn set_min_trade_volume(&mut self, env: &Env, volume: Balance) -> (r: Result<
        AntifraudParametersUpdated,
        TradingRewardsError,
    >)
        ensures
            final(self).wf() == old(self).wf(),
            match old(self)@.update_antifraud_parameters(
                *env,
                volume,
                old(self)@.trade_cooldown,
                old(self)@.max_daily_volume,
            ) {
                Ok((state, event)) => r == Ok::<AntifraudParametersUpdated, TradingRewardsError>(
                    event,
                ) && final(self)@ == state,
                Err(e) => r == Err::<AntifraudParametersUpdated, TradingRewardsError>(e) && *final(self) == *old(self),
            },
    {
        match self.ensure_admin(env) {
            Err(e) => {
                return Err(e);
            },
            Ok(_) => {},
        }
        self.min_trade_volume = volume;
        Ok(self.emit_antifraud_parameters_updated(env))
    }

    /// Sets the pause between two trades of one trader. Only the admin may
    /// do so.
    pub fn set_trade_cooldown(&mut self, env: &Env, cooldown: Timestamp) -> (r: Result<
        AntifraudParametersUpdated,
        TradingRewardsError,
    >)
        ensures
            final(self).wf() == old(self).wf(),
            match old(self)@.update_antifraud_parameters(
                *env,
                old(self)@.min_trade_volume,
                cooldown,
                old(self)@.max_daily_volume,
            ) {
                Ok((state, event)) => r == Ok::<AntifraudParametersUpdated, TradingRewardsError>(
                    event,
                ) && final(self)@ == state,
                Err(e) => r == Err::<AntifraudParametersUpdated, TradingRewardsError>(e) && *final(self) == *old(self),
            },
    {
        match self.ensure_admin(env) {
            Err(e) => {
                return Err(e);
            },
            Ok(_) => {},
        }
        self.trade_cooldown = cooldown;
        Ok(self.emit_antifraud_parameters_updated(env))
    }

    /// Sets the most that one trader's trades of a day count for. Only the
    /// admin may do so.
    pub fn set_max_daily_volume(&mut self, env: &Env, volume: Balance) -> (r: Result<
        AntifraudParametersUpdated,
        TradingRewardsError,
    >)
        ensures
            final(self).wf() == old(self).wf(),
            match old(self)@.update_antifraud_parameters(
                *env,
                old(self)@.min_trade_volume,
                old(self)@.trade_cooldown,
                volume,
            ) {
                Ok((state, event)) => r == Ok::<AntifraudParametersUpdated, TradingRewardsError>(
                    event,
                ) && final(self)@ == state,
                Err(e) => r == Err::<AntifraudParametersUpdated, TradingRewardsError>(e) && *final(self) == *old(self),
            },
    {
        match self.ensure_admin(env) {
            Err(e) => {
                return Err(e);
            },
            Ok(_) => {},
        }
        self.max_daily_volume = volume;
        Ok(self.emit_antifraud_parameters_updated(env))
    }

    /// Sets the three limits at once. Only the admin may do so.
    pub fn update_antifraud_parameters(
        &mut self,
        env: &Env,
        min_volume: Balance,
        cooldown: Timestamp,
        max_daily: Balance,
    ) -> (r: Result<AntifraudParametersUpdated, TradingRewardsError>)
        ensures
            final(self).wf() == old(self).wf(),
            match old(self)@.update_antifraud_parameters(*env, min_volume, cooldown, max_daily) {
                Ok((state, event)) => r == Ok::<AntifraudParametersUpdated, TradingRewardsError>(
                    event,
                ) && final(self)@ == state,
                Err(e) => r == Err::<AntifraudParametersUpdated, TradingRewardsError>(e) && *final(self) == *old(self),
            },
    {
        match self.ensure_admin(env) {
            Err(e) => {
                return Err(e);
            },
            Ok(_) => {},
        }
        self.min_trade_volume = min_volume;
        self.trade_cooldown = cooldown;
        self.max_daily_volume = max_daily;
        Ok(self.emit_antifraud_parameters_updated(env))
    }

    /// The least volume that counts, the pause between trades, and the most
    /// that a day counts for.
    pub fn get_antifraud_parameters(&self) -> (r: (Balance, Timestamp, Balance))
        ensures
            r == (self@.min_trade_volume, self@.trade_cooldown, self@.max_daily_volume),
    {
        (self.min_trade_volume, self.trade_cooldown, self.max_daily_volume)
    }

    /// Starts the next epoch and answers its number. Only the admin may do
    /// so.
    pub fn start_new_epoch(&mut self, env: &Env) -> (r: Result<
        (u32, Option<EpochEnded>, EpochStarted),
        TradingRewardsError,
    >)
        requires
            old(self).wf(),
        ensures
            final(self).wf(),
            match old(self)@.start_new_epoch(*env) {
                Ok((state, out)) => r == Ok::<
                    (u32, Option<EpochEnded>, EpochStarted),
                    TradingRewardsError,
                >(out) && final(self)@ == state,
                Err(e) => r == Err::<(u32, Option<EpochEnded>, EpochStarted), TradingRewardsError>(
                    e,
                ) && *final(self) == *old(self),
            },
    {
        match self.ensure_admin(env) {
            Err(e) => {
                return Err(e);
            },
            Ok(_) => {},
        }
        match self.ensure_not_paused() {
            Err(e) => {
                return Err(e);
            },
            Ok(_) => {},
        }
        let current_time = env.block_timestamp;
        let epoch_end: u64 = match self.epoch_start_time.checked_add(self.epoch_duration) {
            Some(end) => end,
            None => u64::MAX,
        };
        let ended = if self.current_epoch > 0 && current_time >= epoch_end {
            match self.finalize_current_epoch(env) {
                Ok(ended) => ended,
                Err(e) => {
                    return Err(e);
                },
            }
        } else {
            None
        };
        let epoch = match self.current_epoch.checked_add(1) {
            Some(epoch) => epoch,
            None => {
                return Err(TradingRewardsError::Overflow);
            },
        };
        self.current_epoch = epoch;
        self.epoch_start_time = current_time;
        Ok(
            (
                epoch,
                ended,
                EpochStarted {
                    epoch_id: epoch,
                    start_time: current_time,
                    duration: self.epoch_duration,
                },
            ),
        )
    }

    /// Announces the end of the current epoch, if one is running. Only the
    /// admin may do so.
    pub fn finalize_current_epoch(&mut self, env: &Env) -> (r: Result<
        Option<EpochEnded>,
        TradingRewardsError,
    >)
        requires
            old(self).wf(),
        ensures
            *final(self) == *old(self),
            r == (if env.caller != old(self)@.admin {
                Err::<Option<EpochEnded>, TradingRewardsError>(TradingRewardsError::AccessDenied)
            } else {
                Ok::<Option<EpochEnded>, TradingRewardsError>(
                    old(self)@.epoch_end(env.block_timestamp),
                )
            }),
    {
        match self.ensure_admin(env) {
            Err(e) => {
                return Err(e);
            },
            Ok(_) => {},
        }
        if self.current_epoch == 0 {
            return Ok(None);
        }
        let current_time = env.block_timestamp;
        let epoch_rewards = match self.epoch_rewards.get(&self.current_epoch) {
            Some(rewards) => *rewards,
            None => 0,
        };
        let active_traders = match self.epoch_active_traders.get(&self.current_epoch) {
            Some(traders) => *traders,
            None => 0,
        };
        Ok(
            Some(
                EpochEnded {
                    epoch_id: self.current_epoch,
                    total_rewards: epoch_rewards,
                    active_traders,
                    end_time: current_time,
                },
            ),
        )
    }

    /// Sets the length of an epoch, an hour at least. Only the admin may do
    /// so.
    pub fn set_epoch_duration(&mut self, env: &Env, duration: Timestamp) -> (r: Result<
        (),
        TradingRewardsError,
    >)
        ensures
            final(self).wf() == old(self).wf(),
            match r {
                Ok(_) => env.caller == old(self)@.admin && duration >= MIN_EPOCH_DURATION
                    && final(self)@ == (RewardsView { epoch_duration: duration, ..old(self)@ }),
                Err(e) => *final(self) == *old(self) && e == (if env.caller != old(self)@.admin {
                    TradingRewardsError::AccessDenied
                } else {
                    TradingRewardsError::VolumeTooSmall
                }) && (env.caller != old(self)@.admin || duration < MIN_EPOCH_DURATION),
            },
    {
        match self.ensure_admin(env) {
            Err(e) => {
                return Err(e);
            },
            Ok(_) => {},
        }
        if duration < MIN_EPOCH_DURATION {
            return Err(TradingRewardsError::VolumeTooSmall);
        }
        self.epoch_duration = duration;
        Ok(())
    }

    /// The caller takes its rewards of an epoch that has ended; the host is
    /// to pay them out.
    pub fn claim_epoch_rewards(&mut self, env: &Env, epoch_id: u32) -> (r: Result<
        (Balance, RewardsClaimed),
        TradingRewardsError,
    >)
        requires
            old(self).wf(),
        ensures
            final(self).wf(),
            match old(self)@.claim_epoch_rewards(*env, epoch_id) {
                Ok((state, out)) => r == Ok::<(Balance, RewardsClaimed), TradingRewardsError>(out)
                    && final(self)@ == state,
                Err(e) => r == Err::<(Balance, RewardsClaimed), TradingRewardsError>(e) && *final(self) == *old(self),
            },
    {
        match self.ensure_not_paused() {
            Err(e) => {
                return Err(e);
            },
            Ok(_) => {},
        }
        match self.acquire_reentrancy_guard() {
            Err(e) => {
                return Err(e);
            },
            Ok(_) => {},
        }
        let caller = env.caller;
        let current_time = env.block_timestamp;
        if epoch_id >= self.current_epoch {
            self.release_reentrancy_guard();
            return Err(TradingRewardsError::NoRewardsToClaim);
        }
        let reward_amount = self.get_epoch_rewards(epoch_id, caller);
        if reward_amount == 0 {
            self.release_reentrancy_guard();
            return Err(TradingRewardsError::NoRewardsToClaim);
        }
        self.epoch_trader_rewards.remove(&(epoch_id, caller));
        self.release_reentrancy_guard();
        Ok(
            (
                reward_amount,
                RewardsClaimed { trader: caller, amount: reward_amount, timestamp: current_time },
            ),
        )
    }

    /// The current epoch's number, start and length, and its rewards.
    pub fn get_current_epoch_info(&self) -> (r: (u32, Timestamp, Timestamp, Balance))
        requires
            self.wf(),
        ensures
            r == (
                self@.current_epoch,
                self@.epoch_start_time,
                self@.epoch_duration,
                self@.rewards_of_epoch(self@.current_epoch),
            ),
    {
        let rewards = match self.epoch_rewards.get(&self.current_epoch) {
            Some(rewards) => *rewards,
            None => 0,
        };
        (self.current_epoch, self.epoch_start_time, self.epoch_duration, rewards)
    }

    /// The rewards of `trader` for an epoch.
    pub fn get_epoch_rewards(&self, epoch_id: u32, trader: AccountId) -> (r: Balance)
        requires
            self.wf(),
        ensures
            r == self@.epoch_reward_of(epoch_id, trader),
    {
        match self.epoch_trader_rewards.get(&(epoch_id, trader)) {
            Some(rewards) => *rewards,
            None => 0,
        }
    }

    /// Puts `address` on the blacklist. Only the admin may do so.
    pub fn blacklist_address(&mut self, env: &Env, address: AccountId) -> (r: Result<
        (),
        TradingRewardsError,
    >)
        requires
            old(self).wf(),
        ensures
            final(self).wf(),
            match old(self)@.blacklist_address(*env, address) {
                Ok(state) => r is Ok && final(self)@ == state,
                Err(e) => r == Err::<(), TradingRewardsError>(e) && *final(self) == *old(self),
            },
    {
        match self.ensure_admin(env) {
            Err(e) => {
                return Err(e);
            },
            Ok(_) => {},
        }
        if address.is_zero() {
            return Err(TradingRewardsError::ZeroAddress);
        }
        let flags = match self.total_suspicious_flags.checked_add(1) {
            Some(flags) => flags,
            None => {
                return Err(TradingRewardsError::Overflow);
            },
        };
        self.blacklisted_addresses.insert(address, true);
        self.total_suspicious_flags = flags;
        Ok(())
    }

    /// Takes `address` off the blacklist. Only the admin may do so.
    pub fn unblacklist_address(&mut self, env: &Env, address: AccountId) -> (r: Result<
        (),
        TradingRewardsError,
    >)
        requires
            old(self).wf(),
        ensures
            final(self).wf(),
            env.caller == old(self)@.admin ==> r is Ok && final(self)@ == (RewardsView {
                blacklisted_addresses: old(self)@.blacklisted_addresses.remove(address),
                ..old(self)@
            }),
            env.caller != old(self)@.admin ==> r == Err::<(), TradingRewardsError>(
                TradingRewardsError::AccessDenied,
            ) && *final(self) == *old(self),
    {
        match self.ensure_admin(env) {
            Err(e) => {
                return Err(e);
            },
            Ok(_) => {},
        }
        self.blacklisted_addresses.remove(&address);
        Ok(())
    }

    /// Whether `address` is on the blacklist.
    pub fn is_blacklisted(&self, address: AccountId) -> (r: bool)
        requires
            self.wf(),
        ensures
            r == self@.is_blacklisted(address),
    {
        match self.blacklisted_addresses.get(&address) {
            Some(listed) => *listed,
            None => false,
        }
    }

    /// How many addresses were put on the blacklist, and how many traders
    /// there are.
    pub fn get_security_stats(&self) -> (r: (u32, u32))
        ensures
            r == (self@.total_suspicious_flags, self@.active_trader_count),
    {
        (self.total_suspicious_flags, self.active_trader_count)
    }

    /// Adds `flag` to the flags of a trader. Only the admin may do so.
    pub fn flag_suspicious_address(&mut self, env: &Env, address: AccountId, flag: u8) -> (r:
        Result<(), TradingRewardsError>)
        requires
            old(self).wf(),
        ensures
            final(self).wf(),
            match old(self)@.flag_suspicious_address(*env, address, flag) {
                Ok(state) => r is Ok && final(self)@ == state,
                Err(e) => r == Err::<(), TradingRewardsError>(e) && *final(self) == *old(self),
            },
    {
        match self.ensure_admin(env) {
            Err(e) => {
                return Err(e);
            },
            Ok(_) => {},
        }
        match self.get_trading_position(address) {
            None => Ok(()),
            Some(position) => {
                let mut position = position;
                position.suspicious_flags = position.suspicious_flags | flag;
                if position.suspicious_flags >= SUSPICIOUS_FLAG_BLACKLISTED {
                    if address.is_zero() {
                        return Err(TradingRewardsError::ZeroAddress);
                    }
                    let flags = match self.total_suspicious_flags.checked_add(1) {
                        Some(flags) => flags,
                        None => {
                            return Err(TradingRewardsError::Overflow);
                        },
                    };
                    self.trading_positions.insert(address, position);
                    self.blacklisted_addresses.insert(address, true);
                    self.total_suspicious_flags = flags;
                } else {
                    self.trading_positions.insert(address, position);
                }
                Ok(())
            },
        }
    }

    /// Names the staking contract, which receives the stakers' part of the
    /// fee allocations. Only the admin may do so.
    pub fn set_staking_contract(&mut self, env: &Env, staking_address: AccountId) -> (r: Result<
        (),
        TradingRewardsError,
    >)
        ensures
            final(self).wf() == old(self).wf(),
            match r {
                Ok(_) => env.caller == old(self)@.admin && !staking_address.spec_is_zero()
                    && final(self)@ == (RewardsView {
                    staking_contract: Some(staking_address),
                    ..old(self)@
                }),
                Err(e) => *final(self) == *old(self) && e == (if env.caller != old(self)@.admin {
                    TradingRewardsError::AccessDenied
                } else {
                    TradingRewardsError::ZeroAddress
                }) && (env.caller != old(self)@.admin || staking_address.spec_is_zero()),
            },
    {
        match self.ensure_admin(env) {
            Err(e) => {
                return Err(e);
            },
            Ok(_) => {},
        }
        if staking_address.is_zero() {
            return Err(TradingRewardsError::ZeroAddress);
        }
        self.staking_contract = Some(staking_address);
        Ok(())
    }

    /// The staking contract, if one is named.
    pub fn staking_contract(&self) -> (r: Option<AccountId>)
        ensures
            r == self@.staking_contract,
    {
        self.staking_contract
    }

    /// Takes in the fee allocation that came with the call. Answers what the
    /// host is to pay to the staking contract, if anything, and the
    /// announcement.
    pub fn receive_fee_allocation(&mut self, env: &Env) -> (r: Result<
        (Option<(AccountId, Balance)>, RewardsPoolFunded),
        TradingRewardsError,
    >)
        ensures
            final(self).wf() == old(self).wf(),
            match old(self)@.receive_fee_allocation(*env) {
                Ok((state, out)) => r == Ok::<
                    (Option<(AccountId, Balance)>, RewardsPoolFunded),
                    TradingRewardsError,
                >(out) && final(self)@ == state,
                Err(e) => r == Err::<
                    (Option<(AccountId, Balance)>, RewardsPoolFunded),
                    TradingRewardsError,
                >(e) && *final(self) == *old(self),
            },
    {
        match self.ensure_not_paused() {
            Err(e) => {
                return Err(e);
            },
            Ok(_) => {},
        }
        let amount = env.transferred_value;
        if amount == 0 {
            return Err(TradingRewardsError::InsufficientBalance);
        }
        let trading_rewards_amount: Balance = match amount.checked_mul(TRADING_SHARE_PERCENT) {
            Some(scaled) => scaled / 100,
            None => {
                return Err(TradingRewardsError::Overflow);
            },
        };
        let staking_rewards_amount: Balance = amount - trading_rewards_amount;
        let pool = match self.rewards_pool.checked_add(trading_rewards_amount) {
            Some(pool) => pool,
            None => {
                return Err(TradingRewardsError::Overflow);
            },
        };
        self.rewards_pool = pool;
        let payment = match self.staking_contract {
            Some(staking_address) => if staking_rewards_amount > 0 {
                Some((staking_address, staking_rewards_amount))
            } else {
                None
            },
            None => None,
        };
        Ok(
            (
                payment,
                RewardsPoolFunded {
                    total_amount: amount,
                    trading_amount: trading_rewards_amount,
                    staking_amount: staking_rewards_amount,
                    timestamp: env.block_timestamp,
                },
            ),
        )
    }

    /// The record of a trader after a trade of `volume` at `now`, under the
    /// cooldown and the daily limit that are set.
    pub fn record_trade(&self, position: TradingPosition, volume: Balance, now: Timestamp) -> (r:
        Result<TradingPosition, TradingRewardsError>)
        ensures
            r == traded(position, volume, now, self@.trade_cooldown, self@.max_daily_volume),
    {
        let mut position = position;
        if position.last_trade_timestamp > 0 && now > position.last_trade_timestamp && now
            - position.last_trade_timestamp < self.trade_cooldown {
            return Err(TradingRewardsError::TradeCooldownActive);
        }
        if now > position.last_daily_reset && now - position.last_daily_reset
            > DAILY_RESET_PERIOD {
            position.daily_volume = 0;
            position.last_daily_reset = now;
        }
        let new_daily_volume = match position.daily_volume.checked_add(volume) {
            Some(v) => v,
            None => {
                return Err(TradingRewardsError::Overflow);
            },
        };
        if new_daily_volume > self.max_daily_volume {
            return Err(TradingRewardsError::DailyLimitExceeded);
        }
        if position.last_trade_timestamp > 0 && now > position.last_trade_timestamp && now
            - position.last_trade_timestamp > MONTHLY_RESET_PERIOD {
            position.monthly_volume = 0;
        }
        position.total_volume = match position.total_volume.checked_add(volume) {
            Some(v) => v,
            None => {
                return Err(TradingRewardsError::Overflow);
            },
        };
        position.monthly_volume = match position.monthly_volume.checked_add(volume) {
            Some(v) => v,
            None => {
                return Err(TradingRewardsError::Overflow);
            },
        };
        position.daily_volume = new_daily_volume;
        position.last_trade_timestamp = now;
        position.trade_count = match position.trade_count.checked_add(1) {
            Some(v) => v,
            None => {
                return Err(TradingRewardsError::Overflow);
            },
        };
        position.tier = self.calculate_tier(position.monthly_volume);
        Ok(position)
    }

    /// The tier that a monthly volume earns.
    pub fn calculate_tier(&self, monthly_volume: Balance) -> (r: TradingTier)
        ensures
            r == tier_for(monthly_volume),
    {
        if monthly_volume >= PLATINUM_THRESHOLD {
            TradingTier::Platinum
        } else if monthly_volume >= GOLD_THRESHOLD {
            TradingTier::Gold
        } else if monthly_volume >= SILVER_THRESHOLD {
            TradingTier::Silver
        } else {
            TradingTier::Bronze
        }
    }

    /// The weight of a monthly volume at a tier.
    pub fn calculate_tier_weight(&self, tier: TradingTier, monthly_volume: Balance) -> (r: Balance)
        ensures
            r == tier_weight(tier, monthly_volume),
    {
        let multiplier: u32 = match tier {
            TradingTier::Bronze => BRONZE_MULTIPLIER,
            TradingTier::Silver => SILVER_MULTIPLIER,
            TradingTier::Gold => GOLD_MULTIPLIER,
            TradingTier::Platinum => PLATINUM_MULTIPLIER,
        };
        match monthly_volume.checked_mul(multiplier as u128) {
            Some(scaled) => scaled / 100,
            None => 0,
        }
    }

    /// The total weight of all traders, as it is recorded.
    pub fn calculate_total_weight(&self) -> (r: Balance)
        ensures
            r == self@.cached_total_weight,
    {
        self.cached_total_weight
    }

    /// Records that one trader's weight changed. Where the new total does
    /// not fit, nothing is recorded.
    fn update_weight_cache(&mut self, env: &Env, old_weight: Balance, new_weight: Balance) -> (r:
        Result<(), TradingRewardsError>)
        ensures
            final(self).wf() == old(self).wf(),
            match reweighted(old(self)@.cached_total_weight, old_weight, new_weight) {
                Some(weight) => r is Ok && *final(self) == old(self).with_weight(
                    weight,
                    env.block_timestamp,
                ),
                None => r == Err::<(), TradingRewardsError>(TradingRewardsError::Overflow)
                    && *final(self) == *old(self),
            },
    {
        let base: Balance = match self.cached_total_weight.checked_sub(old_weight) {
            Some(base) => base,
            None => 0,
        };
        match base.checked_add(new_weight) {
            Some(weight) => {
                self.cached_total_weight = weight;
                self.weight_cache_timestamp = env.block_timestamp;
                Ok(())
            },
            None => Err(TradingRewardsError::Overflow),
        }
    }

    /// These rewards with another total weight, recorded at `now`.
    closed spec fn with_weight(self, weight: Balance, now: Timestamp) -> Self {
        TradingRewardsContract { cached_total_weight: weight, weight_cache_timestamp: now, ..self }
    }

    /// These rewards with the guard held or free.
    pub closed spec fn guard_set(self, held: bool) -> Self {
        TradingRewardsContract { reentrancy_guard: held, ..self }
    }

    /// Lets only the admin pass.
    pub fn ensure_admin(&self, env: &Env) -> (r: Result<(), TradingRewardsError>)
        ensures
            r == (if env.caller != self@.admin {
                Err::<(), TradingRewardsError>(TradingRewardsError::AccessDenied)
            } else {
                Ok::<(), TradingRewardsError>(())
            }),
    {
        if env.caller != self.admin {
            return Err(TradingRewardsError::AccessDenied);
        }
        Ok(())
    }

    /// Lets only the router pass.
    pub fn ensure_authorized_router(&self, env: &Env) -> (r: Result<(), TradingRewardsError>)
        ensures
            r == (if env.caller != self@.authorized_router {
                Err::<(), TradingRewardsError>(TradingRewardsError::AccessDenied)
            } else {
                Ok::<(), TradingRewardsError>(())
            }),
    {
        if env.caller != self.authorized_router {
            return Err(TradingRewardsError::AccessDenied);
        }
        Ok(())
    }

    /// Lets nobody pass during a pause.
    pub fn ensure_not_paused(&self) -> (r: Result<(), TradingRewardsError>)
        ensures
            r == (if self@.paused {
                Err::<(), TradingRewardsError>(TradingRewardsError::ContractPaused)
            } else {
                Ok::<(), TradingRewardsError>(())
            }),
    {
        if self.paused {
            return Err(TradingRewardsError::ContractPaused);
        }
        Ok(())
    }

    /// Takes the guard, unless an operation holds it.
    pub fn acquire_reentrancy_guard(&mut self) -> (r: Result<(), TradingRewardsError>)
        ensures
            final(self).wf() == old(self).wf(),
            !old(self)@.reentrancy_guard ==> r is Ok && *final(self) == old(self).guard_set(true),
            old(self)@.reentrancy_guard ==> r == Err::<(), TradingRewardsError>(
                TradingRewardsError::ReentrancyGuardActive,
            ) && *final(self) == *old(self),
            final(self)@ == (RewardsView { reentrancy_guard: true, ..old(self)@ }),
    {
        if self.reentrancy_guard {
            return Err(TradingRewardsError::ReentrancyGuardActive);
        }
        self.reentrancy_guard = true;
        Ok(())
    }

    /// Gives the guard back, whoever held it.
    pub fn release_reentrancy_guard(&mut self)
        ensures
            final(self).wf() == old(self).wf(),
            *final(self) == old(self).guard_set(false),
            final(self)@ == (RewardsView { reentrancy_guard: false, ..old(self)@ }),
    {
        self.reentrancy_guard = false;
    }

    /// The announcement of the limits as they stand.
    pub fn emit_antifraud_parameters_updated(&self, env: &Env) -> (r: AntifraudParametersUpdated)
        ensures
            r == self@.antifraud_event(env.block_timestamp),
    {
        AntifraudParametersUpdated {
            min_trade_volume: self.min_trade_volume,
            trade_cooldown: self.trade_cooldown,
            max_daily_volume: self.max_daily_volume,
            admin: self.admin,
            timestamp: env.block_timestamp,
        }
    }
}

} // verus!
