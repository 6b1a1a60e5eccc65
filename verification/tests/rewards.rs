use uniswap_v2::rewards::types::{
    DAILY_RESET_PERIOD, DECIMALS_8, DEFAULT_EPOCH_DURATION, DEFAULT_MAX_DAILY_VOLUME,
    DEFAULT_MIN_TRADE_VOLUME, DEFAULT_TRADE_COOLDOWN, MONTHLY_RESET_PERIOD,
};
use uniswap_v2::rewards::{
    AdminTransferred, AntifraudParametersUpdated, EpochEnded, EpochStarted, RewardsDistributed,
    RewardsPoolFunded, RouterChanged, TierUpgraded, TradingPosition, TradingRewardsContract,
    TradingRewardsError, TradingTier, VolumeTracked,
};
use uniswap_v2::types::{AccountId, Env};

fn alice() -> AccountId {
    AccountId::from([1u8; 32])
}

fn bob() -> AccountId {
    AccountId::from([2u8; 32])
}

fn charlie() -> AccountId {
    AccountId::from([3u8; 32])
}

fn django() -> AccountId {
    AccountId::from([4u8; 32])
}

fn at(caller: AccountId, now: u64) -> Env {
    Env { caller, block_timestamp: now, transferred_value: 0, balance: 0 }
}

fn paying(caller: AccountId, now: u64, value: u128) -> Env {
    Env { caller, block_timestamp: now, transferred_value: value, balance: value }
}

/// Rewards administered by alice, with bob as the router.
fn new_contract(now: u64) -> TradingRewardsContract {
    TradingRewardsContract::new(&at(alice(), now), alice(), bob()).unwrap()
}

#[test]
fn test_new_contract() {
    let contract = new_contract(0);

    assert_eq!(contract.admin(), alice());
    assert_eq!(contract.authorized_router(), bob());
    assert_eq!(contract.get_stats().0, 0);
    assert!(!contract.is_paused());
}

#[test]
fn test_track_trading_volume() {
    let mut contract = new_contract(0);

    let volume = 5_000 * DECIMALS_8;
    let (counted, upgraded) =
        contract.track_trading_volume(&at(bob(), 2000), charlie(), volume).unwrap();
    assert_eq!(
        counted,
        VolumeTracked {
            trader: charlie(),
            volume,
            new_tier: TradingTier::Bronze,
            timestamp: 2000,
        }
    );
    assert_eq!(upgraded, None);

    let position = contract.get_trading_position(charlie()).unwrap();
    assert_eq!(position.total_volume, volume);
    assert_eq!(position.monthly_volume, volume);
    assert_eq!(position.daily_volume, volume);
    assert_eq!(position.tier, TradingTier::Bronze);
    assert_eq!(position.trade_count, 1);
    assert_eq!(position.last_trade_timestamp, 2000);
    assert_eq!(position.last_daily_reset, 2000);
    assert!(contract.is_active(charlie()));
    assert_eq!(contract.get_security_stats(), (0, 1));
}

#[test]
fn test_tier_upgrade() {
    let mut contract = new_contract(0);

    let volume = 15_000 * DECIMALS_8;
    let (counted, upgraded) =
        contract.track_trading_volume(&at(bob(), 2000), charlie(), volume).unwrap();
    assert_eq!(counted.new_tier, TradingTier::Silver);
    assert_eq!(
        upgraded,
        Some(TierUpgraded {
            trader: charlie(),
            old_tier: TradingTier::Bronze,
            new_tier: TradingTier::Silver,
        })
    );

    let position = contract.get_trading_position(charlie()).unwrap();
    assert_eq!(position.tier, TradingTier::Silver);
    assert_eq!(contract.get_trader_tier(charlie()), TradingTier::Silver);
    assert_eq!(contract.get_trader_tier(django()), TradingTier::Bronze);
    // the weight of 15000 units at silver is 15000 * 120 / 100 units
    assert_eq!(contract.calculate_total_weight(), 18_000 * DECIMALS_8);
}

#[test]
fn test_fund_and_distribute_rewards() {
    let mut contract = new_contract(0);

    contract.fund_rewards_pool(&paying(alice(), 0, 100 * DECIMALS_8)).unwrap();
    assert_eq!(contract.get_stats().0, 100 * DECIMALS_8);

    contract.track_trading_volume(&at(bob(), 2000), charlie(), 10_000 * DECIMALS_8).unwrap();

    let event = contract.distribute_rewards(&at(alice(), 2000)).unwrap();
    assert_eq!(
        event,
        Some(RewardsDistributed {
            total_amount: 100 * DECIMALS_8,
            traders_count: 1,
            timestamp: 2000,
        })
    );

    assert_eq!(contract.get_stats(), (0, 1, 100 * DECIMALS_8, 2000));

    let _position = contract.get_trading_position(charlie()).unwrap();
}

#[test]
fn test_claim_rewards() {
    let mut contract = new_contract(0);

    contract.fund_rewards_pool(&paying(alice(), 0, 100 * DECIMALS_8)).unwrap();

    contract.track_trading_volume(&at(bob(), 2000), charlie(), 10_000 * DECIMALS_8).unwrap();

    contract.distribute_rewards(&at(alice(), 2000)).unwrap();

    // nothing is pending for charlie, and nothing for one without a record
    assert_eq!(
        contract.claim_rewards(&at(charlie(), 2000)),
        Err(TradingRewardsError::NoRewardsToClaim)
    );
    assert_eq!(
        contract.claim_rewards(&at(django(), 2000)),
        Err(TradingRewardsError::NoRewardsToClaim)
    );
    let position = contract.get_trading_position(charlie()).unwrap();
    assert_eq!(position.pending_rewards, 0);
    assert_eq!(position.claimed_rewards, 0);
    // a refusal gives the guard back
    assert!(contract.acquire_reentrancy_guard().is_ok());
    contract.release_reentrancy_guard();
}

#[test]
fn lib_test_access_control() {
    let mut contract = new_contract(0);

    assert_eq!(
        contract.track_trading_volume(&at(charlie(), 0), alice(), 1000),
        Err(TradingRewardsError::AccessDenied)
    );

    assert_eq!(
        contract.pause_contract(&at(charlie(), 0)),
        Err(TradingRewardsError::AccessDenied)
    );
}

#[test]
fn lib_test_zero_address_validation() {
    let result =
        TradingRewardsContract::new(&at(alice(), 0), AccountId::from([0u8; 32]), bob());
    assert!(result.is_err());
    assert_eq!(result.err(), Some(TradingRewardsError::ZeroAddress));
    let result =
        TradingRewardsContract::new(&at(alice(), 0), alice(), AccountId::from([0u8; 32]));
    assert_eq!(result.err(), Some(TradingRewardsError::ZeroAddress));

    let mut contract = new_contract(0);

    assert_eq!(
        contract.track_trading_volume(&at(bob(), 0), AccountId::from([0u8; 32]), 1000),
        Err(TradingRewardsError::ZeroAddress)
    );
}

#[test]
fn test_contract_pause() {
    let mut contract = new_contract(0);

    contract.pause_contract(&at(alice(), 0)).unwrap();
    assert!(contract.is_paused());

    assert_eq!(
        contract.track_trading_volume(&at(bob(), 2000), charlie(), 500 * DECIMALS_8),
        Err(TradingRewardsError::ContractPaused)
    );

    contract.unpause_contract(&at(alice(), 2000)).unwrap();

    contract.track_trading_volume(&at(bob(), 2000), charlie(), 500 * DECIMALS_8).unwrap();
}

#[test]
fn test_anti_fraud_measures() {
    let start = 1000 + 999 * 100000000;
    let mut contract = new_contract(start);

    let mut now = start + 100;

    assert_eq!(
        contract.track_trading_volume(&at(bob(), now), charlie(), 50 * DECIMALS_8),
        Err(TradingRewardsError::VolumeTooSmall)
    );

    contract.track_trading_volume(&at(bob(), now), charlie(), 500 * DECIMALS_8).unwrap();

    now += 30;
    let result = contract.track_trading_volume(&at(bob(), now), charlie(), 500 * DECIMALS_8);
    assert_eq!(result, Err(TradingRewardsError::TradeCooldownActive));

    now += 100;
    contract.track_trading_volume(&at(bob(), now), charlie(), 500 * DECIMALS_8).unwrap();

    contract.blacklist_address(&at(alice(), now), charlie()).unwrap();
    assert!(contract.is_blacklisted(charlie()));

    now += 61;
    assert_eq!(
        contract.track_trading_volume(&at(bob(), now), charlie(), 500 * DECIMALS_8),
        Err(TradingRewardsError::SuspiciousAddress)
    );

    contract.unblacklist_address(&at(alice(), now), charlie()).unwrap();
    assert!(!contract.is_blacklisted(charlie()));
}

#[test]
fn test_daily_limit() {
    let mut contract = new_contract(0);

    let mut now = 2000;

    let large_volume = 800_000 * DECIMALS_8;
    contract.track_trading_volume(&at(bob(), now), charlie(), large_volume).unwrap();

    now += 61;
    assert_eq!(
        contract.track_trading_volume(&at(bob(), now), charlie(), 300_000 * DECIMALS_8),
        Err(TradingRewardsError::DailyLimitExceeded)
    );

    now += 24 * 60 * 60;

    contract.track_trading_volume(&at(bob(), now), charlie(), 2_000 * DECIMALS_8).unwrap();
    let position = contract.get_trading_position(charlie()).unwrap();
    assert_eq!(position.daily_volume, 2_000 * DECIMALS_8);
    assert_eq!(position.monthly_volume, 802_000 * DECIMALS_8);
    assert_eq!(position.last_daily_reset, now);
}

#[test]
fn test_configurable_antifraud_parameters() {
    let start = 1000 + 888 * 100000000;
    let mut contract = new_contract(start);

    let (min_vol, cooldown, max_daily) = contract.get_antifraud_parameters();
    assert_eq!(min_vol, DEFAULT_MIN_TRADE_VOLUME);
    assert_eq!(cooldown, DEFAULT_TRADE_COOLDOWN);
    assert_eq!(max_daily, DEFAULT_MAX_DAILY_VOLUME);

    contract.set_min_trade_volume(&at(alice(), start), 200 * DECIMALS_8).unwrap();
    contract.set_trade_cooldown(&at(alice(), start), 120).unwrap();
    let event =
        contract.set_max_daily_volume(&at(alice(), start), 500_000 * DECIMALS_8).unwrap();
    assert_eq!(
        event,
        AntifraudParametersUpdated {
            min_trade_volume: 200 * DECIMALS_8,
            trade_cooldown: 120,
            max_daily_volume: 500_000 * DECIMALS_8,
            admin: alice(),
            timestamp: start,
        }
    );

    let (new_min_vol, new_cooldown, new_max_daily) = contract.get_antifraud_parameters();
    assert_eq!(new_min_vol, 200 * DECIMALS_8);
    assert_eq!(new_cooldown, 120);
    assert_eq!(new_max_daily, 500_000 * DECIMALS_8);

    let mut now = start + 1000;

    assert_eq!(
        contract.track_trading_volume(&at(bob(), now), charlie(), 100 * DECIMALS_8),
        Err(TradingRewardsError::VolumeTooSmall)
    );

    contract.track_trading_volume(&at(bob(), now), charlie(), 300 * DECIMALS_8).unwrap();

    now += 30;
    assert_eq!(
        contract.track_trading_volume(&at(bob(), now), charlie(), 300 * DECIMALS_8),
        Err(TradingRewardsError::TradeCooldownActive)
    );

    now += 100;
    contract.track_trading_volume(&at(bob(), now), charlie(), 300 * DECIMALS_8).unwrap();
}

#[test]
fn test_epoch_system() {
    let mut contract = new_contract(0);

    let (epoch_id, _start_time, duration, rewards) = contract.get_current_epoch_info();
    assert_eq!(epoch_id, 0);
    assert_eq!(duration, DEFAULT_EPOCH_DURATION);
    assert_eq!(rewards, 0);

    let (new_epoch, ended, started) = contract.start_new_epoch(&at(alice(), 10)).unwrap();
    assert_eq!(new_epoch, 1);
    assert_eq!(ended, None);
    assert_eq!(
        started,
        EpochStarted { epoch_id: 1, start_time: 10, duration: DEFAULT_EPOCH_DURATION }
    );

    let (epoch_id, _, _, _) = contract.get_current_epoch_info();
    assert_eq!(epoch_id, 1);

    contract.set_epoch_duration(&at(alice(), 10), 3600).unwrap();

    assert_eq!(
        contract.start_new_epoch(&at(bob(), 10)),
        Err(TradingRewardsError::AccessDenied)
    );

    assert_eq!(
        contract.claim_epoch_rewards(&at(bob(), 10), 999),
        Err(TradingRewardsError::NoRewardsToClaim)
    );
}

#[test]
fn test_admin_events() {
    let mut contract = new_contract(0);

    let event = contract.transfer_admin(&at(alice(), 5), charlie()).unwrap();
    assert_eq!(
        event,
        AdminTransferred { old_admin: alice(), new_admin: charlie(), timestamp: 5 }
    );

    contract.pause_contract(&at(charlie(), 5)).unwrap();

    assert_eq!(
        contract.pause_contract(&at(alice(), 5)),
        Err(TradingRewardsError::AccessDenied)
    );

    contract.unpause_contract(&at(charlie(), 5)).unwrap();
    let event = contract.set_authorized_router(&at(charlie(), 6), alice()).unwrap();
    assert_eq!(
        event,
        RouterChanged { old_router: bob(), new_router: alice(), admin: charlie(), timestamp: 6 }
    );

    contract.track_trading_volume(&at(alice(), 2000), bob(), 500 * DECIMALS_8).unwrap();

    assert_eq!(
        contract.track_trading_volume(&at(bob(), 2000), alice(), 500 * DECIMALS_8),
        Err(TradingRewardsError::AccessDenied)
    );
}

#[test]
fn tiers_by_monthly_volume() {
    let contract = new_contract(0);
    let calculate_tier = |volume: u128| contract.calculate_tier(volume);
    assert_eq!(calculate_tier(0), TradingTier::Bronze);
    assert_eq!(calculate_tier(10_000 * DECIMALS_8 - 1), TradingTier::Bronze);
    assert_eq!(calculate_tier(10_000 * DECIMALS_8), TradingTier::Silver);
    assert_eq!(calculate_tier(50_000 * DECIMALS_8 - 1), TradingTier::Silver);
    assert_eq!(calculate_tier(50_000 * DECIMALS_8), TradingTier::Gold);
    assert_eq!(calculate_tier(200_000 * DECIMALS_8 - 1), TradingTier::Gold);
    assert_eq!(calculate_tier(200_000 * DECIMALS_8), TradingTier::Platinum);
    assert_eq!(calculate_tier(u128::MAX), TradingTier::Platinum);
}

#[test]
fn weight_is_volume_times_the_tiers_multiplier() {
    let contract = new_contract(0);
    let calculate_tier_weight =
        |tier: TradingTier, volume: u128| contract.calculate_tier_weight(tier, volume);
    assert_eq!(calculate_tier_weight(TradingTier::Bronze, 1000), 1000);
    assert_eq!(calculate_tier_weight(TradingTier::Silver, 1000), 1200);
    assert_eq!(calculate_tier_weight(TradingTier::Gold, 1000), 1500);
    assert_eq!(calculate_tier_weight(TradingTier::Platinum, 1000), 2000);
    assert_eq!(calculate_tier_weight(TradingTier::Silver, 7), 8);
    assert_eq!(calculate_tier_weight(TradingTier::Bronze, u128::MAX / 100), u128::MAX / 100);
    assert_eq!(calculate_tier_weight(TradingTier::Bronze, u128::MAX / 100 + 1), 0);
    assert_eq!(calculate_tier_weight(TradingTier::Platinum, u128::MAX), 0);
}

/// Rewards with a cooldown of sixty seconds and the given limit of a day.
fn limited(max_daily_volume: u128) -> TradingRewardsContract {
    let mut contract = new_contract(0);
    contract.update_antifraud_parameters(&at(alice(), 0), 1, 60, max_daily_volume).unwrap();
    contract
}

fn position_after(first: u64, volume: u128) -> TradingPosition {
    TradingPosition {
        total_volume: volume,
        monthly_volume: volume,
        daily_volume: volume,
        last_trade_timestamp: first,
        last_daily_reset: first,
        tier: TradingTier::Bronze,
        pending_rewards: 0,
        claimed_rewards: 0,
        trade_count: 1,
        suspicious_flags: 0,
    }
}

#[test]
fn a_trade_updates_the_record() {
    let before = position_after(1000, 500);
    let after = limited(10_000).record_trade(before, 300, 1060).unwrap();
    assert_eq!(
        after,
        TradingPosition {
            total_volume: 800,
            monthly_volume: 800,
            daily_volume: 800,
            last_trade_timestamp: 1060,
            last_daily_reset: 1000,
            tier: TradingTier::Bronze,
            pending_rewards: 0,
            claimed_rewards: 0,
            trade_count: 2,
            suspicious_flags: 0,
        }
    );
    assert_eq!(
        limited(10_000).record_trade(before, 300, 1059),
        Err(TradingRewardsError::TradeCooldownActive)
    );
    // a clock that has not advanced does not count as a cooldown
    assert!(limited(10_000).record_trade(before, 300, 1000).is_ok());
    assert!(limited(10_000).record_trade(before, 300, 999).is_ok());
    assert_eq!(
        limited(10_000).record_trade(before, 9_501, 1060),
        Err(TradingRewardsError::DailyLimitExceeded)
    );
    assert!(limited(10_000).record_trade(before, 9_500, 1060).is_ok());
    assert_eq!(
        limited(u128::MAX).record_trade(before, u128::MAX, 1060),
        Err(TradingRewardsError::Overflow)
    );
}

#[test]
fn volumes_start_anew_after_their_periods() {
    let before = position_after(1000, 500);
    // exactly a day is not over a day
    let after = limited(10_000).record_trade(before, 300, 1000 + DAILY_RESET_PERIOD).unwrap();
    assert_eq!(after.daily_volume, 800);
    assert_eq!(after.last_daily_reset, 1000);
    let after = limited(10_000).record_trade(before, 300, 1001 + DAILY_RESET_PERIOD).unwrap();
    assert_eq!(after.daily_volume, 300);
    assert_eq!(after.last_daily_reset, 1001 + DAILY_RESET_PERIOD);
    assert_eq!(after.monthly_volume, 800);
    assert_eq!(after.total_volume, 800);

    let after = limited(10_000).record_trade(before, 300, 1000 + MONTHLY_RESET_PERIOD).unwrap();
    assert_eq!(after.monthly_volume, 800);
    let after = limited(10_000).record_trade(before, 300, 1001 + MONTHLY_RESET_PERIOD).unwrap();
    assert_eq!(after.monthly_volume, 300);
    assert_eq!(after.total_volume, 800);
    assert_eq!(after.trade_count, 2);

    let mut full = before;
    full.trade_count = u32::MAX;
    assert_eq!(limited(10_000).record_trade(full, 1, 2000), Err(TradingRewardsError::Overflow));
}

#[test]
fn fee_allocation_is_split_nine_to_one() {
    let mut contract = new_contract(0);
    let (payment, event) =
        contract.receive_fee_allocation(&paying(django(), 7, 1005)).unwrap();
    // 1005 * 90 / 100 = 904
    assert_eq!(payment, None);
    assert_eq!(
        event,
        RewardsPoolFunded {
            total_amount: 1005,
            trading_amount: 904,
            staking_amount: 101,
            timestamp: 7,
        }
    );
    assert_eq!(contract.get_stats().0, 904);

    assert_eq!(
        contract.set_staking_contract(&at(bob(), 7), charlie()),
        Err(TradingRewardsError::AccessDenied)
    );
    assert_eq!(
        contract.set_staking_contract(&at(alice(), 7), AccountId::zero()),
        Err(TradingRewardsError::ZeroAddress)
    );
    contract.set_staking_contract(&at(alice(), 7), charlie()).unwrap();
    assert_eq!(contract.staking_contract(), Some(charlie()));
    let (payment, event) = contract.receive_fee_allocation(&paying(django(), 8, 100)).unwrap();
    assert_eq!(payment, Some((charlie(), 10)));
    assert_eq!(event.trading_amount, 90);
    assert_eq!(contract.get_stats().0, 994);
    let (payment, _) = contract.receive_fee_allocation(&paying(django(), 8, 1)).unwrap();
    assert_eq!(payment, Some((charlie(), 1)));
    assert_eq!(contract.get_stats().0, 994);

    assert_eq!(
        contract.receive_fee_allocation(&paying(django(), 8, 0)),
        Err(TradingRewardsError::InsufficientBalance)
    );
    assert_eq!(
        contract.receive_fee_allocation(&paying(django(), 8, u128::MAX)),
        Err(TradingRewardsError::Overflow)
    );
    contract.pause_contract(&at(alice(), 8)).unwrap();
    assert_eq!(
        contract.receive_fee_allocation(&paying(django(), 8, 100)),
        Err(TradingRewardsError::ContractPaused)
    );
    assert_eq!(contract.get_stats().0, 994);
}

#[test]
fn distribution_needs_a_pool_and_leaves_it_without_weight() {
    let mut contract = new_contract(0);
    assert_eq!(
        contract.distribute_rewards(&at(alice(), 1)),
        Err(TradingRewardsError::InsufficientBalance)
    );
    assert_eq!(
        contract.distribute_rewards(&at(bob(), 1)),
        Err(TradingRewardsError::AccessDenied)
    );
    contract.fund_rewards_pool(&paying(alice(), 1, 500)).unwrap();
    assert_eq!(
        contract.fund_rewards_pool(&paying(bob(), 1, 500)),
        Err(TradingRewardsError::AccessDenied)
    );
    assert_eq!(
        contract.fund_rewards_pool(&paying(alice(), 1, u128::MAX)),
        Err(TradingRewardsError::Overflow)
    );
    // no trader has changed tier yet: no weight is recorded
    assert_eq!(contract.distribute_rewards(&at(alice(), 2)), Ok(None));
    assert_eq!(contract.get_stats(), (500, 0, 0, 0));
    // the guard is free again after each of them
    assert!(contract.acquire_reentrancy_guard().is_ok());
    assert_eq!(
        contract.distribute_rewards(&at(alice(), 2)),
        Err(TradingRewardsError::ReentrancyGuardActive)
    );
    assert_eq!(
        contract.claim_rewards(&at(alice(), 2)),
        Err(TradingRewardsError::ReentrancyGuardActive)
    );
    assert_eq!(
        contract.claim_epoch_rewards(&at(alice(), 2), 0),
        Err(TradingRewardsError::ReentrancyGuardActive)
    );
    assert_eq!(
        contract.track_trading_volume(&at(bob(), 2), charlie(), 500 * DECIMALS_8),
        Err(TradingRewardsError::ReentrancyGuardActive)
    );
    assert_eq!(contract.get_trading_position(charlie()), None);
    contract.release_reentrancy_guard();
}

#[test]
fn epochs_end_when_their_time_is_up() {
    let mut contract = new_contract(0);
    assert_eq!(contract.finalize_current_epoch(&at(alice(), 1)), Ok(None));
    assert_eq!(
        contract.finalize_current_epoch(&at(bob(), 1)),
        Err(TradingRewardsError::AccessDenied)
    );
    contract.start_new_epoch(&at(alice(), 100)).unwrap();
    let ended = EpochEnded { epoch_id: 1, total_rewards: 0, active_traders: 0, end_time: 200 };
    assert_eq!(contract.finalize_current_epoch(&at(alice(), 200)), Ok(Some(ended)));
    // before the epoch's time is up nothing ends
    let (epoch, ended, _) = contract
        .start_new_epoch(&at(alice(), 100 + DEFAULT_EPOCH_DURATION - 1))
        .unwrap();
    assert_eq!((epoch, ended), (2, None));
    let start = 100 + DEFAULT_EPOCH_DURATION - 1;
    let (epoch, ended, started) = contract
        .start_new_epoch(&at(alice(), start + DEFAULT_EPOCH_DURATION))
        .unwrap();
    assert_eq!(epoch, 3);
    assert_eq!(
        ended,
        Some(EpochEnded {
            epoch_id: 2,
            total_rewards: 0,
            active_traders: 0,
            end_time: start + DEFAULT_EPOCH_DURATION,
        })
    );
    assert_eq!(started.start_time, start + DEFAULT_EPOCH_DURATION);
    assert_eq!(contract.get_epoch_rewards(1, charlie()), 0);
    assert_eq!(
        contract.claim_epoch_rewards(&at(charlie(), 5), 1),
        Err(TradingRewardsError::NoRewardsToClaim)
    );
    assert_eq!(
        contract.set_epoch_duration(&at(alice(), 5), 3599),
        Err(TradingRewardsError::VolumeTooSmall)
    );
    assert_eq!(
        contract.set_epoch_duration(&at(bob(), 5), 3600),
        Err(TradingRewardsError::AccessDenied)
    );
    contract.pause_contract(&at(alice(), 5)).unwrap();
    assert_eq!(
        contract.start_new_epoch(&at(alice(), 5)),
        Err(TradingRewardsError::ContractPaused)
    );
    assert_eq!(contract.get_current_epoch_info().0, 3);
}

#[test]
fn flags_accumulate_up_to_the_blacklist() {
    let mut contract = new_contract(0);
    // an address without a record is left alone
    contract.flag_suspicious_address(&at(alice(), 1), charlie(), 200).unwrap();
    assert!(!contract.is_blacklisted(charlie()));
    assert_eq!(contract.get_trading_position(charlie()), None);

    contract.track_trading_volume(&at(bob(), 2), charlie(), 500 * DECIMALS_8).unwrap();
    assert_eq!(
        contract.flag_suspicious_address(&at(bob(), 3), charlie(), 1),
        Err(TradingRewardsError::AccessDenied)
    );
    contract.flag_suspicious_address(&at(alice(), 3), charlie(), 0b0000_0101).unwrap();
    contract.flag_suspicious_address(&at(alice(), 3), charlie(), 0b0100_0100).unwrap();
    assert_eq!(
        contract.get_trading_position(charlie()).unwrap().suspicious_flags,
        0b0100_0101
    );
    assert!(!contract.is_blacklisted(charlie()));
    assert_eq!(contract.get_security_stats(), (0, 1));
    contract.flag_suspicious_address(&at(alice(), 3), charlie(), 128).unwrap();
    assert_eq!(
        contract.get_trading_position(charlie()).unwrap().suspicious_flags,
        0b1100_0101
    );
    assert!(contract.is_blacklisted(charlie()));
    assert_eq!(contract.get_security_stats(), (1, 1));
    assert_eq!(
        contract.blacklist_address(&at(alice(), 3), AccountId::zero()),
        Err(TradingRewardsError::ZeroAddress)
    );
    assert_eq!(
        contract.blacklist_address(&at(bob(), 3), django()),
        Err(TradingRewardsError::AccessDenied)
    );
    assert_eq!(
        contract.unblacklist_address(&at(bob(), 3), charlie()),
        Err(TradingRewardsError::AccessDenied)
    );
    assert!(contract.is_blacklisted(charlie()));
}

#[test]
fn a_refused_trade_leaves_no_trace() {
    let mut contract = new_contract(0);
    // above the limit of a day at once
    assert_eq!(
        contract.track_trading_volume(&at(bob(), 5), charlie(), 1_000_001 * DECIMALS_8),
        Err(TradingRewardsError::DailyLimitExceeded)
    );
    assert_eq!(contract.get_trading_position(charlie()), None);
    assert!(!contract.is_active(charlie()));
    assert_eq!(contract.get_security_stats(), (0, 0));
    assert!(contract.acquire_reentrancy_guard().is_ok());
    contract.release_reentrancy_guard();
    // the limit itself is within
    let (counted, upgraded) = contract
        .track_trading_volume(&at(bob(), 5), charlie(), 1_000_000 * DECIMALS_8)
        .unwrap();
    assert_eq!(counted.new_tier, TradingTier::Platinum);
    assert_eq!(upgraded.unwrap().new_tier, TradingTier::Platinum);
    assert_eq!(contract.calculate_total_weight(), 2_000_000 * DECIMALS_8);
    assert_eq!(
        contract.update_antifraud_parameters(&at(bob(), 5), 1, 1, 1),
        Err(TradingRewardsError::AccessDenied)
    );
    let event = contract.update_antifraud_parameters(&at(alice(), 5), 1, 2, 3).unwrap();
    assert_eq!(event, contract.emit_antifraud_parameters_updated(&at(bob(), 5)));
    assert_eq!(contract.get_antifraud_parameters(), (1, 2, 3));
    assert_eq!(contract.ensure_admin(&at(alice(), 0)), Ok(()));
    assert_eq!(contract.ensure_authorized_router(&at(bob(), 0)), Ok(()));
    assert_eq!(contract.ensure_not_paused(), Ok(()));
}
