use uniswap_v2::staking::contract::decimal_string;
use uniswap_v2::staking::types::{
    IMPLEMENTATION_BONUS, MAX_DURATION, MIN_DURATION, MIN_PROPOSAL_POWER, MIN_STAKE,
    PROPOSAL_BONUS, PROPOSAL_FEE, VOTING_BONUS, VOTING_PERIOD,
};
use uniswap_v2::staking::{
    AdminBatchListingCompleted, ContractPaused, ContractUnpaused, EarlyAdopterTier,
    GovernanceBonusAwarded, GovernanceBonusClaimed, OwnershipTransferred, ProposalExecuted,
    ProposalFeeChanged, RewardsClaimed, StakePosition, Staked, StakingContract, StakingError,
    StakingTier, TradingRewardsContractChanged, TradingRewardsDistributed,
    TradingRewardsDistributionProgress, TradingRewardsFunded, TreasuryAddressChanged, Unstaked,
    Voted,
};
use uniswap_v2::types::{AccountId, Env};

fn alice() -> AccountId {
    AccountId::from([1u8; 32])
}

fn bob() -> AccountId {
    AccountId::from([2u8; 32])
}

fn charlie() -> AccountId {
    AccountId::from([3u8; 32])
}

fn django() -> AccountId {
    AccountId::from([4u8; 32])
}

fn treasury() -> AccountId {
    AccountId::from([9u8; 32])
}

fn at(caller: AccountId, now: u64) -> Env {
    Env { caller, block_timestamp: now, transferred_value: 0, balance: 0 }
}

fn paying(caller: AccountId, now: u64, value: u128) -> Env {
    Env { caller, block_timestamp: now, transferred_value: value, balance: value }
}

/// A staking owned by alice.
fn new_staking() -> StakingContract {
    StakingContract::new(&at(alice(), 0), treasury())
}

#[test]
fn test_new_staking_contract() {
    let contract = new_staking();
    let (total_staked, total_rewards, active_stakers) = contract.get_stats();

    assert_eq!(total_staked, 0);
    assert_eq!(total_rewards, 0);
    assert_eq!(active_stakers, 0);
    assert_eq!(contract.owner(), alice());
    assert_eq!(contract.treasury_address(), treasury());
    assert_eq!(contract.get_current_proposal_fee(), PROPOSAL_FEE);
    assert_eq!(contract.get_listing_stats(), (0, 0, 0));
}

#[test]
fn test_stake_success() {
    let mut contract = new_staking();
    let result = contract.stake(&paying(alice(), 0, MIN_STAKE), MIN_DURATION);

    assert!(result.is_ok());
    assert_eq!(
        result.unwrap(),
        Staked { staker: alice(), amount: MIN_STAKE, duration: MIN_DURATION, timestamp: 0 }
    );

    let stake = contract.get_stake(alice()).unwrap();
    assert_eq!(stake.amount, MIN_STAKE);
    assert_eq!(stake.duration, MIN_DURATION);
    assert!(stake.active);
    assert_eq!(contract.get_stats(), (MIN_STAKE, 0, 1));
}

#[test]
fn test_stake_insufficient_amount() {
    let mut contract = new_staking();
    let result = contract.stake(&paying(alice(), 0, 1000), MIN_DURATION);

    assert_eq!(result, Err(StakingError::MinimumStakeNotMet));
}

#[test]
fn test_stake_invalid_duration() {
    let mut contract = new_staking();
    let result = contract.stake(&paying(alice(), 0, MIN_STAKE), 1000);

    assert_eq!(result, Err(StakingError::InvalidDuration));
}

#[test]
fn test_create_proposal_success() {
    let mut contract = new_staking();

    let stake_result = contract.stake(&paying(alice(), 0, MIN_PROPOSAL_POWER), MIN_DURATION);
    assert!(stake_result.is_ok());

    let proposal_result = contract.create_proposal(
        &paying(alice(), 0, MIN_PROPOSAL_POWER),
        "Test Project".to_string(),
        "A test project for listing".to_string(),
        bob(),
    );

    assert!(proposal_result.is_ok());
    let (proposal_id, event) = proposal_result.unwrap();
    assert_eq!(proposal_id, 1);
    assert_eq!(event.proposal_id, 1);
    assert_eq!(event.project_name, "Test Project");
    assert_eq!(event.proposer, alice());
    assert_eq!(event.token_address, bob());
    assert_eq!(event.voting_deadline, VOTING_PERIOD);

    let proposal = contract.get_proposal(proposal_id).unwrap();
    assert_eq!(proposal.name, "Test Project");
    assert_eq!(proposal.description, "A test project for listing");
    assert_eq!(proposal.proposer, alice());
    assert!(proposal.active);
    assert_eq!(proposal.fee, MIN_PROPOSAL_POWER);
    assert_eq!(proposal.new_fee_amount, None);
    assert_eq!(contract.get_listing_stats(), (1, 1, 0));
}

#[test]
fn test_vote_success() {
    let mut contract = new_staking();
    let env = paying(alice(), 0, MIN_PROPOSAL_POWER);

    contract.stake(&env, MIN_DURATION).unwrap();
    let (proposal_id, _) = contract
        .create_proposal(&env, "Test Project".to_string(), "Description".to_string(), bob())
        .unwrap();

    let vote_result = contract.vote(&env, proposal_id, true);
    assert!(vote_result.is_ok());
    assert_eq!(
        vote_result.unwrap(),
        Voted {
            proposal_id,
            voter: alice(),
            vote_power: MIN_PROPOSAL_POWER,
            in_favor: true,
            timestamp: 0,
        }
    );

    let proposal = contract.get_proposal(proposal_id).unwrap();
    assert_eq!(proposal.votes_for, MIN_PROPOSAL_POWER);
    assert_eq!(proposal.votes_against, 0);
}

#[test]
fn test_voting_power() {
    let mut contract = new_staking();

    let power = contract.get_voting_power(alice()).unwrap();
    assert_eq!(power, 0);

    contract.stake(&paying(alice(), 0, MIN_STAKE), MIN_DURATION).unwrap();

    let power = contract.get_voting_power(alice()).unwrap();
    assert_eq!(power, MIN_STAKE);
}

#[test]
fn test_admin_functions() {
    let mut contract = new_staking();

    assert_eq!(
        contract.pause(&at(alice(), 3)),
        Ok(ContractPaused { admin: alice(), timestamp: 3 })
    );

    assert_eq!(
        contract.unpause(&at(alice(), 4)),
        Ok(ContractUnpaused { admin: alice(), timestamp: 4 })
    );

    assert_eq!(
        contract.transfer_ownership(&at(alice(), 5), bob()),
        Ok(OwnershipTransferred { old_owner: alice(), new_owner: bob(), timestamp: 5 })
    );

    assert_eq!(contract.pause(&at(alice(), 6)), Err(StakingError::AccessDenied));
    assert_eq!(contract.owner(), bob());
}

#[test]
fn test_contract_paused() {
    let mut contract = new_staking();

    contract.pause(&at(alice(), 0)).unwrap();

    let result = contract.stake(&paying(alice(), 0, MIN_STAKE), MIN_DURATION);
    assert_eq!(result, Err(StakingError::ContractPaused));
}

#[test]
fn staking_test_zero_address_validation() {
    let mut contract = new_staking();
    let env = paying(alice(), 0, MIN_PROPOSAL_POWER);
    contract.stake(&env, MIN_DURATION).unwrap();

    let result = contract.create_proposal(
        &env,
        "Test".to_string(),
        "Description".to_string(),
        AccountId::from([0u8; 32]),
    );

    assert_eq!(result.err(), Some(StakingError::ZeroAddress));
}

#[test]
fn test_proposal_fee_governance_works() {
    let mut staking = new_staking();
    let alice = AccountId::from([0x2; 32]);

    assert!(staking.stake(&paying(alice, 0, 2_000_000_000_000), 30 * 24 * 60 * 30).is_ok());

    assert_eq!(staking.get_current_proposal_fee(), 100_000_000_000);

    let (proposal_id, event) = staking
        .propose_fee_change(
            &paying(alice, 10, 100_000_000_000),
            50_000_000_000,
            "Reduzir barreira de entrada".to_string(),
        )
        .unwrap();
    assert_eq!(event.proposal_id, proposal_id);
    assert_eq!(event.current_fee, 100_000_000_000);
    assert_eq!(event.proposed_fee, 50_000_000_000);
    assert_eq!(event.justification, "Reduzir barreira de entrada");
    assert_eq!(event.voting_deadline, 10 + VOTING_PERIOD);

    let proposal = staking.get_proposal(proposal_id).unwrap();
    assert_eq!(proposal.name, "MUDANCA_TAXA_PROPOSTA");
    assert_eq!(
        proposal.description,
        "Alterar taxa de proposta para 500 LUNES. Justificativa: Reduzir barreira de entrada"
    );
    assert_eq!(proposal.token_address, AccountId::zero());
    assert_eq!(proposal.new_fee_amount, Some(50_000_000_000));

    assert!(staking.vote(&at(alice, 10), proposal_id, true).is_ok());

    let later = 10 + VOTING_PERIOD + 1;
    let (changed, executed) = staking.execute_proposal(&at(alice, later), proposal_id).unwrap();
    assert_eq!(
        changed,
        Some(ProposalFeeChanged {
            proposal_id,
            old_fee: 100_000_000_000,
            new_fee: 50_000_000_000,
            changed_by: alice,
            timestamp: later,
        })
    );
    assert_eq!(
        executed,
        ProposalExecuted {
            proposal_id,
            approved: true,
            votes_for: 2_000_000_000_000,
            votes_against: 0,
            timestamp: later,
        }
    );

    assert_eq!(staking.get_current_proposal_fee(), 50_000_000_000);
}

#[test]
fn test_proposal_fee_governance_validation() {
    let mut staking = new_staking();
    let alice = AccountId::from([0x2; 32]);

    assert!(staking.stake(&paying(alice, 0, 2_000_000_000_000), 30 * 24 * 60 * 30).is_ok());

    let env = paying(alice, 10, 100_000_000_000);
    assert_eq!(
        staking.propose_fee_change(&env, 0, "Invalid".to_string()).err(),
        Some(StakingError::InvalidAmount)
    );

    assert_eq!(
        staking.propose_fee_change(&env, 20_000_000_000_000, "Too high".to_string()).err(),
        Some(StakingError::InvalidAmount)
    );

    let env = paying(alice, 10, 50_000_000_000);
    assert_eq!(
        staking.propose_fee_change(&env, 30_000_000_000, "Valid amount".to_string()).err(),
        Some(StakingError::InsufficientFee)
    );
    assert_eq!(staking.get_listing_stats().0, 0);
}

#[test]
fn numbers_in_decimal_digits() {
    assert_eq!(decimal_string(0), "0");
    assert_eq!(decimal_string(7), "7");
    assert_eq!(decimal_string(10), "10");
    assert_eq!(decimal_string(1234567890), "1234567890");
    assert_eq!(decimal_string(100_000), "100000");
    assert_eq!(decimal_string(u128::MAX), "340282366920938463463374607431768211455");
}

#[test]
fn stakes_have_tiers_by_duration_and_order() {
    let mut contract = new_staking();
    assert_eq!(contract.calculate_staking_tier(MIN_DURATION), StakingTier::Bronze);
    assert_eq!(contract.calculate_staking_tier(31 * 43200 - 1), StakingTier::Bronze);
    assert_eq!(contract.calculate_staking_tier(31 * 43200), StakingTier::Silver);
    assert_eq!(contract.calculate_staking_tier(91 * 43200 - 1), StakingTier::Silver);
    assert_eq!(contract.calculate_staking_tier(91 * 43200), StakingTier::Gold);
    assert_eq!(contract.calculate_staking_tier(181 * 43200 - 1), StakingTier::Gold);
    assert_eq!(contract.calculate_staking_tier(181 * 43200), StakingTier::Platinum);
    assert_eq!(contract.calculate_staking_tier(MAX_DURATION), StakingTier::Platinum);

    assert_eq!(contract.get_quantity_multiplier(MIN_STAKE), 10000);
    assert_eq!(contract.get_quantity_multiplier(1_000_000_000_000 - 1), 10000);
    assert_eq!(contract.get_quantity_multiplier(1_000_000_000_000), 11000);
    assert_eq!(contract.get_quantity_multiplier(5_000_000_000_000), 12000);
    assert_eq!(contract.get_quantity_multiplier(20_000_000_000_000), 13000);

    contract.stake(&paying(bob(), 50, 2_000_000_000_000), 181 * 43200).unwrap();
    assert_eq!(
        contract.get_stake(bob()),
        Some(StakePosition {
            amount: 2_000_000_000_000,
            start_time: 50,
            duration: 181 * 43200,
            last_claim: 50,
            pending_rewards: 0,
            active: true,
            tier: StakingTier::Platinum,
            early_adopter_tier: EarlyAdopterTier::Top100,
            governance_participation: 0,
        })
    );
    for _ in 0..99 {
        assert_eq!(contract.determine_early_adopter_tier(), EarlyAdopterTier::Top100);
    }
    assert_eq!(contract.determine_early_adopter_tier(), EarlyAdopterTier::Top500);
    for _ in 0..499 {
        contract.determine_early_adopter_tier();
    }
    assert_eq!(contract.determine_early_adopter_tier(), EarlyAdopterTier::Top1000);
    for _ in 0..999 {
        contract.determine_early_adopter_tier();
    }
    assert_eq!(contract.determine_early_adopter_tier(), EarlyAdopterTier::Regular);
    assert_eq!(contract.determine_early_adopter_tier(), EarlyAdopterTier::Regular);
}

#[test]
fn rewards_grow_with_time_rate_size_and_bonus() {
    let mut contract = new_staking();
    contract.stake(&paying(bob(), 0, MIN_STAKE), MIN_DURATION).unwrap();
    // 10^11 * 800 * 10^6 / 10^4 / 15768000 = 507356671, and half as much again
    assert_eq!(contract.get_pending_rewards(&at(bob(), 1_000_000), bob()), Ok(761_035_006));
    // after a year the bonus is over: 8 per cent of the stake
    assert_eq!(contract.get_pending_rewards(&at(bob(), 15_768_000), bob()), Ok(8_000_000_000));
    assert_eq!(contract.get_pending_rewards(&at(bob(), 0), bob()), Ok(0));
    assert_eq!(
        contract.get_pending_rewards(&at(bob(), 0), charlie()),
        Err(StakingError::NoActiveStake)
    );

    let stake = contract.get_stake(bob()).unwrap();
    assert_eq!(contract.get_early_adopter_bonus(&stake, 3_888_000), 5000);
    assert_eq!(contract.get_early_adopter_bonus(&stake, 3_888_001), 0);
    assert_eq!(contract.calculate_pending_rewards(&stake, 1_000_000), Ok(761_035_006));
    assert_eq!(
        contract.calculate_rewards_and_penalty(&stake, 1_000),
        Ok((761_034, 5_000_000_000))
    );
    assert_eq!(
        contract.calculate_rewards_and_penalty(&stake, MIN_DURATION),
        Ok((230_136_985, 0))
    );

    let mut large = stake;
    large.amount = 2_000_000_000_000;
    assert_eq!(contract.calculate_pending_rewards(&large, 302_400), Ok(5_063_013_697));
    large.last_claim = 10;
    assert_eq!(contract.calculate_pending_rewards(&large, 9), Err(StakingError::Overflow));
    large.last_claim = 0;
    large.amount = u128::MAX;
    assert_eq!(contract.calculate_pending_rewards(&large, 9), Err(StakingError::Overflow));
    large.amount = u128::MAX / 800;
    assert_eq!(contract.calculate_pending_rewards(&large, 2), Err(StakingError::Overflow));
    assert_eq!(contract.calculate_pending_rewards(&large, 0), Ok(0));
}

#[test]
fn claiming_resets_the_clock() {
    let mut contract = new_staking();
    contract.stake(&paying(bob(), 0, MIN_STAKE), MIN_DURATION).unwrap();
    assert_eq!(contract.claim_rewards(&at(bob(), 0)), Ok(None));
    assert_eq!(
        contract.claim_rewards(&at(bob(), 1_000_000)),
        Ok(Some((
            761_035_006,
            RewardsClaimed { staker: bob(), amount: 761_035_006, timestamp: 1_000_000 }
        )))
    );
    assert_eq!(contract.get_stake(bob()).unwrap().last_claim, 1_000_000);
    assert_eq!(contract.get_stats(), (MIN_STAKE, 761_035_006, 1));
    assert_eq!(contract.claim_rewards(&at(bob(), 1_000_000)), Ok(None));
    assert_eq!(
        contract.claim_rewards(&at(charlie(), 1_000_000)),
        Err(StakingError::NoActiveStake)
    );
    assert_eq!(contract.claim_rewards(&at(bob(), 999_999)), Err(StakingError::Overflow));
    assert_eq!(contract.get_stats(), (MIN_STAKE, 761_035_006, 1));
}

#[test]
fn leaving_early_costs_a_penalty() {
    let mut contract = new_staking();
    contract.stake(&paying(bob(), 0, MIN_STAKE), MIN_DURATION).unwrap();
    contract.stake(&paying(charlie(), 0, MIN_STAKE), MIN_DURATION).unwrap();
    assert_eq!(
        contract.stake(&paying(bob(), 0, MIN_STAKE), MIN_DURATION),
        Err(StakingError::NoActiveStake)
    );

    // before the duration is over: 5 per cent of the stake
    let (payout, event) = contract.unstake(&at(bob(), 1_000)).unwrap();
    assert_eq!(payout, MIN_STAKE + 761_034 - 5_000_000_000);
    assert_eq!(
        event,
        Unstaked {
            staker: bob(),
            amount: MIN_STAKE,
            rewards: 761_034,
            penalty: 5_000_000_000,
            timestamp: 1_000,
        }
    );
    assert_eq!(contract.get_stats(), (MIN_STAKE, 761_034, 1));
    assert!(!contract.get_stake(bob()).unwrap().active);
    assert_eq!(contract.get_voting_power(bob()), Ok(0));
    assert_eq!(contract.unstake(&at(bob(), 1_000)), Err(StakingError::NoActiveStake));
    assert_eq!(contract.unstake(&at(django(), 1_000)), Err(StakingError::NoActiveStake));

    // at the end of the duration: none
    let (payout, event) = contract.unstake(&at(charlie(), MIN_DURATION)).unwrap();
    assert_eq!(payout, MIN_STAKE + 230_136_985);
    assert_eq!(event.penalty, 0);
    assert_eq!(contract.get_stats(), (0, 761_034 + 230_136_985, 0));

    // who left may stake again, in a new slot
    assert!(contract.stake(&paying(bob(), 2_000, MIN_STAKE), MAX_DURATION).is_ok());
    assert_eq!(contract.get_stake(bob()).unwrap().tier, StakingTier::Platinum);
    assert_eq!(
        contract.stake(&paying(django(), 2_000, MIN_STAKE), MAX_DURATION + 1),
        Err(StakingError::InvalidDuration)
    );
}

#[test]
fn votes_and_their_refusals() {
    let mut contract = new_staking();
    contract.stake(&paying(alice(), 0, MIN_PROPOSAL_POWER), MIN_DURATION).unwrap();
    contract.stake(&paying(bob(), 0, MIN_STAKE), MIN_DURATION).unwrap();
    assert_eq!(
        contract
            .create_proposal(&paying(bob(), 0, PROPOSAL_FEE), "A".to_string(), "B".to_string(), django())
            .err(),
        Some(StakingError::InsufficientVotingPower)
    );
    assert_eq!(
        contract
            .create_proposal(
                &paying(alice(), 0, PROPOSAL_FEE - 1),
                "A".to_string(),
                "B".to_string(),
                django()
            )
            .err(),
        Some(StakingError::InsufficientFee)
    );
    let (id, _) = contract
        .create_proposal(&paying(alice(), 5, PROPOSAL_FEE), "A".to_string(), "B".to_string(), django())
        .unwrap();
    assert_eq!(contract.vote(&at(bob(), 6), 7, true), Err(StakingError::InvalidProposal));
    assert_eq!(
        contract.vote(&at(charlie(), 6), id, true),
        Err(StakingError::InsufficientVotingPower)
    );
    assert!(contract.vote(&at(bob(), 6), id, false).is_ok());
    assert_eq!(contract.vote(&at(bob(), 6), id, true), Err(StakingError::AlreadyVoted));
    assert_eq!(
        contract.vote(&at(alice(), 6 + VOTING_PERIOD), id, true),
        Err(StakingError::VotingPeriodExpired)
    );
    assert_eq!(
        contract.execute_proposal(&at(alice(), 4 + VOTING_PERIOD), id),
        Err(StakingError::VotingPeriodExpired)
    );
    assert_eq!(
        contract.execute_proposal(&at(alice(), 5 + VOTING_PERIOD), 9),
        Err(StakingError::InvalidProposal)
    );
    // rejected: a tenth of the fee joins the stakers' pool
    let (changed, executed) =
        contract.execute_proposal(&at(charlie(), 5 + VOTING_PERIOD), id).unwrap();
    assert_eq!(changed, None);
    assert_eq!(
        executed,
        ProposalExecuted {
            proposal_id: id,
            approved: false,
            votes_for: 0,
            votes_against: MIN_STAKE,
            timestamp: 5 + VOTING_PERIOD,
        }
    );
    assert_eq!(contract.trading_rewards_pool(), PROPOSAL_FEE / 10);
    assert!(!contract.is_project_approved(django()));
    let proposal = contract.get_proposal(id).unwrap();
    assert!(proposal.executed && !proposal.active && proposal.fee_refunded);
    assert_eq!(
        contract.execute_proposal(&at(charlie(), 5 + VOTING_PERIOD), id),
        Err(StakingError::InvalidProposal)
    );
    assert_eq!(contract.vote(&at(alice(), 6), id, true), Err(StakingError::InvalidProposal));

    // approved: the token is listed
    let (id, _) = contract
        .create_proposal(&paying(alice(), 5, PROPOSAL_FEE), "A".to_string(), "B".to_string(), django())
        .unwrap();
    assert_eq!(id, 2);
    contract.vote(&at(alice(), 6), id, true).unwrap();
    contract.vote(&at(bob(), 6), id, false).unwrap();
    let (_, executed) = contract.execute_proposal(&at(bob(), 5 + VOTING_PERIOD), id).unwrap();
    assert!(executed.approved);
    assert!(contract.is_project_approved(django()));
    assert_eq!(contract.trading_rewards_pool(), PROPOSAL_FEE / 10);
}

#[test]
fn the_fee_is_set_within_its_bounds() {
    let mut contract = new_staking();
    assert_eq!(
        contract.execute_fee_change(&at(bob(), 1), 3, 0),
        Err(StakingError::InvalidAmount)
    );
    assert_eq!(
        contract.execute_fee_change(&at(bob(), 1), 3, 10_000_000_000_001),
        Err(StakingError::InvalidAmount)
    );
    assert_eq!(
        contract.execute_fee_change(&at(bob(), 1), 3, 10_000_000_000_000),
        Ok(ProposalFeeChanged {
            proposal_id: 3,
            old_fee: PROPOSAL_FEE,
            new_fee: 10_000_000_000_000,
            changed_by: bob(),
            timestamp: 1,
        })
    );
    assert_eq!(contract.get_current_proposal_fee(), 10_000_000_000_000);
}

#[test]
fn the_owner_lists_and_delists() {
    let mut contract = new_staking();
    assert_eq!(
        contract.admin_list_token(&at(bob(), 1), django(), "x".to_string()).err(),
        Some(StakingError::AccessDenied)
    );
    assert_eq!(
        contract.admin_list_token(&at(alice(), 1), AccountId::zero(), "x".to_string()).err(),
        Some(StakingError::ZeroAddress)
    );
    let event = contract.admin_list_token(&at(alice(), 1), django(), "first".to_string()).unwrap();
    assert_eq!(event.token_address, django());
    assert_eq!(event.admin, alice());
    assert_eq!(event.reason, "first");
    assert_eq!(event.timestamp, 1);
    assert!(contract.is_project_approved(django()));
    assert_eq!(
        contract.admin_list_token(&at(alice(), 1), django(), "x".to_string()).err(),
        Some(StakingError::AlreadyListed)
    );

    let batch = vec![
        (django(), "again".to_string()),
        (AccountId::zero(), "nobody".to_string()),
        (bob(), "second".to_string()),
        (charlie(), "third".to_string()),
        (bob(), "twice".to_string()),
    ];
    let (count, events, done) = contract.admin_batch_list_tokens(&at(alice(), 2), batch).unwrap();
    assert_eq!(count, 2);
    assert_eq!(events.len(), 2);
    assert_eq!((events[0].token_address, events[0].reason.as_str()), (bob(), "second"));
    assert_eq!((events[1].token_address, events[1].reason.as_str()), (charlie(), "third"));
    assert_eq!(events[1].admin, alice());
    assert_eq!(events[1].timestamp, 2);
    assert_eq!(
        done,
        AdminBatchListingCompleted { admin: alice(), tokens_listed: 2, timestamp: 2 }
    );
    assert!(contract.is_project_approved(bob()));
    assert!(contract.is_project_approved(charlie()));

    let too_many: Vec<(AccountId, String)> =
        (0..51).map(|i| (AccountId::from([100 + i as u8; 32]), "many".to_string())).collect();
    assert_eq!(
        contract.admin_batch_list_tokens(&at(alice(), 2), too_many).err(),
        Some(StakingError::TooManyTokens)
    );
    let fifty: Vec<(AccountId, String)> =
        (0..50).map(|i| (AccountId::from([100 + i as u8; 32]), "many".to_string())).collect();
    assert_eq!(contract.admin_batch_list_tokens(&at(alice(), 2), fifty).unwrap().0, 50);
    assert_eq!(
        contract.admin_batch_list_tokens(&at(bob(), 2), Vec::new()).err(),
        Some(StakingError::AccessDenied)
    );

    assert_eq!(
        contract.admin_delist_token(&at(alice(), 3), alice(), "x".to_string()).err(),
        Some(StakingError::TokenNotListed)
    );
    assert_eq!(
        contract.admin_delist_token(&at(bob(), 3), django(), "x".to_string()).err(),
        Some(StakingError::AccessDenied)
    );
    let event = contract.admin_delist_token(&at(alice(), 3), django(), "gone".to_string()).unwrap();
    assert_eq!((event.token_address, event.reason.as_str()), (django(), "gone"));
    assert!(!contract.is_project_approved(django()));
}

#[test]
fn owner_settings() {
    let mut contract = new_staking();
    assert_eq!(
        contract.set_treasury_address(&at(alice(), 1), bob()),
        Ok(TreasuryAddressChanged {
            old_treasury: treasury(),
            new_treasury: bob(),
            admin: alice(),
            timestamp: 1,
        })
    );
    assert_eq!(contract.treasury_address(), bob());
    assert_eq!(
        contract.set_treasury_address(&at(alice(), 1), AccountId::zero()),
        Err(StakingError::ZeroAddress)
    );
    assert_eq!(
        contract.set_treasury_address(&at(bob(), 1), bob()),
        Err(StakingError::AccessDenied)
    );
    assert_eq!(
        contract.transfer_ownership(&at(alice(), 1), AccountId::zero()),
        Err(StakingError::ZeroAddress)
    );
    assert_eq!(
        contract.set_trading_rewards_contract(&at(alice(), 2), charlie()),
        Ok(TradingRewardsContractChanged {
            old_contract: None,
            new_contract: charlie(),
            admin: alice(),
            timestamp: 2,
        })
    );
    assert_eq!(
        contract.set_trading_rewards_contract(&at(alice(), 3), django()).unwrap().old_contract,
        Some(charlie())
    );
    assert_eq!(
        contract.set_trading_rewards_contract(&at(alice(), 3), AccountId::zero()),
        Err(StakingError::ZeroAddress)
    );
    assert_eq!(contract.unpause(&at(bob(), 3)), Err(StakingError::AccessDenied));
    assert_eq!(contract.ensure_owner(&at(alice(), 0)), Ok(()));
    assert_eq!(contract.ensure_not_paused(), Ok(()));
    assert!(!contract.is_paused());
}

#[test]
fn the_stakers_pool_is_funded_by_the_rewards_contract() {
    let mut contract = new_staking();
    assert_eq!(
        contract.fund_staking_rewards(&paying(charlie(), 1, 500)),
        Err(StakingError::AccessDenied)
    );
    contract.set_trading_rewards_contract(&at(alice(), 1), charlie()).unwrap();
    assert_eq!(
        contract.fund_staking_rewards(&paying(bob(), 1, 500)),
        Err(StakingError::AccessDenied)
    );
    assert_eq!(
        contract.fund_staking_rewards(&paying(charlie(), 1, 0)),
        Err(StakingError::ZeroAmount)
    );
    assert_eq!(
        contract.fund_staking_rewards(&paying(charlie(), 1, 500)),
        Ok(TradingRewardsFunded { amount: 500, timestamp: 1 })
    );
    assert_eq!(
        contract.fund_staking_rewards(&paying(charlie(), 1, u128::MAX)),
        Err(StakingError::Overflow)
    );
    assert_eq!(contract.trading_rewards_pool(), 500);
}

#[test]
fn trading_rewards_are_shared_out_by_weight() {
    let mut contract = new_staking();
    contract.set_trading_rewards_contract(&at(alice(), 0), charlie()).unwrap();
    // nothing to share out
    assert_eq!(
        contract.distribute_trading_rewards_paginated(&at(alice(), 1), None, None),
        Ok(((0, true, None), None, None))
    );
    contract.fund_staking_rewards(&paying(charlie(), 1, 1000)).unwrap();
    // nobody to share it with
    assert_eq!(
        contract.distribute_trading_rewards_paginated(&at(alice(), 1), None, None),
        Ok(((0, true, None), None, None))
    );
    assert_eq!(contract.trading_rewards_pool(), 1000);

    contract.stake(&paying(bob(), 1, MIN_STAKE), MIN_DURATION).unwrap();
    contract.stake(&paying(django(), 1, 2_000_000_000_000), MAX_DURATION).unwrap();
    let bob_stake = contract.get_stake(bob()).unwrap();
    let django_stake = contract.get_stake(django()).unwrap();
    // 10^11 * 100 * 10000 / 10000 and 2 * 10^12 * 200 * 11000 / 10000
    assert_eq!(contract.calculate_staker_weight(&bob_stake), 10_000_000_000_000);
    assert_eq!(contract.calculate_staker_weight(&django_stake), 440_000_000_000_000);
    assert_eq!(contract.calculate_total_staker_weight(), Ok(450_000_000_000_000));

    assert_eq!(
        contract.distribute_trading_rewards_paginated(&at(bob(), 2), None, None),
        Err(StakingError::AccessDenied)
    );
    // the first of two pages
    assert_eq!(
        contract.distribute_trading_rewards_paginated(&at(alice(), 2), Some(0), Some(1)),
        Ok((
            (1, false, Some(1)),
            None,
            Some(TradingRewardsDistributionProgress {
                processed_stakers: 1,
                rewards_distributed: 1,
                start_index: 0,
                end_index: 1,
                is_complete: false,
                timestamp: 2,
            })
        ))
    );
    // 1000 * 10 / 450 = 22
    assert_eq!(contract.get_stake(bob()).unwrap().pending_rewards, 22);
    assert_eq!(contract.get_stake(django()).unwrap().pending_rewards, 0);
    assert_eq!(contract.trading_rewards_pool(), 1000);
    // the second page completes the distribution
    assert_eq!(
        contract.distribute_trading_rewards_paginated(&at(alice(), 3), Some(1), Some(5)),
        Ok((
            (1, true, None),
            Some(TradingRewardsDistributed { total_amount: 1000, stakers_count: 1, timestamp: 3 }),
            None
        ))
    );
    // 1000 * 440 / 450 = 977
    assert_eq!(contract.get_stake(django()).unwrap().pending_rewards, 977);
    assert_eq!(contract.trading_rewards_pool(), 0);

    contract.fund_staking_rewards(&paying(charlie(), 4, 1000)).unwrap();
    assert_eq!(
        contract.distribute_trading_rewards(&at(alice(), 4)),
        Ok((
            Some(TradingRewardsDistributed { total_amount: 1000, stakers_count: 2, timestamp: 4 }),
            None
        ))
    );
    assert_eq!(contract.get_stake(bob()).unwrap().pending_rewards, 44);
    assert_eq!(contract.get_stake(django()).unwrap().pending_rewards, 1954);

    // a page beyond the last slot processes nothing and completes
    contract.fund_staking_rewards(&paying(charlie(), 5, 1000)).unwrap();
    assert_eq!(
        contract.distribute_trading_rewards_paginated(&at(alice(), 5), Some(7), None),
        Ok((
            (0, true, None),
            Some(TradingRewardsDistributed { total_amount: 1000, stakers_count: 0, timestamp: 5 }),
            None
        ))
    );
    assert_eq!(contract.get_stake(bob()).unwrap().pending_rewards, 44);
    contract.fund_staking_rewards(&paying(charlie(), 6, 1000)).unwrap();
    assert_eq!(
        contract.distribute_trading_rewards_paginated(&at(alice(), 6), Some(u32::MAX), None),
        Err(StakingError::Overflow)
    );
    assert_eq!(contract.trading_rewards_pool(), 1000);
    assert!(contract.acquire_lock().is_ok());
    assert_eq!(
        contract.distribute_trading_rewards(&at(alice(), 6)),
        Err(StakingError::Reentrancy)
    );
    assert_eq!(contract.stake(&paying(alice(), 6, MIN_STAKE), MIN_DURATION), Err(StakingError::Reentrancy));
    assert_eq!(contract.unstake(&at(bob(), 6)), Err(StakingError::Reentrancy));
    assert_eq!(contract.claim_rewards(&at(bob(), 6)), Err(StakingError::Reentrancy));
    assert_eq!(contract.claim_governance_bonus(&at(bob(), 6)), Err(StakingError::Reentrancy));
    contract.release_lock();
    assert!(contract.distribute_trading_rewards(&at(alice(), 6)).is_ok());
}

#[test]
fn governance_earns_bonuses() {
    let mut contract = new_staking();
    contract.stake(&paying(bob(), 0, MIN_STAKE), MIN_DURATION).unwrap();
    assert_eq!(
        contract.record_vote_participation(&at(bob(), 1), bob()),
        Err(StakingError::AccessDenied)
    );
    assert_eq!(contract.record_vote_participation(&at(alice(), 1), charlie()), Ok(None));
    for _ in 0..7 {
        assert_eq!(contract.record_vote_participation(&at(alice(), 1), bob()), Ok(None));
    }
    assert_eq!(contract.governance_bonus_of(bob()), 0);
    assert_eq!(
        contract.record_vote_participation(&at(alice(), 2), bob()),
        Ok(Some(GovernanceBonusAwarded {
            staker: bob(),
            bonus_type: 1,
            amount: VOTING_BONUS,
            timestamp: 2,
        }))
    );
    assert_eq!(contract.get_stake(bob()).unwrap().governance_participation, 8);
    assert_eq!(contract.governance_bonus_of(bob()), VOTING_BONUS);

    assert_eq!(
        contract.reward_approved_proposal(&at(alice(), 3), bob()),
        Ok(GovernanceBonusAwarded {
            staker: bob(),
            bonus_type: 2,
            amount: PROPOSAL_BONUS,
            timestamp: 3,
        })
    );
    assert_eq!(
        contract.reward_implemented_proposal(&at(alice(), 4), bob()),
        Ok(GovernanceBonusAwarded {
            staker: bob(),
            bonus_type: 3,
            amount: IMPLEMENTATION_BONUS,
            timestamp: 4,
        })
    );
    assert_eq!(
        contract.reward_approved_proposal(&at(bob(), 3), bob()),
        Err(StakingError::AccessDenied)
    );
    let total = VOTING_BONUS + PROPOSAL_BONUS + IMPLEMENTATION_BONUS;
    assert_eq!(contract.governance_bonus_of(bob()), total);
    assert_eq!(
        contract.claim_governance_bonus(&at(charlie(), 5)),
        Err(StakingError::NoRewardsToClaim)
    );
    assert_eq!(
        contract.claim_governance_bonus(&at(bob(), 5)),
        Ok((total, GovernanceBonusClaimed { staker: bob(), amount: total, timestamp: 5 }))
    );
    assert_eq!(contract.governance_bonus_of(bob()), 0);
    assert_eq!(
        contract.claim_governance_bonus(&at(bob(), 5)),
        Err(StakingError::NoRewardsToClaim)
    );
}
