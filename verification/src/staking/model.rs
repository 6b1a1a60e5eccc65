//! The staking as a mathematical state, and each operation as a function
//! from one state to the next.
use vstd::prelude::*;

use crate::staking::types::{
    ContractPaused, EarlyAdopterTier, GovernanceBonusAwarded, GovernanceBonusClaimed,
    OwnershipTransferred, ProposalExecuted, ProposalFeeChanged, ProposalView, RewardsClaimed,
    StakePosition, Staked, StakingError, StakingTier, TradingRewardsContractChanged,
    TradingRewardsDistributed, TradingRewardsDistributionProgress, TradingRewardsFunded,
    TreasuryAddressChanged, Unstaked, Voted, BASIS_POINTS, BRONZE_REWARD_RATE, EARLY_PENALTY_RATE,
    GOLD_DURATION, GOLD_REWARD_RATE, LARGE_STAKER_MULTIPLIER, LARGE_STAKE_THRESHOLD,
    MAX_DISTRIBUTION_BATCH, MAX_DURATION, MAX_PROPOSAL_FEE, MAX_STAKERS, MEDIUM_STAKER_MULTIPLIER,
    MEDIUM_STAKE_THRESHOLD, MIN_DURATION, MIN_PROPOSAL_POWER, MIN_STAKE, MIN_VOTES_FOR_BONUS,
    PLATINUM_DURATION, PLATINUM_REWARD_RATE, PROPOSAL_FEE, SILVER_DURATION, SILVER_REWARD_RATE,
    SMALL_STAKER_MULTIPLIER, TOP_1000_BONUS, TOP_1000_DURATION, TOP_1000_PLACES, TOP_100_BONUS,
    TOP_100_DURATION, TOP_100_PLACES, TOP_500_BONUS, TOP_500_DURATION, TOP_500_PLACES, VOTING_BONUS,
    VOTING_PERIOD, WHALE_STAKER_MULTIPLIER, WHALE_STAKE_THRESHOLD, YEAR_IN_BLOCKS,
};
use crate::types::{AccountId, Balance, Env, Timestamp};

verus! {

/// The state of the staking.
pub struct StakingView {
    pub owner: AccountId,
    pub treasury_address: AccountId,
    pub paused: bool,
    /// An operation is under way.
    pub locked: bool,
    pub total_staked: Balance,
    pub total_rewards_distributed: Balance,
    pub active_stakers: u32,
    pub stakes: Map<AccountId, StakePosition>,
    /// The stakers in the order in which they staked, by slot.
    pub staker_addresses: Map<u32, AccountId>,
    /// The next free slot.
    pub staker_index: u32,
    pub proposals: Map<u32, ProposalView>,
    pub next_proposal_id: u32,
    pub user_votes: Map<(u32, AccountId), bool>,
    pub approved_projects: Map<AccountId, bool>,
    pub trading_rewards_pool: Balance,
    pub trading_rewards_contract: Option<AccountId>,
    pub tier_multipliers: Map<StakingTier, u32>,
    pub governance_bonuses: Map<AccountId, Balance>,
    pub early_adopter_counts: Map<EarlyAdopterTier, u32>,
    pub total_trading_rewards_distributed: Balance,
    pub current_proposal_fee: Balance,
}

/// The tier of a stake of the given duration.
pub open spec fn staking_tier_for(duration: u64) -> StakingTier {
    if duration >= PLATINUM_DURATION {
        StakingTier::Platinum
    } else if duration >= GOLD_DURATION {
        StakingTier::Gold
    } else if duration >= SILVER_DURATION {
        StakingTier::Silver
    } else {
        StakingTier::Bronze
    }
}

/// The multiplier of a stake by its size, in basis points.
pub open spec fn quantity_multiplier(amount: Balance) -> u32 {
    if amount >= WHALE_STAKE_THRESHOLD {
        WHALE_STAKER_MULTIPLIER
    } else if amount >= LARGE_STAKE_THRESHOLD {
        LARGE_STAKER_MULTIPLIER
    } else if amount >= MEDIUM_STAKE_THRESHOLD {
        MEDIUM_STAKER_MULTIPLIER
    } else {
        SMALL_STAKER_MULTIPLIER
    }
}

/// The bonus of an early staker, in basis points, while it lasts.
pub open spec fn early_adopter_bonus(stake: StakePosition, now: Timestamp) -> u32 {
    let since_start: int = if now >= stake.start_time {
        now - stake.start_time
    } else {
        0
    };
    match stake.early_adopter_tier {
        EarlyAdopterTier::Top100 => if since_start <= TOP_100_DURATION {
            TOP_100_BONUS
        } else {
            0
        },
        EarlyAdopterTier::Top500 => if since_start <= TOP_500_DURATION {
            TOP_500_BONUS
        } else {
            0
        },
        EarlyAdopterTier::Top1000 => if since_start <= TOP_1000_DURATION {
            TOP_1000_BONUS
        } else {
            0
        },
        EarlyAdopterTier::Regular => 0,
    }
}

/// The weight of a tier in the distribution of trading rewards, in
/// hundredths.
pub open spec fn tier_weight_of(tier: StakingTier) -> u32 {
    match tier {
        StakingTier::Bronze => 100,
        StakingTier::Silver => 120,
        StakingTier::Gold => 150,
        StakingTier::Platinum => 200,
    }
}

/// The weight of a stake in the distribution of trading rewards: its amount
/// times the weight of its tier times the multiplier of its size, over ten
/// thousand; nothing where a product does not fit.
pub open spec fn staker_weight(stake: StakePosition) -> Balance {
    if stake.amount * tier_weight_of(stake.tier) > u128::MAX || stake.amount * tier_weight_of(
        stake.tier,
    ) * quantity_multiplier(stake.amount) > u128::MAX {
        0
    } else {
        (stake.amount * tier_weight_of(stake.tier) * quantity_multiplier(stake.amount)
            / 10000) as u128
    }
}

/// The rewards that a stake has earned since they were last claimed, at a
/// yearly `rate` in basis points: the rate on the amount for the time, times
/// the multiplier of the stake's size, plus the early staker's bonus, each
/// step rounded down.
pub open spec fn pending_rewards(rate: u32, stake: StakePosition, now: Timestamp) -> Result<
    Balance,
    StakingError,
> {
    if now < stake.last_claim {
        Err(StakingError::Overflow)
    } else {
        let time_staked = now - stake.last_claim;
        if stake.amount * rate > u128::MAX || stake.amount * rate * time_staked > u128::MAX {
            Err(StakingError::Overflow)
        } else {
            let base = stake.amount * rate * time_staked / (BASIS_POINTS as int) / (
            YEAR_IN_BLOCKS as int);
            if base * quantity_multiplier(stake.amount) > u128::MAX {
                Err(StakingError::Overflow)
            } else {
                let sized = base * quantity_multiplier(stake.amount) / (BASIS_POINTS as int);
                if sized * (BASIS_POINTS + early_adopter_bonus(stake, now)) > u128::MAX {
                    Err(StakingError::Overflow)
                } else {
                    Ok(
                        (sized * (BASIS_POINTS + early_adopter_bonus(stake, now)) / (
                        BASIS_POINTS as int)) as u128,
                    )
                }
            }
        }
    }
}

/// The rewards of a stake and the penalty for ending it now: a part of the
/// amount where the stake's duration is not over, and else nothing.
pub open spec fn rewards_and_penalty(rate: u32, stake: StakePosition, now: Timestamp) -> Result<
    (Balance, Balance),
    StakingError,
> {
    match pending_rewards(rate, stake, now) {
        Err(e) => Err(e),
        Ok(rewards) => if now < stake.start_time {
            Err(StakingError::Overflow)
        } else if now - stake.start_time < stake.duration {
            if stake.amount * EARLY_PENALTY_RATE > u128::MAX {
                Err(StakingError::Overflow)
            } else {
                Ok((rewards, (stake.amount * EARLY_PENALTY_RATE / (BASIS_POINTS as int)) as u128))
            }
        } else {
            Ok((rewards, 0))
        },
    }
}

/// Whether `token` is approved in a table of approvals.
pub open spec fn is_approved(approved: Map<AccountId, bool>, token: AccountId) -> bool {
    approved.dom().contains(token) && approved[token]
}

/// The approvals after the first `n` of `tokens` were listed in a batch, and
/// the places in `tokens` of those that were listed: the zero account and
/// tokens that are approved already are passed over.
pub open spec fn batch_listing(approved: Map<AccountId, bool>, tokens: Seq<AccountId>, n: nat) -> (
    Map<AccountId, bool>,
    Seq<int>,
)
    decreases n,
{
    if n == 0 {
        (approved, Seq::empty())
    } else {
        let (so_far, listed) = batch_listing(approved, tokens, (n - 1) as nat);
        let token = tokens[n - 1];
        if token.spec_is_zero() || is_approved(so_far, token) {
            (so_far, listed)
        } else {
            (so_far.insert(token, true), listed.push(n - 1))
        }
    }
}

/// The active stake in slot `slot`, with its staker.
pub open spec fn stake_in_slot(
    stakes: Map<AccountId, StakePosition>,
    addresses: Map<u32, AccountId>,
    slot: u32,
) -> Option<(AccountId, StakePosition)> {
    if addresses.dom().contains(slot) && stakes.dom().contains(addresses[slot])
        && stakes[addresses[slot]].active {
        Some((addresses[slot], stakes[addresses[slot]]))
    } else {
        None
    }
}

/// The weights of the active stakes in the first `n` slots, added up.
pub open spec fn weight_total(
    stakes: Map<AccountId, StakePosition>,
    addresses: Map<u32, AccountId>,
    n: nat,
) -> nat
    decreases n,
{
    if n == 0 {
        0
    } else {
        weight_total(stakes, addresses, (n - 1) as nat) + (match stake_in_slot(
            stakes,
            addresses,
            (n - 1) as u32,
        ) {
            Some((_, stake)) => staker_weight(stake) as nat,
            None => 0,
        })
    }
}

/// The stakes after the stake in `slot` received its part of `amount`, and
/// whether it received anything. `None` where a number does not fit.
pub open spec fn slot_rewarded(
    stakes: Map<AccountId, StakePosition>,
    addresses: Map<u32, AccountId>,
    amount: Balance,
    total_weight: Balance,
    slot: u32,
) -> Option<(Map<AccountId, StakePosition>, bool)> {
    match stake_in_slot(stakes, addresses, slot) {
        None => Some((stakes, false)),
        Some((staker, stake)) => if amount * staker_weight(stake) > u128::MAX {
            None
        } else {
            let reward = amount * staker_weight(stake) / (total_weight as int);
            if reward == 0 {
                Some((stakes, false))
            } else if stake.pending_rewards + reward > u128::MAX {
                None
            } else {
                Some(
                    (
                        stakes.insert(
                            staker,
                            StakePosition {
                                pending_rewards: (stake.pending_rewards + reward) as u128,
                                ..stake
                            },
                        ),
                        true,
                    ),
                )
            }
        },
    }
}

/// The stakes after the slots from `start` up to `end` received their parts
/// of `amount`, one after the other, and how many received something.
pub open spec fn slots_rewarded(
    stakes: Map<AccountId, StakePosition>,
    addresses: Map<u32, AccountId>,
    amount: Balance,
    total_weight: Balance,
    start: nat,
    end: nat,
) -> Option<(Map<AccountId, StakePosition>, nat)>
    decreases end,
{
    if end <= start {
        Some((stakes, 0))
    } else {
        match slots_rewarded(stakes, addresses, amount, total_weight, start, (end - 1) as nat) {
            None => None,
            Some((so_far, count)) => match slot_rewarded(
                so_far,
                addresses,
                amount,
                total_weight,
                (end - 1) as u32,
            ) {
                None => None,
                Some((after, rewarded)) => Some(
                    (
                        after,
                        if rewarded {
                            count + 1
                        } else {
                            count
                        },
                    ),
                ),
            },
        }
    }
}

/// The weights of more slots add up to no less.
pub proof fn lemma_weight_total_grows(
    stakes: Map<AccountId, StakePosition>,
    addresses: Map<u32, AccountId>,
    n: nat,
    m: nat,
)
    requires
        n <= m,
    ensures
        weight_total(stakes, addresses, n) <= weight_total(stakes, addresses, m),
    decreases m,
{
    if n < m {
        lemma_weight_total_grows(stakes, addresses, n, (m - 1) as nat);
    }
}

/// Where the slots up to some slot cannot all be rewarded, neither can the
/// slots up to a later one.
pub proof fn lemma_slots_fail_on(
    stakes: Map<AccountId, StakePosition>,
    addresses: Map<u32, AccountId>,
    amount: Balance,
    total_weight: Balance,
    start: nat,
    failed: nat,
    end: nat,
)
    requires
        failed <= end,
        slots_rewarded(stakes, addresses, amount, total_weight, start, failed) is None,
    ensures
        slots_rewarded(stakes, addresses, amount, total_weight, start, end) is None,
    decreases end,
{
    if failed < end {
        lemma_slots_fail_on(
            stakes,
            addresses,
            amount,
            total_weight,
            start,
            failed,
            (end - 1) as nat,
        );
    }
}

/// A page of a distribution: what was processed, whether the distribution is
/// complete, and where the next page begins.
pub type Page = (u32, bool, Option<u32>);

impl StakingView {
    /// The state as it is made by `owner`.
    pub open spec fn initial(owner: AccountId, treasury_address: AccountId) -> StakingView {
        StakingView {
            owner,
            treasury_address,
            paused: false,
            locked: false,
            total_staked: 0,
            total_rewards_distributed: 0,
            active_stakers: 0,
            stakes: Map::empty(),
            staker_addresses: Map::empty(),
            staker_index: 0,
            proposals: Map::empty(),
            next_proposal_id: 1,
            user_votes: Map::empty(),
            approved_projects: Map::empty(),
            trading_rewards_pool: 0,
            trading_rewards_contract: None,
            tier_multipliers: Map::<StakingTier, u32>::empty().insert(
                StakingTier::Bronze,
                BRONZE_REWARD_RATE,
            ).insert(StakingTier::Silver, SILVER_REWARD_RATE).insert(
                StakingTier::Gold,
                GOLD_REWARD_RATE,
            ).insert(StakingTier::Platinum, PLATINUM_REWARD_RATE),
            governance_bonuses: Map::empty(),
            early_adopter_counts: Map::<EarlyAdopterTier, u32>::empty().insert(
                EarlyAdopterTier::Regular,
                0,
            ).insert(EarlyAdopterTier::Top1000, 0).insert(EarlyAdopterTier::Top500, 0).insert(
                EarlyAdopterTier::Top100,
                0,
            ),
            total_trading_rewards_distributed: 0,
            current_proposal_fee: PROPOSAL_FEE,
        }
    }

    /// The stake of `account`, if it has one.
    pub open spec fn stake_of(self, account: AccountId) -> Option<StakePosition> {
        if self.stakes.dom().contains(account) {
            Some(self.stakes[account])
        } else {
            None
        }
    }

    /// The stake of `account` while it is active, and else nothing.
    pub open spec fn voting_power(self, account: AccountId) -> Balance {
        match self.stake_of(account) {
            Some(stake) => if stake.active {
                stake.amount
            } else {
                0
            },
            None => 0,
        }
    }

    /// The proposal with the number `proposal_id`, if there is one.
    pub open spec fn proposal(self, proposal_id: u32) -> Option<ProposalView> {
        if self.proposals.dom().contains(proposal_id) {
            Some(self.proposals[proposal_id])
        } else {
            None
        }
    }

    /// Whether `voter` has voted on a proposal.
    pub open spec fn has_voted(self, proposal_id: u32, voter: AccountId) -> bool {
        self.user_votes.dom().contains((proposal_id, voter)) && self.user_votes[(
            proposal_id,
            voter,
        )]
    }

    /// The bonuses that `staker` can take.
    pub open spec fn bonus_of(self, staker: AccountId) -> Balance {
        if self.governance_bonuses.dom().contains(staker) {
            self.governance_bonuses[staker]
        } else {
            0
        }
    }

    /// The yearly reward of a tier, in basis points.
    pub open spec fn rate_of(self, tier: StakingTier) -> u32 {
        if self.tier_multipliers.dom().contains(tier) {
            self.tier_multipliers[tier]
        } else {
            BRONZE_REWARD_RATE
        }
    }

    /// How many stakers an early tier has taken.
    pub open spec fn early_count(self, tier: EarlyAdopterTier) -> u32 {
        if self.early_adopter_counts.dom().contains(tier) {
            self.early_adopter_counts[tier]
        } else {
            0
        }
    }

    /// The early tier of the next staker: the first hundred are the top
    /// hundred, the next five hundred the top five hundred, the next thousand
    /// the top thousand.
    pub open spec fn next_early_tier(self) -> EarlyAdopterTier {
        if self.early_count(EarlyAdopterTier::Top100) < TOP_100_PLACES {
            EarlyAdopterTier::Top100
        } else if self.early_count(EarlyAdopterTier::Top500) < TOP_500_PLACES {
            EarlyAdopterTier::Top500
        } else if self.early_count(EarlyAdopterTier::Top1000) < TOP_1000_PLACES {
            EarlyAdopterTier::Top1000
        } else {
            EarlyAdopterTier::Regular
        }
    }

    /// The counts of the early tiers after the next staker took its place.
    pub open spec fn early_counts_after(self) -> Map<EarlyAdopterTier, u32> {
        match self.next_early_tier() {
            EarlyAdopterTier::Regular => self.early_adopter_counts,
            tier => self.early_adopter_counts.insert(tier, (self.early_count(tier) + 1) as u32),
        }
    }

    /// The caller stakes the value that came with the call for `duration`.
    pub open spec fn stake(self, env: Env, duration: u64) -> Result<
        (StakingView, Staked),
        StakingError,
    > {
        let amount = env.transferred_value;
        if self.paused {
            Err(StakingError::ContractPaused)
        } else if self.locked {
            Err(StakingError::Reentrancy)
        } else if amount < MIN_STAKE {
            Err(StakingError::MinimumStakeNotMet)
        } else if duration < MIN_DURATION || duration > MAX_DURATION {
            Err(StakingError::InvalidDuration)
        } else if self.active_stakers >= MAX_STAKERS {
            Err(StakingError::MaxStakersReached)
        } else if self.stake_of(env.caller) is Some && self.stake_of(env.caller)->Some_0.active {
            Err(StakingError::NoActiveStake)
        } else if self.staker_index + 1 > u32::MAX || self.total_staked + amount > u128::MAX {
            Err(StakingError::Overflow)
        } else {
            Ok(
                (
                    StakingView {
                        stakes: self.stakes.insert(
                            env.caller,
                            StakePosition {
                                amount,
                                start_time: env.block_timestamp,
                                duration,
                                last_claim: env.block_timestamp,
                                pending_rewards: 0,
                                active: true,
                                tier: staking_tier_for(duration),
                                early_adopter_tier: self.next_early_tier(),
                                governance_participation: 0,
                            },
                        ),
                        staker_addresses: self.staker_addresses.insert(
                            self.staker_index,
                            env.caller,
                        ),
                        staker_index: (self.staker_index + 1) as u32,
                        active_stakers: (self.active_stakers + 1) as u32,
                        total_staked: (self.total_staked + amount) as u128,
                        early_adopter_counts: self.early_counts_after(),
                        ..self
                    },
                    Staked {
                        staker: env.caller,
                        amount,
                        duration,
                        timestamp: env.block_timestamp,
                    },
                ),
            )
        }
    }

    /// The caller ends its stake: the host is to pay it the stake and its
    /// rewards, less the penalty.
    pub open spec fn unstake(self, env: Env) -> Result<
        (StakingView, (Balance, Unstaked)),
        StakingError,
    > {
        if self.paused {
            Err(StakingError::ContractPaused)
        } else if self.locked {
            Err(StakingError::Reentrancy)
        } else {
            match self.stake_of(env.caller) {
                None => Err(StakingError::NoActiveStake),
                Some(stake) => if !stake.active {
                    Err(StakingError::NoActiveStake)
                } else {
                    match rewards_and_penalty(self.rate_of(stake.tier), stake, env.block_timestamp) {
                        Err(e) => Err(e),
                        Ok((rewards, penalty)) => if stake.amount + rewards > u128::MAX
                            || stake.amount + rewards < penalty || self.active_stakers == 0
                            || self.total_staked < stake.amount || self.total_rewards_distributed
                            + rewards > u128::MAX {
                            Err(StakingError::Overflow)
                        } else {
                            Ok(
                                (
                                    StakingView {
                                        stakes: self.stakes.insert(
                                            env.caller,
                                            StakePosition { active: false, ..stake },
                                        ),
                                        active_stakers: (self.active_stakers - 1) as u32,
                                        total_staked: (self.total_staked - stake.amount) as u128,
                                        total_rewards_distributed: (self.total_rewards_distributed
                                            + rewards) as u128,
                                        ..self
                                    },
                                    (
                                        (stake.amount + rewards - penalty) as u128,
                                        Unstaked {
                                            staker: env.caller,
                                            amount: stake.amount,
                                            rewards,
                                            penalty,
                                            timestamp: env.block_timestamp,
                                        },
                                    ),
                                ),
                            )
                        },
                    }
                },
            }
        }
    }

    /// The caller takes the rewards that its stake has earned since they were
    /// last taken; the host is to pay them out. Where there are none, nothing
    /// happens.
    pub open spec fn claim_rewards(self, env: Env) -> Result<
        (StakingView, Option<(Balance, RewardsClaimed)>),
        StakingError,
    > {
        if self.paused {
            Err(StakingError::ContractPaused)
        } else if self.locked {
            Err(StakingError::Reentrancy)
        } else {
            match self.stake_of(env.caller) {
                None => Err(StakingError::NoActiveStake),
                Some(stake) => if !stake.active {
                    Err(StakingError::NoActiveStake)
                } else {
                    match pending_rewards(self.rate_of(stake.tier), stake, env.block_timestamp) {
                        Err(e) => Err(e),
                        Ok(rewards) => if rewards == 0 {
                            Ok((self, None))
                        } else if self.total_rewards_distributed + rewards > u128::MAX {
                            Err(StakingError::Overflow)
                        } else {
                            Ok(
                                (
                                    StakingView {
                                        stakes: self.stakes.insert(
                                            env.caller,
                                            StakePosition {
                                                last_claim: env.block_timestamp,
                                                pending_rewards: 0,
                                                ..stake
                                            },
                                        ),
                                        total_rewards_distributed: (self.total_rewards_distributed
                                            + rewards) as u128,
                                        ..self
                                    },
                                    Some(
                                        (
                                            rewards,
                                            RewardsClaimed {
                                                staker: env.caller,
                                                amount: rewards,
                                                timestamp: env.block_timestamp,
                                            },
                                        ),
                                    ),
                                ),
                            )
                        },
                    }
                },
            }
        }
    }

    /// When the vote on a proposal made at `now` ends.
    pub open spec fn deadline_from(now: Timestamp) -> Timestamp {
        if now + VOTING_PERIOD > u64::MAX {
            u64::MAX
        } else {
            (now + VOTING_PERIOD) as u64
        }
    }

    /// What stands in the way of a proposal by the caller, with the fee that
    /// came with the call.
    pub open spec fn proposal_error(self, env: Env) -> Option<StakingError> {
        if env.transferred_value < self.current_proposal_fee {
            Some(StakingError::InsufficientFee)
        } else if self.voting_power(env.caller) < MIN_PROPOSAL_POWER {
            Some(StakingError::InsufficientVotingPower)
        } else if self.next_proposal_id + 1 > u32::MAX {
            Some(StakingError::Overflow)
        } else {
            None
        }
    }

    /// The state with a new proposal entered under the next number.
    pub open spec fn proposed(self, proposal: ProposalView) -> StakingView {
        StakingView {
            proposals: self.proposals.insert(self.next_proposal_id, proposal),
            next_proposal_id: (self.next_proposal_id + 1) as u32,
            ..self
        }
    }

    /// The caller proposes to list the token of a project.
    pub open spec fn create_proposal(
        self,
        env: Env,
        name: Seq<char>,
        description: Seq<char>,
        token_address: AccountId,
    ) -> Result<StakingView, StakingError> {
        if self.paused {
            Err(StakingError::ContractPaused)
        } else if token_address.spec_is_zero() {
            Err(StakingError::ZeroAddress)
        } else if self.proposal_error(env) is Some {
            Err(self.proposal_error(env)->Some_0)
        } else {
            Ok(
                self.proposed(
                    ProposalView {
                        id: self.next_proposal_id,
                        name,
                        description,
                        token_address,
                        proposer: env.caller,
                        votes_for: 0,
                        votes_against: 0,
                        voting_deadline: Self::deadline_from(env.block_timestamp),
                        executed: false,
                        active: true,
                        fee: env.transferred_value,
                        fee_refunded: false,
                        new_fee_amount: None,
                    },
                ),
            )
        }
    }

    /// The caller proposes another proposal fee.
    pub open spec fn propose_fee_change(
        self,
        env: Env,
        new_fee: Balance,
        name: Seq<char>,
        description: Seq<char>,
    ) -> Result<StakingView, StakingError> {
        if self.paused {
            Err(StakingError::ContractPaused)
        } else if new_fee == 0 || new_fee > MAX_PROPOSAL_FEE {
            Err(StakingError::InvalidAmount)
        } else if self.proposal_error(env) is Some {
            Err(self.proposal_error(env)->Some_0)
        } else {
            Ok(
                self.proposed(
                    ProposalView {
                        id: self.next_proposal_id,
                        name,
                        description,
                        token_address: AccountId::spec_zero(),
                        proposer: env.caller,
                        votes_for: 0,
                        votes_against: 0,
                        voting_deadline: Self::deadline_from(env.block_timestamp),
                        executed: false,
                        active: true,
                        fee: env.transferred_value,
                        fee_refunded: false,
                        new_fee_amount: Some(new_fee),
                    },
                ),
            )
        }
    }

    /// The caller votes on a proposal with the weight of its stake.
    pub open spec fn vote(self, env: Env, proposal_id: u32, in_favor: bool) -> Result<
        (StakingView, Voted),
        StakingError,
    > {
        if self.paused {
            Err(StakingError::ContractPaused)
        } else {
            match self.proposal(proposal_id) {
                None => Err(StakingError::InvalidProposal),
                Some(proposal) => {
                    let power = self.voting_power(env.caller);
                    if !proposal.active {
                        Err(StakingError::InvalidProposal)
                    } else if env.block_timestamp > proposal.voting_deadline {
                        Err(StakingError::VotingPeriodExpired)
                    } else if self.has_voted(proposal_id, env.caller) {
                        Err(StakingError::AlreadyVoted)
                    } else if power == 0 {
                        Err(StakingError::InsufficientVotingPower)
                    } else if (in_favor && proposal.votes_for + power > u128::MAX) || (!in_favor
                        && proposal.votes_against + power > u128::MAX) {
                        Err(StakingError::Overflow)
                    } else {
                        Ok(
                            (
                                StakingView {
                                    proposals: self.proposals.insert(
                                        proposal_id,
                                        if in_favor {
                                            ProposalView {
                                                votes_for: (proposal.votes_for + power) as u128,
                                                ..proposal
                                            }
                                        } else {
                                            ProposalView {
                                                votes_against: (proposal.votes_against
                                                    + power) as u128,
                                                ..proposal
                                            }
                                        },
                                    ),
                                    user_votes: self.user_votes.insert(
                                        (proposal_id, env.caller),
                                        true,
                                    ),
                                    ..self
                                },
                                Voted {
                                    proposal_id,
                                    voter: env.caller,
                                    vote_power: power,
                                    in_favor,
                                    timestamp: env.block_timestamp,
                                },
                            ),
                        )
                    }
                },
            }
        }
    }

    /// The proposal fee is set to `new_fee`.
    pub open spec fn execute_fee_change(self, env: Env, proposal_id: u32, new_fee: Balance)
        -> Result<(StakingView, ProposalFeeChanged), StakingError> {
        if new_fee == 0 || new_fee > MAX_PROPOSAL_FEE {
            Err(StakingError::InvalidAmount)
        } else {
            Ok(
                (
                    StakingView { current_proposal_fee: new_fee, ..self },
                    ProposalFeeChanged {
                        proposal_id,
                        old_fee: self.current_proposal_fee,
                        new_fee,
                        changed_by: env.caller,
                        timestamp: env.block_timestamp,
                    },
                ),
            )
        }
    }

    /// A proposal whose vote has ended is carried out: approved where more
    /// voted for it than against it, it lists its token or sets the fee; and
    /// else a tenth of its fee joins the stakers' pool of trading rewards.
    pub open spec fn execute_proposal(self, env: Env, proposal_id: u32) -> Result<
        (StakingView, (Option<ProposalFeeChanged>, ProposalExecuted)),
        StakingError,
    > {
        match self.proposal(proposal_id) {
            None => Err(StakingError::InvalidProposal),
            Some(proposal) => {
                let approved = proposal.votes_for > proposal.votes_against;
                let closed = ProposalView {
                    fee_refunded: true,
                    executed: true,
                    active: false,
                    ..proposal
                };
                let event = ProposalExecuted {
                    proposal_id,
                    approved,
                    votes_for: proposal.votes_for,
                    votes_against: proposal.votes_against,
                    timestamp: env.block_timestamp,
                };
                if !proposal.active || proposal.executed {
                    Err(StakingError::InvalidProposal)
                } else if env.block_timestamp < proposal.voting_deadline {
                    Err(StakingError::VotingPeriodExpired)
                } else if approved {
                    match proposal.new_fee_amount {
                        Some(new_fee) => match self.execute_fee_change(env, proposal_id, new_fee) {
                            Err(e) => Err(e),
                            Ok((state, changed)) => Ok(
                                (
                                    StakingView {
                                        proposals: self.proposals.insert(proposal_id, closed),
                                        ..state
                                    },
                                    (Some(changed), event),
                                ),
                            ),
                        },
                        None => Ok(
                            (
                                StakingView {
                                    approved_projects: self.approved_projects.insert(
                                        proposal.token_address,
                                        true,
                                    ),
                                    proposals: self.proposals.insert(proposal_id, closed),
                                    ..self
                                },
                                (None, event),
                            ),
                        ),
                    }
                } else {
                    Ok(
                        (
                            StakingView {
                                trading_rewards_pool: if proposal.fee_refunded {
                                    self.trading_rewards_pool
                                } else if self.trading_rewards_pool + proposal.fee / 10
                                    > u128::MAX {
                                    u128::MAX
                                } else {
                                    (self.trading_rewards_pool + proposal.fee / 10) as u128
                                },
                                proposals: self.proposals.insert(proposal_id, closed),
                                ..self
                            },
                            (None, event),
                        ),
                    )
                }
            },
        }
    }

    /// The owner lists a token without a vote.
    pub open spec fn admin_list_token(self, env: Env, token_address: AccountId) -> Result<
        StakingView,
        StakingError,
    > {
        if env.caller != self.owner {
            Err(StakingError::AccessDenied)
        } else if token_address.spec_is_zero() {
            Err(StakingError::ZeroAddress)
        } else if is_approved(self.approved_projects, token_address) {
            Err(StakingError::AlreadyListed)
        } else {
            Ok(
                StakingView {
                    approved_projects: self.approved_projects.insert(token_address, true),
                    ..self
                },
            )
        }
    }

    /// The owner takes a token off the list.
    pub open spec fn admin_delist_token(self, env: Env, token_address: AccountId) -> Result<
        StakingView,
        StakingError,
    > {
        if env.caller != self.owner {
            Err(StakingError::AccessDenied)
        } else if !is_approved(self.approved_projects, token_address) {
            Err(StakingError::TokenNotListed)
        } else {
            Ok(
                StakingView {
                    approved_projects: self.approved_projects.remove(token_address),
                    ..self
                },
            )
        }
    }

    /// The owner names another treasury.
    pub open spec fn set_treasury_address(self, env: Env, new_treasury: AccountId) -> Result<
        (StakingView, TreasuryAddressChanged),
        StakingError,
    > {
        if env.caller != self.owner {
            Err(StakingError::AccessDenied)
        } else if new_treasury.spec_is_zero() {
            Err(StakingError::ZeroAddress)
        } else {
            Ok(
                (
                    StakingView { treasury_address: new_treasury, ..self },
                    TreasuryAddressChanged {
                        old_treasury: self.treasury_address,
                        new_treasury,
                        admin: env.caller,
                        timestamp: env.block_timestamp,
                    },
                ),
            )
        }
    }

    /// The owner hands the staking to another.
    pub open spec fn transfer_ownership(self, env: Env, new_owner: AccountId) -> Result<
        (StakingView, OwnershipTransferred),
        StakingError,
    > {
        if env.caller != self.owner {
            Err(StakingError::AccessDenied)
        } else if new_owner.spec_is_zero() {
            Err(StakingError::ZeroAddress)
        } else {
            Ok(
                (
                    StakingView { owner: new_owner, ..self },
                    OwnershipTransferred {
                        old_owner: self.owner,
                        new_owner,
                        timestamp: env.block_timestamp,
                    },
                ),
            )
        }
    }

    /// The owner names the contract of the trading rewards.
    pub open spec fn set_trading_rewards_contract(self, env: Env, contract_address: AccountId)
        -> Result<(StakingView, TradingRewardsContractChanged), StakingError> {
        if env.caller != self.owner {
            Err(StakingError::AccessDenied)
        } else if contract_address.spec_is_zero() {
            Err(StakingError::ZeroAddress)
        } else {
            Ok(
                (
                    StakingView { trading_rewards_contract: Some(contract_address), ..self },
                    TradingRewardsContractChanged {
                        old_contract: self.trading_rewards_contract,
                        new_contract: contract_address,
                        admin: env.caller,
                        timestamp: env.block_timestamp,
                    },
                ),
            )
        }
    }

    /// The contract of the trading rewards adds the value that came with the
    /// call to the stakers' pool.
    pub open spec fn fund_staking_rewards(self, env: Env) -> Result<
        (StakingView, TradingRewardsFunded),
        StakingError,
    > {
        if self.paused {
            Err(StakingError::ContractPaused)
        } else if self.trading_rewards_contract != Some(env.caller) {
            Err(StakingError::AccessDenied)
        } else if env.transferred_value == 0 {
            Err(StakingError::ZeroAmount)
        } else if self.trading_rewards_pool + env.transferred_value > u128::MAX {
            Err(StakingError::Overflow)
        } else {
            Ok(
                (
                    StakingView {
                        trading_rewards_pool: (self.trading_rewards_pool
                            + env.transferred_value) as u128,
                        ..self
                    },
                    TradingRewardsFunded {
                        amount: env.transferred_value,
                        timestamp: env.block_timestamp,
                    },
                ),
            )
        }
    }

    /// The owner shares the stakers' pool of trading rewards out over one
    /// page of slots: each active stake in them has its part, by weight,
    /// added to its pending rewards. The page that completes the distribution
    /// empties the pool.
    pub open spec fn distribute_trading_rewards_paginated(
        self,
        env: Env,
        start_index: Option<u32>,
        batch_size: Option<u32>,
    ) -> Result<
        (
            StakingView,
            (
                Page,
                Option<TradingRewardsDistributed>,
                Option<TradingRewardsDistributionProgress>,
            ),
        ),
        StakingError,
    > {
        let total_weight = weight_total(
            self.stakes,
            self.staker_addresses,
            self.staker_index as nat,
        );
        let start: u32 = match start_index {
            Some(start) => start,
            None => 0,
        };
        let max_batch: u32 = match batch_size {
            Some(size) => if size < MAX_DISTRIBUTION_BATCH {
                size
            } else {
                MAX_DISTRIBUTION_BATCH
            },
            None => MAX_DISTRIBUTION_BATCH,
        };
        let end: int = if start + max_batch < self.staker_index {
            start + max_batch
        } else {
            self.staker_index as int
        };
        let processed: int = if end > start {
            end - start
        } else {
            0
        };
        let is_complete = end >= self.staker_index;
        if env.caller != self.owner {
            Err(StakingError::AccessDenied)
        } else if self.paused {
            Err(StakingError::ContractPaused)
        } else if self.locked {
            Err(StakingError::Reentrancy)
        } else if self.trading_rewards_pool == 0 {
            Ok((self, ((0, true, None), None, None)))
        } else if total_weight > u128::MAX {
            Err(StakingError::Overflow)
        } else if total_weight == 0 {
            Ok((self, ((0, true, None), None, None)))
        } else if start + max_batch > u32::MAX {
            Err(StakingError::Overflow)
        } else {
            match slots_rewarded(
                self.stakes,
                self.staker_addresses,
                self.trading_rewards_pool,
                total_weight as u128,
                start as nat,
                end as nat,
            ) {
                None => Err(StakingError::Overflow),
                Some((stakes, count)) => if is_complete {
                    if self.total_trading_rewards_distributed + self.trading_rewards_pool
                        > u128::MAX {
                        Err(StakingError::Overflow)
                    } else {
                        Ok(
                            (
                                StakingView {
                                    stakes,
                                    total_trading_rewards_distributed: (
                                    self.total_trading_rewards_distributed
                                        + self.trading_rewards_pool) as u128,
                                    trading_rewards_pool: 0,
                                    ..self
                                },
                                (
                                    (processed as u32, true, None),
                                    Some(
                                        TradingRewardsDistributed {
                                            total_amount: self.trading_rewards_pool,
                                            stakers_count: count as u32,
                                            timestamp: env.block_timestamp,
                                        },
                                    ),
                                    None,
                                ),
                            ),
                        )
                    }
                } else {
                    Ok(
                        (
                            StakingView { stakes, ..self },
                            (
                                (processed as u32, false, Some(end as u32)),
                                None,
                                if start == 0 {
                                    Some(
                                        TradingRewardsDistributionProgress {
                                            processed_stakers: processed as u32,
                                            rewards_distributed: count as u32,
                                            start_index: start,
                                            end_index: end as u32,
                                            is_complete: false,
                                            timestamp: env.block_timestamp,
                                        },
                                    )
                                } else {
                                    None
                                },
                            ),
                        ),
                    )
                },
            }
        }
    }

    /// The state with `bonus` added to the bonuses of `staker`, and the
    /// announcement of it; `None` where the sum does not fit.
    pub open spec fn awarded(self, env: Env, staker: AccountId, bonus_type: u8, bonus: Balance)
        -> Option<(StakingView, GovernanceBonusAwarded)> {
        if self.bonus_of(staker) + bonus > u128::MAX {
            None
        } else {
            Some(
                (
                    StakingView {
                        governance_bonuses: self.governance_bonuses.insert(
                            staker,
                            (self.bonus_of(staker) + bonus) as u128,
                        ),
                        ..self
                    },
                    GovernanceBonusAwarded {
                        staker,
                        bonus_type,
                        amount: bonus,
                        timestamp: env.block_timestamp,
                    },
                ),
            )
        }
    }

    /// The owner records that `voter` took part in a vote; every eighth time
    /// earns a bonus. Who has no active stake is passed over.
    pub open spec fn record_vote_participation(self, env: Env, voter: AccountId) -> Result<
        (StakingView, Option<GovernanceBonusAwarded>),
        StakingError,
    > {
        if env.caller != self.owner {
            Err(StakingError::AccessDenied)
        } else {
            match self.stake_of(voter) {
                None => Ok((self, None)),
                Some(stake) => if !stake.active {
                    Ok((self, None))
                } else if stake.governance_participation + 1 > u32::MAX {
                    Err(StakingError::Overflow)
                } else {
                    let counted = StakingView {
                        stakes: self.stakes.insert(
                            voter,
                            StakePosition {
                                governance_participation: (stake.governance_participation
                                    + 1) as u32,
                                ..stake
                            },
                        ),
                        ..self
                    };
                    if (stake.governance_participation + 1) % (MIN_VOTES_FOR_BONUS as int) == 0 {
                        match counted.awarded(env, voter, 1, VOTING_BONUS) {
                            None => Err(StakingError::Overflow),
                            Some((state, event)) => Ok((state, Some(event))),
                        }
                    } else {
                        Ok((counted, None))
                    }
                },
            }
        }
    }

    /// The owner awards a bonus of the given type and size to `proposer`.
    pub open spec fn reward_proposal(self, env: Env, proposer: AccountId, bonus_type: u8, bonus:
        Balance) -> Result<(StakingView, GovernanceBonusAwarded), StakingError> {
        if env.caller != self.owner {
            Err(StakingError::AccessDenied)
        } else {
            match self.awarded(env, proposer, bonus_type, bonus) {
                None => Err(StakingError::Overflow),
                Some(out) => Ok(out),
            }
        }
    }

    /// The caller takes its bonuses; the host is to pay them out.
    pub open spec fn claim_governance_bonus(self, env: Env) -> Result<
        (StakingView, (Balance, GovernanceBonusClaimed)),
        StakingError,
    > {
        if self.paused {
            Err(StakingError::ContractPaused)
        } else if self.locked {
            Err(StakingError::Reentrancy)
        } else if self.bonus_of(env.caller) == 0 {
            Err(StakingError::NoRewardsToClaim)
        } else {
            Ok(
                (
                    StakingView {
                        governance_bonuses: self.governance_bonuses.remove(env.caller),
                        ..self
                    },
                    (
                        self.bonus_of(env.caller),
                        GovernanceBonusClaimed {
                            staker: env.caller,
                            amount: self.bonus_of(env.caller),
                            timestamp: env.block_timestamp,
                        },
                    ),
                ),
            )
        }
    }
}

} // verus!
