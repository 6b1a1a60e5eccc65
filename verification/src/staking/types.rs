//! Positions, proposals, errors and announcements of the staking.
use vstd::prelude::*;

use crate::mapping::MapKey;
use crate::types::{AccountId, Balance, Timestamp};

verus! {

/// The least stake: a thousand units of the native asset.
pub const MIN_STAKE: Balance = 100_000_000_000;

/// The shortest stake: seven days, in blocks.
pub const MIN_DURATION: u64 = 302_400;

/// The longest stake: a year, in blocks.
pub const MAX_DURATION: u64 = 15_768_000;

/// The yearly reward of each tier, in basis points.
pub const BRONZE_REWARD_RATE: u32 = 800;

/// The yearly reward of silver stakes, in basis points.
pub const SILVER_REWARD_RATE: u32 = 1000;

/// The yearly reward of gold stakes, in basis points.
pub const GOLD_REWARD_RATE: u32 = 1200;

/// The yearly reward of platinum stakes, in basis points.
pub const PLATINUM_REWARD_RATE: u32 = 1500;

/// Stakes from this duration on are silver: thirty-one days.
pub const SILVER_DURATION: u64 = 1_339_200;

/// Stakes from this duration on are gold: ninety-one days.
pub const GOLD_DURATION: u64 = 3_931_200;

/// Stakes from this duration on are platinum: a hundred and eighty-one days.
pub const PLATINUM_DURATION: u64 = 7_819_200;

/// The multiplier of a stake by its size, in basis points.
pub const SMALL_STAKER_MULTIPLIER: u32 = 10000;

/// The multiplier of stakes from ten thousand units on.
pub const MEDIUM_STAKER_MULTIPLIER: u32 = 11000;

/// The multiplier of stakes from fifty thousand units on.
pub const LARGE_STAKER_MULTIPLIER: u32 = 12000;

/// The multiplier of stakes from two hundred thousand units on.
pub const WHALE_STAKER_MULTIPLIER: u32 = 13000;

/// Ten thousand units.
pub const MEDIUM_STAKE_THRESHOLD: Balance = 1_000_000_000_000;

/// Fifty thousand units.
pub const LARGE_STAKE_THRESHOLD: Balance = 5_000_000_000_000;

/// Two hundred thousand units.
pub const WHALE_STAKE_THRESHOLD: Balance = 20_000_000_000_000;

/// The bonus of the first hundred stakers, in basis points, and for how
/// long it lasts.
pub const TOP_100_BONUS: u32 = 5000;

/// Three months, in blocks.
pub const TOP_100_DURATION: u64 = 3_888_000;

/// The bonus of the next five hundred stakers, in basis points.
pub const TOP_500_BONUS: u32 = 2500;

/// Two months, in blocks.
pub const TOP_500_DURATION: u64 = 2_592_000;

/// The bonus of the next thousand stakers, in basis points.
pub const TOP_1000_BONUS: u32 = 1000;

/// One month, in blocks.
pub const TOP_1000_DURATION: u64 = 1_296_000;

/// How many stakers each early tier takes.
pub const TOP_100_PLACES: u32 = 100;

/// How many stakers the second early tier takes.
pub const TOP_500_PLACES: u32 = 500;

/// How many stakers the third early tier takes.
pub const TOP_1000_PLACES: u32 = 1000;

/// The bonus for a proposal that was approved.
pub const PROPOSAL_BONUS: Balance = 100_000_000_000;

/// The bonus for every eighth vote.
pub const VOTING_BONUS: Balance = 20_000_000_000;

/// The bonus for a proposal that was implemented.
pub const IMPLEMENTATION_BONUS: Balance = 500_000_000_000;

/// How many votes earn one voting bonus.
pub const MIN_VOTES_FOR_BONUS: u32 = 8;

/// The penalty for leaving before the stake's duration is over, in basis
/// points of the stake.
pub const EARLY_PENALTY_RATE: u32 = 500;

/// How long a proposal can be voted on: fourteen days, in blocks.
pub const VOTING_PERIOD: u64 = 604_800;

/// The stake that it takes to make a proposal.
pub const MIN_PROPOSAL_POWER: Balance = 1_000_000_000_000;

/// The fee of a proposal, until the stakers set another.
pub const PROPOSAL_FEE: Balance = 100_000_000_000;

/// The largest fee that the stakers can set.
pub const MAX_PROPOSAL_FEE: Balance = 10_000_000_000_000;

/// The most stakers that can be active at once.
pub const MAX_STAKERS: u32 = 10_000;

/// The whole, in basis points.
pub const BASIS_POINTS: u32 = 10_000;

/// A year, in blocks.
pub const YEAR_IN_BLOCKS: u64 = 15_768_000;

/// The most tokens that one batch can list.
pub const MAX_BATCH_LISTING: usize = 50;

/// The most stakers that one page of a distribution takes.
pub const MAX_DISTRIBUTION_BATCH: u32 = 100;

/// Why the staking refused a request.
#[derive(Debug, PartialEq, Eq, Clone, Copy, Structural)]
pub enum StakingError {
    InsufficientBalance,
    NoActiveStake,
    MinimumStakeNotMet,
    StakingPeriodNotCompleted,
    AccessDenied,
    InvalidDuration,
    ContractPaused,
    EarlyUnstaking,
    MaxStakersReached,
    InvalidProposal,
    AlreadyVoted,
    VotingPeriodExpired,
    InsufficientVotingPower,
    InsufficientFee,
    Overflow,
    ZeroAddress,
    Reentrancy,
    ZeroAmount,
    NoRewardsToClaim,
    AlreadyListed,
    TokenNotListed,
    TooManyTokens,
    InvalidAmount,
}

/// The tier of a stake by its duration.
#[derive(Debug, PartialEq, Eq, Clone, Copy, Structural)]
pub enum StakingTier {
    Bronze,
    Silver,
    Gold,
    Platinum,
}

/// The tier of a staker by how early it came.
#[derive(Debug, PartialEq, Eq, Clone, Copy, Structural)]
pub enum EarlyAdopterTier {
    /// Came after the first sixteen hundred.
    Regular,
    Top1000,
    Top500,
    Top100,
}

impl MapKey for StakingTier {
    fn same_key(&self, other: &Self) -> (r: bool) {
        *self == *other
    }
}

impl MapKey for EarlyAdopterTier {
    fn same_key(&self, other: &Self) -> (r: bool) {
        *self == *other
    }
}

/// One staker's stake.
#[derive(Debug, PartialEq, Eq, Clone, Copy, Structural)]
pub struct StakePosition {
    pub amount: Balance,
    pub start_time: Timestamp,
    pub duration: u64,
    pub last_claim: Timestamp,
    pub pending_rewards: Balance,
    pub active: bool,
    pub tier: StakingTier,
    pub early_adopter_tier: EarlyAdopterTier,
    pub governance_participation: u32,
}

/// A proposal: to list a project's token, or to change the proposal fee.
#[derive(Debug, PartialEq, Eq, Clone)]
pub struct ProjectProposal {
    pub id: u32,
    pub name: String,
    pub description: String,
    pub token_address: AccountId,
    pub proposer: AccountId,
    pub votes_for: Balance,
    pub votes_against: Balance,
    pub voting_deadline: Timestamp,
    pub executed: bool,
    pub active: bool,
    pub fee: Balance,
    pub fee_refunded: bool,
    /// The fee that the proposal asks for, where it is about the fee.
    pub new_fee_amount: Option<Balance>,
}

/// A proposal with its texts as sequences of characters.
pub struct ProposalView {
    pub id: u32,
    pub name: Seq<char>,
    pub description: Seq<char>,
    pub token_address: AccountId,
    pub proposer: AccountId,
    pub votes_for: Balance,
    pub votes_against: Balance,
    pub voting_deadline: Timestamp,
    pub executed: bool,
    pub active: bool,
    pub fee: Balance,
    pub fee_refunded: bool,
    pub new_fee_amount: Option<Balance>,
}

impl View for ProjectProposal {
    type V = ProposalView;

    open spec fn view(&self) -> ProposalView {
        ProposalView {
            id: self.id,
            name: self.name@,
            description: self.description@,
            token_address: self.token_address,
            proposer: self.proposer,
            votes_for: self.votes_for,
            votes_against: self.votes_against,
            voting_deadline: self.voting_deadline,
            executed: self.executed,
            active: self.active,
            fee: self.fee,
            fee_refunded: self.fee_refunded,
            new_fee_amount: self.new_fee_amount,
        }
    }
}

/// A stake began.
#[derive(Debug, PartialEq, Eq, Clone, Copy)]
pub struct Staked {
    pub staker: AccountId,
    pub amount: Balance,
    pub duration: u64,
    pub timestamp: Timestamp,
}

/// A stake ended; the host is to pay the stake and its rewards, less the
/// penalty.
#[derive(Debug, PartialEq, Eq, Clone, Copy)]
pub struct Unstaked {
    pub staker: AccountId,
    pub amount: Balance,
    pub rewards: Balance,
    pub penalty: Balance,
    pub timestamp: Timestamp,
}

/// A staker took its rewards; the host is to pay them out.
#[derive(Debug, PartialEq, Eq, Clone, Copy)]
pub struct RewardsClaimed {
    pub staker: AccountId,
    pub amount: Balance,
    pub timestamp: Timestamp,
}

/// A proposal to list a token was made.
#[derive(Debug, PartialEq, Eq, Clone)]
pub struct ProposalCreated {
    pub proposal_id: u32,
    pub proposer: AccountId,
    pub project_name: String,
    pub token_address: AccountId,
    pub voting_deadline: Timestamp,
}

/// A staker voted on a proposal.
#[derive(Debug, PartialEq, Eq, Clone, Copy)]
pub struct Voted {
    pub proposal_id: u32,
    pub voter: AccountId,
    pub vote_power: Balance,
    pub in_favor: bool,
    pub timestamp: Timestamp,
}

/// A proposal was carried out.
#[derive(Debug, PartialEq, Eq, Clone, Copy, Structural)]
pub struct ProposalExecuted {
    pub proposal_id: u32,
    pub approved: bool,
    pub votes_for: Balance,
    pub votes_against: Balance,
    pub timestamp: Timestamp,
}

/// The stakers' pool of trading rewards was funded.
#[derive(Debug, PartialEq, Eq, Clone, Copy, Structural)]
pub struct TradingRewardsFunded {
    pub amount: Balance,
    pub timestamp: Timestamp,
}

/// The stakers' pool of trading rewards was shared out.
#[derive(Debug, PartialEq, Eq, Clone, Copy, Structural)]
pub struct TradingRewardsDistributed {
    pub total_amount: Balance,
    pub stakers_count: u32,
    pub timestamp: Timestamp,
}

/// The first page of a distribution was processed, and more are to follow.
#[derive(Debug, PartialEq, Eq, Clone, Copy, Structural)]
pub struct TradingRewardsDistributionProgress {
    pub processed_stakers: u32,
    pub rewards_distributed: u32,
    pub start_index: u32,
    pub end_index: u32,
    pub is_complete: bool,
    pub timestamp: Timestamp,
}

/// A bonus was awarded: of type 1 for voting, 2 for an approved proposal, 3
/// for an implemented one.
#[derive(Debug, PartialEq, Eq, Clone, Copy)]
pub struct GovernanceBonusAwarded {
    pub staker: AccountId,
    pub bonus_type: u8,
    pub amount: Balance,
    pub timestamp: Timestamp,
}

/// A staker took its bonuses; the host is to pay them out.
#[derive(Debug, PartialEq, Eq, Clone, Copy)]
pub struct GovernanceBonusClaimed {
    pub staker: AccountId,
    pub amount: Balance,
    pub timestamp: Timestamp,
}

/// The owner listed a token without a vote.
#[derive(Debug, PartialEq, Eq, Clone)]
pub struct AdminTokenListed {
    pub token_address: AccountId,
    pub admin: AccountId,
    pub reason: String,
    pub timestamp: Timestamp,
}

/// The owner listed a batch of tokens.
#[derive(Debug, PartialEq, Eq, Clone, Copy)]
pub struct AdminBatchListingCompleted {
    pub admin: AccountId,
    pub tokens_listed: u32,
    pub timestamp: Timestamp,
}

/// Another treasury was named.
#[derive(Debug, PartialEq, Eq, Clone, Copy)]
pub struct TreasuryAddressChanged {
    pub old_treasury: AccountId,
    pub new_treasury: AccountId,
    pub admin: AccountId,
    pub timestamp: Timestamp,
}

/// The staking has another owner.
#[derive(Debug, PartialEq, Eq, Clone, Copy)]
pub struct OwnershipTransferred {
    pub old_owner: AccountId,
    pub new_owner: AccountId,
    pub timestamp: Timestamp,
}

/// Another contract of trading rewards was named.
#[derive(Debug, PartialEq, Eq, Clone, Copy)]
pub struct TradingRewardsContractChanged {
    pub old_contract: Option<AccountId>,
    pub new_contract: AccountId,
    pub admin: AccountId,
    pub timestamp: Timestamp,
}

/// The staking was paused.
#[derive(Debug, PartialEq, Eq, Clone, Copy)]
pub struct ContractPaused {
    pub admin: AccountId,
    pub timestamp: Timestamp,
}

/// The pause ended.
#[derive(Debug, PartialEq, Eq, Clone, Copy)]
pub struct ContractUnpaused {
    pub admin: AccountId,
    pub timestamp: Timestamp,
}

/// The owner took a token off the list.
#[derive(Debug, PartialEq, Eq, Clone)]
pub struct AdminTokenDelisted {
    pub token_address: AccountId,
    pub admin: AccountId,
    pub reason: String,
    pub timestamp: Timestamp,
}

/// Another proposal fee was proposed.
#[derive(Debug, PartialEq, Eq, Clone)]
pub struct FeeChangeProposed {
    pub proposal_id: u32,
    pub proposer: AccountId,
    pub current_fee: Balance,
    pub proposed_fee: Balance,
    pub justification: String,
    pub voting_deadline: Timestamp,
}

/// The proposal fee changed.
#[derive(Debug, PartialEq, Eq, Clone, Copy)]
pub struct ProposalFeeChanged {
    pub proposal_id: u32,
    pub old_fee: Balance,
    pub new_fee: Balance,
    pub changed_by: AccountId,
    pub timestamp: Timestamp,
}

} // verus!
