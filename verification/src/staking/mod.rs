//! Staking of the native asset: positions and their rewards, the governance
//! of listings and of the proposal fee, and the stakers' part of the trading
//! rewards.
pub mod contract;
pub mod model;
pub mod types;

pub use contract::StakingContract;
pub use model::StakingView;
pub use types::{
    AdminBatchListingCompleted, AdminTokenDelisted, AdminTokenListed, ContractPaused,
    ContractUnpaused, EarlyAdopterTier, FeeChangeProposed, GovernanceBonusAwarded,
    GovernanceBonusClaimed, OwnershipTransferred, ProjectProposal, ProposalCreated,
    ProposalExecuted, ProposalFeeChanged, RewardsClaimed, StakePosition, Staked, StakingError,
    StakingTier, TradingRewardsContractChanged, TradingRewardsDistributed,
    TradingRewardsDistributionProgress, TradingRewardsFunded, TreasuryAddressChanged, Unstaked,
    Voted,
};
