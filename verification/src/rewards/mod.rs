//! Rewards for trading: what each trader has traded, the tier that it earns,
//! the pool of rewards, and the checks that keep wash trades out.
pub mod contract;
pub mod model;
pub mod types;

pub use contract::TradingRewardsContract;
pub use model::RewardsView;
pub use types::{
    AdminTransferred, AntifraudParametersUpdated, EpochEnded, EpochStarted, RewardsClaimed,
    RewardsDistributed, RewardsPoolFunded, RouterChanged, TierUpgraded, TradingPosition,
    TradingRewardsError, TradingTier, VolumeTracked,
};
