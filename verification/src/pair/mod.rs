//! The pool of one pair of assets: reserves, liquidity shares, swaps against
//! the constant product, and the price record that oracles sample.
pub mod contract;
pub mod fees;
pub mod laws;
pub mod model;
pub mod types;

pub use contract::PairContract;
pub use fees::{FeeConfig, FeeSplit};
pub use model::PairView;
pub use types::{Burn, BurnReceipt, Mint, MintReceipt, PairError, Swap, SwapReceipt, Sync};
