//! A constant-product exchange: the pool engine with its share ledger, fee
//! split and price accumulator, and the bookkeeping that surrounds it (pool
//! registry, router checks, wrapped native token, trading rewards, staking).
//!
//! Every operation takes the values of its call as plain arguments: who calls
//! and at what time arrive in an [`types::Env`], and what an operation wants
//! announced comes back as event values in its result.
pub mod factory;
pub mod mapping;
pub mod math;
pub mod pair;
pub mod psp22;
pub mod rewards;
pub mod router;
pub mod staking;
pub mod types;
pub mod wnative;
