//! Verified decision logic of a transactions-per-second benchmark client:
//! when transfers change direction, how transactions are batched for the
//! sending threads, how nodes are sampled and located, when an airdrop or a
//! barrier transaction has succeeded, and whether the cluster is usable.
pub mod airdrop;
pub mod arith;
pub mod barrier;
pub mod chunks;
pub mod convergence;
pub mod location;
pub mod report;
pub mod sampling;
pub mod settings;
pub mod switching;
pub mod timing;
