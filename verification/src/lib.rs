//! Quote-computation and state-synchronization core for routing between a
//! chain's native asset and liquid-staking pool tokens.
//!
//! The crate is organized leaf to root:
//! - [`address`]: plain-value account addresses,
//! - [`errors`]: the error taxonomy shared by every component,
//! - [`wire`]: little-endian field extraction from raw account bytes,
//! - [`fees`]: the forward/reverse fee model over a pool-balance snapshot,
//! - [`snapshot`]: the caller-supplied address-to-account mapping,
//! - [`spl_state`]: typed main-state and validator-list ingestion,
//! - [`withdraw`]: the pool-token-to-stake quote engine,
//! - [`deposit`]: the stake-to-pool-token quote engine and instruction builder,
//! - [`prefund`]: flash-loan sizing repaid through the instant-unstake path,
//! - [`socean`]: the adapter variant whose epoch marker rides on the clock account.

pub mod address;
pub mod errors;
pub mod wire;
pub mod fees;
pub mod snapshot;
pub mod spl_state;
pub mod withdraw;
pub mod deposit;
pub mod prefund;
pub mod socean;
