//! A custodial two-token swap pool.
//!
//! The pool exchanges one of two registered tokens for the other on behalf
//! of a caller, by coordinating asynchronous calls to two independent
//! external ledger services.  This crate holds the verified core of that
//! protocol: the pricing arithmetic, the pending lock that serializes swap
//! attempts, the token registry, and the settlement orchestrator that
//! decides which remote calls to issue and how to reconcile their results.

pub mod errors;
pub mod lock;
pub mod protocol;
pub mod ratio;
pub mod registry;
pub mod swap;

pub use errors::SwapError;
pub use lock::PendingLock;
pub use ratio::{compute_pool_ratio, compute_target};
pub use registry::{StoreKey, TokenConfig, TokenInfo, TokenMetadata, TokenRegistry};
pub use swap::{DeFi, LedgerCall, RatioDispatch, RemoteFailure, SwapDispatch};
