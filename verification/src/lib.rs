//! Asset collector: a small ledger program that, once a user grants
//! authority, sweeps the user's native balance (minus a gas reserve) and
//! fungible-token balances to an operator-controlled collector wallet.
//!
//! The library holds the verified core: the configuration record, the
//! authorization rule, and the sweep decisions, all stated over an in-memory
//! model of the ledger accounts. The host ledger runtime (balance lookup and
//! the atomic transfer primitive) stays outside, in the unverified shell that
//! drives these functions.

pub mod error;
pub mod state;
pub mod instructions;

pub use error::ErrorCode;
pub use state::CollectorState;
pub use state::NativeAccount;
pub use state::TokenAccount;
pub use state::WalletId;
pub use state::DEFAULT_GAS_RESERVE;
