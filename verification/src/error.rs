//! Error kinds surfaced to callers of the collector instructions.

use vstd::prelude::*;

verus! {

/// Terminal result of a failed instruction. Errors are never retried
/// internally; a failed call leaves every modelled balance unchanged.
#[derive(Clone, Copy, Debug, PartialEq, Eq, Structural)]
pub enum ErrorCode {
    /// The caller is not the recorded administrator.
    Unauthorized,
    /// No collector wallet has been set yet; sweeps cannot run.
    CollectorWalletNotSet,
    /// The collector wallet handed to the call is not the recorded one,
    /// or an attempt was made to record the unset wallet.
    InvalidCollectorWallet,
    /// Reserved: insufficient balance degrades to a no-op, so no
    /// instruction produces this kind in practice.
    InsufficientBalance,
    /// The transfer primitive rejected the operation; here, the credit
    /// would not fit the destination balance.
    TokenTransferFailed,
}

} // verus!
