//! The configuration record and the in-memory model of ledger accounts.
//!
//! Wallet identities on the host ledger are 32-byte addresses; here one is
//! held as four 64-bit words, which keeps equality structural. The all-zero
//! identity is the ledger's default value and stands for "unset".

use vstd::prelude::*;

verus! {

/// Gas reserve recorded at initialization, in base units of the native
/// currency: native sweeps leave this much behind in the caller's wallet.
pub const DEFAULT_GAS_RESERVE: u64 = 15_000_000;

/// A 32-byte ledger identity, held as four little-endian 64-bit words.
#[derive(Clone, Copy, Debug, PartialEq, Eq, Structural)]
pub struct WalletId {
    pub w0: u64,
    pub w1: u64,
    pub w2: u64,
    pub w3: u64,
}

impl WalletId {
    /// The ledger's default (all-zero) identity, used before a real
    /// address is recorded.
    pub open spec fn spec_is_unset(self) -> bool {
        self.w0 == 0 && self.w1 == 0 && self.w2 == 0 && self.w3 == 0
    }

    /// The all-zero identity.
    pub fn unset() -> (w: WalletId)
        ensures
            w.spec_is_unset(),
    {
        WalletId { w0: 0, w1: 0, w2: 0, w3: 0 }
    }

    /// Whether this identity is still the default (all-zero) one.
    pub fn is_unset(&self) -> (r: bool)
        ensures
            r == self.spec_is_unset(),
    {
        self.w0 == 0 && self.w1 == 0 && self.w2 == 0 && self.w3 == 0
    }
}

/// The singleton configuration record. Created once; the collector wallet
/// is overwritten only by the recorded authority; never deleted.
#[derive(Clone, Copy, Debug, PartialEq, Eq, Structural)]
pub struct CollectorState {
    /// Identity authorized to change the configuration.
    pub authority: WalletId,
    /// Identity that receives swept assets; unset until recorded.
    pub collector_wallet: WalletId,
    /// Native-currency threshold below which no native sweep occurs.
    pub gas_reserve: u64,
}

impl CollectorState {
    /// The record is configured once a collector wallet has been recorded;
    /// sweeps fail until then.
    pub open spec fn is_configured(self) -> bool {
        !self.collector_wallet.spec_is_unset()
    }
}

/// Model of a native-currency account: an identity and its balance in base
/// units, as the ledger would report it at call time.
#[derive(Clone, Copy, Debug, PartialEq, Eq, Structural)]
pub struct NativeAccount {
    pub id: WalletId,
    pub lamports: u64,
}

/// Model of one holder's token account for a fixed mint: just its balance.
/// Absence of the account is modelled by `Option<TokenAccount>` at the
/// point of use.
#[derive(Clone, Copy, Debug, PartialEq, Eq, Structural)]
pub struct TokenAccount {
    pub amount: u64,
}

} // verus!
