//! Creating the configuration record and recording the collector wallet.

use vstd::prelude::*;

use crate::error::ErrorCode;
use crate::state::CollectorState;
use crate::state::WalletId;
use crate::state::DEFAULT_GAS_RESERVE;

verus! {

/// Accounts for creating the configuration record: the signer becomes the
/// recorded authority. The host runtime enforces that the record is a
/// singleton, rejecting a second creation.
pub struct InitializeCollector {
    pub authority: WalletId,
}

/// Accounts for recording a new collector wallet: the current record and
/// the signing caller.
pub struct SetCollectorWallet {
    pub collector_state: CollectorState,
    pub authority: WalletId,
}

/// Creates the configuration record: the caller becomes the authority, the
/// collector wallet starts unset, and the gas reserve takes its default.
pub fn initialize_collector_handler(accounts: &InitializeCollector) -> (s: CollectorState)
    ensures
        s.authority == accounts.authority,
        s.collector_wallet.spec_is_unset(),
        !s.is_configured(),
        s.gas_reserve == DEFAULT_GAS_RESERVE,
{
    CollectorState {
        authority: accounts.authority,
        collector_wallet: WalletId::unset(),
        gas_reserve: DEFAULT_GAS_RESERVE,
    }
}

/// Records `new_collector_wallet` as the sweep destination.
///
/// Only the recorded authority may do so; any other caller fails with
/// `Unauthorized`, for every attempted destination. The unset identity is
/// not a meaningful destination and is rejected, so a configured record
/// never becomes unconfigured again.
pub fn set_collector_wallet_handler(
    accounts: &mut SetCollectorWallet,
    new_collector_wallet: WalletId,
) -> (r: Result<(), ErrorCode>)
    ensures
        final(accounts).authority == old(accounts).authority,
        final(accounts).collector_state.authority == old(accounts).collector_state.authority,
        final(accounts).collector_state.gas_reserve == old(accounts).collector_state.gas_reserve,
        r == Err::<(), ErrorCode>(ErrorCode::Unauthorized)
            <==> old(accounts).authority != old(accounts).collector_state.authority,
        r == Err::<(), ErrorCode>(ErrorCode::InvalidCollectorWallet)
            <==> old(accounts).authority == old(accounts).collector_state.authority
                && new_collector_wallet.spec_is_unset(),
        r is Ok <==> old(accounts).authority == old(accounts).collector_state.authority
            && !new_collector_wallet.spec_is_unset(),
        r is Ok ==> final(accounts).collector_state.collector_wallet == new_collector_wallet
            && final(accounts).collector_state.is_configured(),
        r is Err ==> *final(accounts) == *old(accounts),
{
    if !(accounts.authority == accounts.collector_state.authority) {
        return Err(ErrorCode::Unauthorized);
    }
    if new_collector_wallet.is_unset() {
        return Err(ErrorCode::InvalidCollectorWallet);
    }
    accounts.collector_state.collector_wallet = new_collector_wallet;
    Ok(())
}

} // verus!
