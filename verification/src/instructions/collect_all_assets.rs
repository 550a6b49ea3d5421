//! Sweeping the native-currency balance, minus the gas reserve.

use vstd::prelude::*;

use crate::error::ErrorCode;
use crate::state::CollectorState;
use crate::state::NativeAccount;

verus! {

/// Accounts for a native sweep: the configuration record, the caller's
/// wallet, and the collector wallet named by the record.
pub struct CollectAllAssets {
    pub collector_state: CollectorState,
    pub user_wallet: NativeAccount,
    pub collector_wallet: NativeAccount,
}

/// The amount a native sweep moves: everything above the gas reserve, or
/// nothing when the balance does not exceed it.
pub open spec fn native_sweep_amount(balance: u64, gas_reserve: u64) -> int {
    if balance > gas_reserve {
        balance - gas_reserve
    } else {
        0
    }
}

/// Sweeps the caller's native balance above the gas reserve to the
/// collector wallet, atomically on the modelled accounts.
///
/// Fails with `CollectorWalletNotSet` until a collector wallet has been
/// recorded, and with `InvalidCollectorWallet` when the wallet handed in is
/// not the recorded one. A balance at or below the reserve is swept as a
/// no-op success, not an error. A credit that would not fit the collector's
/// balance is rejected by the transfer primitive as `TokenTransferFailed`.
/// On failure every balance is left unchanged.
pub fn handler(accounts: &mut CollectAllAssets) -> (r: Result<u64, ErrorCode>)
    ensures
        final(accounts).collector_state == old(accounts).collector_state,
        final(accounts).user_wallet.id == old(accounts).user_wallet.id,
        final(accounts).collector_wallet.id == old(accounts).collector_wallet.id,
        r == Err::<u64, ErrorCode>(ErrorCode::CollectorWalletNotSet)
            <==> !old(accounts).collector_state.is_configured(),
        r == Err::<u64, ErrorCode>(ErrorCode::InvalidCollectorWallet)
            <==> old(accounts).collector_state.is_configured()
                && old(accounts).collector_wallet.id
                    != old(accounts).collector_state.collector_wallet,
        r == Err::<u64, ErrorCode>(ErrorCode::TokenTransferFailed)
            <==> old(accounts).collector_state.is_configured()
                && old(accounts).collector_wallet.id
                    == old(accounts).collector_state.collector_wallet
                && old(accounts).collector_wallet.lamports
                    + native_sweep_amount(
                        old(accounts).user_wallet.lamports,
                        old(accounts).collector_state.gas_reserve,
                    ) > u64::MAX,
        r is Err ==> *final(accounts) == *old(accounts),
        r is Ok ==> r == Ok::<u64, ErrorCode>(
            native_sweep_amount(
                old(accounts).user_wallet.lamports,
                old(accounts).collector_state.gas_reserve,
            ) as u64,
        ),
        // A balance at or below the reserve moves nothing and succeeds.
        old(accounts).collector_state.is_configured()
            && old(accounts).collector_wallet.id
                == old(accounts).collector_state.collector_wallet
            && old(accounts).user_wallet.lamports
                <= old(accounts).collector_state.gas_reserve
            ==> r == Ok::<u64, ErrorCode>(0) && *final(accounts) == *old(accounts),
        // A balance above the reserve moves exactly the excess: the caller
        // is left holding the reserve and the collector is credited.
        old(accounts).collector_state.is_configured()
            && old(accounts).collector_wallet.id
                == old(accounts).collector_state.collector_wallet
            && old(accounts).user_wallet.lamports
                > old(accounts).collector_state.gas_reserve
            && old(accounts).collector_wallet.lamports
                + native_sweep_amount(
                    old(accounts).user_wallet.lamports,
                    old(accounts).collector_state.gas_reserve,
                ) <= u64::MAX
            ==> r is Ok
                && final(accounts).user_wallet.lamports
                    == old(accounts).collector_state.gas_reserve
                && final(accounts).collector_wallet.lamports
                    == old(accounts).collector_wallet.lamports
                        + native_sweep_amount(
                            old(accounts).user_wallet.lamports,
                            old(accounts).collector_state.gas_reserve,
                        ),
{
    if accounts.collector_state.collector_wallet.is_unset() {
        return Err(ErrorCode::CollectorWalletNotSet);
    }
    if !(accounts.collector_wallet.id == accounts.collector_state.collector_wallet) {
        return Err(ErrorCode::InvalidCollectorWallet);
    }

    let user_balance = accounts.user_wallet.lamports;
    let gas_reserve = accounts.collector_state.gas_reserve;

    if user_balance > gas_reserve {
        let transfer_amount = user_balance - gas_reserve;
        match accounts.collector_wallet.lamports.checked_add(transfer_amount) {
            Some(credited) => {
                accounts.user_wallet.lamports = gas_reserve;
                accounts.collector_wallet.lamports = credited;
                Ok(transfer_amount)
            }
            None => Err(ErrorCode::TokenTransferFailed),
        }
    } else {
        Ok(0)
    }
}

} // verus!
