//! Sweeping one fungible-token balance, whole, to the collector wallet.

use vstd::prelude::*;

use crate::error::ErrorCode;
use crate::state::CollectorState;
use crate::state::TokenAccount;
use crate::state::WalletId;

verus! {

/// Accounts for a token sweep: the configuration record, the caller and
/// collector identities, and the two token accounts for the swept mint.
/// `None` stands for a token account that does not exist on the ledger.
pub struct CollectSplTokens {
    pub collector_state: CollectorState,
    pub user_wallet: WalletId,
    pub collector_wallet: WalletId,
    pub user_token_account: Option<TokenAccount>,
    pub collector_token_account: Option<TokenAccount>,
}

/// The balance held by a possibly absent token account: an account that
/// does not exist holds nothing.
pub open spec fn token_amount_held(account: Option<TokenAccount>) -> int {
    match account {
        Some(t) => t.amount as int,
        None => 0,
    }
}

/// The token balance recorded in a raw token-account image: the ledger's
/// token program stores the holder's amount as a little-endian 64-bit
/// integer at byte offset 64.
pub open spec fn spl_token_amount(data: Seq<u8>) -> int
    recommends
        data.len() >= 72,
{
    (data[64] as int)
        + (data[65] as int) * 0x100
        + (data[66] as int) * 0x1_0000
        + (data[67] as int) * 0x100_0000
        + (data[68] as int) * 0x1_0000_0000
        + (data[69] as int) * 0x100_0000_0000
        + (data[70] as int) * 0x1_0000_0000_0000
        + (data[71] as int) * 0x100_0000_0000_0000
}

/// Reads the holder's balance out of a raw token-account image, or `None`
/// when the image is too short to carry one (under 72 bytes).
pub fn token_account_balance(data: &Vec<u8>) -> (r: Option<u64>)
    ensures
        r is None <==> data@.len() < 72,
        data@.len() >= 72 ==> (r matches Some(v) && v == spl_token_amount(data@)),
{
    if data.len() < 72 {
        return None;
    }
    let b0 = data[64] as u64;
    let b1 = data[65] as u64;
    let b2 = data[66] as u64;
    let b3 = data[67] as u64;
    let b4 = data[68] as u64;
    let b5 = data[69] as u64;
    let b6 = data[70] as u64;
    let b7 = data[71] as u64;
    Some(
        b0 + b1 * 0x100 + b2 * 0x1_0000 + b3 * 0x100_0000 + b4 * 0x1_0000_0000 + b5
            * 0x100_0000_0000 + b6 * 0x1_0000_0000_0000 + b7 * 0x100_0000_0000_0000,
    )
}

/// Sweeps the caller's whole balance of one mint to the collector's token
/// account, atomically on the modelled accounts: all or nothing, once per
/// call.
///
/// Fails with `CollectorWalletNotSet` until a collector wallet has been
/// recorded, and with `InvalidCollectorWallet` when the wallet handed in is
/// not the recorded one. A missing caller token account, like a zero
/// balance, is swept as a no-op success. The collector's token account is
/// created on demand. A credit that would not fit the collector's balance
/// is rejected by the transfer primitive as `TokenTransferFailed`. On
/// failure every balance is left unchanged.
pub fn collect_spl_tokens_handler(accounts: &mut CollectSplTokens) -> (r: Result<
    u64,
    ErrorCode,
>)
    ensures
        final(accounts).collector_state == old(accounts).collector_state,
        final(accounts).user_wallet == old(accounts).user_wallet,
        final(accounts).collector_wallet == old(accounts).collector_wallet,
        r == Err::<u64, ErrorCode>(ErrorCode::CollectorWalletNotSet)
            <==> !old(accounts).collector_state.is_configured(),
        r == Err::<u64, ErrorCode>(ErrorCode::InvalidCollectorWallet)
            <==> old(accounts).collector_state.is_configured()
                && old(accounts).collector_wallet
                    != old(accounts).collector_state.collector_wallet,
        r == Err::<u64, ErrorCode>(ErrorCode::TokenTransferFailed)
            <==> old(accounts).collector_state.is_configured()
                && old(accounts).collector_wallet
                    == old(accounts).collector_state.collector_wallet
                && token_amount_held(old(accounts).user_token_account) > 0
                && token_amount_held(old(accounts).collector_token_account)
                    + token_amount_held(old(accounts).user_token_account) > u64::MAX,
        r is Err ==> *final(accounts) == *old(accounts),
        r is Ok ==> r == Ok::<u64, ErrorCode>(
            token_amount_held(old(accounts).user_token_account) as u64,
        ),
        // A zero balance, or no token account at all, moves nothing.
        old(accounts).collector_state.is_configured()
            && old(accounts).collector_wallet == old(accounts).collector_state.collector_wallet
            && token_amount_held(old(accounts).user_token_account) == 0
            ==> r == Ok::<u64, ErrorCode>(0) && *final(accounts) == *old(accounts),
        // A positive balance moves whole: the caller is left with zero and
        // the collector's account, created if absent, is credited with it.
        old(accounts).collector_state.is_configured()
            && old(accounts).collector_wallet == old(accounts).collector_state.collector_wallet
            && token_amount_held(old(accounts).user_token_account) > 0
            && token_amount_held(old(accounts).collector_token_account)
                + token_amount_held(old(accounts).user_token_account) <= u64::MAX
            ==> r is Ok
                && final(accounts).user_token_account == Some(TokenAccount { amount: 0u64 })
                && token_amount_held(final(accounts).collector_token_account)
                    == token_amount_held(old(accounts).collector_token_account)
                        + token_amount_held(old(accounts).user_token_account)
                && final(accounts).collector_token_account is Some,
{
    if accounts.collector_state.collector_wallet.is_unset() {
        return Err(ErrorCode::CollectorWalletNotSet);
    }
    if !(accounts.collector_wallet == accounts.collector_state.collector_wallet) {
        return Err(ErrorCode::InvalidCollectorWallet);
    }

    let user_amount = match &accounts.user_token_account {
        Some(t) => t.amount,
        None => 0,
    };
    if user_amount == 0 {
        return Ok(0);
    }

    let collector_amount = match &accounts.collector_token_account {
        Some(t) => t.amount,
        None => 0,
    };
    match collector_amount.checked_add(user_amount) {
        Some(credited) => {
            accounts.user_token_account = Some(TokenAccount { amount: 0 });
            accounts.collector_token_account = Some(TokenAccount { amount: credited });
            Ok(user_amount)
        }
        None => Err(ErrorCode::TokenTransferFailed),
    }
}

} // verus!
