//! Balance checks around a funding-token transfer: the amount must be
//! positive and covered before the transfer, and afterwards the sender must
//! have lost, and the recipient gained, exactly that amount. Fee-on-transfer
//! or rebasing tokens fail these checks.
use vstd::prelude::*;

use crate::errors::EscrowError;

verus! {

/// The error of a transfer of `amount` from a sender holding `sender_balance`.
pub open spec fn transfer_precheck_error(amount: i128, sender_balance: i128) -> Option<EscrowError> {
    if amount <= 0 {
        Some(EscrowError::TransferAmountNotPositive)
    } else if sender_balance < amount {
        Some(EscrowError::InsufficientTokenBalanceBeforeTransfer)
    } else {
        None
    }
}

/// Whether a balance difference fits in `i128`.
pub open spec fn fits_i128(x: int) -> bool {
    i128::MIN <= x <= i128::MAX
}

/// The error of the observed balances around a transfer of `amount`.
pub open spec fn transfer_delta_error(
    amount: i128,
    sender_before: i128,
    sender_after: i128,
    recipient_before: i128,
    recipient_after: i128,
) -> Option<EscrowError> {
    if !fits_i128(sender_before - sender_after) {
        Some(EscrowError::SenderBalanceUnderflow)
    } else if !fits_i128(recipient_after - recipient_before) {
        Some(EscrowError::RecipientBalanceUnderflow)
    } else if sender_before - sender_after != amount {
        Some(EscrowError::SenderBalanceDeltaMismatch)
    } else if recipient_after - recipient_before != amount {
        Some(EscrowError::RecipientBalanceDeltaMismatch)
    } else {
        None
    }
}

/// Checks a transfer before it is made.
pub fn check_transfer_precondition(amount: i128, sender_balance: i128) -> (r: Result<
    (),
    EscrowError,
>)
    ensures
        match transfer_precheck_error(amount, sender_balance) {
            Some(e) => r == Err::<(), EscrowError>(e),
            None => r is Ok,
        },
{
    if amount <= 0 {
        return Err(EscrowError::TransferAmountNotPositive);
    }
    if sender_balance < amount {
        return Err(EscrowError::InsufficientTokenBalanceBeforeTransfer);
    }
    Ok(())
}

/// Checks the balances observed before and after a transfer of `amount`:
/// the sender lost exactly `amount` and the recipient gained exactly `amount`.
pub fn check_transfer_deltas(
    amount: i128,
    sender_before: i128,
    sender_after: i128,
    recipient_before: i128,
    recipient_after: i128,
) -> (r: Result<(), EscrowError>)
    ensures
        match transfer_delta_error(
            amount,
            sender_before,
            sender_after,
            recipient_before,
            recipient_after,
        ) {
            Some(e) => r == Err::<(), EscrowError>(e),
            None => r is Ok,
        },
{
    let sender_delta = match sender_before.checked_sub(sender_after) {
        Some(d) => d,
        None => {
            return Err(EscrowError::SenderBalanceUnderflow);
        },
    };
    let recipient_delta = match recipient_after.checked_sub(recipient_before) {
        Some(d) => d,
        None => {
            return Err(EscrowError::RecipientBalanceUnderflow);
        },
    };
    if sender_delta != amount {
        return Err(EscrowError::SenderBalanceDeltaMismatch);
    }
    if recipient_delta != amount {
        return Err(EscrowError::RecipientBalanceDeltaMismatch);
    }
    Ok(())
}

/// A transfer that passes both checks conserves value: what the sender
/// lost is exactly what the recipient gained, and both equal the amount.
pub proof fn lemma_checked_transfer_conserves(
    amount: i128,
    sender_balance: i128,
    sender_after: i128,
    recipient_before: i128,
    recipient_after: i128,
)
    requires
        transfer_precheck_error(amount, sender_balance) is None,
        transfer_delta_error(amount, sender_balance, sender_after, recipient_before, recipient_after)
            is None,
    ensures
        sender_balance - sender_after == recipient_after - recipient_before,
        0 < amount,
        0 <= sender_after,
        recipient_after == recipient_before + amount,
{
}

} // verus!
