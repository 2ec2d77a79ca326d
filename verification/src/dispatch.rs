//! Transaction routing. A decoded request is validated and routed by its
//! type: transfers and withdrawals become a `PendingTransfer` for the
//! external value-transfer collaborator, swaps have no handler and fail
//! with `UnsupportedOperation`. The collaborator's outcome is turned into
//! the `TransactionExecuted` event, or into `TransferFailed` — in which
//! case no event exists and the request counts as fully aborted.

use vstd::prelude::*;

use crate::errors::ErrorCode;
use crate::payload::{decode_request, decode_transaction, TransactionType};

verus! {

/// What a routed request looks like in specifications: the authorizing
/// wallet's address, the transaction type, the amount, and the recipient.
pub type RoutedRequest = (Seq<u8>, TransactionType, u64, Option<Seq<u8>>);

/// A validated, routed request, ready for the external value-transfer
/// collaborator: move `amount` out of the account controlled by `wallet`,
/// with the wallet itself as the authorizing principal.
#[derive(Clone, Copy, Debug, PartialEq, Eq)]
pub struct PendingTransfer {
    pub wallet: [u8; 32],
    pub tx_type: TransactionType,
    pub amount: u64,
    pub recipient: Option<[u8; 32]>,
}

impl View for PendingTransfer {
    type V = RoutedRequest;

    open spec fn view(&self) -> RoutedRequest {
        (
            self.wallet@,
            self.tx_type,
            self.amount,
            match self.recipient {
                Some(r) => Some(r@),
                None => None,
            },
        )
    }
}

/// The event that reports a completed transaction.
#[derive(Clone, Copy, Debug, PartialEq, Eq)]
pub struct TransactionExecuted {
    pub wallet: [u8; 32],
    pub tx_type: TransactionType,
    pub amount: u64,
}

/// What routing returns for each input: a decode failure, an empty message,
/// or a swap is rejected with its own error, and anything else is routed.
pub open spec fn dispatch_result(wallet: Seq<u8>, message: Seq<u8>, data: Seq<u8>) -> Result<
    RoutedRequest,
    ErrorCode,
> {
    match decode_request(data) {
        None => Err(ErrorCode::MalformedPayload),
        Some((tx_type, amount, recipient)) => if message.len() == 0 {
            Err(ErrorCode::InvalidMessage)
        } else if tx_type is Swap {
            Err(ErrorCode::UnsupportedOperation)
        } else {
            Ok((wallet, tx_type, amount, recipient))
        },
    }
}

/// Decode, validate and route one execution payload on behalf of the wallet
/// at `wallet_address`. Callers must already have authenticated the request
/// and checked that the wallet is active.
pub fn dispatch_transaction(
    wallet_address: &[u8; 32],
    message: &[u8],
    instruction_data: &[u8],
) -> (r: Result<PendingTransfer, ErrorCode>)
    ensures
        match r {
            Ok(p) => dispatch_result(wallet_address@, message@, instruction_data@) == Ok::<
                RoutedRequest,
                ErrorCode,
            >(p@) && p.wallet == *wallet_address,
            Err(e) => dispatch_result(wallet_address@, message@, instruction_data@) == Err::<
                RoutedRequest,
                ErrorCode,
            >(e),
        },
{
    let request = match decode_transaction(instruction_data) {
        Ok(t) => t,
        Err(e) => {
            return Err(e);
        },
    };
    if message.len() == 0 {
        return Err(ErrorCode::InvalidMessage);
    }
    if matches!(request.tx_type, TransactionType::Swap) {
        return Err(ErrorCode::UnsupportedOperation);
    }
    Ok(
        PendingTransfer {
            wallet: *wallet_address,
            tx_type: request.tx_type,
            amount: request.amount,
            recipient: request.recipient,
        },
    )
}

/// Turn the value-transfer collaborator's outcome into the request's
/// result: the `TransactionExecuted` event on success, `TransferFailed`
/// otherwise — then no event exists and nothing of the request took effect.
pub fn complete_transaction(pending: &PendingTransfer, transfer_succeeded: bool) -> (r: Result<
    TransactionExecuted,
    ErrorCode,
>)
    ensures
        transfer_succeeded ==> (r matches Ok(event) && event.wallet == pending.wallet
            && event.tx_type == pending.tx_type && event.amount == pending.amount),
        !transfer_succeeded ==> r == Err::<TransactionExecuted, ErrorCode>(
            ErrorCode::TransferFailed,
        ),
{
    if transfer_succeeded {
        Ok(
            TransactionExecuted {
                wallet: pending.wallet,
                tx_type: pending.tx_type,
                amount: pending.amount,
            },
        )
    } else {
        Err(ErrorCode::TransferFailed)
    }
}

} // verus!
