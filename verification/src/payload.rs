//! The transaction payload and its wire format. An execution request
//! carries attacker-supplied bytes that decode to a `TransactionData`:
//! one discriminant byte ({0: transfer, 1: swap, 2: withdraw}), the amount
//! as eight little-endian bytes, then an optional recipient (tag byte 0 for
//! none, tag byte 1 followed by a 32-byte identity). Trailing bytes after a
//! complete record are ignored; anything else is a decode failure.

use vstd::prelude::*;

use crate::errors::ErrorCode;

verus! {

/// The kind of operation an execution request asks for. Transfers and
/// withdrawals both route through the external value-transfer collaborator;
/// swaps are a distinct tag with no handler yet.
#[derive(Clone, Copy, Debug, PartialEq, Eq, Structural)]
pub enum TransactionType {
    Transfer,
    Swap,
    Withdraw,
}

/// A decoded execution request: what to do, how much to move, and to whom.
#[derive(Clone, Copy, Debug, PartialEq, Eq)]
pub struct TransactionData {
    pub tx_type: TransactionType,
    pub amount: u64,
    pub recipient: Option<[u8; 32]>,
}

impl View for TransactionData {
    type V = (TransactionType, u64, Option<Seq<u8>>);

    open spec fn view(&self) -> (TransactionType, u64, Option<Seq<u8>>) {
        (
            self.tx_type,
            self.amount,
            match self.recipient {
                Some(r) => Some(r@),
                None => None,
            },
        )
    }
}

/// The transaction type encoded by a discriminant byte.
pub open spec fn tx_type_of(d: u8) -> TransactionType
    recommends
        d <= 2,
{
    if d == 0 {
        TransactionType::Transfer
    } else if d == 1 {
        TransactionType::Swap
    } else {
        TransactionType::Withdraw
    }
}

/// The number encoded by eight little-endian bytes.
pub open spec fn u64_from_le(s: Seq<u8>) -> u64
    recommends
        s.len() == 8,
{
    (s[0] as u64) | ((s[1] as u64) << 8) | ((s[2] as u64) << 16) | ((s[3] as u64) << 24) | ((
    s[4] as u64) << 32) | ((s[5] as u64) << 40) | ((s[6] as u64) << 48) | ((s[7] as u64) << 56)
}

/// What a byte string decodes to: `None` where it is truncated, carries an
/// unknown discriminant, or has a malformed recipient tag.
pub open spec fn decode_request(s: Seq<u8>) -> Option<(TransactionType, u64, Option<Seq<u8>>)> {
    if s.len() < 10 {
        None
    } else if s[0] > 2 {
        None
    } else if s[9] == 0 {
        Some((tx_type_of(s[0]), u64_from_le(s.subrange(1, 9)), None))
    } else if s[9] == 1 && s.len() >= 42 {
        Some((tx_type_of(s[0]), u64_from_le(s.subrange(1, 9)), Some(s.subrange(10, 42))))
    } else {
        None
    }
}

/// Read eight little-endian bytes starting at `offset`.
fn read_u64_le(data: &[u8], offset: usize) -> (r: u64)
    requires
        offset + 8 <= data@.len(),
    ensures
        r == u64_from_le(data@.subrange(offset as int, offset as int + 8)),
{
    (data[offset] as u64) | ((data[offset + 1] as u64) << 8) | ((data[offset + 2] as u64) << 16)
        | ((data[offset + 3] as u64) << 24) | ((data[offset + 4] as u64) << 32) | ((data[offset
        + 5] as u64) << 40) | ((data[offset + 6] as u64) << 48) | ((data[offset + 7] as u64) << 56)
}

/// Decode an execution payload, failing with `MalformedPayload` exactly on
/// the byte strings that encode no request.
pub fn decode_transaction(data: &[u8]) -> (r: Result<TransactionData, ErrorCode>)
    ensures
        match r {
            Ok(t) => decode_request(data@) == Some(t@),
            Err(e) => decode_request(data@) is None && e == ErrorCode::MalformedPayload,
        },
{
    if data.len() < 10 {
        return Err(ErrorCode::MalformedPayload);
    }
    let d = data[0];
    if d > 2 {
        return Err(ErrorCode::MalformedPayload);
    }
    let tx_type = if d == 0 {
        TransactionType::Transfer
    } else if d == 1 {
        TransactionType::Swap
    } else {
        TransactionType::Withdraw
    };
    let amount = read_u64_le(data, 1);
    let tag = data[9];
    if tag == 0 {
        Ok(TransactionData { tx_type, amount, recipient: None })
    } else if tag == 1 && data.len() >= 42 {
        let mut recipient: [u8; 32] = [0; 32];
        let mut i: usize = 0;
        while i < 32
            invariant
                i <= 32,
                data@.len() >= 42,
                recipient@.subrange(0, i as int) == data@.subrange(10, 10 + i as int),
            decreases 32 - i,
        {
            recipient[i] = data[10 + i];
            proof {
                assert(recipient@.subrange(0, i + 1) =~= data@.subrange(10, 10 + i + 1));
            }
            i = i + 1;
        }
        proof {
            assert(recipient@ =~= data@.subrange(10, 42));
        }
        Ok(TransactionData { tx_type, amount, recipient: Some(recipient) })
    } else {
        Err(ErrorCode::MalformedPayload)
    }
}

} // verus!
