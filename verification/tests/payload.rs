use crosswallet::payload::{decode_transaction, TransactionType};
use crosswallet::ErrorCode;

fn encode(tx_type: u8, amount: u64, recipient: Option<[u8; 32]>) -> Vec<u8> {
    let mut bytes = vec![tx_type];
    bytes.extend_from_slice(&amount.to_le_bytes());
    match recipient {
        None => bytes.push(0),
        Some(r) => {
            bytes.push(1);
            bytes.extend_from_slice(&r);
        }
    }
    bytes
}

#[test]
fn decode_transfer_without_recipient() {
    let bytes = encode(0, 100, None);
    let t = decode_transaction(&bytes).unwrap();
    assert_eq!(t.tx_type, TransactionType::Transfer);
    assert_eq!(t.amount, 100);
    assert_eq!(t.recipient, None);
}

#[test]
fn decode_withdraw_with_recipient() {
    let bytes = encode(2, 7, Some([9u8; 32]));
    let t = decode_transaction(&bytes).unwrap();
    assert_eq!(t.tx_type, TransactionType::Withdraw);
    assert_eq!(t.amount, 7);
    assert_eq!(t.recipient, Some([9u8; 32]));
}

#[test]
fn decode_swap_discriminant() {
    let bytes = encode(1, 0, None);
    let t = decode_transaction(&bytes).unwrap();
    assert_eq!(t.tx_type, TransactionType::Swap);
}

#[test]
fn decode_amount_is_little_endian() {
    let bytes = encode(0, 0x0102030405060708, None);
    assert_eq!(bytes[1], 0x08);
    assert_eq!(bytes[8], 0x01);
    let t = decode_transaction(&bytes).unwrap();
    assert_eq!(t.amount, 0x0102030405060708);
}

#[test]
fn decode_rejects_truncated_payload() {
    let bytes = vec![0u8; 9];
    assert_eq!(decode_transaction(&bytes), Err(ErrorCode::MalformedPayload));
    assert_eq!(decode_transaction(&[]), Err(ErrorCode::MalformedPayload));
}

#[test]
fn decode_rejects_unknown_discriminant() {
    let bytes = encode(3, 100, None);
    assert_eq!(decode_transaction(&bytes), Err(ErrorCode::MalformedPayload));
}

#[test]
fn decode_rejects_bad_recipient_tag() {
    let mut bytes = encode(0, 100, None);
    bytes[9] = 2;
    assert_eq!(decode_transaction(&bytes), Err(ErrorCode::MalformedPayload));
}

#[test]
fn decode_rejects_short_recipient() {
    let mut bytes = encode(0, 100, Some([9u8; 32]));
    bytes.truncate(30);
    assert_eq!(decode_transaction(&bytes), Err(ErrorCode::MalformedPayload));
}

#[test]
fn decode_ignores_trailing_bytes() {
    let mut bytes = encode(0, 100, None);
    bytes.extend_from_slice(&[0xaa, 0xbb]);
    let t = decode_transaction(&bytes).unwrap();
    assert_eq!(t.tx_type, TransactionType::Transfer);
    assert_eq!(t.amount, 100);
}
