use ico::derivation::verify_custody;
use ico::errors::ErrorCode;
use ico::guard::checked_add;
use ico::guard::checked_scale;
use ico::guard::identity_eq;
use ico::guard::require_admin;
use ico::record::SaleLedgerRecord;
use ico::record::RECORD_BYTES;

#[test]
fn checked_scale_exact_value() {
    assert_eq!(checked_scale(10, 1_000_000), Ok(10_000_000));
    assert_eq!(checked_scale(1000, 1_000_000_000), Ok(1_000_000_000_000));
    assert_eq!(checked_scale(0, u64::MAX), Ok(0));
}

#[test]
fn checked_scale_overflow() {
    assert_eq!(checked_scale(18_446_744_074, 1_000_000_000), Err(ErrorCode::Overflow));
    assert_eq!(checked_scale(u64::MAX, 2), Err(ErrorCode::Overflow));
}

#[test]
fn checked_add_exact_and_overflow() {
    assert_eq!(checked_add(1000, 500), Ok(1500));
    assert_eq!(checked_add(u64::MAX, 1), Err(ErrorCode::Overflow));
    assert_eq!(checked_add(u64::MAX, 0), Ok(u64::MAX));
}

#[test]
fn require_admin_gates_by_identity() {
    let record = SaleLedgerRecord { admin: [5u8; 32], total_tokens: 10, tokens_sold: 0 };
    assert_eq!(require_admin(&record, &[5u8; 32]), Ok(()));
    assert_eq!(require_admin(&record, &[6u8; 32]), Err(ErrorCode::InvalidAdmin));
}

#[test]
fn identity_eq_compares_bytes() {
    let mut a = [9u8; 32];
    assert!(identity_eq(&a, &[9u8; 32]));
    a[31] = 8;
    assert!(!identity_eq(&a, &[9u8; 32]));
}

#[test]
fn error_messages() {
    assert_eq!(ErrorCode::Overflow.message(), "Arithmetic overflow");
    assert_eq!(ErrorCode::InvalidAdmin.message(), "Invalid admin");
}

#[test]
fn custody_verification_matches_ledger_derivation() {
    let mint = [11u8; 32];
    let program = [13u8; 32];
    let program_id = solana_pubkey::Pubkey::new_from_array(program);
    let (custody, bump) = solana_pubkey::Pubkey::find_program_address(&[&mint], &program_id);
    let custody = custody.to_bytes();
    assert!(verify_custody(&custody, &mint, bump, &program));
    // A spoofed custody address is rejected.
    assert!(!verify_custody(&[0u8; 32], &mint, bump, &program));
    // A wrong bump byte does not reconstruct the canonical address.
    assert!(!verify_custody(&custody, &mint, bump.wrapping_add(1), &program));
    // A different mint derives elsewhere.
    assert!(!verify_custody(&custody, &[12u8; 32], bump, &program));
}

#[test]
fn record_round_trip() {
    let record = SaleLedgerRecord {
        admin: [42u8; 32],
        total_tokens: 1_234_567_890_123,
        tokens_sold: 987,
    };
    let bytes = record.encode();
    assert_eq!(bytes.len(), RECORD_BYTES);
    assert_eq!(&bytes[0..32], &[42u8; 32]);
    let decoded = SaleLedgerRecord::decode(&bytes).unwrap();
    assert_eq!(decoded.admin, record.admin);
    assert_eq!(decoded.total_tokens, record.total_tokens);
    assert_eq!(decoded.tokens_sold, record.tokens_sold);
}

#[test]
fn record_layout_is_little_endian() {
    let record = SaleLedgerRecord { admin: [0u8; 32], total_tokens: 0x0102030405060708, tokens_sold: 1 };
    let bytes = record.encode();
    assert_eq!(&bytes[32..40], &[8, 7, 6, 5, 4, 3, 2, 1]);
    assert_eq!(&bytes[40..48], &[1, 0, 0, 0, 0, 0, 0, 0]);
}

#[test]
fn record_decode_rejects_wrong_length() {
    assert!(SaleLedgerRecord::decode(&vec![0u8; 47]).is_none());
    assert!(SaleLedgerRecord::decode(&vec![0u8; 49]).is_none());
    assert!(SaleLedgerRecord::decode(&Vec::new()).is_none());
}
