use gas_pass::error::GasPassError;
use gas_pass::identity::Identity;
use gas_pass::instruction::{GasPassInstruction, TopupAgrs};
use gas_pass::state::{GasPassInfo, RECORD_LEN};

fn ident(b: u8) -> Identity {
    Identity::new(vec![b; 32])
}

#[test]
fn record_len_is_fixed() {
    assert_eq!(GasPassInfo::get_account_len(), 42);
    assert_eq!(RECORD_LEN, 42);
}

#[test]
fn record_round_trip() {
    let rec = GasPassInfo {
        is_initialized: true,
        authority: ident(0xAB),
        nonce: 7,
        balance: 0x0102030405060708,
    };
    let bytes = rec.encode();
    assert_eq!(bytes.len(), RECORD_LEN);
    let back = GasPassInfo::decode_record(&bytes).unwrap();
    assert!(back.is_initialized);
    assert_eq!(back.authority.bytes, vec![0xAB; 32]);
    assert_eq!(back.nonce, 7);
    assert_eq!(back.balance, 0x0102030405060708);
}

#[test]
fn record_layout_is_flag_authority_nonce_le_balance() {
    let rec = GasPassInfo {
        is_initialized: true,
        authority: ident(0x11),
        nonce: 0x22,
        balance: 0x99,
    };
    let bytes = rec.encode();
    assert_eq!(bytes[0], 1);
    assert_eq!(&bytes[1..33], &[0x11; 32][..]);
    assert_eq!(bytes[33], 0x22);
    assert_eq!(&bytes[34..42], &[0x99, 0, 0, 0, 0, 0, 0, 0][..]);
}

#[test]
fn record_decode_rejects_undersized_and_bad_flag() {
    assert_eq!(
        GasPassInfo::decode_record(&[0u8; 41]).unwrap_err(),
        GasPassError::MalformedInput
    );
    assert_eq!(
        GasPassInfo::decode_record(&[]).unwrap_err(),
        GasPassError::MalformedInput
    );
    let mut bad = vec![0u8; 42];
    bad[0] = 2;
    assert_eq!(
        GasPassInfo::decode_record(&bad).unwrap_err(),
        GasPassError::MalformedInput
    );
}

#[test]
fn record_decode_reads_only_the_head() {
    let rec = GasPassInfo {
        is_initialized: false,
        authority: ident(3),
        nonce: 1,
        balance: 12345,
    };
    let mut bytes = rec.encode();
    bytes.extend_from_slice(&[0xFF, 0xFF, 0xFF]);
    let back = GasPassInfo::decode_record(&bytes).unwrap();
    assert_eq!(back.balance, 12345);
    assert!(!back.is_initialized);
}

#[test]
fn instruction_decode_initialize() {
    match GasPassInstruction::deserialize(&[0, 7]).unwrap() {
        GasPassInstruction::InitializeAccount { nonce } => assert_eq!(nonce, 7),
        _ => panic!("wrong variant"),
    }
    // An initialize payload without its nonce byte, or with trailing
    // bytes, is malformed.
    assert_eq!(
        GasPassInstruction::deserialize(&[0]).unwrap_err(),
        GasPassError::MalformedInput
    );
    assert_eq!(
        GasPassInstruction::deserialize(&[0, 7, 7]).unwrap_err(),
        GasPassError::MalformedInput
    );
}

#[test]
fn instruction_decode_amounts_little_endian() {
    let mut p = vec![1];
    p.extend_from_slice(&0xDEAD_BEEF_u64.to_le_bytes());
    match GasPassInstruction::deserialize(&p).unwrap() {
        GasPassInstruction::Topup { amount } => assert_eq!(amount, 0xDEAD_BEEF),
        _ => panic!("wrong variant"),
    }
    let mut p = vec![3];
    p.extend_from_slice(&42u64.to_le_bytes());
    match GasPassInstruction::deserialize(&p).unwrap() {
        GasPassInstruction::Withdraw { amount } => assert_eq!(amount, 42),
        _ => panic!("wrong variant"),
    }
    // Short amounts are malformed.
    assert_eq!(
        GasPassInstruction::deserialize(&[1, 1, 2, 3]).unwrap_err(),
        GasPassError::MalformedInput
    );
    assert_eq!(
        GasPassInstruction::deserialize(&[3]).unwrap_err(),
        GasPassError::MalformedInput
    );
}

#[test]
fn instruction_decode_submit_length_prefixed() {
    let body = [9u8, 8, 7, 6];
    let mut p = vec![2];
    p.extend_from_slice(&(body.len() as u32).to_le_bytes());
    p.extend_from_slice(&body);
    match GasPassInstruction::deserialize(&p).unwrap() {
        GasPassInstruction::SubmitTransaction { transaction } => {
            assert_eq!(transaction, body.to_vec());
        }
        _ => panic!("wrong variant"),
    }
    // A length prefix that disagrees with the body is malformed.
    let mut short = p.clone();
    short.pop();
    assert_eq!(
        GasPassInstruction::deserialize(&short).unwrap_err(),
        GasPassError::MalformedInput
    );
    let mut long = p.clone();
    long.push(0);
    assert_eq!(
        GasPassInstruction::deserialize(&long).unwrap_err(),
        GasPassError::MalformedInput
    );
    // An empty body is a valid submission.
    let empty = vec![2, 0, 0, 0, 0];
    match GasPassInstruction::deserialize(&empty).unwrap() {
        GasPassInstruction::SubmitTransaction { transaction } => assert!(transaction.is_empty()),
        _ => panic!("wrong variant"),
    }
}

#[test]
fn instruction_decode_rejects_empty_and_unknown() {
    assert_eq!(
        GasPassInstruction::deserialize(&[]).unwrap_err(),
        GasPassError::MalformedInput
    );
    assert_eq!(
        GasPassInstruction::deserialize(&[4, 0, 0]).unwrap_err(),
        GasPassError::MalformedInput
    );
}

#[test]
fn topup_args_decode() {
    let mut p = vec![1];
    p.extend_from_slice(&500u64.to_le_bytes());
    assert_eq!(TopupAgrs::decode(&p).unwrap().amount, 500);
    assert_eq!(TopupAgrs::decode(&p[..5]).unwrap_err(), GasPassError::MalformedInput);
}

#[test]
fn identity_equals_and_duplicate() {
    let a = ident(5);
    let b = ident(5);
    let c = ident(6);
    assert!(a.equals(&b));
    assert!(!a.equals(&c));
    let d = a.duplicate();
    assert!(d.equals(&a));
    assert_eq!(d.bytes, a.bytes);
}

#[test]
fn error_codes_are_stable() {
    assert_eq!(GasPassError::AlreadyInitialized.code(), 0);
    assert_eq!(GasPassError::NotInitialized.code(), 1);
    assert_eq!(GasPassError::MissingAuthorization.code(), 2);
    assert_eq!(GasPassError::WrongOwner.code(), 3);
    assert_eq!(GasPassError::InsufficientFunding.code(), 4);
    assert_eq!(GasPassError::AuthorityMismatch.code(), 5);
    assert_eq!(GasPassError::InsufficientBalance.code(), 6);
    assert_eq!(GasPassError::AmountOverflow.code(), 7);
    assert_eq!(GasPassError::MalformedInput.code(), 8);
}
