use gas_pass::account::Participant;
use gas_pass::error::GasPassError;
use gas_pass::identity::Identity;
use gas_pass::ledger::FEE;
use gas_pass::processor::Processor;
use gas_pass::state::{GasPassInfo, RECORD_LEN};

const RENT_MIN: u64 = 2_000_000;
const PROGRAM_ID_BYTE: u8 = 9;

fn ident(b: u8) -> Identity {
    Identity::new(vec![b; 32])
}

fn program_id() -> Identity {
    ident(PROGRAM_ID_BYTE)
}

fn target_account() -> Participant {
    Participant {
        identity: ident(1),
        is_signer: false,
        is_writable: true,
        native_balance: RENT_MIN,
        data: vec![0u8; RECORD_LEN],
        owner: ident(PROGRAM_ID_BYTE),
    }
}

fn authority_account(signer: bool) -> Participant {
    Participant {
        identity: ident(2),
        is_signer: signer,
        is_writable: true,
        native_balance: 10_000_000,
        data: Vec::new(),
        owner: ident(7),
    }
}

fn plain_account(id: u8, native_balance: u64) -> Participant {
    Participant {
        identity: ident(id),
        is_signer: false,
        is_writable: true,
        native_balance,
        data: Vec::new(),
        owner: ident(7),
    }
}

fn initialize_payload(nonce: u8) -> Vec<u8> {
    vec![0, nonce]
}

fn topup_payload(amount: u64) -> Vec<u8> {
    let mut p = vec![1];
    p.extend_from_slice(&amount.to_le_bytes());
    p
}

fn submit_payload(body: &[u8]) -> Vec<u8> {
    let mut p = vec![2];
    p.extend_from_slice(&(body.len() as u32).to_le_bytes());
    p.extend_from_slice(body);
    p
}

fn withdraw_payload(amount: u64) -> Vec<u8> {
    let mut p = vec![3];
    p.extend_from_slice(&amount.to_le_bytes());
    p
}

fn record_of(accounts: &[Participant]) -> GasPassInfo {
    GasPassInfo::decode_record(accounts[0].data.as_slice()).unwrap()
}

/// Runs the whole documented scenario through the wire codec and the
/// processor: initialize, top up, submit, withdraw everything, then one
/// more unit.
#[test]
fn scenario_full_lifecycle() {
    let pid = program_id();

    // Initialize with nonce 7.
    let mut accounts = vec![target_account(), authority_account(true), plain_account(3, 1)];
    let r = Processor::process(&pid, &mut accounts, &initialize_payload(7), RENT_MIN);
    assert_eq!(r, Ok(()));
    let rec = record_of(&accounts);
    assert!(rec.is_initialized);
    assert_eq!(rec.nonce, 7);
    assert_eq!(rec.balance, 0);
    assert_eq!(rec.authority.bytes, vec![2u8; 32]);

    // Top up 1_000_000 from the payer.
    let target = accounts.remove(0);
    let mut accounts = vec![target, authority_account(true), plain_account(4, 5_000_000)];
    let r = Processor::process(&pid, &mut accounts, &topup_payload(1_000_000), 0);
    assert_eq!(r, Ok(()));
    assert_eq!(record_of(&accounts).balance, 1_000_000);
    assert_eq!(accounts[0].native_balance, RENT_MIN + 1_000_000);
    assert_eq!(accounts[2].native_balance, 4_000_000);

    // Submit a transaction body; the executor earns the fixed fee.
    let target = accounts.remove(0);
    let mut accounts = vec![target, plain_account(5, 100)];
    let r = Processor::process(&pid, &mut accounts, &submit_payload(&[1, 2, 3]), 0);
    assert_eq!(r, Ok(()));
    assert_eq!(FEE, 50_000);
    assert_eq!(record_of(&accounts).balance, 950_000);
    assert_eq!(accounts[0].native_balance, RENT_MIN + 950_000);
    assert_eq!(accounts[1].native_balance, 100 + FEE);

    // Withdraw the whole remaining balance to the authority.
    let target = accounts.remove(0);
    let mut accounts = vec![target, authority_account(true)];
    let r = Processor::process(&pid, &mut accounts, &withdraw_payload(950_000), 0);
    assert_eq!(r, Ok(()));
    assert_eq!(record_of(&accounts).balance, 0);
    assert_eq!(accounts[0].native_balance, RENT_MIN);
    assert_eq!(accounts[1].native_balance, 10_000_000 + 950_000);

    // One more unit is refused.
    let before_native = accounts[0].native_balance;
    let r = Processor::process(&pid, &mut accounts, &withdraw_payload(1), 0);
    assert_eq!(r, Err(GasPassError::InsufficientBalance));
    assert_eq!(record_of(&accounts).balance, 0);
    assert_eq!(accounts[0].native_balance, before_native);
}

/// A second InitializeAccount on the same record is rejected and changes
/// nothing.
#[test]
fn initialize_twice_rejected() {
    let pid = program_id();
    let mut accounts = vec![target_account(), authority_account(true), plain_account(3, 1)];
    let r = Processor::process(&pid, &mut accounts, &initialize_payload(7), RENT_MIN);
    assert_eq!(r, Ok(()));
    let data_before = accounts[0].data.clone();

    let r = Processor::process(&pid, &mut accounts, &initialize_payload(9), RENT_MIN);
    assert_eq!(r, Err(GasPassError::AlreadyInitialized));
    assert_eq!(accounts[0].data, data_before);
    let rec = record_of(&accounts);
    assert_eq!(rec.nonce, 7);
    assert_eq!(rec.balance, 0);
    assert_eq!(rec.authority.bytes, vec![2u8; 32]);
}

/// Withdrawing exactly the stored balance succeeds and zeroes it;
/// withdrawing one unit more fails with InsufficientBalance.
#[test]
fn withdraw_boundary() {
    let pid = program_id();
    let mut accounts = vec![target_account(), authority_account(true), plain_account(4, 500)];
    Processor::process(&pid, &mut accounts, &initialize_payload(0), RENT_MIN).unwrap();
    Processor::process(&pid, &mut accounts, &topup_payload(300), 0).unwrap();

    let target = accounts.remove(0);
    let mut accounts = vec![target, authority_account(true)];
    let r = Processor::process(&pid, &mut accounts, &withdraw_payload(301), 0);
    assert_eq!(r, Err(GasPassError::InsufficientBalance));
    assert_eq!(record_of(&accounts).balance, 300);

    let r = Processor::process(&pid, &mut accounts, &withdraw_payload(300), 0);
    assert_eq!(r, Ok(()));
    assert_eq!(record_of(&accounts).balance, 0);
}

/// A signer whose identity differs from the stored authority is turned
/// away from Topup and Withdraw with AuthorityMismatch, with no balance
/// moved.
#[test]
fn authority_mismatch_gate() {
    let pid = program_id();
    let mut accounts = vec![target_account(), authority_account(true), plain_account(4, 500)];
    Processor::process(&pid, &mut accounts, &initialize_payload(0), RENT_MIN).unwrap();
    Processor::process(&pid, &mut accounts, &topup_payload(200), 0).unwrap();

    let mut intruder = authority_account(true);
    intruder.identity = ident(6);
    let target = accounts.remove(0);
    let payer = plain_account(4, 300);
    let payer_native = payer.native_balance;
    let mut accounts = vec![target, intruder, payer];
    let target_native = accounts[0].native_balance;

    let r = Processor::process(&pid, &mut accounts, &topup_payload(10), 0);
    assert_eq!(r, Err(GasPassError::AuthorityMismatch));
    assert_eq!(record_of(&accounts).balance, 200);
    assert_eq!(accounts[0].native_balance, target_native);
    assert_eq!(accounts[2].native_balance, payer_native);

    let r = Processor::process(&pid, &mut accounts, &withdraw_payload(10), 0);
    assert_eq!(r, Err(GasPassError::AuthorityMismatch));
    assert_eq!(record_of(&accounts).balance, 200);
    assert_eq!(accounts[0].native_balance, target_native);
}

/// The record balance tracks the net of all successful mutations.
#[test]
fn conservation_over_a_run() {
    let pid = program_id();
    let mut accounts = vec![target_account(), authority_account(true), plain_account(4, 10_000_000)];
    Processor::process(&pid, &mut accounts, &initialize_payload(1), RENT_MIN).unwrap();

    let mut expected: u64 = 0;
    for amount in [100_000u64, 250_000, 75_000] {
        Processor::process(&pid, &mut accounts, &topup_payload(amount), 0).unwrap();
        expected += amount;
        assert_eq!(record_of(&accounts).balance, expected);
    }
    let target = accounts.remove(0);
    let mut accounts = vec![target, plain_account(5, 0)];
    for _ in 0..2 {
        Processor::process(&pid, &mut accounts, &submit_payload(&[]), 0).unwrap();
        expected -= FEE;
        assert_eq!(record_of(&accounts).balance, expected);
    }
    let target = accounts.remove(0);
    let mut accounts = vec![target, authority_account(true)];
    Processor::process(&pid, &mut accounts, &withdraw_payload(25_000), 0).unwrap();
    expected -= 25_000;
    assert_eq!(record_of(&accounts).balance, expected);
    assert_eq!(expected, 100_000 + 250_000 + 75_000 - 2 * FEE - 25_000);
}
