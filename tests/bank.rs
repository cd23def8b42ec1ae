use bank_program::{
    custody_address, keys_equal, process_deposit, process_instruction, process_withdraw,
    read_u64_le, Account, BankError, Transfer, CUSTODY_SEED,
};

const PROGRAM: [u8; 32] = [7u8; 32];
const USER: [u8; 32] = [1u8; 32];
const OTHER_USER: [u8; 32] = [2u8; 32];
const SERVICE: [u8; 32] = [0u8; 32];

fn account(key: [u8; 32], owner: [u8; 32], writable: bool, lamports: u64, data: Vec<u8>) -> Account {
    Account { key, owner, is_writable: writable, lamports, data }
}

fn custody_of(user: &[u8; 32]) -> [u8; 32] {
    custody_address(user, &PROGRAM).expect("a custody address exists")
}

/// Opcode, the skipped byte, then the amount in little-endian order.
fn instruction(opcode: u8, amount: u64) -> Vec<u8> {
    let mut v = vec![opcode, 0xAA];
    v.extend_from_slice(&amount.to_le_bytes());
    v
}

fn accounts_for(user: [u8; 32], custody: [u8; 32], recorded: Vec<u8>) -> Vec<Account> {
    vec![
        account(user, SERVICE, true, 5_000_000, vec![]),
        account(custody, PROGRAM, true, 2_000_000, recorded),
        account(SERVICE, SERVICE, false, 1, vec![]),
    ]
}

fn record(balance: u64) -> Vec<u8> {
    balance.to_le_bytes().to_vec()
}

#[test]
fn reads_little_endian_amount() {
    let bytes = [0xFFu8, 0x01, 0x02, 0x03, 0x04, 0x05, 0x06, 0x07, 0x08];
    assert_eq!(read_u64_le(&bytes, 1), 0x0807_0605_0403_0201);
    assert_eq!(read_u64_le(&bytes, 0), 0x0706_0504_0302_01FF);
}

#[test]
fn compares_keys() {
    assert!(keys_equal(&USER, &USER));
    let mut k = USER;
    k[31] = 9;
    assert!(!keys_equal(&USER, &k));
}

#[test]
fn custody_address_is_derived_from_user() {
    let c = custody_of(&USER);
    assert_ne!(c, USER);
    assert_ne!(c, custody_of(&OTHER_USER));
    assert_eq!(c, custody_of(&USER));
    assert_ne!(Some(c), custody_address(&USER, &[8u8; 32]));
    assert_eq!(CUSTODY_SEED.to_vec(), b"custody".to_vec());
}

#[test]
fn deposit_moves_amount_from_user_to_custody() {
    let c = custody_of(&USER);
    let accounts = accounts_for(USER, c, vec![]);
    let data = instruction(0, 1_234_567);
    let r = process_instruction(&PROGRAM, &accounts, &data);
    assert_eq!(r, Ok(Some(Transfer { from: USER, to: c, amount: 1_234_567 })));
    let t = r.unwrap().unwrap();
    let user_after = accounts[0].lamports - t.amount;
    let custody_after = accounts[1].lamports + t.amount;
    assert_eq!(user_after, 5_000_000 - 1_234_567);
    assert_eq!(custody_after, 2_000_000 + 1_234_567);
}

#[test]
fn deposit_skips_the_byte_after_the_opcode() {
    let accounts = accounts_for(USER, custody_of(&USER), vec![]);
    let body = [0x05u8, 0x10, 0, 0, 0, 0, 0, 0, 0];
    let r = process_deposit(&PROGRAM, &accounts, &body);
    assert_eq!(r.map(|t| t.amount), Ok(0x10));
}

#[test]
fn deposit_errors() {
    let c = custody_of(&USER);
    let accounts = accounts_for(USER, c, vec![]);
    assert_eq!(
        process_deposit(&PROGRAM, &accounts[..2], &[0u8; 9]),
        Err(BankError::NotEnoughAccountKeys)
    );
    assert_eq!(process_deposit(&PROGRAM, &accounts, &[0u8; 8]), Err(BankError::InvalidInstructionData));
    let mut locked = accounts.clone();
    locked[1].is_writable = false;
    assert_eq!(process_deposit(&PROGRAM, &locked, &[0u8; 9]), Err(BankError::AccountNotWritable));
}

#[test]
fn empty_instruction_is_refused() {
    let accounts = accounts_for(USER, custody_of(&USER), vec![]);
    assert_eq!(process_instruction(&PROGRAM, &accounts, &[]), Err(BankError::InvalidInstructionData));
    assert_eq!(process_instruction(&PROGRAM, &accounts, &[0]), Err(BankError::InvalidInstructionData));
}

#[test]
fn unknown_opcode_is_a_no_op() {
    let accounts = accounts_for(USER, custody_of(&USER), record(10));
    let before = accounts.clone();
    assert_eq!(process_instruction(&PROGRAM, &accounts, &instruction(2, 5)), Ok(None));
    assert_eq!(process_instruction(&PROGRAM, &accounts, &[255]), Ok(None));
    assert_eq!(accounts, before);
}

#[test]
fn withdraw_moves_amount_back_to_user() {
    let c = custody_of(&USER);
    let accounts = accounts_for(USER, c, record(500));
    let r = process_instruction(&PROGRAM, &accounts, &instruction(1, 300));
    assert_eq!(r, Ok(Some(Transfer { from: c, to: USER, amount: 300 })));
}

#[test]
fn withdraw_of_exact_balance_succeeds() {
    let c = custody_of(&USER);
    let accounts = accounts_for(USER, c, record(777));
    let r = process_withdraw(&PROGRAM, &accounts, &instruction(1, 777)[1..]);
    assert_eq!(r, Ok(Transfer { from: c, to: USER, amount: 777 }));
}

#[test]
fn withdraw_of_balance_plus_one_is_refused() {
    let c = custody_of(&USER);
    let accounts = accounts_for(USER, c, record(777));
    let r = process_withdraw(&PROGRAM, &accounts, &instruction(1, 778)[1..]);
    assert_eq!(r, Err(BankError::InsufficientFunds));
}

#[test]
fn withdraw_with_seven_bytes_of_data_is_refused() {
    let c = custody_of(&USER);
    for amount in [0u64, 1, 1_000_000, u64::MAX] {
        let accounts = accounts_for(USER, c, vec![0xFF; 7]);
        let r = process_instruction(&PROGRAM, &accounts, &instruction(1, amount));
        assert_eq!(r, Err(BankError::InvalidAccountData));
    }
}

#[test]
fn withdraw_from_foreign_owned_account_is_refused() {
    let c = custody_of(&USER);
    let mut accounts = accounts_for(USER, c, record(500));
    accounts[1].owner = [9u8; 32];
    let r = process_instruction(&PROGRAM, &accounts, &instruction(1, 1));
    assert_eq!(r, Err(BankError::IncorrectProgramId));
}

#[test]
fn withdraw_from_unassociated_account_is_refused() {
    let accounts = accounts_for(USER, [3u8; 32], record(500));
    let r = process_instruction(&PROGRAM, &accounts, &instruction(1, 1));
    assert_eq!(r, Err(BankError::InvalidAccountData));
    let same_as_user = accounts_for(USER, USER, record(500));
    let r = process_instruction(&PROGRAM, &same_as_user, &instruction(1, 1));
    assert_eq!(r, Err(BankError::InvalidAccountData));
}

#[test]
fn withdraw_errors_before_checks() {
    let c = custody_of(&USER);
    let accounts = accounts_for(USER, c, record(500));
    assert_eq!(process_withdraw(&PROGRAM, &accounts[..2], &[0u8; 9]), Err(BankError::NotEnoughAccountKeys));
    assert_eq!(process_withdraw(&PROGRAM, &[], &[0u8; 9]), Err(BankError::NotEnoughAccountKeys));
    assert_eq!(process_withdraw(&PROGRAM, &accounts, &[0u8; 8]), Err(BankError::InvalidInstructionData));
    let mut locked = accounts.clone();
    locked[1].is_writable = false;
    locked[1].owner = [9u8; 32];
    assert_eq!(process_withdraw(&PROGRAM, &locked, &[0u8; 9]), Err(BankError::AccountNotWritable));
}

#[test]
fn deposit_then_withdraw_restores_user_balance() {
    let c = custody_of(&USER);
    let mut accounts = accounts_for(USER, c, record(1_000_000));
    let user_before = accounts[0].lamports;

    let d = process_instruction(&PROGRAM, &accounts, &instruction(0, 1_000_000))
        .expect("deposit accepted")
        .expect("deposit moves value");
    assert_eq!(d, Transfer { from: USER, to: c, amount: 1_000_000 });
    accounts[0].lamports -= d.amount;
    accounts[1].lamports += d.amount;

    let w = process_instruction(&PROGRAM, &accounts, &instruction(1, 1_000_000))
        .expect("withdraw accepted")
        .expect("withdraw moves value");
    assert_eq!(w, Transfer { from: c, to: USER, amount: 1_000_000 });
    accounts[1].lamports -= w.amount;
    accounts[0].lamports += w.amount;

    assert_eq!(accounts[0].lamports, user_before);
}

#[test]
fn other_user_cannot_withdraw_from_custody() {
    let c = custody_of(&USER);
    let accounts = accounts_for(OTHER_USER, c, record(1_000_000));
    let r = process_instruction(&PROGRAM, &accounts, &instruction(1, 1_000_000));
    assert_eq!(r, Err(BankError::InvalidAccountData));
}
