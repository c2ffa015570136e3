use glitter_lock::error::LockError;
use glitter_lock::instruction::LockInstruction;
use glitter_lock::processor::{OwnerPolicy, Processor, MIN_HOLD_SECONDS};
use glitter_lock::state::{identity_eq, AccountState, Identity, LockRecord, RECORD_LEN};
use glitter_lock::utils::{mint_decimals, transfer_lamports, MINT_LEN};

const PROGRAM: Identity = [7u8; 32];
const DEPOSITOR: Identity = [1u8; 32];
const CUSTODY: Identity = [2u8; 32];

fn depositor(lamports: u64, is_signer: bool) -> AccountState {
    AccountState { key: DEPOSITOR, owner: [0u8; 32], is_signer, lamports, data: Vec::new() }
}

fn custody(lamports: u64) -> AccountState {
    AccountState {
        key: CUSTODY,
        owner: PROGRAM,
        is_signer: false,
        lamports,
        data: vec![0u8; RECORD_LEN],
    }
}

fn record_of(a: &AccountState) -> LockRecord {
    LockRecord::unpack_unchecked(&a.data).unwrap()
}

fn lock_data(amount: u64) -> Vec<u8> {
    LockInstruction::Lock { amount }.pack()
}

fn release_data() -> Vec<u8> {
    LockInstruction::Release.pack()
}

fn run(accounts: &mut Vec<AccountState>, data: &[u8], now: i64) -> Result<(), LockError> {
    Processor::process(&PROGRAM, accounts, data, now)
}

#[test]
fn scenario_early_then_timely_release() {
    let mut accounts = vec![depositor(1000, true), custody(0)];
    assert_eq!(run(&mut accounts, &lock_data(400), 1000), Ok(()));
    assert_eq!(accounts[0].lamports, 600);
    assert_eq!(accounts[1].lamports, 400);

    assert_eq!(run(&mut accounts, &release_data(), 1030), Err(LockError::EarlyUnlock));
    assert_eq!(accounts[0].lamports, 600);
    let rec = record_of(&accounts[1]);
    assert!(rec.is_initialized);
    assert_eq!(rec.amount, 400);
    assert_eq!(rec.lock_time, 1000);

    assert_eq!(run(&mut accounts, &release_data(), 1061), Ok(()));
    assert_eq!(accounts[0].lamports, 1000);
    assert_eq!(accounts[1].lamports, 0);
    assert!(!record_of(&accounts[1]).is_initialized);
}

#[test]
fn lock_records_depositor_as_owner() {
    let mut accounts = vec![depositor(50, true), custody(0)];
    assert_eq!(run(&mut accounts, &lock_data(20), -5), Ok(()));
    let rec = record_of(&accounts[1]);
    assert!(rec.is_initialized);
    assert_eq!(rec.amount, 20);
    assert_eq!(rec.owner_identity, DEPOSITOR);
    assert_eq!(rec.lock_time, -5);
}

#[test]
fn custody_owner_policy_pays_custody_itself() {
    let mut d = depositor(100, true);
    let mut c = custody(0);
    let r = Processor::process_lock(&mut d, &mut c, 30, &PROGRAM, 0, OwnerPolicy::Custody);
    assert_eq!(r, Ok(()));
    assert_eq!(record_of(&c).owner_identity, CUSTODY);
    let r = Processor::process_unlock(true, &mut c, &mut d, &PROGRAM, 100);
    assert_eq!(r, Ok(()));
    assert_eq!(d.lamports, 70);
    assert_eq!(c.lamports, 30);
    assert!(!record_of(&c).is_initialized);
}

#[test]
fn second_lock_fails_already_initialized() {
    let mut accounts = vec![depositor(1000, true), custody(0)];
    assert_eq!(run(&mut accounts, &lock_data(100), 10), Ok(()));
    let before = accounts.clone();
    assert_eq!(run(&mut accounts, &lock_data(5), 20), Err(LockError::AlreadyInitialized));
    assert_eq!(accounts[0].lamports, before[0].lamports);
    assert_eq!(accounts[1].data, before[1].data);
    let rec = record_of(&accounts[1]);
    assert_eq!(rec.amount, 100);
    assert_eq!(rec.lock_time, 10);
}

#[test]
fn release_at_exact_hold_boundary_succeeds() {
    let mut accounts = vec![depositor(10, true), custody(0)];
    assert_eq!(run(&mut accounts, &lock_data(10), 500), Ok(()));
    assert_eq!(
        run(&mut accounts, &release_data(), 500 + MIN_HOLD_SECONDS - 1),
        Err(LockError::EarlyUnlock)
    );
    assert_eq!(run(&mut accounts, &release_data(), 500 + MIN_HOLD_SECONDS), Ok(()));
    assert_eq!(accounts[0].lamports, 10);
}

#[test]
fn release_with_extreme_clock_values() {
    let mut accounts = vec![depositor(10, true), custody(0)];
    assert_eq!(run(&mut accounts, &lock_data(3), i64::MIN), Ok(()));
    assert_eq!(record_of(&accounts[1]).lock_time, i64::MIN);
    assert_eq!(run(&mut accounts, &release_data(), i64::MAX), Ok(()));
    assert_eq!(accounts[0].lamports, 10);

    let mut accounts = vec![depositor(10, true), custody(0)];
    assert_eq!(run(&mut accounts, &lock_data(3), i64::MAX), Ok(()));
    assert_eq!(run(&mut accounts, &release_data(), i64::MIN), Err(LockError::EarlyUnlock));
}

#[test]
fn lock_without_signer_fails() {
    let mut accounts = vec![depositor(1000, false), custody(0)];
    assert_eq!(run(&mut accounts, &lock_data(1), 0), Err(LockError::MissingAuthorization));
    assert_eq!(accounts[0].lamports, 1000);
    assert_eq!(accounts[1].lamports, 0);
    assert!(!record_of(&accounts[1]).is_initialized);
}

#[test]
fn release_without_signer_fails() {
    let mut accounts = vec![depositor(1000, true), custody(0)];
    assert_eq!(run(&mut accounts, &lock_data(100), 0), Ok(()));
    accounts[0].is_signer = false;
    assert_eq!(run(&mut accounts, &release_data(), 1000), Err(LockError::MissingAuthorization));
    assert_eq!(accounts[0].lamports, 900);
    assert_eq!(accounts[1].lamports, 100);
    assert!(record_of(&accounts[1]).is_initialized);
}

#[test]
fn lock_more_than_balance_fails() {
    let mut accounts = vec![depositor(99, true), custody(0)];
    assert_eq!(run(&mut accounts, &lock_data(100), 0), Err(LockError::InsufficientFunds));
    assert_eq!(accounts[0].lamports, 99);
    assert!(!record_of(&accounts[1]).is_initialized);
}

#[test]
fn lock_whole_balance_and_zero_amount() {
    let mut accounts = vec![depositor(99, true), custody(0)];
    assert_eq!(run(&mut accounts, &lock_data(99), 0), Ok(()));
    assert_eq!(accounts[0].lamports, 0);

    let mut accounts = vec![depositor(5, true), custody(0)];
    assert_eq!(run(&mut accounts, &lock_data(0), 0), Ok(()));
    assert_eq!(accounts[0].lamports, 5);
    let rec = record_of(&accounts[1]);
    assert!(rec.is_initialized);
    assert_eq!(rec.amount, 0);
}

#[test]
fn lock_release_round_trip_restores_balances() {
    let start = vec![depositor(777, true), custody(5)];
    let mut accounts = start.clone();
    assert_eq!(run(&mut accounts, &lock_data(700), 100), Ok(()));
    assert_eq!(run(&mut accounts, &release_data(), 200), Ok(()));
    assert_eq!(accounts[0].lamports, start[0].lamports);
    assert_eq!(accounts[1].lamports, start[1].lamports);
    assert!(!record_of(&accounts[1]).is_initialized);
    assert_eq!(run(&mut accounts, &lock_data(700), 300), Ok(()));
}

#[test]
fn repeated_early_release_keeps_failing() {
    let mut accounts = vec![depositor(1000, true), custody(0)];
    assert_eq!(run(&mut accounts, &lock_data(400), 1000), Ok(()));
    let snapshot = accounts.clone();
    for _ in 0..5 {
        assert_eq!(run(&mut accounts, &release_data(), 1030), Err(LockError::EarlyUnlock));
        assert_eq!(accounts[0].lamports, snapshot[0].lamports);
        assert_eq!(accounts[1].lamports, snapshot[1].lamports);
        assert_eq!(accounts[1].data, snapshot[1].data);
    }
}

#[test]
fn wrong_custody_owner_fails() {
    let mut c = custody(0);
    c.owner = [9u8; 32];
    let mut accounts = vec![depositor(10, true), c];
    assert_eq!(run(&mut accounts, &lock_data(1), 0), Err(LockError::IncorrectOwner));
    assert_eq!(run(&mut accounts, &release_data(), 0), Err(LockError::IncorrectOwner));
}

#[test]
fn release_of_unlocked_record_fails() {
    let mut accounts = vec![depositor(10, true), custody(0)];
    assert_eq!(run(&mut accounts, &release_data(), 1000), Err(LockError::UninitializedAccount));
}

#[test]
fn second_release_fails() {
    let mut accounts = vec![depositor(10, true), custody(0)];
    assert_eq!(run(&mut accounts, &lock_data(10), 0), Ok(()));
    assert_eq!(run(&mut accounts, &release_data(), 60), Ok(()));
    assert_eq!(run(&mut accounts, &release_data(), 120), Err(LockError::UninitializedAccount));
    assert_eq!(accounts[0].lamports, 10);
}

#[test]
fn release_by_other_signer_pays_owner() {
    let mut accounts = vec![depositor(10, true), custody(0)];
    assert_eq!(run(&mut accounts, &lock_data(10), 0), Ok(()));
    let owner = accounts[0].clone();
    let mut releasing = vec![
        AccountState { key: [3u8; 32], owner: [0u8; 32], is_signer: true, lamports: 50, data: Vec::new() },
        accounts[1].clone(),
        owner,
    ];
    assert_eq!(run(&mut releasing, &release_data(), 60), Ok(()));
    assert_eq!(releasing[0].lamports, 50);
    assert_eq!(releasing[1].lamports, 0);
    assert_eq!(releasing[2].lamports, 10);
    assert!(!record_of(&releasing[1]).is_initialized);
}

#[test]
fn release_without_owner_account_fails() {
    let mut accounts = vec![depositor(10, true), custody(0)];
    assert_eq!(run(&mut accounts, &lock_data(10), 0), Ok(()));
    accounts[0].key = [3u8; 32];
    assert_eq!(run(&mut accounts, &release_data(), 60), Err(LockError::InvalidArgument));
    assert_eq!(accounts[0].lamports, 0);
    assert_eq!(accounts[1].lamports, 10);
    assert!(record_of(&accounts[1]).is_initialized);

    let stranger = AccountState { key: [4u8; 32], owner: [0u8; 32], is_signer: false, lamports: 0, data: Vec::new() };
    accounts.push(stranger);
    assert_eq!(run(&mut accounts, &release_data(), 60), Err(LockError::InvalidArgument));
    assert_eq!(accounts[2].lamports, 0);
}

#[test]
fn duplicate_accounts_fail_after_listed_checks() {
    let mut c = custody(0);
    c.key = DEPOSITOR;
    let mut accounts = vec![depositor(10, true), c];
    assert_eq!(run(&mut accounts, &lock_data(1), 0), Err(LockError::DuplicateAccount));
    assert_eq!(accounts[0].lamports, 10);
    assert_eq!(run(&mut accounts, &release_data(), 0), Err(LockError::UninitializedAccount));

    accounts[1].owner = [9u8; 32];
    assert_eq!(run(&mut accounts, &lock_data(1), 0), Err(LockError::IncorrectOwner));
    assert_eq!(run(&mut accounts, &release_data(), 0), Err(LockError::IncorrectOwner));

    let mut accounts = vec![depositor(10, true), custody(0)];
    assert_eq!(run(&mut accounts, &lock_data(10), 0), Ok(()));
    let mut aliased = custody(0);
    aliased.lamports = accounts[1].lamports;
    aliased.data = accounts[1].data.clone();
    aliased.is_signer = true;
    let mut same = vec![aliased.clone(), aliased];
    assert_eq!(run(&mut same, &release_data(), 30), Err(LockError::EarlyUnlock));
    assert_eq!(run(&mut same, &release_data(), 60), Err(LockError::DuplicateAccount));
    assert!(record_of(&same[1]).is_initialized);

    accounts.push(custody(0));
    assert_eq!(run(&mut accounts, &release_data(), 30), Err(LockError::EarlyUnlock));
    assert_eq!(run(&mut accounts, &release_data(), 60), Err(LockError::DuplicateAccount));
    assert!(record_of(&accounts[1]).is_initialized);
}

#[test]
fn owner_passed_as_third_account_is_paid() {
    let mut accounts = vec![depositor(10, true), custody(0)];
    assert_eq!(run(&mut accounts, &lock_data(10), 0), Ok(()));
    accounts.push(depositor(0, false));
    assert_eq!(run(&mut accounts, &release_data(), 60), Ok(()));
    assert_eq!(accounts[0].lamports, 0);
    assert_eq!(accounts[1].lamports, 0);
    assert_eq!(accounts[2].lamports, 10);
}

#[test]
fn bad_custody_data_fails() {
    let mut c = custody(0);
    c.data = vec![0u8; RECORD_LEN - 1];
    let mut accounts = vec![depositor(10, true), c];
    assert_eq!(run(&mut accounts, &lock_data(1), 0), Err(LockError::InvalidAccountData));
    accounts[1].data = vec![0u8; RECORD_LEN];
    accounts[1].data[0] = 2;
    assert_eq!(run(&mut accounts, &lock_data(1), 0), Err(LockError::InvalidAccountData));
}

#[test]
fn custody_balance_overflow_fails() {
    let mut accounts = vec![depositor(10, true), custody(u64::MAX)];
    assert_eq!(run(&mut accounts, &lock_data(1), 0), Err(LockError::ArithmeticOverflow));
    assert_eq!(accounts[0].lamports, 10);
    assert!(!record_of(&accounts[1]).is_initialized);
}

#[test]
fn release_payout_overflow_fails() {
    let mut accounts = vec![depositor(10, true), custody(0)];
    assert_eq!(run(&mut accounts, &lock_data(10), 0), Ok(()));
    accounts[0].lamports = u64::MAX;
    assert_eq!(run(&mut accounts, &release_data(), 60), Err(LockError::ArithmeticOverflow));
    assert!(record_of(&accounts[1]).is_initialized);
}

#[test]
fn release_with_drained_custody_fails() {
    let mut accounts = vec![depositor(10, true), custody(0)];
    assert_eq!(run(&mut accounts, &lock_data(10), 0), Ok(()));
    accounts[1].lamports = 4;
    assert_eq!(run(&mut accounts, &release_data(), 60), Err(LockError::InsufficientFunds));
}

#[test]
fn malformed_instructions_fail() {
    let mut accounts = vec![depositor(10, true), custody(0)];
    assert_eq!(run(&mut accounts, &[], 0), Err(LockError::InvalidInstruction));
    assert_eq!(run(&mut accounts, &[2], 0), Err(LockError::InvalidInstruction));
    assert_eq!(run(&mut accounts, &[0, 1, 2], 0), Err(LockError::InvalidInstruction));
    assert_eq!(run(&mut accounts, &[1, 0], 0), Err(LockError::InvalidInstruction));
    assert_eq!(accounts[0].lamports, 10);
}

#[test]
fn too_few_accounts_fail() {
    let mut accounts = vec![depositor(10, true)];
    assert_eq!(run(&mut accounts, &lock_data(1), 0), Err(LockError::NotEnoughAccountKeys));
    assert_eq!(accounts.len(), 1);
}

#[test]
fn extra_accounts_are_untouched() {
    let extra = depositor(5, false);
    let mut accounts = vec![depositor(10, true), custody(0), extra.clone()];
    assert_eq!(run(&mut accounts, &lock_data(4), 0), Ok(()));
    assert_eq!(accounts.len(), 3);
    assert_eq!(accounts[2].lamports, 5);
    assert_eq!(accounts[0].lamports, 6);
}

#[test]
fn instruction_encoding() {
    assert_eq!(lock_data(0x0102030405060708), vec![0, 8, 7, 6, 5, 4, 3, 2, 1]);
    assert_eq!(release_data(), vec![1]);
    assert_eq!(
        LockInstruction::unpack(&[0, 44, 1, 0, 0, 0, 0, 0, 0]),
        Ok(LockInstruction::Lock { amount: 300 })
    );
    assert_eq!(LockInstruction::unpack(&[1]), Ok(LockInstruction::Release));
}

#[test]
fn record_encoding() {
    let rec = LockRecord { is_initialized: true, amount: 258, owner_identity: DEPOSITOR, lock_time: -2 };
    let bytes = rec.pack();
    assert_eq!(bytes.len(), RECORD_LEN);
    assert_eq!(bytes[0], 1);
    assert_eq!(&bytes[1..9], &[2, 1, 0, 0, 0, 0, 0, 0]);
    assert_eq!(&bytes[9..41], &DEPOSITOR);
    assert_eq!(&bytes[41..49], &[0xfe, 0xff, 0xff, 0xff, 0xff, 0xff, 0xff, 0xff]);
    let back = LockRecord::unpack_unchecked(&bytes).unwrap();
    assert!(back.is_initialized);
    assert_eq!(back.amount, 258);
    assert_eq!(back.owner_identity, DEPOSITOR);
    assert_eq!(back.lock_time, -2);
    let zero = LockRecord::unpack_unchecked(&[0u8; RECORD_LEN]).unwrap();
    assert!(!zero.is_initialized);
    assert_eq!(zero.amount, 0);
    assert_eq!(zero.lock_time, 0);
}

#[test]
fn transfer_moves_or_fails_whole() {
    let mut a = depositor(10, true);
    let mut b = custody(1);
    assert_eq!(transfer_lamports(&mut a, &mut b, 4), Ok(()));
    assert_eq!((a.lamports, b.lamports), (6, 5));
    assert_eq!(transfer_lamports(&mut a, &mut b, 7), Err(LockError::InsufficientFunds));
    assert_eq!((a.lamports, b.lamports), (6, 5));
    b.lamports = u64::MAX;
    assert_eq!(transfer_lamports(&mut a, &mut b, 1), Err(LockError::ArithmeticOverflow));
    assert_eq!(a.lamports, 6);
}

#[test]
fn identity_comparison() {
    assert!(identity_eq(&DEPOSITOR, &DEPOSITOR));
    let mut other = DEPOSITOR;
    other[31] = 0;
    assert!(!identity_eq(&DEPOSITOR, &other));
}

fn mint_bytes(decimals: u8) -> Vec<u8> {
    let mut m = vec![0u8; MINT_LEN];
    m[36] = 100;
    m[44] = decimals;
    m[45] = 1;
    m
}

#[test]
fn mint_decimals_reads_decimals() {
    assert_eq!(mint_decimals(&mint_bytes(6)), Ok(6));
    assert_eq!(mint_decimals(&mint_bytes(9)), Ok(9));
    let mut with_authority = mint_bytes(2);
    with_authority[0] = 1;
    with_authority[4] = 0xaa;
    assert_eq!(mint_decimals(&with_authority), Ok(2));
}

#[test]
fn mint_decimals_rejects_bad_data() {
    assert_eq!(mint_decimals(&[0u8; 10]), Err(LockError::InvalidAccountData));
    let mut bad_tag = mint_bytes(6);
    bad_tag[0] = 2;
    assert_eq!(mint_decimals(&bad_tag), Err(LockError::InvalidAccountData));
    let mut bad_flag = mint_bytes(6);
    bad_flag[45] = 3;
    assert_eq!(mint_decimals(&bad_flag), Err(LockError::InvalidAccountData));
    let mut bad_freeze = mint_bytes(6);
    bad_freeze[47] = 1;
    assert_eq!(mint_decimals(&bad_freeze), Err(LockError::InvalidAccountData));
}
