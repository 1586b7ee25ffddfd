use deposit_ledger::auth::require_caller_is_owner;
use deposit_ledger::auth::require_namespace;
use deposit_ledger::auth::require_signer;
use deposit_ledger::errors::DepositError;
use deposit_ledger::identity::Identity;
use deposit_ledger::instruction::DepositInstruction;
use deposit_ledger::processor::get_balance;
use deposit_ledger::processor::Processor;
use deposit_ledger::reserve::RateTable;
use deposit_ledger::state::AccountRecord;
use deposit_ledger::state::AccountStatus;
use deposit_ledger::state::DepositAccount;

fn id(tag: u8) -> Identity {
    Identity::new([tag; 32])
}

fn wallet(tag: u8, lamports: u64, namespace: &Identity) -> AccountRecord {
    AccountRecord {
        key: id(tag),
        namespace: Identity::new(namespace.bytes),
        is_signer: true,
        lamports,
        data: vec![],
    }
}

fn fresh_storage(lamports: u64, namespace: &Identity) -> AccountRecord {
    AccountRecord {
        key: id(200),
        namespace: Identity::new(namespace.bytes),
        is_signer: false,
        lamports,
        data: vec![],
    }
}

fn balance_of(storage: &AccountRecord) -> u64 {
    match DepositAccount::load(&storage.data) {
        Ok(AccountStatus::Initialized(s)) => s.balance,
        _ => panic!("expected an initialized record"),
    }
}

fn owner_of(storage: &AccountRecord) -> [u8; 32] {
    match DepositAccount::load(&storage.data) {
        Ok(AccountStatus::Initialized(s)) => s.owner.bytes,
        _ => panic!("expected an initialized record"),
    }
}

#[test]
fn ledger_scenarios() {
    let pid = id(9);
    let rate = RateTable { base: 100_000, per_byte: 0 };
    // The host funds a record's allocation before the program runs on it.
    let mut storage = fresh_storage(100_000, &pid);
    let mut a = wallet(1, 2_000_000, &pid);
    let mut b = wallet(2, 600_000, &pid);
    let mut dest = wallet(3, 0, &pid);

    // Deposit 1,000,000 into the fresh record, signed and funded by A.
    let instr = DepositInstruction::Deposit { amount: 1_000_000 }.encode();
    let r = Processor::process(&pid, &instr, &mut a, &mut storage, &mut dest, &rate);
    assert_eq!(r, Ok(()));
    assert_eq!(owner_of(&storage), id(1).bytes);
    assert_eq!(balance_of(&storage), 1_000_000);
    assert_eq!(storage.lamports, 1_100_000);
    assert_eq!(a.lamports, 1_000_000);

    // Deposit 500,000 by B (any signer): balance grows, owner remains A.
    let instr = DepositInstruction::Deposit { amount: 500_000 }.encode();
    let r = Processor::process(&pid, &instr, &mut b, &mut storage, &mut dest, &rate);
    assert_eq!(r, Ok(()));
    assert_eq!(owner_of(&storage), id(1).bytes);
    assert_eq!(balance_of(&storage), 1_500_000);
    assert_eq!(storage.lamports, 1_600_000);
    assert_eq!(b.lamports, 100_000);

    // Withdraw 2,000,000 by A: more than the balance, so InsufficientFunds.
    let instr = DepositInstruction::Withdraw { amount: 2_000_000 }.encode();
    let r = Processor::process(&pid, &instr, &mut a, &mut storage, &mut dest, &rate);
    assert_eq!(r, Err(DepositError::InsufficientFunds));
    assert_eq!(balance_of(&storage), 1_500_000);
    assert_eq!(storage.lamports, 1_600_000);

    // Withdraw 1,000,000 by B, who is not the owner: Unauthorized, unchanged.
    let instr = DepositInstruction::Withdraw { amount: 1_000_000 }.encode();
    let r = Processor::process(&pid, &instr, &mut b, &mut storage, &mut dest, &rate);
    assert_eq!(r, Err(DepositError::Unauthorized));
    assert_eq!(balance_of(&storage), 1_500_000);
    assert_eq!(storage.lamports, 1_600_000);
    assert_eq!(b.lamports, 100_000);

    // Withdraw 1,400,000 by A with raw balance 1,600,000 and reserve 100,000:
    // succeeds; balance 100,000 and raw balance 200,000 remain.
    let instr = DepositInstruction::Withdraw { amount: 1_400_000 }.encode();
    let r = Processor::process(&pid, &instr, &mut a, &mut storage, &mut dest, &rate);
    assert_eq!(r, Ok(()));
    assert_eq!(balance_of(&storage), 100_000);
    assert_eq!(storage.lamports, 200_000);
    assert_eq!(dest.lamports, 1_400_000);
    assert_eq!(owner_of(&storage), id(1).bytes);
}

#[test]
fn withdraw_reserve_binds_tighter_than_balance() {
    let pid = id(9);
    let rate = RateTable { base: 100_000, per_byte: 0 };
    let owner = id(1);
    let state = DepositAccount { owner: Identity::new(owner.bytes), balance: 1_500_000 };
    // Raw balance minus reserve is 1,450,000, below the logical balance.
    let mut storage = AccountRecord {
        key: id(200),
        namespace: Identity::new(pid.bytes),
        is_signer: false,
        lamports: 1_550_000,
        data: state.store(),
    };
    let mut a = wallet(1, 0, &pid);
    let mut dest = wallet(3, 0, &pid);
    let instr = DepositInstruction::Withdraw { amount: 1_500_000 }.encode();
    let r = Processor::process(&pid, &instr, &mut a, &mut storage, &mut dest, &rate);
    assert_eq!(r, Err(DepositError::InsufficientFunds));
    assert_eq!(balance_of(&storage), 1_500_000);
    assert_eq!(storage.lamports, 1_550_000);
    assert_eq!(dest.lamports, 0);
}

#[test]
fn process_rejects_wrong_namespace() {
    let pid = id(9);
    let other = id(10);
    let rate = RateTable { base: 0, per_byte: 0 };
    let mut storage = fresh_storage(0, &other);
    let mut a = wallet(1, 100, &pid);
    let mut dest = wallet(3, 0, &pid);
    let instr = DepositInstruction::Deposit { amount: 10 }.encode();
    let r = Processor::process(&pid, &instr, &mut a, &mut storage, &mut dest, &rate);
    assert_eq!(r, Err(DepositError::WrongOwner));
    assert!(storage.data.is_empty());
    assert_eq!(storage.lamports, 0);
    assert_eq!(a.lamports, 100);
}

#[test]
fn process_rejects_undecodable_instruction() {
    let pid = id(9);
    let rate = RateTable { base: 0, per_byte: 0 };
    let mut storage = fresh_storage(0, &pid);
    let mut a = wallet(1, 100, &pid);
    let mut dest = wallet(3, 0, &pid);
    let r = Processor::process(&pid, &vec![3u8, 0, 0], &mut a, &mut storage, &mut dest, &rate);
    assert_eq!(r, Err(DepositError::DecodeError));
    // The same invalid instruction again: same error, identical state.
    let r = Processor::process(&pid, &vec![3u8, 0, 0], &mut a, &mut storage, &mut dest, &rate);
    assert_eq!(r, Err(DepositError::DecodeError));
    assert!(storage.data.is_empty());
    assert_eq!(a.lamports, 100);
}

#[test]
fn process_rejects_missing_signature() {
    let pid = id(9);
    let rate = RateTable { base: 0, per_byte: 0 };
    let mut storage = fresh_storage(0, &pid);
    let mut a = wallet(1, 100, &pid);
    a.is_signer = false;
    let mut dest = wallet(3, 0, &pid);
    let instr = DepositInstruction::Deposit { amount: 10 }.encode();
    let r = Processor::process(&pid, &instr, &mut a, &mut storage, &mut dest, &rate);
    assert_eq!(r, Err(DepositError::MissingSignature));
    assert_eq!(a.lamports, 100);
    assert_eq!(storage.lamports, 0);
}

#[test]
fn withdraw_from_uninitialized_is_corrupt_state() {
    let pid = id(9);
    let rate = RateTable { base: 0, per_byte: 0 };
    let mut storage = fresh_storage(50, &pid);
    let mut a = wallet(1, 0, &pid);
    let mut dest = wallet(3, 0, &pid);
    let instr = DepositInstruction::Withdraw { amount: 10 }.encode();
    let r = Processor::process(&pid, &instr, &mut a, &mut storage, &mut dest, &rate);
    assert_eq!(r, Err(DepositError::CorruptState));
    assert_eq!(storage.lamports, 50);
}

#[test]
fn deposit_into_corrupt_record_fails() {
    let pid = id(9);
    let rate = RateTable { base: 0, per_byte: 0 };
    let mut storage = fresh_storage(0, &pid);
    storage.data = vec![0u8; 17];
    let mut a = wallet(1, 100, &pid);
    let mut dest = wallet(3, 0, &pid);
    let instr = DepositInstruction::Deposit { amount: 10 }.encode();
    let r = Processor::process(&pid, &instr, &mut a, &mut storage, &mut dest, &rate);
    assert_eq!(r, Err(DepositError::CorruptState));
    assert_eq!(storage.data, vec![0u8; 17]);
}

#[test]
fn deposit_balance_overflow_is_rejected_unchanged() {
    let pid = id(9);
    let rate = RateTable { base: 0, per_byte: 0 };
    let state = DepositAccount { owner: id(1), balance: u64::MAX - 5 };
    let mut storage = AccountRecord {
        key: id(200),
        namespace: Identity::new(pid.bytes),
        is_signer: false,
        lamports: 0,
        data: state.store(),
    };
    let mut b = wallet(2, 100, &pid);
    let mut dest = wallet(3, 0, &pid);
    let instr = DepositInstruction::Deposit { amount: 6 }.encode();
    let r = Processor::process(&pid, &instr, &mut b, &mut storage, &mut dest, &rate);
    assert_eq!(r, Err(DepositError::ArithmeticOverflow));
    assert_eq!(balance_of(&storage), u64::MAX - 5);
    assert_eq!(b.lamports, 100);
    assert_eq!(storage.lamports, 0);
}

#[test]
fn deposit_unfunded_depositor_is_rejected() {
    let pid = id(9);
    let rate = RateTable { base: 0, per_byte: 0 };
    let mut storage = fresh_storage(0, &pid);
    let mut a = wallet(1, 5, &pid);
    let mut dest = wallet(3, 0, &pid);
    let instr = DepositInstruction::Deposit { amount: 10 }.encode();
    let r = Processor::process(&pid, &instr, &mut a, &mut storage, &mut dest, &rate);
    assert_eq!(r, Err(DepositError::InsufficientFunds));
    assert_eq!(a.lamports, 5);
    assert!(storage.data.is_empty());
}

#[test]
fn deposit_zero_is_a_boundary_no_op_on_value() {
    let pid = id(9);
    let rate = RateTable { base: 0, per_byte: 0 };
    let mut storage = fresh_storage(7, &pid);
    let mut a = wallet(1, 100, &pid);
    let mut dest = wallet(3, 0, &pid);
    let instr = DepositInstruction::Deposit { amount: 0 }.encode();
    let r = Processor::process(&pid, &instr, &mut a, &mut storage, &mut dest, &rate);
    assert_eq!(r, Ok(()));
    assert_eq!(a.lamports, 100);
    assert_eq!(storage.lamports, 7);
    assert_eq!(balance_of(&storage), 0);
    assert_eq!(owner_of(&storage), id(1).bytes);
}

#[test]
fn withdraw_to_overflowing_destination_is_rejected() {
    let pid = id(9);
    let rate = RateTable { base: 0, per_byte: 0 };
    let state = DepositAccount { owner: id(1), balance: 50 };
    let mut storage = AccountRecord {
        key: id(200),
        namespace: Identity::new(pid.bytes),
        is_signer: false,
        lamports: 100,
        data: state.store(),
    };
    let mut a = wallet(1, 0, &pid);
    let mut dest = wallet(3, u64::MAX, &pid);
    let instr = DepositInstruction::Withdraw { amount: 50 }.encode();
    let r = Processor::process(&pid, &instr, &mut a, &mut storage, &mut dest, &rate);
    assert_eq!(r, Err(DepositError::ArithmeticOverflow));
    assert_eq!(balance_of(&storage), 50);
    assert_eq!(dest.lamports, u64::MAX);
}

#[test]
fn get_balance_reports_the_recorded_balance() {
    let pid = id(9);
    let state = DepositAccount { owner: id(1), balance: 777 };
    let storage = AccountRecord {
        key: id(200),
        namespace: Identity::new(pid.bytes),
        is_signer: false,
        lamports: 1_000,
        data: state.store(),
    };
    assert_eq!(get_balance(&pid, &storage), Ok(777));
}

#[test]
fn get_balance_error_cases() {
    let pid = id(9);
    let other = id(10);
    let uninitialized = AccountRecord {
        key: id(200),
        namespace: Identity::new(pid.bytes),
        is_signer: false,
        lamports: 0,
        data: vec![],
    };
    assert_eq!(get_balance(&other, &uninitialized), Err(DepositError::WrongOwner));
    assert_eq!(get_balance(&pid, &uninitialized), Err(DepositError::CorruptState));
}

#[test]
fn authorization_checks() {
    let pid = id(9);
    let signer = wallet(1, 0, &pid);
    let mut silent = wallet(2, 0, &pid);
    silent.is_signer = false;
    assert_eq!(require_signer(&signer), Ok(()));
    assert_eq!(require_signer(&silent), Err(DepositError::MissingSignature));
    assert_eq!(require_namespace(&signer, &pid), Ok(()));
    assert_eq!(require_namespace(&signer, &id(10)), Err(DepositError::WrongOwner));
    assert_eq!(require_caller_is_owner(&id(1), &id(1)), Ok(()));
    assert_eq!(
        require_caller_is_owner(&id(1), &id(2)),
        Err(DepositError::Unauthorized)
    );
}
