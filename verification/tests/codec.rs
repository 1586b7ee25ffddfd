use deposit_ledger::errors::DepositError;
use deposit_ledger::identity::Identity;
use deposit_ledger::instruction::DepositInstruction;
use deposit_ledger::reserve::minimum_reserve;
use deposit_ledger::reserve::RateTable;
use deposit_ledger::state::AccountStatus;
use deposit_ledger::state::DepositAccount;

#[test]
fn encode_deposit_exact_bytes() {
    let e = DepositInstruction::Deposit { amount: 0x0102_0304_0506_0708 }.encode();
    assert_eq!(e, vec![0u8, 0x08, 0x07, 0x06, 0x05, 0x04, 0x03, 0x02, 0x01]);
}

#[test]
fn encode_withdraw_exact_bytes() {
    let e = DepositInstruction::Withdraw { amount: 1 }.encode();
    assert_eq!(e, vec![1u8, 1, 0, 0, 0, 0, 0, 0, 0]);
}

#[test]
fn round_trip_deposit() {
    let i = DepositInstruction::Deposit { amount: 1_000_000 };
    assert_eq!(DepositInstruction::decode(&i.encode()), Ok(i));
}

#[test]
fn round_trip_withdraw_extremes() {
    for amount in [0u64, 1, u64::MAX] {
        let i = DepositInstruction::Withdraw { amount };
        assert_eq!(DepositInstruction::decode(&i.encode()), Ok(i));
        let d = DepositInstruction::Deposit { amount };
        assert_eq!(DepositInstruction::decode(&d.encode()), Ok(d));
    }
}

#[test]
fn decode_rejects_truncated_payload() {
    assert_eq!(
        DepositInstruction::decode(&vec![]),
        Err(DepositError::DecodeError)
    );
    assert_eq!(
        DepositInstruction::decode(&vec![0u8, 1, 2, 3, 4, 5, 6, 7]),
        Err(DepositError::DecodeError)
    );
}

#[test]
fn decode_rejects_trailing_bytes() {
    assert_eq!(
        DepositInstruction::decode(&vec![0u8, 1, 0, 0, 0, 0, 0, 0, 0, 0]),
        Err(DepositError::DecodeError)
    );
}

#[test]
fn decode_rejects_unknown_tag() {
    assert_eq!(
        DepositInstruction::decode(&vec![2u8, 0, 0, 0, 0, 0, 0, 0, 0]),
        Err(DepositError::DecodeError)
    );
    assert_eq!(
        DepositInstruction::decode(&vec![255u8, 0, 0, 0, 0, 0, 0, 0, 0]),
        Err(DepositError::DecodeError)
    );
}

#[test]
fn store_then_load_round_trips() {
    let owner = Identity::new([42u8; 32]);
    let state = DepositAccount { owner, balance: 0xdead_beef_0123_4567 };
    let bytes = state.store();
    assert_eq!(bytes.len(), 40);
    match DepositAccount::load(&bytes) {
        Ok(AccountStatus::Initialized(s)) => {
            assert_eq!(s.owner.bytes, [42u8; 32]);
            assert_eq!(s.balance, 0xdead_beef_0123_4567);
        },
        _ => panic!("expected an initialized record"),
    }
}

#[test]
fn store_layout_is_owner_then_le_balance() {
    let mut key = [0u8; 32];
    for (i, b) in key.iter_mut().enumerate() {
        *b = i as u8;
    }
    let state = DepositAccount { owner: Identity::new(key), balance: 0x0102 };
    let bytes = state.store();
    assert_eq!(&bytes[..32], &key[..]);
    assert_eq!(&bytes[32..], &[0x02u8, 0x01, 0, 0, 0, 0, 0, 0]);
}

#[test]
fn load_empty_buffer_is_uninitialized() {
    assert!(matches!(
        DepositAccount::load(&vec![]),
        Ok(AccountStatus::Uninitialized)
    ));
}

#[test]
fn load_wrong_width_is_corrupt() {
    assert_eq!(
        DepositAccount::load(&vec![0u8; 39]).map(|_| ()),
        Err(DepositError::CorruptState)
    );
    assert_eq!(
        DepositAccount::load(&vec![0u8; 41]).map(|_| ()),
        Err(DepositError::CorruptState)
    );
    assert_eq!(
        DepositAccount::load(&vec![0u8; 1]).map(|_| ()),
        Err(DepositError::CorruptState)
    );
}

#[test]
fn minimum_reserve_exact_values() {
    assert_eq!(minimum_reserve(&RateTable { base: 100_000, per_byte: 0 }, 40), 100_000);
    assert_eq!(minimum_reserve(&RateTable { base: 10, per_byte: 2 }, 40), 90);
    assert_eq!(minimum_reserve(&RateTable { base: 0, per_byte: 0 }, 0), 0);
}

#[test]
fn minimum_reserve_saturates() {
    assert_eq!(minimum_reserve(&RateTable { base: u64::MAX, per_byte: 1 }, 1), u64::MAX);
    assert_eq!(
        minimum_reserve(&RateTable { base: 0, per_byte: u64::MAX }, 2),
        u64::MAX
    );
}

#[test]
fn error_codes_are_stable() {
    assert_eq!(DepositError::InsufficientFunds.code(), 0);
    assert_eq!(DepositError::WrongOwner.code(), 1);
    assert_eq!(DepositError::DecodeError.code(), 2);
    assert_eq!(DepositError::CorruptState.code(), 3);
    assert_eq!(DepositError::MissingSignature.code(), 4);
    assert_eq!(DepositError::Unauthorized.code(), 5);
    assert_eq!(DepositError::ArithmeticOverflow.code(), 6);
}

#[test]
fn identity_equality_is_byte_exact() {
    let a = Identity::new([7u8; 32]);
    let b = Identity::new([7u8; 32]);
    let mut other = [7u8; 32];
    other[31] = 8;
    let c = Identity::new(other);
    assert!(a.matches(&b));
    assert!(!a.matches(&c));
}
