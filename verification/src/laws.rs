//! The laws of the ledger core, stated over the transition function and
//! proved once and for all.

use vstd::prelude::*;

use crate::errors::DepositError;
use crate::instruction::decode_spec;
use crate::instruction::encode_spec;
use crate::instruction::lemma_instruction_round_trip;
use crate::instruction::DepositInstruction;
use crate::processor::process_spec;
use crate::processor::rejected;
use crate::reserve::reserve_spec;
use crate::reserve::RateTable;
use crate::state::classify_spec;
use crate::state::lemma_state_round_trip;
use crate::state::record_bytes;
use crate::state::RecordModel;
use crate::state::StateModel;
use crate::state::StatusModel;

verus! {

/// The record an account's storage buffer holds, where it holds one.
pub open spec fn recorded_state(r: RecordModel) -> Option<StateModel> {
    match classify_spec(r.data) {
        Ok(StatusModel::Initialized(s)) => Some(s),
        _ => None,
    }
}

/// Reserve compliance of one account. An initialized record must hold at
/// least its minimum reserve plus its whole logical balance in raw native
/// value; a still-uninitialized record must already hold the reserve of the
/// record the first deposit will create (the host funds a record's
/// allocation before this program ever runs on it). A buffer that parses as
/// neither carries no record and owes nothing.
pub open spec fn reserve_compliant(r: RecordModel, rate: RateTable) -> bool {
    match classify_spec(r.data) {
        Ok(StatusModel::Uninitialized) => r.lamports >= reserve_spec(rate, 40),
        Ok(StatusModel::Initialized(s)) => r.lamports >= reserve_spec(rate, r.data.len() as int)
            + s.balance,
        Err(_) => true,
    }
}

/// Invariant: every transition preserves reserve compliance of the storage
/// record — the raw native balance never falls below the minimum reserve
/// plus the logical balance.
pub proof fn lemma_reserve_invariant_preserved(
    program_id: Seq<u8>,
    instruction_data: Seq<u8>,
    caller: RecordModel,
    storage: RecordModel,
    destination: RecordModel,
    rate: RateTable,
)
    requires
        caller.key.len() == 32,
        reserve_compliant(storage, rate),
    ensures
        ({
            let o = process_spec(program_id, instruction_data, caller, storage, destination, rate);
            reserve_compliant(o.storage, rate)
        }),
{
    let o = process_spec(program_id, instruction_data, caller, storage, destination, rate);
    if storage.namespace == program_id {
        match decode_spec(instruction_data) {
            Ok(DepositInstruction::Deposit { amount }) => {
                match classify_spec(storage.data) {
                    Ok(StatusModel::Uninitialized) => {
                        if caller.is_signer && caller.lamports >= amount && storage.lamports
                            + amount <= u64::MAX {
                            let created = StateModel { owner: caller.key, balance: amount };
                            lemma_state_round_trip(created);
                            assert(record_bytes(created).len() == 40);
                        }
                    },
                    Ok(StatusModel::Initialized(s)) => {
                        if caller.is_signer && s.balance + amount <= u64::MAX && caller.lamports
                            >= amount && storage.lamports + amount <= u64::MAX {
                            let grown = StateModel {
                                owner: s.owner,
                                balance: (s.balance + amount) as u64,
                            };
                            lemma_state_round_trip(grown);
                            assert(record_bytes(grown).len() == 40);
                        }
                    },
                    Err(_) => {},
                }
            },
            Ok(DepositInstruction::Withdraw { amount }) => {
                match classify_spec(storage.data) {
                    Ok(StatusModel::Initialized(s)) => {
                        if caller.is_signer && s.owner == caller.key && s.balance >= amount
                            && storage.lamports >= reserve_spec(rate, storage.data.len() as int)
                            && storage.lamports - reserve_spec(rate, storage.data.len() as int)
                            >= amount && destination.lamports + amount <= u64::MAX {
                            let shrunk = StateModel {
                                owner: s.owner,
                                balance: (s.balance - amount) as u64,
                            };
                            lemma_state_round_trip(shrunk);
                            assert(record_bytes(shrunk).len() == 40);
                        }
                    },
                    _ => {},
                }
            },
            Err(_) => {},
        }
    }
}

/// Deposit monotonicity, the successful half: a successful deposit increases
/// the logical balance and the account's raw native balance by exactly the
/// amount, funds it from the depositor, and never changes an existing owner.
pub proof fn lemma_deposit_monotonic(
    program_id: Seq<u8>,
    amount: u64,
    funder: RecordModel,
    storage: RecordModel,
    destination: RecordModel,
    rate: RateTable,
)
    requires
        funder.key.len() == 32,
    ensures
        ({
            let o = process_spec(
                program_id,
                encode_spec(DepositInstruction::Deposit { amount }),
                funder,
                storage,
                destination,
                rate,
            );
            o.result is Ok ==> {
                &&& o.storage.lamports == storage.lamports + amount
                &&& o.caller.lamports == funder.lamports - amount
                &&& o.destination == destination
                &&& (recorded_state(storage) matches Some(s) ==> recorded_state(o.storage)
                    == Some(StateModel { owner: s.owner, balance: (s.balance + amount) as u64 }))
                &&& (classify_spec(storage.data) == Ok::<StatusModel, DepositError>(
                    StatusModel::Uninitialized,
                ) ==> recorded_state(o.storage) == Some(
                    StateModel { owner: funder.key, balance: amount },
                ))
            }
        }),
{
    lemma_instruction_round_trip(DepositInstruction::Deposit { amount });
    let o = process_spec(
        program_id,
        encode_spec(DepositInstruction::Deposit { amount }),
        funder,
        storage,
        destination,
        rate,
    );
    if o.result is Ok {
        match classify_spec(storage.data) {
            Ok(StatusModel::Uninitialized) => {
                lemma_state_round_trip(StateModel { owner: funder.key, balance: amount });
            },
            Ok(StatusModel::Initialized(s)) => {
                lemma_state_round_trip(
                    StateModel { owner: s.owner, balance: (s.balance + amount) as u64 },
                );
            },
            Err(_) => {},
        }
    }
}

/// Deposit monotonicity, the overflow half: where the addition would
/// overflow the balance's numeric range, `ArithmeticOverflow` is returned
/// and nothing changes.
pub proof fn lemma_deposit_overflow_rejected(
    program_id: Seq<u8>,
    amount: u64,
    funder: RecordModel,
    storage: RecordModel,
    destination: RecordModel,
    rate: RateTable,
)
    ensures
        ({
            let o = process_spec(
                program_id,
                encode_spec(DepositInstruction::Deposit { amount }),
                funder,
                storage,
                destination,
                rate,
            );
            (storage.namespace == program_id && funder.is_signer && (recorded_state(storage)
                matches Some(s) && s.balance + amount > u64::MAX)) ==> o == rejected(
                DepositError::ArithmeticOverflow,
                funder,
                storage,
                destination,
            )
        }),
{
    lemma_instruction_round_trip(DepositInstruction::Deposit { amount });
}

/// Withdraw monotonicity, the successful half: a successful withdrawal
/// decreases the logical balance and the account's raw native balance by
/// exactly the amount, moves it to the destination, and keeps the owner.
pub proof fn lemma_withdraw_monotonic(
    program_id: Seq<u8>,
    amount: u64,
    caller: RecordModel,
    storage: RecordModel,
    destination: RecordModel,
    rate: RateTable,
)
    ensures
        ({
            let o = process_spec(
                program_id,
                encode_spec(DepositInstruction::Withdraw { amount }),
                caller,
                storage,
                destination,
                rate,
            );
            o.result is Ok ==> {
                &&& o.storage.lamports == storage.lamports - amount
                &&& o.destination.lamports == destination.lamports + amount
                &&& o.caller == caller
                &&& (recorded_state(storage) matches Some(s) ==> recorded_state(o.storage)
                    == Some(StateModel { owner: s.owner, balance: (s.balance - amount) as u64 }))
            }
        }),
{
    lemma_instruction_round_trip(DepositInstruction::Withdraw { amount });
    let o = process_spec(
        program_id,
        encode_spec(DepositInstruction::Withdraw { amount }),
        caller,
        storage,
        destination,
        rate,
    );
    if o.result is Ok {
        match classify_spec(storage.data) {
            Ok(StatusModel::Initialized(s)) => {
                lemma_state_round_trip(
                    StateModel { owner: s.owner, balance: (s.balance - amount) as u64 },
                );
            },
            _ => {},
        }
    }
}

/// Withdraw monotonicity, the rejected half: where the logical balance is
/// short, or the account would fall below its reserve, `InsufficientFunds`
/// is returned and nothing changes.
pub proof fn lemma_withdraw_insufficient_rejected(
    program_id: Seq<u8>,
    amount: u64,
    caller: RecordModel,
    storage: RecordModel,
    destination: RecordModel,
    rate: RateTable,
)
    ensures
        ({
            let o = process_spec(
                program_id,
                encode_spec(DepositInstruction::Withdraw { amount }),
                caller,
                storage,
                destination,
                rate,
            );
            (storage.namespace == program_id && caller.is_signer && (recorded_state(storage)
                matches Some(s) && s.owner == caller.key && (s.balance < amount || storage.lamports
                < reserve_spec(rate, storage.data.len() as int) + amount))) ==> o == rejected(
                DepositError::InsufficientFunds,
                caller,
                storage,
                destination,
            )
        }),
{
    lemma_instruction_round_trip(DepositInstruction::Withdraw { amount });
}

/// Authorization: a withdrawal by anyone other than the recorded owner
/// always fails with `Unauthorized` and leaves every record unchanged.
pub proof fn lemma_withdraw_requires_owner(
    program_id: Seq<u8>,
    amount: u64,
    caller: RecordModel,
    storage: RecordModel,
    destination: RecordModel,
    rate: RateTable,
)
    ensures
        ({
            let o = process_spec(
                program_id,
                encode_spec(DepositInstruction::Withdraw { amount }),
                caller,
                storage,
                destination,
                rate,
            );
            (storage.namespace == program_id && caller.is_signer && (recorded_state(storage)
                matches Some(s) && s.owner != caller.key)) ==> o == rejected(
                DepositError::Unauthorized,
                caller,
                storage,
                destination,
            )
        }),
{
    lemma_instruction_round_trip(DepositInstruction::Withdraw { amount });
}

/// The owner is set once, at first initialization: no transition on an
/// already-initialized record ever changes the recorded owner.
pub proof fn lemma_owner_immutable(
    program_id: Seq<u8>,
    instruction_data: Seq<u8>,
    caller: RecordModel,
    storage: RecordModel,
    destination: RecordModel,
    rate: RateTable,
)
    ensures
        ({
            let o = process_spec(program_id, instruction_data, caller, storage, destination, rate);
            (recorded_state(storage) matches Some(s) ==> recorded_state(o.storage) matches Some(s2)
                && s2.owner == s.owner)
        }),
{
    if storage.namespace == program_id {
        match decode_spec(instruction_data) {
            Ok(DepositInstruction::Deposit { amount }) => {
                match classify_spec(storage.data) {
                    Ok(StatusModel::Initialized(s)) => {
                        if caller.is_signer && s.balance + amount <= u64::MAX && caller.lamports
                            >= amount && storage.lamports + amount <= u64::MAX {
                            lemma_state_round_trip(
                                StateModel { owner: s.owner, balance: (s.balance + amount) as u64 },
                            );
                        }
                    },
                    _ => {},
                }
            },
            Ok(DepositInstruction::Withdraw { amount }) => {
                match classify_spec(storage.data) {
                    Ok(StatusModel::Initialized(s)) => {
                        if caller.is_signer && s.owner == caller.key && s.balance >= amount
                            && storage.lamports >= reserve_spec(rate, storage.data.len() as int)
                            && storage.lamports - reserve_spec(rate, storage.data.len() as int)
                            >= amount && destination.lamports + amount <= u64::MAX {
                            lemma_state_round_trip(
                                StateModel { owner: s.owner, balance: (s.balance - amount) as u64 },
                            );
                        }
                    },
                    _ => {},
                }
            },
            Err(_) => {},
        }
    }
}

/// No partial mutation: every rejected instruction leaves every record
/// unchanged.
pub proof fn lemma_rejected_unchanged(
    program_id: Seq<u8>,
    instruction_data: Seq<u8>,
    caller: RecordModel,
    storage: RecordModel,
    destination: RecordModel,
    rate: RateTable,
)
    ensures
        ({
            let o = process_spec(program_id, instruction_data, caller, storage, destination, rate);
            o.result is Err ==> o.caller == caller && o.storage == storage && o.destination
                == destination
        }),
{
}

/// Rejection idempotence: submitting the same rejected instruction twice
/// yields the same error both times and identical resulting state.
pub proof fn lemma_rejection_idempotent(
    program_id: Seq<u8>,
    instruction_data: Seq<u8>,
    caller: RecordModel,
    storage: RecordModel,
    destination: RecordModel,
    rate: RateTable,
)
    ensures
        ({
            let o1 = process_spec(program_id, instruction_data, caller, storage, destination, rate);
            let o2 = process_spec(
                program_id,
                instruction_data,
                o1.caller,
                o1.storage,
                o1.destination,
                rate,
            );
            o1.result is Err ==> o2 == o1
        }),
{
    let o1 = process_spec(program_id, instruction_data, caller, storage, destination, rate);
    if o1.result is Err {
        lemma_rejected_unchanged(program_id, instruction_data, caller, storage, destination, rate);
        assert(o1.caller == caller && o1.storage == storage && o1.destination == destination);
        assert(process_spec(program_id, instruction_data, o1.caller, o1.storage, o1.destination, rate)
            == o1);
    }
}

} // verus!
