//! The state-transition function of the ledger core.
//!
//! The host hands the processor an instruction plus the involved account
//! records; the processor decodes, authorizes, and mutates state and raw
//! value atomically, or rejects with a typed failure and no observable
//! change. Checks run in a fixed order per instruction: namespace, decode,
//! signer, owner (withdrawals only), then balance and arithmetic.

use vstd::prelude::*;

use crate::auth::require_caller_is_owner;
use crate::auth::require_namespace;
use crate::auth::require_signer;
use crate::errors::DepositError;
use crate::identity::Identity;
use crate::instruction::decode_spec;
use crate::instruction::DepositInstruction;
use crate::reserve::minimum_reserve;
use crate::reserve::reserve_spec;
use crate::reserve::RateTable;
use crate::state::classify_spec;
use crate::state::record_bytes;
use crate::state::AccountRecord;
use crate::state::AccountStatus;
use crate::state::DepositAccount;
use crate::state::RecordModel;
use crate::state::StateModel;
use crate::state::StatusModel;

verus! {

/// Everything a deposit can touch: its result, the funder, and the storage
/// record.
#[verifier::ext_equal]
pub struct DepositOutcome {
    pub result: Result<(), DepositError>,
    pub funder: RecordModel,
    pub storage: RecordModel,
}

/// Everything one processed instruction can touch: its result, the caller,
/// the storage record, and the withdrawal destination.
#[verifier::ext_equal]
pub struct ProcessOutcome {
    pub result: Result<(), DepositError>,
    pub caller: RecordModel,
    pub storage: RecordModel,
    pub destination: RecordModel,
}

/// A rejected deposit: the typed failure, and both records unchanged.
pub open spec fn deposit_rejected(
    e: DepositError,
    funder: RecordModel,
    storage: RecordModel,
) -> DepositOutcome {
    DepositOutcome { result: Err(e), funder, storage }
}

/// A rejected instruction: the typed failure, and every record unchanged.
pub open spec fn rejected(
    e: DepositError,
    caller: RecordModel,
    storage: RecordModel,
    destination: RecordModel,
) -> ProcessOutcome {
    ProcessOutcome { result: Err(e), caller, storage, destination }
}

/// The deposit transition. Any signer may fund any account: on an
/// uninitialized record a successful deposit creates the record with the
/// funder as owner; on an initialized record it grows the balance, owner
/// unchanged. `amount` raw native units move from the funder to the account.
pub open spec fn deposit_spec(
    program_id: Seq<u8>,
    amount: u64,
    funder: RecordModel,
    storage: RecordModel,
) -> DepositOutcome {
    if storage.namespace != program_id {
        deposit_rejected(DepositError::WrongOwner, funder, storage)
    } else if !funder.is_signer {
        deposit_rejected(DepositError::MissingSignature, funder, storage)
    } else {
        match classify_spec(storage.data) {
            Err(e) => deposit_rejected(e, funder, storage),
            Ok(StatusModel::Uninitialized) => {
                if funder.lamports < amount {
                    deposit_rejected(DepositError::InsufficientFunds, funder, storage)
                } else if storage.lamports + amount > u64::MAX {
                    deposit_rejected(DepositError::ArithmeticOverflow, funder, storage)
                } else {
                    DepositOutcome {
                        result: Ok(()),
                        funder: RecordModel {
                            key: funder.key,
                            namespace: funder.namespace,
                            is_signer: funder.is_signer,
                            lamports: (funder.lamports - amount) as u64,
                            data: funder.data,
                        },
                        storage: RecordModel {
                            key: storage.key,
                            namespace: storage.namespace,
                            is_signer: storage.is_signer,
                            lamports: (storage.lamports + amount) as u64,
                            data: record_bytes(StateModel { owner: funder.key, balance: amount }),
                        },
                    }
                }
            },
            Ok(StatusModel::Initialized(s)) => {
                if s.balance + amount > u64::MAX {
                    deposit_rejected(DepositError::ArithmeticOverflow, funder, storage)
                } else if funder.lamports < amount {
                    deposit_rejected(DepositError::InsufficientFunds, funder, storage)
                } else if storage.lamports + amount > u64::MAX {
                    deposit_rejected(DepositError::ArithmeticOverflow, funder, storage)
                } else {
                    DepositOutcome {
                        result: Ok(()),
                        funder: RecordModel {
                            key: funder.key,
                            namespace: funder.namespace,
                            is_signer: funder.is_signer,
                            lamports: (funder.lamports - amount) as u64,
                            data: funder.data,
                        },
                        storage: RecordModel {
                            key: storage.key,
                            namespace: storage.namespace,
                            is_signer: storage.is_signer,
                            lamports: (storage.lamports + amount) as u64,
                            data: record_bytes(
                                StateModel {
                                    owner: s.owner,
                                    balance: (s.balance + amount) as u64,
                                },
                            ),
                        },
                    }
                }
            },
        }
    }
}

/// The withdrawal transition. Only the recorded owner may withdraw; the
/// account must keep its minimum reserve after the transfer. `amount` raw
/// native units move from the account to the caller-specified destination.
pub open spec fn withdraw_spec(
    program_id: Seq<u8>,
    amount: u64,
    caller: RecordModel,
    storage: RecordModel,
    destination: RecordModel,
    rate: RateTable,
) -> ProcessOutcome {
    if storage.namespace != program_id {
        rejected(DepositError::WrongOwner, caller, storage, destination)
    } else if !caller.is_signer {
        rejected(DepositError::MissingSignature, caller, storage, destination)
    } else {
        match classify_spec(storage.data) {
            Err(e) => rejected(e, caller, storage, destination),
            Ok(StatusModel::Uninitialized) => rejected(
                DepositError::CorruptState,
                caller,
                storage,
                destination,
            ),
            Ok(StatusModel::Initialized(s)) => {
                if s.owner != caller.key {
                    rejected(DepositError::Unauthorized, caller, storage, destination)
                } else if s.balance < amount {
                    rejected(DepositError::InsufficientFunds, caller, storage, destination)
                } else {
                    let reserve = reserve_spec(rate, storage.data.len() as int);
                    if storage.lamports < reserve {
                        rejected(DepositError::InsufficientFunds, caller, storage, destination)
                    } else if storage.lamports - reserve < amount {
                        rejected(DepositError::InsufficientFunds, caller, storage, destination)
                    } else if destination.lamports + amount > u64::MAX {
                        rejected(DepositError::ArithmeticOverflow, caller, storage, destination)
                    } else {
                        ProcessOutcome {
                            result: Ok(()),
                            caller,
                            storage: RecordModel {
                                key: storage.key,
                                namespace: storage.namespace,
                                is_signer: storage.is_signer,
                                lamports: (storage.lamports - amount) as u64,
                                data: record_bytes(
                                    StateModel {
                                        owner: s.owner,
                                        balance: (s.balance - amount) as u64,
                                    },
                                ),
                            },
                            destination: RecordModel {
                                key: destination.key,
                                namespace: destination.namespace,
                                is_signer: destination.is_signer,
                                lamports: (destination.lamports + amount) as u64,
                                data: destination.data,
                            },
                        }
                    }
                }
            },
        }
    }
}

/// The whole state transition: namespace check, decode, then the transition
/// of the decoded instruction.
pub open spec fn process_spec(
    program_id: Seq<u8>,
    instruction_data: Seq<u8>,
    caller: RecordModel,
    storage: RecordModel,
    destination: RecordModel,
    rate: RateTable,
) -> ProcessOutcome {
    if storage.namespace != program_id {
        rejected(DepositError::WrongOwner, caller, storage, destination)
    } else {
        match decode_spec(instruction_data) {
            Err(e) => rejected(e, caller, storage, destination),
            Ok(DepositInstruction::Deposit { amount }) => {
                let d = deposit_spec(program_id, amount, caller, storage);
                ProcessOutcome {
                    result: d.result,
                    caller: d.funder,
                    storage: d.storage,
                    destination,
                }
            },
            Ok(DepositInstruction::Withdraw { amount }) => withdraw_spec(
                program_id,
                amount,
                caller,
                storage,
                destination,
                rate,
            ),
        }
    }
}

/// The balance a record under this program reports, or the typed reason it
/// reports none.
pub open spec fn balance_query_spec(program_id: Seq<u8>, account: RecordModel) -> Result<
    u64,
    DepositError,
> {
    if account.namespace != program_id {
        Err(DepositError::WrongOwner)
    } else {
        match classify_spec(account.data) {
            Err(e) => Err(e),
            Ok(StatusModel::Uninitialized) => Err(DepositError::CorruptState),
            Ok(StatusModel::Initialized(s)) => Ok(s.balance),
        }
    }
}

/// The top-level entry point composing codec, authorization, reserve policy
/// and state transition.
pub struct Processor;

impl Processor {
    /// Processes one encoded instruction against the involved accounts:
    /// the caller (funder for deposits, owner for withdrawals), the storage
    /// record, and the withdrawal destination. Either the whole transition
    /// applies, or a typed failure is returned and nothing changes.
    pub fn process(
        program_id: &Identity,
        instruction_data: &Vec<u8>,
        caller: &mut AccountRecord,
        storage: &mut AccountRecord,
        destination: &mut AccountRecord,
        rate: &RateTable,
    ) -> (r: Result<(), DepositError>)
        ensures
            ({
                let o = process_spec(
                    program_id@,
                    instruction_data@,
                    old(caller)@,
                    old(storage)@,
                    old(destination)@,
                    *rate,
                );
                r == o.result && final(caller)@ == o.caller && final(storage)@ == o.storage
                    && final(destination)@ == o.destination
            }),
    {
        if let Err(e) = require_namespace(&*storage, program_id) {
            return Err(e);
        }
        let instruction = match DepositInstruction::decode(instruction_data) {
            Ok(i) => i,
            Err(e) => { return Err(e) },
        };
        match instruction {
            DepositInstruction::Deposit { amount } => Self::process_deposit(
                program_id,
                caller,
                storage,
                amount,
            ),
            DepositInstruction::Withdraw { amount } => Self::process_withdraw(
                program_id,
                caller,
                storage,
                destination,
                amount,
                rate,
            ),
        }
    }

    /// Applies a deposit of `amount` by `funder` to the storage record, or
    /// rejects it with no change.
    pub fn process_deposit(
        program_id: &Identity,
        funder: &mut AccountRecord,
        storage: &mut AccountRecord,
        amount: u64,
    ) -> (r: Result<(), DepositError>)
        ensures
            ({
                let o = deposit_spec(program_id@, amount, old(funder)@, old(storage)@);
                r == o.result && final(funder)@ == o.funder && final(storage)@ == o.storage
            }),
    {
        if let Err(e) = require_namespace(&*storage, program_id) {
            return Err(e);
        }
        if let Err(e) = require_signer(&*funder) {
            return Err(e);
        }
        let status = match DepositAccount::load(&storage.data) {
            Ok(st) => st,
            Err(e) => { return Err(e) },
        };
        match status {
            AccountStatus::Uninitialized => {
                if funder.lamports < amount {
                    return Err(DepositError::InsufficientFunds);
                }
                if storage.lamports > u64::MAX - amount {
                    return Err(DepositError::ArithmeticOverflow);
                }
                let new_state = DepositAccount { owner: funder.key, balance: amount };
                funder.lamports = funder.lamports - amount;
                storage.lamports = storage.lamports + amount;
                storage.data = new_state.store();
                Ok(())
            },
            AccountStatus::Initialized(state) => {
                if amount > u64::MAX - state.balance {
                    return Err(DepositError::ArithmeticOverflow);
                }
                if funder.lamports < amount {
                    return Err(DepositError::InsufficientFunds);
                }
                if storage.lamports > u64::MAX - amount {
                    return Err(DepositError::ArithmeticOverflow);
                }
                let new_state = DepositAccount {
                    owner: state.owner,
                    balance: state.balance + amount,
                };
                funder.lamports = funder.lamports - amount;
                storage.lamports = storage.lamports + amount;
                storage.data = new_state.store();
                Ok(())
            },
        }
    }

    /// Applies a withdrawal of `amount` by `caller` from the storage record
    /// to `destination`, or rejects it with no change.
    pub fn process_withdraw(
        program_id: &Identity,
        caller: &mut AccountRecord,
        storage: &mut AccountRecord,
        destination: &mut AccountRecord,
        amount: u64,
        rate: &RateTable,
    ) -> (r: Result<(), DepositError>)
        ensures
            ({
                let o = withdraw_spec(
                    program_id@,
                    amount,
                    old(caller)@,
                    old(storage)@,
                    old(destination)@,
                    *rate,
                );
                r == o.result && final(caller)@ == o.caller && final(storage)@ == o.storage
                    && final(destination)@ == o.destination
            }),
    {
        if let Err(e) = require_namespace(&*storage, program_id) {
            return Err(e);
        }
        if let Err(e) = require_signer(&*caller) {
            return Err(e);
        }
        let status = match DepositAccount::load(&storage.data) {
            Ok(st) => st,
            Err(e) => { return Err(e) },
        };
        let state = match status {
            AccountStatus::Uninitialized => { return Err(DepositError::CorruptState) },
            AccountStatus::Initialized(s) => s,
        };
        if let Err(e) = require_caller_is_owner(&state.owner, &caller.key) {
            return Err(e);
        }
        if state.balance < amount {
            return Err(DepositError::InsufficientFunds);
        }
        let reserve = minimum_reserve(rate, storage.data.len());
        if storage.lamports < reserve {
            return Err(DepositError::InsufficientFunds);
        }
        if storage.lamports - reserve < amount {
            return Err(DepositError::InsufficientFunds);
        }
        if destination.lamports > u64::MAX - amount {
            return Err(DepositError::ArithmeticOverflow);
        }
        let new_state = DepositAccount { owner: state.owner, balance: state.balance - amount };
        storage.lamports = storage.lamports - amount;
        destination.lamports = destination.lamports + amount;
        storage.data = new_state.store();
        Ok(())
    }
}

/// Reports the logical balance recorded in an account under this program.
/// A record that does not yet exist, or does not parse, reports
/// `CorruptState`; one outside this program's namespace reports `WrongOwner`.
pub fn get_balance(program_id: &Identity, account: &AccountRecord) -> (r: Result<
    u64,
    DepositError,
>)
    ensures
        r == balance_query_spec(program_id@, account@),
{
    if let Err(e) = require_namespace(account, program_id) {
        return Err(e);
    }
    match DepositAccount::load(&account.data) {
        Err(e) => Err(e),
        Ok(AccountStatus::Uninitialized) => Err(DepositError::CorruptState),
        Ok(AccountStatus::Initialized(state)) => Ok(state.balance),
    }
}

} // verus!
