//! The persisted ledger record and its fixed-width binary form.
//!
//! Record layout: the 32 owner identity bytes followed by an 8-byte
//! little-endian balance. A buffer of length 0 is the sentinel for "not yet
//! initialized"; any other length that is not the fixed record width is
//! `CorruptState`.

use vstd::prelude::*;

use crate::errors::DepositError;
use crate::identity::Identity;
use crate::wire::le64_at;
use crate::wire::le64_bytes;
use crate::wire::lemma_le64_bytes_round_trip;
use crate::wire::lemma_le64_round_trip;
use crate::wire::push_u64_le;
use crate::wire::read_u64_le;

verus! {

/// Fixed width of a persisted record: 32 identity bytes plus an 8-byte
/// little-endian balance.
pub const RECORD_LEN: usize = 40;

/// The logical state of an initialized account: the owner, set once at first
/// initialization and never changed thereafter, and the balance the owner is
/// entitled to withdraw.
#[derive(Clone, Copy, Debug)]
pub struct DepositAccount {
    pub owner: Identity,
    pub balance: u64,
}

/// The mathematical model of a `DepositAccount`.
#[verifier::ext_equal]
pub struct StateModel {
    pub owner: Seq<u8>,
    pub balance: u64,
}

impl View for DepositAccount {
    type V = StateModel;

    open spec fn view(&self) -> StateModel {
        StateModel { owner: self.owner@, balance: self.balance }
    }
}

/// A well-formed state model carries a full-length owner identity.
pub open spec fn state_wf(s: StateModel) -> bool {
    s.owner.len() == 32
}

/// What a storage buffer classifies as: no record yet, or a record.
#[derive(Clone, Copy, Debug)]
pub enum AccountStatus {
    /// The record does not exist yet: the buffer has length zero.
    Uninitialized,
    /// The record exists and holds this state.
    Initialized(DepositAccount),
}

/// The mathematical model of an `AccountStatus`.
pub enum StatusModel {
    Uninitialized,
    Initialized(StateModel),
}

impl View for AccountStatus {
    type V = StatusModel;

    open spec fn view(&self) -> StatusModel {
        match self {
            AccountStatus::Uninitialized => StatusModel::Uninitialized,
            AccountStatus::Initialized(s) => StatusModel::Initialized(s@),
        }
    }
}

/// The fixed-width encoding of a record.
pub open spec fn record_bytes(s: StateModel) -> Seq<u8> {
    s.owner + le64_bytes(s.balance)
}

/// What a storage buffer classifies as: length 0 is `Uninitialized`, the
/// fixed record width is a record, and any other length is `CorruptState`.
pub open spec fn classify_spec(data: Seq<u8>) -> Result<StatusModel, DepositError> {
    if data.len() == 0 {
        Ok(StatusModel::Uninitialized)
    } else if data.len() != 40 {
        Err(DepositError::CorruptState)
    } else {
        Ok(
            StatusModel::Initialized(
                StateModel { owner: data.subrange(0, 32), balance: le64_at(data, 32) },
            ),
        )
    }
}

impl DepositAccount {
    /// Serializes the record into its deterministic fixed-width encoding.
    pub fn store(&self) -> (r: Vec<u8>)
        ensures
            r@ == record_bytes(self@),
            r@.len() == 40,
    {
        let mut v: Vec<u8> = Vec::new();
        let mut i: usize = 0;
        while i < 32
            invariant
                i <= 32,
                v@.len() == i,
                forall|j: int| 0 <= j < i ==> v@[j] == self.owner.bytes@[j],
            decreases 32 - i,
        {
            v.push(self.owner.bytes[i]);
            i = i + 1;
        }
        proof {
            assert(v@ =~= self.owner@);
        }
        push_u64_le(&mut v, self.balance);
        v
    }

    /// Classifies a storage buffer: `Uninitialized` for a zero-length buffer,
    /// the deserialized record for the fixed width, `CorruptState` otherwise.
    pub fn load(data: &Vec<u8>) -> (r: Result<AccountStatus, DepositError>)
        ensures
            r is Ok <==> classify_spec(data@) is Ok,
            r is Ok ==> r->Ok_0@ == classify_spec(data@)->Ok_0,
            r is Err ==> r->Err_0 == classify_spec(data@)->Err_0,
    {
        let n = data.len();
        if n == 0 {
            return Ok(AccountStatus::Uninitialized);
        }
        if n != RECORD_LEN {
            return Err(DepositError::CorruptState);
        }
        let mut owner_bytes: [u8; 32] = [0u8; 32];
        let mut i: usize = 0;
        while i < 32
            invariant
                i <= 32,
                data@.len() == 40,
                forall|j: int| 0 <= j < i ==> owner_bytes@[j] == data@[j],
            decreases 32 - i,
        {
            owner_bytes[i] = data[i];
            i = i + 1;
        }
        let owner = Identity::new(owner_bytes);
        let balance = read_u64_le(data, 32);
        proof {
            assert(owner@ =~= data@.subrange(0, 32));
        }
        Ok(AccountStatus::Initialized(DepositAccount { owner, balance }))
    }
}

/// One host-managed account as handed to the processor for the duration of
/// one instruction: its key, the namespace (program) controlling it, whether
/// its key cryptographically authorized the enclosing request, its raw native
/// balance, and its storage buffer.
pub struct AccountRecord {
    /// The identity naming this account.
    pub key: Identity,
    /// The program controlling the account's storage.
    pub namespace: Identity,
    /// Whether this account's key signed the enclosing request.
    pub is_signer: bool,
    /// The raw native balance actually held by the account.
    pub lamports: u64,
    /// The storage buffer a record is serialized into and out of.
    pub data: Vec<u8>,
}

/// The mathematical model of an `AccountRecord`.
#[verifier::ext_equal]
pub struct RecordModel {
    pub key: Seq<u8>,
    pub namespace: Seq<u8>,
    pub is_signer: bool,
    pub lamports: u64,
    pub data: Seq<u8>,
}

impl View for AccountRecord {
    type V = RecordModel;

    open spec fn view(&self) -> RecordModel {
        RecordModel {
            key: self.key@,
            namespace: self.namespace@,
            is_signer: self.is_signer,
            lamports: self.lamports,
            data: self.data@,
        }
    }
}

/// Round trip: loading a stored record classifies as exactly that record.
pub proof fn lemma_state_round_trip(s: StateModel)
    requires
        state_wf(s),
    ensures
        classify_spec(record_bytes(s)) == Ok::<StatusModel, DepositError>(
            StatusModel::Initialized(s),
        ),
{
    let b = record_bytes(s);
    assert(b.len() == 40);
    assert(b.subrange(0, 32) =~= s.owner);
    lemma_le64_round_trip(s.balance);
    assert(le64_at(b, 32) == s.balance);
    assert(classify_spec(b)->Ok_0->Initialized_0 =~= s);
}

/// Store is the exact inverse of load: every buffer that classifies as a
/// record is the stored form of that record.
pub proof fn lemma_state_codec_inverse(b: Seq<u8>, s: StateModel)
    requires
        classify_spec(b) == Ok::<StatusModel, DepositError>(StatusModel::Initialized(s)),
    ensures
        record_bytes(s) == b,
{
    lemma_le64_bytes_round_trip(b[32], b[33], b[34], b[35], b[36], b[37], b[38], b[39]);
    assert(record_bytes(s) =~= b);
}

} // verus!
