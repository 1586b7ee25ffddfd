//! The two supported operations and their compact binary form.
//!
//! Wire format: a 1-byte tag followed by an 8-byte little-endian amount.
//! Tag 0 is `Deposit`, tag 1 is `Withdraw`. Any other tag, a truncated
//! payload, or trailing bytes yield `DecodeError`.

use vstd::prelude::*;

use crate::errors::DepositError;
use crate::wire::le64_at;
use crate::wire::le64_bytes;
use crate::wire::lemma_le64_bytes_round_trip;
use crate::wire::lemma_le64_round_trip;
use crate::wire::push_u64_le;
use crate::wire::read_u64_le;

verus! {

/// Exact length of an encoded instruction: one tag byte plus an 8-byte
/// little-endian amount.
pub const INSTRUCTION_LEN: usize = 9;

/// An operation submitted to the ledger core. An amount of zero is accepted
/// but moves no value.
#[derive(Clone, Copy, Debug, PartialEq, Eq, Structural)]
pub enum DepositInstruction {
    /// Deposit `amount` native units into the account.
    Deposit { amount: u64 },
    /// Withdraw `amount` native units from the account.
    Withdraw { amount: u64 },
}

/// The encoded bytes of an instruction.
pub open spec fn encode_spec(i: DepositInstruction) -> Seq<u8> {
    match i {
        DepositInstruction::Deposit { amount } => seq![0u8] + le64_bytes(amount),
        DepositInstruction::Withdraw { amount } => seq![1u8] + le64_bytes(amount),
    }
}

/// The instruction denoted by a byte string, or `DecodeError` where the bytes
/// are not exactly a recognized tag followed by an 8-byte amount.
pub open spec fn decode_spec(b: Seq<u8>) -> Result<DepositInstruction, DepositError> {
    if b.len() != 9 {
        Err(DepositError::DecodeError)
    } else if b[0] == 0u8 {
        Ok(DepositInstruction::Deposit { amount: le64_at(b, 1) })
    } else if b[0] == 1u8 {
        Ok(DepositInstruction::Withdraw { amount: le64_at(b, 1) })
    } else {
        Err(DepositError::DecodeError)
    }
}

impl DepositInstruction {
    /// Encodes the instruction into its compact binary form.
    pub fn encode(&self) -> (r: Vec<u8>)
        ensures
            r@ == encode_spec(*self),
            r@.len() == 9,
    {
        let mut v: Vec<u8> = Vec::new();
        match self {
            DepositInstruction::Deposit { amount } => {
                v.push(0u8);
                push_u64_le(&mut v, *amount);
            },
            DepositInstruction::Withdraw { amount } => {
                v.push(1u8);
                push_u64_le(&mut v, *amount);
            },
        }
        proof {
            assert(v@ =~= encode_spec(*self));
        }
        v
    }

    /// Decodes an instruction from its binary form; fails with `DecodeError`
    /// on an unrecognized tag or a payload whose length is not exactly nine.
    pub fn decode(b: &Vec<u8>) -> (r: Result<DepositInstruction, DepositError>)
        ensures
            r == decode_spec(b@),
    {
        if b.len() != INSTRUCTION_LEN {
            return Err(DepositError::DecodeError);
        }
        let tag = b[0];
        if tag == 0 {
            let amount = read_u64_le(b, 1);
            Ok(DepositInstruction::Deposit { amount })
        } else if tag == 1 {
            let amount = read_u64_le(b, 1);
            Ok(DepositInstruction::Withdraw { amount })
        } else {
            Err(DepositError::DecodeError)
        }
    }
}

/// Round trip: decoding an encoded instruction yields the instruction back,
/// for every constructible instruction.
pub proof fn lemma_instruction_round_trip(i: DepositInstruction)
    ensures
        decode_spec(encode_spec(i)) == Ok::<DepositInstruction, DepositError>(i),
{
    let b = encode_spec(i);
    match i {
        DepositInstruction::Deposit { amount } => {
            lemma_le64_round_trip(amount);
            assert(le64_at(b, 1) == amount);
        },
        DepositInstruction::Withdraw { amount } => {
            lemma_le64_round_trip(amount);
            assert(le64_at(b, 1) == amount);
        },
    }
}

/// Encode is the exact inverse of decode: every byte string that decodes is
/// the encoding of what it decodes to.
pub proof fn lemma_instruction_codec_inverse(b: Seq<u8>, i: DepositInstruction)
    requires
        decode_spec(b) == Ok::<DepositInstruction, DepositError>(i),
    ensures
        encode_spec(i) == b,
{
    lemma_le64_bytes_round_trip(b[1], b[2], b[3], b[4], b[5], b[6], b[7], b[8]);
    assert(encode_spec(i) =~= b);
}

} // verus!
