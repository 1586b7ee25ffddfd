//! The closed error taxonomy of the ledger core.
//!
//! Every error is terminal for the instruction that raised it: detection
//! happens strictly before any mutation, so a rejected instruction reads as
//! "no funds moved, no state changed, typed reason returned".

use vstd::prelude::*;

verus! {

/// Typed failures of the ledger core.
#[derive(Clone, Copy, Debug, PartialEq, Eq, Structural)]
pub enum DepositError {
    /// The instruction bytes held an unrecognized tag or a truncated payload.
    DecodeError,
    /// The storage record's bytes do not form a record, or a withdrawal
    /// addressed a record that does not exist yet.
    CorruptState,
    /// The storage record is not under this program's control.
    WrongOwner,
    /// The caller did not cryptographically authorize the request.
    MissingSignature,
    /// A withdrawal was attempted by someone other than the recorded owner.
    Unauthorized,
    /// A withdrawal asked for more than the balance allows, or the account
    /// would fall below its minimum reserve; or a depositor could not fund
    /// the transfer.
    InsufficientFunds,
    /// An addition would overflow the numeric range of a balance.
    ArithmeticOverflow,
}

/// The stable numeric code of each error kind, in spec form. The first three
/// codes are long since fixed for hosts that match on them: 0 for
/// `InsufficientFunds`, 1 for `WrongOwner`, 2 for `DecodeError`; the
/// remaining kinds carry the later codes 3 to 6.
pub open spec fn error_code_spec(e: DepositError) -> u32 {
    match e {
        DepositError::InsufficientFunds => 0,
        DepositError::WrongOwner => 1,
        DepositError::DecodeError => 2,
        DepositError::CorruptState => 3,
        DepositError::MissingSignature => 4,
        DepositError::Unauthorized => 5,
        DepositError::ArithmeticOverflow => 6,
    }
}

impl DepositError {
    /// The explicit table mapping each error kind to the stable numeric code
    /// reported at the host boundary.
    pub fn code(&self) -> (r: u32)
        ensures
            r == error_code_spec(*self),
    {
        match self {
            DepositError::InsufficientFunds => 0,
            DepositError::WrongOwner => 1,
            DepositError::DecodeError => 2,
            DepositError::CorruptState => 3,
            DepositError::MissingSignature => 4,
            DepositError::Unauthorized => 5,
            DepositError::ArithmeticOverflow => 6,
        }
    }

    /// A short human-readable name for the error, for host-side reporting.
    pub fn name(&self) -> (r: &'static str) {
        match self {
            DepositError::DecodeError => "invalid instruction data",
            DepositError::CorruptState => "account state is corrupt or missing",
            DepositError::WrongOwner => "account not owned by expected program",
            DepositError::MissingSignature => "missing required signature",
            DepositError::Unauthorized => "caller is not the recorded owner",
            DepositError::InsufficientFunds => "insufficient funds",
            DepositError::ArithmeticOverflow => "arithmetic overflow",
        }
    }
}

} // verus!
