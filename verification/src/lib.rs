//! A deterministic account ledger core: deposits into and withdrawals out of a
//! program-owned storage record, with strict financial and authorization
//! invariants. The host environment hands the processor an instruction plus
//! the involved account records; the processor decodes, authorizes, and
//! mutates state and value atomically, or rejects with no observable change.

pub mod auth;
pub mod errors;
pub mod identity;
pub mod instruction;
pub mod laws;
pub mod processor;
pub mod reserve;
pub mod state;
pub mod wire;
