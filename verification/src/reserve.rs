//! The reserve policy: the minimum native balance an account must retain for
//! its stored record size.
//!
//! The rate table is supplied by the host; this core neither owns nor
//! computes the schedule. The minimum reserve is the affine function
//! `base + per_byte * size` of the stored size, saturated to the numeric
//! range of a native balance.

use vstd::prelude::*;

verus! {

/// The host-supplied reserve schedule: a flat part and a per-byte part.
#[derive(Clone, Copy, Debug, PartialEq, Eq, Structural)]
pub struct RateTable {
    /// Flat part of the reserve, owed by every record.
    pub base: u64,
    /// Additional reserve owed per stored byte.
    pub per_byte: u64,
}

/// The minimum reserve owed by a record of `size` bytes under `rate`,
/// saturated to the range of a native balance.
pub open spec fn reserve_spec(rate: RateTable, size: int) -> int {
    if rate.base + rate.per_byte * size > u64::MAX {
        u64::MAX as int
    } else {
        rate.base + rate.per_byte * size
    }
}

/// Computes the minimum native balance a record of `data_size` bytes must
/// retain to remain valid in the host environment.
pub fn minimum_reserve(rate: &RateTable, data_size: usize) -> (r: u64)
    ensures
        r == reserve_spec(*rate, data_size as int),
{
    let b = rate.base;
    let p = rate.per_byte;
    proof {
        assert((b as int) + (p as int) * (data_size as int)
            < 0x1_0000_0000_0000_0000_0000_0000_0000_0000int) by (nonlinear_arith)
            requires
                b < 0x1_0000_0000_0000_0000,
                p < 0x1_0000_0000_0000_0000,
                data_size < 0x1_0000_0000_0000_0000,
        ;
        assert((p as int) * (data_size as int) >= 0) by (nonlinear_arith)
            requires
                p >= 0,
                data_size >= 0,
        ;
    }
    let total: u128 = (b as u128) + (p as u128) * (data_size as u128);
    if total > 0xffff_ffff_ffff_ffffu128 {
        u64::MAX
    } else {
        total as u64
    }
}

} // verus!
