//! Arithmetic and authorization guards used by every sale operation.

use vstd::prelude::*;

use crate::errors::ErrorCode;
use crate::record::SaleLedgerRecord;

verus! {

/// True when `amount * factor` is representable as a `u64`.
pub open spec fn scale_fits(amount: u64, factor: u64) -> bool {
    amount * factor <= u64::MAX
}

/// Overflow-checked multiplication, used to convert human-facing amounts
/// into base units at a fixed decimal scale.
pub fn checked_scale(amount: u64, factor: u64) -> (r: Result<u64, ErrorCode>)
    ensures
        scale_fits(amount, factor) ==> r == Ok::<u64, ErrorCode>((amount * factor) as u64),
        !scale_fits(amount, factor) ==> r == Err::<u64, ErrorCode>(ErrorCode::Overflow),
{
    match amount.checked_mul(factor) {
        Some(v) => Ok(v),
        None => Err(ErrorCode::Overflow),
    }
}

/// Overflow-checked addition, used to accumulate the sale counters.
pub fn checked_add(a: u64, b: u64) -> (r: Result<u64, ErrorCode>)
    ensures
        a + b <= u64::MAX ==> r == Ok::<u64, ErrorCode>((a + b) as u64),
        a + b > u64::MAX ==> r == Err::<u64, ErrorCode>(ErrorCode::Overflow),
{
    match a.checked_add(b) {
        Some(v) => Ok(v),
        None => Err(ErrorCode::Overflow),
    }
}

/// Admin authorization: succeeds exactly when the caller is the recorded
/// admin. Pure; admin-gated operations run it before any asset moves.
pub fn require_admin(record: &SaleLedgerRecord, caller: &[u8; 32]) -> (r: Result<(), ErrorCode>)
    ensures
        r is Ok <==> caller@ == record.admin@,
        caller@ != record.admin@ ==> r == Err::<(), ErrorCode>(ErrorCode::InvalidAdmin),
{
    if identity_eq(caller, &record.admin) {
        Ok(())
    } else {
        Err(ErrorCode::InvalidAdmin)
    }
}

/// Equality of two 32-byte account identities.
pub fn identity_eq(a: &[u8; 32], b: &[u8; 32]) -> (r: bool)
    ensures
        r == (a@ == b@),
{
    let mut i: usize = 0;
    while i < 32
        invariant
            i <= 32,
            forall|j: int| 0 <= j < i ==> a@[j] == b@[j],
        decreases 32 - i,
    {
        if a[i] != b[i] {
            return false;
        }
        i = i + 1;
    }
    proof {
        assert(a@ =~= b@);
    }
    true
}

} // verus!
