//! The funding a storage slot needs to persist.

use vstd::prelude::*;

verus! {

/// Bytes the ledger charges for beside the data of a slot.
pub const ACCOUNT_STORAGE_OVERHEAD: u64 = 128;

/// Rental rate in lamports per byte and year.
pub const LAMPORTS_PER_BYTE_YEAR: u64 = 3480;

/// Years of rent a slot must hold to be exempt from rent.
pub const EXEMPTION_THRESHOLD_YEARS: u64 = 2;

/// The most bytes a single slot can hold.
pub const MAX_PERMITTED_DATA_LENGTH: usize = 10_485_760;

/// The least funding with which a slot of `data_len` bytes persists.
pub open spec fn spec_minimum_balance(data_len: nat) -> int {
    (ACCOUNT_STORAGE_OVERHEAD + data_len) * LAMPORTS_PER_BYTE_YEAR * EXEMPTION_THRESHOLD_YEARS
}

/// The least funding with which a slot of `data_len` bytes persists.
///
/// Trusted: calls `solana_program::rent::Rent::minimum_balance` on
/// `Rent::default()`. With the default rate and threshold that is the slot's
/// size plus the overhead, times the yearly rate, times two years. The
/// outside function multiplies in floating point; up to the largest slot the
/// ledger permits every value involved is small enough to be exact.
#[verifier::external_body]
pub(crate) fn rent_minimum_balance(data_len: usize) -> (lamports: u64)
    requires
        data_len <= MAX_PERMITTED_DATA_LENGTH,
    ensures
        lamports == spec_minimum_balance(data_len as nat),
{
    solana_program::rent::Rent::default().minimum_balance(data_len)
}

/// Funding grows with the size of the slot and is never zero.
pub proof fn lemma_minimum_balance_bounds(data_len: nat)
    requires
        data_len <= MAX_PERMITTED_DATA_LENGTH,
    ensures
        0 < spec_minimum_balance(0) <= spec_minimum_balance(data_len) <= u64::MAX,
{
    assert(spec_minimum_balance(data_len) == (128 + data_len) * 6960) by (nonlinear_arith)
        requires
            spec_minimum_balance(data_len) == (128 + data_len) * 3480 * 2,
    ;
}

} // verus!
