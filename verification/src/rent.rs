use vstd::prelude::*;
use crate::error::ProgramError;
use crate::parse::le_u64_at;

verus! {

/// Account storage overhead in bytes, added to an account's data length when
/// its rent-exempt minimum is computed.
pub const ACCOUNT_STORAGE_OVERHEAD: u64 = 128;

/// Maximum permitted size of account data (10 MiB).
pub const MAX_PERMITTED_DATA_LENGTH: u64 = 10485760;

/// The largest rental rate, in lamports per byte, that the rent sysvar may hold.
pub const MAX_LAMPORTS_PER_BYTE: u64 = 1759197129867;

/// The rental rate held by rent sysvar data: its first eight bytes, little-endian.
pub open spec fn rent_lamports_per_byte(rent_data: Seq<u8>) -> u64 {
    le_u64_at(rent_data, 0)
}

/// The rent-exempt minimum balance of an account with `data_len` data bytes,
/// under the rent sysvar data `rent_data`: `InvalidArgument` when the data is
/// shorter than eight bytes, `data_len` is over the permitted maximum, or the
/// rate is over its maximum; else `(128 + data_len) * rate`.
pub open spec fn spec_minimum_balance(rent_data: Seq<u8>, data_len: int) -> Result<u64, ProgramError> {
    if rent_data.len() < 8 || data_len > MAX_PERMITTED_DATA_LENGTH
        || rent_lamports_per_byte(rent_data) > MAX_LAMPORTS_PER_BYTE {
        Err(ProgramError::InvalidArgument)
    } else {
        Ok(((ACCOUNT_STORAGE_OVERHEAD + data_len) * rent_lamports_per_byte(rent_data)) as u64)
    }
}

/// Whether an account with `lamports` and `data_len` data bytes is rent exempt
/// under `rent_data`, or the error of reading the rent sysvar data.
pub open spec fn spec_is_exempt(rent_data: Seq<u8>, lamports: u64, data_len: int) -> Result<bool, ProgramError> {
    match spec_minimum_balance(rent_data, data_len) {
        Ok(min) => Ok(lamports >= min),
        Err(e) => Err(e),
    }
}

/// `pinocchio::sysvars::rent::Rent::from_bytes` followed by `try_minimum_balance`.
/// `from_bytes` fails with `InvalidArgument` on fewer than eight bytes, else reads
/// the rate from the first eight (an unaligned native read, little-endian on the
/// targets this runs on); `try_minimum_balance` fails with `InvalidArgument` when
/// `data_len` or the rate is over its maximum, else returns
/// `(128 + data_len) * rate`. Neither returns another error.
#[verifier::external_body]
pub(crate) fn rent_try_minimum_balance(rent_data: &[u8], data_len: usize) -> (r: Result<u64, ProgramError>)
    ensures
        r == spec_minimum_balance(rent_data@, data_len as int),
{
    match pinocchio::sysvars::rent::Rent::from_bytes(rent_data) {
        Ok(rent) => rent.try_minimum_balance(data_len).map_err(|_| ProgramError::InvalidArgument),
        Err(_) => Err(ProgramError::InvalidArgument),
    }
}

/// `pinocchio::sysvars::rent::Rent::from_bytes` followed by `is_exempt`, which is
/// `lamports >= minimum_balance(data_len)`. `minimum_balance` panics where
/// `try_minimum_balance` fails, so such data is excluded.
#[verifier::external_body]
pub(crate) fn rent_is_exempt(rent_data: &[u8], lamports: u64, data_len: usize) -> (r: Result<bool, ProgramError>)
    requires
        rent_data@.len() >= 8 ==> spec_minimum_balance(rent_data@, data_len as int) is Ok,
    ensures
        r == spec_is_exempt(rent_data@, lamports, data_len as int),
{
    match pinocchio::sysvars::rent::Rent::from_bytes(rent_data) {
        Ok(rent) => Ok(rent.is_exempt(lamports, data_len)),
        Err(_) => Err(ProgramError::InvalidArgument),
    }
}

} // verus!
