//! The validator's decision core: the stages that run before the external
//! signature-recovery primitive is loaded. The host reads the script
//! arguments, the referenced input's payload and the header timestamps, and
//! hands them in as plain values; it loads the primitive only when these
//! stages accept.

use vstd::prelude::*;

use crate::error::Error;
use crate::timelock::check_if_unlock_time;
use crate::timelock::compute_unlock_time;
use crate::timelock::lock_witnessed;
use crate::timelock::spec_unlock_time;

verus! {

/// The expected length of the script argument bytes: a 20-byte identity
/// hash.
pub const IDENTITY_HASH_SIZE: usize = 20;

/// What the stages before signature recovery decide, in order: argument
/// length, delay decoding, unlock-time overflow, time-lock satisfaction.
/// The first failing stage rejects the request and no later stage runs.
pub open spec fn spec_pre_recovery(
    args: Seq<u8>,
    delay_bytes: Seq<u8>,
    origin_timestamp: u64,
    timestamps: Seq<u64>,
) -> Result<u64, Error> {
    if args.len() != IDENTITY_HASH_SIZE {
        Err(Error::LengthNotEnough)
    } else if delay_bytes.len() != 8 {
        Err(Error::Encoding)
    } else if spec_unlock_time(delay_bytes, origin_timestamp) > u64::MAX {
        Err(Error::Encoding)
    } else if !lock_witnessed(spec_unlock_time(delay_bytes, origin_timestamp) as u64, timestamps) {
        Err(Error::TimeLock)
    } else {
        Ok(spec_unlock_time(delay_bytes, origin_timestamp) as u64)
    }
}

/// Run configuration resolution and the time-lock evaluator. On success the
/// computed unlock time is returned; the host may then load the external
/// primitive and run the ownership verifier.
pub fn pre_recovery_checks(
    args: &Vec<u8>,
    delay_bytes: &Vec<u8>,
    origin_timestamp: u64,
    header_timestamps: &Vec<u64>,
) -> (r: Result<u64, Error>)
    ensures
        r == spec_pre_recovery(args@, delay_bytes@, origin_timestamp, header_timestamps@),
{
    if args.len() != IDENTITY_HASH_SIZE {
        return Err(Error::LengthNotEnough);
    }
    let unlock_time = match compute_unlock_time(delay_bytes.as_slice(), origin_timestamp) {
        Ok(u) => u,
        Err(e) => {
            return Err(e);
        },
    };
    match check_if_unlock_time(unlock_time, header_timestamps) {
        Ok(()) => Ok(unlock_time),
        Err(e) => Err(e),
    }
}

} // verus!
