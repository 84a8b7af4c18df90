//! The time-lock evaluator: decodes the stored relative delay, computes the
//! absolute unlock time from it and the origin block's timestamp, and checks
//! that at least one attached header dependency witnesses that the unlock
//! time has passed.

use vstd::prelude::*;

use crate::error::Error;

verus! {

/// The value of an 8-byte big-endian unsigned integer, as a mathematical
/// integer.
pub open spec fn be_u64_value(s: Seq<u8>) -> int
    recommends
        s.len() == 8,
{
    ((((((s[0] * 256 + s[1]) * 256 + s[2]) * 256 + s[3]) * 256 + s[4]) * 256 + s[5]) * 256
        + s[6]) * 256 + s[7]
}

/// The absolute unlock time: relative delay plus origin timestamp, as a
/// mathematical integer (so that overflow of `u64` is expressible).
pub open spec fn spec_unlock_time(delay_bytes: Seq<u8>, origin_timestamp: u64) -> int
    recommends
        delay_bytes.len() == 8,
{
    be_u64_value(delay_bytes) + origin_timestamp
}

/// The lock is satisfied when some attached header has a timestamp strictly
/// greater than the unlock time.
pub open spec fn lock_witnessed(unlock_time: u64, timestamps: Seq<u64>) -> bool {
    exists|i: int| 0 <= i < timestamps.len() && unlock_time < timestamps[i]
}

/// Reinterpret a byte slice as a fixed 8-byte array; any other length is a
/// malformed fixed-width field.
pub fn into_i64_array(arr: &[u8]) -> (r: Result<[u8; 8], Error>)
    ensures
        arr@.len() == 8 ==> (r matches Ok(a) && a@ == arr@),
        arr@.len() != 8 ==> r == Err::<[u8; 8], Error>(Error::Encoding),
{
    if arr.len() == 8 {
        let a: [u8; 8] = [arr[0], arr[1], arr[2], arr[3], arr[4], arr[5], arr[6], arr[7]];
        assert(a@ =~= arr@);
        Ok(a)
    } else {
        Err(Error::Encoding)
    }
}

/// Decode a big-endian 8-byte array into the unsigned 64-bit value it
/// denotes.
fn u64_from_be(a: &[u8; 8]) -> (r: u64)
    ensures
        r == be_u64_value(a@),
{
    let mut v: u64 = a[0] as u64;
    v = v * 256 + (a[1] as u64);
    v = v * 256 + (a[2] as u64);
    v = v * 256 + (a[3] as u64);
    v = v * 256 + (a[4] as u64);
    v = v * 256 + (a[5] as u64);
    v = v * 256 + (a[6] as u64);
    v = v * 256 + (a[7] as u64);
    v
}

/// Decode the relative delay and add it to the origin timestamp. A payload
/// that is not exactly 8 bytes is a malformed field; a sum that does not fit
/// in 64 bits is rejected rather than wrapped, since a wrapped unlock time
/// could incorrectly appear to have already passed.
pub fn compute_unlock_time(lock_time: &[u8], cur_block_time: u64) -> (r: Result<u64, Error>)
    ensures
        lock_time@.len() != 8 ==> r == Err::<u64, Error>(Error::Encoding),
        lock_time@.len() == 8 && spec_unlock_time(lock_time@, cur_block_time) > u64::MAX ==> r
            == Err::<u64, Error>(Error::Encoding),
        lock_time@.len() == 8 && spec_unlock_time(lock_time@, cur_block_time) <= u64::MAX ==> (
        r matches Ok(u) && u == spec_unlock_time(lock_time@, cur_block_time)),
{
    let arr = match into_i64_array(lock_time) {
        Ok(a) => a,
        Err(e) => {
            return Err(e);
        },
    };
    let delay = u64_from_be(&arr);
    match delay.checked_add(cur_block_time) {
        Some(u) => Ok(u),
        None => Err(Error::Encoding),
    }
}

/// Scan the attached header timestamps in order; the first one strictly
/// greater than the unlock time satisfies the lock. If every header has a
/// timestamp at or below the unlock time (in particular, if there is none),
/// the request is rejected.
pub fn check_if_unlock_time(unlock_time: u64, header_timestamps: &Vec<u64>) -> (r: Result<
    (),
    Error,
>)
    ensures
        r == Ok::<(), Error>(()) <==> lock_witnessed(unlock_time, header_timestamps@),
        !lock_witnessed(unlock_time, header_timestamps@) ==> r == Err::<(), Error>(
            Error::TimeLock,
        ),
{
    let n = header_timestamps.len();
    let mut i: usize = 0;
    while i < n
        invariant
            i <= n,
            n == header_timestamps@.len(),
            forall|j: int| 0 <= j < i ==> unlock_time >= header_timestamps@[j],
        decreases n - i,
    {
        if unlock_time < header_timestamps[i] {
            return Ok(());
        }
        i = i + 1;
    }
    Err(Error::TimeLock)
}

/// A header whose timestamp equals the unlock time does not satisfy the
/// lock; one whose timestamp exceeds it by one does. The boundary is
/// exclusive on the header side.
pub proof fn lemma_unlock_boundary(unlock_time: u64)
    ensures
        !lock_witnessed(unlock_time, seq![unlock_time]),
        unlock_time < u64::MAX ==> lock_witnessed(unlock_time, seq![(unlock_time + 1) as u64]),
{
    let s = seq![unlock_time];
    assert(forall|i: int| 0 <= i < s.len() ==> s[i] == unlock_time);
    if unlock_time < u64::MAX {
        let t = seq![(unlock_time + 1) as u64];
        assert(unlock_time < t[0]);
    }
}

} // verus!
