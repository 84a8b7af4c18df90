//! The error taxonomy of the validator. Every error is fatal for the current
//! validation request: the request is rejected and no later stage runs.

use vstd::prelude::*;

verus! {

/// One non-overlapping kind per failure the validator can report.
#[derive(Clone, Copy, Debug, PartialEq, Eq, Structural)]
pub enum Error {
    /// The script argument bytes are not exactly 20 bytes long.
    LengthNotEnough,
    /// A fixed-width field is malformed: the relative-delay payload is not
    /// exactly 8 bytes, or the unlock time would not fit in 64 bits.
    Encoding,
    /// No attached header dependency has a timestamp strictly greater than
    /// the computed unlock time.
    TimeLock,
    /// The external cryptographic primitive failed to recover an identity.
    Secp256k1,
    /// The recovered identity hash differs from the expected identity hash.
    WrongPubkey,
}

} // verus!
