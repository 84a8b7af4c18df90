//! A transaction-validating script that enforces a relative time-lock gated
//! by signature ownership: a value may be spent only once a configured delay
//! has elapsed since the referenced input's origin block, and the spender
//! proves control of a designated public key via a recoverable signature.

pub mod entry;
pub mod error;
pub mod identity;
pub mod payload;
pub mod timelock;
