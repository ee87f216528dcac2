use crate::duration::Duration;
use vstd::prelude::*;

verus! {

/// Why a daemon could not be started.
#[derive(Debug, Clone, PartialEq, Eq)]
pub enum StartError {
    /// A daemon is already running in this process.
    OnlyOneInstanceAllowed,
    /// The lock guarding the process-wide slot was poisoned by a panic.
    MutexPoisoned,
    /// The temporary directory (its raw bytes) is not valid UTF-8.
    PathIsNotValidUtf8(Vec<u8>),
    /// The temporary directory contains a NUL byte.
    PathContainsNullByte(String),
    /// A timeout does not fit in a signed 64-bit count of nanoseconds.
    DurationIsTooLong(Duration),
    /// The access token contains a NUL byte.
    AccessTokenContainsNullByte(String),
    /// The foreign runtime reported this message.
    Lassie(String),
}

} // verus!
