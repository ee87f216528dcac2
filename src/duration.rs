use crate::error::StartError;
use vstd::prelude::*;

verus! {

/// Nanoseconds in one second.
pub const NANOS_PER_SEC: u32 = 1_000_000_000;

/// A span of time as whole seconds plus the nanoseconds beyond them.
///
/// `nanos` is normally below one second, as in `std::time::Duration`; a
/// larger value still denotes `secs` seconds plus `nanos` nanoseconds.
#[derive(Debug, Clone, Copy, PartialEq, Eq)]
pub struct Duration {
    pub secs: u64,
    pub nanos: u32,
}

impl Duration {
    /// The length of the span in nanoseconds.
    pub open spec fn total_nanos(&self) -> int {
        self.secs as int * NANOS_PER_SEC as int + self.nanos as int
    }

    /// A span of `secs` seconds and `nanos` nanoseconds.
    pub fn new(secs: u64, nanos: u32) -> (r: Duration)
        ensures
            r.secs == secs,
            r.nanos == nanos,
    {
        Duration { secs, nanos }
    }

    /// The whole span in nanoseconds; it always fits in 128 bits.
    pub fn as_nanos(&self) -> (r: u128)
        ensures
            r as int == self.total_nanos(),
    {
        let secs = self.secs as u128;
        assert(secs * 1_000_000_000 <= 18_446_744_073_709_551_615u128 * 1_000_000_000)
            by (nonlinear_arith)
            requires
                secs <= 18_446_744_073_709_551_615u128,
        ;
        secs * (NANOS_PER_SEC as u128) + self.nanos as u128
    }
}

/// The foreign runtime counts a span as a signed 64-bit number of
/// nanoseconds; spans that do not fit are rejected.
pub fn try_convert_duration_to_go_type(from: Duration) -> (r: Result<i64, StartError>)
    ensures
        from.total_nanos() <= i64::MAX ==> r == Ok::<i64, StartError>(
            from.total_nanos() as i64,
        ),
        from.total_nanos() > i64::MAX ==> r == Err::<i64, StartError>(
            StartError::DurationIsTooLong(from),
        ),
{
    let n = from.as_nanos();
    if n <= i64::MAX as u128 {
        Ok(n as i64)
    } else {
        Err(StartError::DurationIsTooLong(from))
    }
}

} // verus!
