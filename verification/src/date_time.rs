//! A minimal wall-clock representation: a count of microseconds since the
//! Unix epoch.  The crate never reads a clock itself; callers hand values of
//! this type in.

use vstd::prelude::*;

verus! {

/// A point in time as microseconds since the Unix epoch.
#[derive(Clone, Copy, Debug, PartialEq, Eq, Structural)]
pub struct DateTimeAsMicroseconds {
    pub unix_microseconds: i64,
}

impl DateTimeAsMicroseconds {
    /// Wraps a microsecond count.
    pub fn new(unix_microseconds: i64) -> (r: Self)
        ensures
            r.unix_microseconds == unix_microseconds,
    {
        DateTimeAsMicroseconds { unix_microseconds }
    }
}

} // verus!
