use vstd::prelude::*;

verus! {

/// Milliseconds in one second.
pub const MS_PER_SEC: i64 = 1000;

/// Milliseconds in one day.
pub const MS_PER_DAY: i64 = 86_400_000;

/// Seconds in one day.
pub const SECS_PER_DAY: i64 = 86_400;

/// An absolute instant, as milliseconds since the Unix epoch in UTC.
#[derive(Debug, Clone, Copy, PartialEq, Eq, Structural)]
pub struct UtcInstant {
    pub unix_ms: i64,
}

/// Whole seconds of a millisecond count, rounded toward zero.
pub open spec fn trunc_secs(ms: int) -> int {
    if ms >= 0 {
        ms / 1000
    } else {
        -((-ms) / 1000)
    }
}

/// The instant `secs` whole seconds after the epoch, where its millisecond count fits.
pub open spec fn instant_of_secs(secs: int) -> Option<UtcInstant> {
    if i64::MIN as int <= secs * 1000 <= i64::MAX as int {
        Some(UtcInstant { unix_ms: (secs * 1000) as i64 })
    } else {
        None
    }
}

impl UtcInstant {
    /// The instant at `unix_ms` milliseconds after the epoch.
    pub fn from_unix_ms(unix_ms: i64) -> (r: UtcInstant)
        ensures
            r.unix_ms == unix_ms,
    {
        UtcInstant { unix_ms }
    }

    /// Whole seconds since the epoch, rounded toward zero.
    pub fn unix_secs(&self) -> (r: i64)
        ensures
            r == trunc_secs(self.unix_ms as int),
    {
        if self.unix_ms >= 0 {
            self.unix_ms / MS_PER_SEC
        } else {
            let a: i128 = -(self.unix_ms as i128);
            let q: i128 = a / 1000;
            (-q) as i64
        }
    }

    /// The instant `secs` whole seconds after the epoch, or `None` where that does not
    /// fit in a millisecond count.
    pub fn from_unix_secs(secs: i64) -> (r: Option<UtcInstant>)
        ensures
            r == instant_of_secs(secs as int),
    {
        let ms: i128 = (secs as i128) * 1000;
        if ms < i64::MIN as i128 || ms > i64::MAX as i128 {
            None
        } else {
            Some(UtcInstant { unix_ms: ms as i64 })
        }
    }
}

} // verus!
