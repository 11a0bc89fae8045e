//! Readings of the wall clock, and their conversion to and from nanoseconds
//! since the Unix epoch.

use vstd::prelude::*;

verus! {

/// Nanoseconds in one second.
pub const NANOS_PER_SEC: u32 = 1_000_000_000;

/// A reading of the wall clock: whole seconds since the Unix epoch, negative
/// before it, and the nanoseconds past that second.
///
/// The nanoseconds are always below one second, so a reading and its total
/// of nanoseconds determine each other.
#[derive(Debug, Clone, Copy, PartialEq, Eq, Hash, Structural)]
pub struct WallTime {
    secs: i64,
    subsec_nanos: u32,
}

/// Whether a total of nanoseconds since the epoch is that of some reading,
/// that is, whether its whole seconds fit in an `i64`.
pub open spec fn representable(total_nanos: int) -> bool {
    i64::MIN * 1_000_000_000 <= total_nanos < (i64::MAX + 1) * 1_000_000_000
}

/// Calls `chrono::DateTime::<Utc>::from_timestamp` and, on the date that it
/// gives, `chrono::DateTime::timestamp_nanos_opt`.
///
/// Claimed of them: for nanoseconds below one second the result is the number
/// of nanoseconds since the epoch, `secs * 10^9 + subsec_nanos`, where an
/// `i64` holds that number, and `None` where none does.
#[verifier::external_body]
fn chrono_timestamp_nanos(secs: i64, subsec_nanos: u32) -> (nanos: Option<i64>)
    requires
        subsec_nanos < NANOS_PER_SEC,
    ensures
        nanos is Some <==> i64::MIN <= secs * 1_000_000_000 + subsec_nanos <= i64::MAX,
        nanos matches Some(n) ==> n == secs * 1_000_000_000 + subsec_nanos,
{
    chrono::DateTime::<chrono::Utc>::from_timestamp(secs, subsec_nanos)?.timestamp_nanos_opt()
}

/// Calls `chrono::DateTime::from_timestamp_nanos` and reads the date's
/// `timestamp` and `timestamp_subsec_nanos`.
///
/// Claimed of them: the two parts are the whole seconds since the epoch,
/// rounded down, and the nanoseconds past that second, so that together they
/// make up `nanos` again.
#[verifier::external_body]
fn chrono_timestamp_parts(nanos: i64) -> (parts: (i64, u32))
    ensures
        parts.1 < NANOS_PER_SEC,
        parts.0 * 1_000_000_000 + parts.1 == nanos,
{
    let date = chrono::DateTime::from_timestamp_nanos(nanos);
    (date.timestamp(), date.timestamp_subsec_nanos())
}

impl WallTime {
    /// The invariant of a reading: less than one second of nanoseconds.
    #[verifier::type_invariant]
    pub closed spec fn wf(self) -> bool {
        self.subsec_nanos < NANOS_PER_SEC
    }

    /// Whole seconds since the epoch, rounded down.
    pub closed spec fn spec_secs(self) -> int {
        self.secs as int
    }

    /// Nanoseconds past the whole second.
    pub closed spec fn spec_subsec_nanos(self) -> int {
        self.subsec_nanos as int
    }

    /// The reading as one number: nanoseconds since the epoch.
    pub open spec fn total_nanos(self) -> int {
        self.spec_secs() * 1_000_000_000 + self.spec_subsec_nanos()
    }

    /// The ranges of the parts of a well-formed reading, and how its total
    /// splits into them.
    pub proof fn lemma_parts(self)
        requires
            self.wf(),
        ensures
            0 <= self.spec_subsec_nanos() < 1_000_000_000,
            i64::MIN <= self.spec_secs() <= i64::MAX,
            self.spec_secs() == self.total_nanos() / 1_000_000_000,
            self.spec_subsec_nanos() == self.total_nanos() % 1_000_000_000,
            representable(self.total_nanos()),
    {
    }

    /// Two well-formed readings with the same total are the same reading.
    pub proof fn lemma_total_nanos_injective(self, other: WallTime)
        requires
            self.wf(),
            other.wf(),
            self.total_nanos() == other.total_nanos(),
        ensures
            self == other,
    {
    }

    /// The reading with the given parts, or `None` where the nanoseconds are
    /// not below one second.
    pub fn new(secs: i64, subsec_nanos: u32) -> (r: Option<WallTime>)
        ensures
            r is Some <==> subsec_nanos < NANOS_PER_SEC,
            r matches Some(t) ==> t.wf() && t.spec_secs() == secs && t.spec_subsec_nanos()
                == subsec_nanos && t.total_nanos() == secs * 1_000_000_000 + subsec_nanos,
    {
        if subsec_nanos < NANOS_PER_SEC {
            Some(WallTime { secs, subsec_nanos })
        } else {
            None
        }
    }

    /// Whole seconds since the epoch, rounded down.
    pub fn secs(&self) -> (secs: i64)
        ensures
            secs == self.spec_secs(),
    {
        self.secs
    }

    /// Nanoseconds past the whole second.
    pub fn subsec_nanos(&self) -> (nanos: u32)
        ensures
            nanos == self.spec_subsec_nanos(),
            nanos < NANOS_PER_SEC,
    {
        proof {
            use_type_invariant(self);
        }
        self.subsec_nanos
    }

    /// The reading `delta` nanoseconds after this one, or `None` where its
    /// seconds would not fit.
    pub fn checked_add_nanos(&self, delta: u64) -> (r: Option<WallTime>)
        ensures
            r is Some <==> representable(self.total_nanos() + delta),
            r matches Some(t) ==> t.wf() && t.total_nanos() == self.total_nanos() + delta,
    {
        proof {
            use_type_invariant(self);
        }
        let delta_secs: u64 = delta / 1_000_000_000;
        let delta_sub: u32 = (delta % 1_000_000_000) as u32;
        let sum_sub: u32 = self.subsec_nanos + delta_sub;
        let carry: i128 = if sum_sub >= NANOS_PER_SEC {
            1
        } else {
            0
        };
        let subsec_nanos: u32 = if sum_sub >= NANOS_PER_SEC {
            sum_sub - NANOS_PER_SEC
        } else {
            sum_sub
        };
        let secs: i128 = self.secs as i128 + delta_secs as i128 + carry;
        if secs > i64::MAX as i128 {
            None
        } else {
            Some(WallTime { secs: secs as i64, subsec_nanos })
        }
    }

    /// The reading `delta` nanoseconds before this one, or `None` where its
    /// seconds would not fit.
    pub fn checked_sub_nanos(&self, delta: u64) -> (r: Option<WallTime>)
        ensures
            r is Some <==> representable(self.total_nanos() - delta),
            r matches Some(t) ==> t.wf() && t.total_nanos() == self.total_nanos() - delta,
    {
        proof {
            use_type_invariant(self);
        }
        let delta_secs: u64 = delta / 1_000_000_000;
        let delta_sub: u32 = (delta % 1_000_000_000) as u32;
        let borrow: i128 = if self.subsec_nanos < delta_sub {
            1
        } else {
            0
        };
        let subsec_nanos: u32 = if self.subsec_nanos < delta_sub {
            self.subsec_nanos + NANOS_PER_SEC - delta_sub
        } else {
            self.subsec_nanos - delta_sub
        };
        let secs: i128 = self.secs as i128 - delta_secs as i128 - borrow;
        if secs < i64::MIN as i128 {
            None
        } else {
            Some(WallTime { secs: secs as i64, subsec_nanos })
        }
    }

    /// The signed number of nanoseconds from `earlier` to this reading.
    pub fn signed_nanos_since(&self, earlier: &WallTime) -> (d: i128)
        ensures
            d == self.total_nanos() - earlier.total_nanos(),
    {
        proof {
            use_type_invariant(self);
            use_type_invariant(earlier);
        }
        let a: i128 = self.secs as i128 * 1_000_000_000 + self.subsec_nanos as i128;
        let b: i128 = earlier.secs as i128 * 1_000_000_000 + earlier.subsec_nanos as i128;
        a - b
    }

    /// Nanoseconds since the epoch as an `i64`, or `None` where the reading
    /// lies outside the years that an `i64` of nanoseconds spans.
    pub fn unix_nanos(&self) -> (r: Option<i64>)
        ensures
            r is Some <==> i64::MIN <= self.total_nanos() <= i64::MAX,
            r matches Some(n) ==> n == self.total_nanos(),
    {
        proof {
            use_type_invariant(self);
        }
        chrono_timestamp_nanos(self.secs, self.subsec_nanos)
    }

    /// The reading that lies `nanos` nanoseconds after the epoch.
    pub fn from_unix_nanos(nanos: i64) -> (t: WallTime)
        ensures
            t.wf(),
            t.total_nanos() == nanos,
    {
        let parts: (i64, u32) = chrono_timestamp_parts(nanos);
        WallTime { secs: parts.0, subsec_nanos: parts.1 }
    }
}

} // verus!
