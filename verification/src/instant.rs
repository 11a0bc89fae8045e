//! Readings of a monotonic clock.

use vstd::prelude::*;

verus! {

/// A reading of a monotonic clock, held as the signed number of nanoseconds
/// between the clock's origin and the reading.
///
/// Readings are totally ordered and only their differences carry meaning: a
/// reading says nothing about the time of day.
#[derive(Debug, Clone, Copy, PartialEq, Eq, PartialOrd, Ord, Hash, Structural)]
pub struct Instant {
    nanos: i64,
}

impl View for Instant {
    type V = int;

    /// The reading as a mathematical integer of nanoseconds.
    closed spec fn view(&self) -> int {
        self.nanos as int
    }
}

/// The signed nanoseconds of a reading that is given by its distance from the
/// clock's origin and by the side of the origin it lies on.
pub open spec fn signed_offset(before_origin: bool, nanos: int) -> int {
    if before_origin {
        -nanos
    } else {
        nanos
    }
}

impl Instant {
    /// The nanoseconds of a reading fit in an `i64`.
    pub proof fn lemma_view_bounds(self)
        ensures
            i64::MIN <= self@ <= i64::MAX,
    {
    }

    /// Two readings with the same nanoseconds are the same reading.
    pub proof fn lemma_view_injective(self, other: Instant)
        requires
            self@ == other@,
        ensures
            self == other,
    {
    }

    /// The reading `nanos` nanoseconds after the clock's origin.
    pub fn from_nanos(nanos: i64) -> (instant: Instant)
        ensures
            instant@ == nanos,
    {
        Instant { nanos }
    }

    /// The nanoseconds between the clock's origin and this reading.
    pub fn nanos(&self) -> (nanos: i64)
        ensures
            nanos == self@,
    {
        self.nanos
    }

    /// The reading that lies `nanos` nanoseconds from the clock's origin,
    /// before it or after it, or `None` where no `i64` holds it.
    pub fn from_offset(before_origin: bool, nanos: u128) -> (r: Option<Instant>)
        ensures
            r is Some <==> i64::MIN <= signed_offset(before_origin, nanos as int) <= i64::MAX,
            r matches Some(t) ==> t@ == signed_offset(before_origin, nanos as int),
    {
        if before_origin {
            if nanos <= 0x8000_0000_0000_0000u128 {
                Some(Instant { nanos: (0i128 - nanos as i128) as i64 })
            } else {
                None
            }
        } else {
            if nanos <= 0x7fff_ffff_ffff_ffffu128 {
                Some(Instant { nanos: nanos as i64 })
            } else {
                None
            }
        }
    }

    /// The distance in nanoseconds of this reading from the clock's origin,
    /// and whether the reading lies before the origin.
    pub fn offset(&self) -> (r: (bool, u64))
        ensures
            r.0 == (self@ < 0),
            signed_offset(r.0, r.1 as int) == self@,
    {
        if self.nanos < 0 {
            (true, (0i128 - self.nanos as i128) as u64)
        } else {
            (false, self.nanos as u64)
        }
    }

    /// Whether this reading is not before `other`.
    pub fn is_at_or_after(&self, other: &Instant) -> (b: bool)
        ensures
            b == (self@ >= other@),
    {
        self.nanos >= other.nanos
    }

    /// The length in nanoseconds of the span between two readings, whichever
    /// of them comes first.
    pub fn abs_diff(&self, other: &Instant) -> (d: u64)
        ensures
            d == if self@ >= other@ {
                self@ - other@
            } else {
                other@ - self@
            },
    {
        let a: i128 = self.nanos as i128;
        let b: i128 = other.nanos as i128;
        if a >= b {
            (a - b) as u64
        } else {
            (b - a) as u64
        }
    }

    /// The reading `delta` nanoseconds after this one (before it, where
    /// `delta` is negative), or `None` where no `i64` holds it.
    pub fn checked_add_signed(&self, delta: i128) -> (r: Option<Instant>)
        ensures
            r is Some <==> i64::MIN <= self@ + delta <= i64::MAX,
            r matches Some(t) ==> t@ == self@ + delta,
    {
        let base: i128 = self.nanos as i128;
        if delta < i64::MIN as i128 - i64::MAX as i128 || delta > i64::MAX as i128 - i64::MIN as i128 {
            return None;
        }
        let sum: i128 = base + delta;
        if sum < i64::MIN as i128 || sum > i64::MAX as i128 {
            None
        } else {
            Some(Instant { nanos: sum as i64 })
        }
    }
}

} // verus!
