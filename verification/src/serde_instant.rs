//! A monotonic reading in portable form: nanoseconds since the Unix epoch,
//! carried as an unsigned integer or as eight little-endian bytes.
//!
//! A monotonic reading means nothing outside the process that took it. To
//! carry one across, it is turned into the wall-clock time at which it was
//! taken, judged from one sampling of both clocks; the receiver turns it back
//! with a sampling of its own. No offset between the clocks is kept: every
//! call is handed fresh samples, so decoding the same timestamp at two
//! moments gives two readings that differ by the drift between the clocks in
//! the meantime.

use vstd::bytes::*;
use vstd::prelude::*;

use crate::error::ArchiveError;
use crate::instant::Instant;
use crate::wall_time::WallTime;

verus! {

/// A wrapper for [`Instant`] that can be encoded and decoded.
///
/// Equality and order are those of the wrapped reading, never of a timestamp
/// made from it.
#[derive(Debug, Clone, Copy, PartialEq, Eq, PartialOrd, Ord, Structural)]
pub struct SerdeInstant {
    inner: Instant,
}

/// The fixed-layout form of a timestamp: exactly eight bytes, the timestamp
/// in little-endian order, without padding.
///
/// Every pattern of eight bytes is a timestamp, so the only thing to validate
/// in a buffer is its length. A value of this type is made from a buffer only
/// after that check.
#[derive(Debug, Clone, Copy, PartialEq, Eq, PartialOrd, Ord, Structural)]
pub struct ArchivedSerdeInstant {
    value: u64,
}

/// The wall-clock time, in nanoseconds since the epoch, at which `instant`
/// was taken, judged from the pair of readings `now` and `sys_now` that were
/// sampled together: as far before (or after) `sys_now` as `instant` lies
/// before (or after) `now`.
pub open spec fn wall_nanos_of(instant: Instant, now: Instant, sys_now: WallTime) -> int {
    sys_now.total_nanos() - (now@ - instant@)
}

/// The monotonic reading, in nanoseconds, that was taken at the wall-clock
/// time `wall_nanos`, judged from the pair of readings `now` and `sys_now`.
pub open spec fn instant_nanos_of(wall_nanos: int, now: Instant, sys_now: WallTime) -> int {
    now@ + (wall_nanos - sys_now.total_nanos())
}

/// Signed nanoseconds since the epoch as the unsigned timestamp that is sent:
/// the same sixty-four bits, so that times before the epoch take the upper
/// half of the range.
pub open spec fn timestamp_of_nanos(nanos: i64) -> u64 {
    if nanos >= 0 {
        nanos as u64
    } else {
        (nanos + 0x1_0000_0000_0000_0000) as u64
    }
}

/// The signed nanoseconds that a timestamp stands for.
pub open spec fn nanos_of_timestamp(timestamp: u64) -> i64 {
    if timestamp <= i64::MAX {
        timestamp as i64
    } else {
        (timestamp - 0x1_0000_0000_0000_0000) as i64
    }
}

/// What encoding `instant` yields under the samples `now` and `sys_now`: the
/// timestamp of its wall-clock time, or a range error where that time is not
/// an `i64` of nanoseconds.
pub open spec fn spec_serialize(instant: Instant, now: Instant, sys_now: WallTime) -> Result<
    u64,
    ArchiveError,
> {
    let wall = wall_nanos_of(instant, now, sys_now);
    if i64::MIN <= wall <= i64::MAX {
        Ok(timestamp_of_nanos(wall as i64))
    } else {
        Err(ArchiveError::EncodingRange)
    }
}

/// The nanoseconds of the reading that `timestamp` stands for under the
/// samples `now` and `sys_now`.
pub open spec fn spec_deserialize_nanos(timestamp: u64, now: Instant, sys_now: WallTime) -> int {
    instant_nanos_of(nanos_of_timestamp(timestamp) as int, now, sys_now)
}

/// What decoding `timestamp` yields under the samples `now` and `sys_now`:
/// the nanoseconds of the reading it stands for, or a range error where they
/// are not an `i64`.
pub open spec fn spec_deserialize(timestamp: u64, now: Instant, sys_now: WallTime) -> Result<
    int,
    ArchiveError,
> {
    let nanos = spec_deserialize_nanos(timestamp, now, sys_now);
    if i64::MIN <= nanos <= i64::MAX {
        Ok(nanos)
    } else {
        Err(ArchiveError::EncodingRange)
    }
}

/// What checking a buffer against the fixed layout yields: nothing to object
/// to where it has exactly eight bytes, a truncation error otherwise.
pub open spec fn spec_check_bytes(buf: Seq<u8>) -> Result<(), ArchiveError> {
    if buf.len() == 8 {
        Ok(())
    } else {
        Err(ArchiveError::TruncatedBuffer { expected: 8, found: buf.len() as usize })
    }
}

fn to_timestamp(nanos: i64) -> (timestamp: u64)
    ensures
        timestamp == timestamp_of_nanos(nanos),
{
    if nanos >= 0 {
        nanos as u64
    } else {
        (nanos as i128 + 0x1_0000_0000_0000_0000i128) as u64
    }
}

fn from_timestamp(timestamp: u64) -> (nanos: i64)
    ensures
        nanos == nanos_of_timestamp(timestamp),
{
    if timestamp <= 0x7fff_ffff_ffff_ffffu64 {
        timestamp as i64
    } else {
        (timestamp as i128 - 0x1_0000_0000_0000_0000i128) as i64
    }
}

impl View for SerdeInstant {
    type V = Instant;

    /// The wrapped reading.
    closed spec fn view(&self) -> Instant {
        self.inner
    }
}

impl core::ops::Deref for SerdeInstant {
    type Target = Instant;

    /// The wrapped reading.
    fn deref(&self) -> (inner: &Instant)
        ensures
            *inner == self@,
    {
        &self.inner
    }
}

impl From<Instant> for SerdeInstant {
    /// Wraps a reading.
    fn from(inner: Instant) -> (wrapped: Self) {
        Self { inner }
    }
}

impl vstd::std_specs::convert::FromSpecImpl<Instant> for SerdeInstant {
    open spec fn obeys_from_spec() -> bool {
        true
    }

    open spec fn from_spec(inner: Instant) -> Self {
        SerdeInstant::spec_new(inner)
    }
}

impl SerdeInstant {
    /// The wrapper of a reading.
    pub closed spec fn spec_new(inner: Instant) -> SerdeInstant {
        SerdeInstant { inner }
    }

    /// The wrapper of a reading is the one wrapper that views as it.
    pub proof fn lemma_spec_new(inner: Instant)
        ensures
            Self::spec_new(inner)@ == inner,
    {
    }

    /// Create a new SerdeInstant wrapping the given Instant.
    pub fn new(inner: Instant) -> (wrapped: Self)
        ensures
            wrapped@ == inner,
    {
        Self { inner }
    }

    /// Extract the inner Instant value.
    pub fn into_inner(self) -> (inner: Instant)
        ensures
            inner == self@,
    {
        self.inner
    }

    /// Two wrappers of the same reading are the same wrapper.
    pub proof fn lemma_view_injective(self, other: SerdeInstant)
        requires
            self@ == other@,
        ensures
            self == other,
    {
    }

    /// Encodes the reading as a timestamp: unsigned nanoseconds since the
    /// Unix epoch.
    ///
    /// `now` and `sys_now` are readings of the monotonic and of the wall
    /// clock that were sampled together, just before the call. The wall-clock
    /// time of the wrapped reading lies as far before `sys_now` as the
    /// reading lies before `now`, or as far after. Where that time is not an
    /// `i64` of nanoseconds the encoding fails with `EncodingRange`.
    ///
    /// Under the same two samples the timestamp stands for the wrapped
    /// reading again.
    pub fn serialize(&self, now: Instant, sys_now: WallTime) -> (r: Result<u64, ArchiveError>)
        ensures
            r == spec_serialize(self@, now, sys_now),
            r matches Ok(timestamp) ==> spec_deserialize(timestamp, now, sys_now) == Ok::<
                int,
                ArchiveError,
            >(self@@),
    {
        proof {
            if spec_serialize(self@, now, sys_now) is Ok {
                lemma_round_trip_drift(self@, now, sys_now, now, sys_now);
                self@.lemma_view_bounds();
            }
        }
        let system_time: Option<WallTime> = if now.is_at_or_after(&self.inner) {
            let d: u64 = now.abs_diff(&self.inner);
            sys_now.checked_sub_nanos(d)
        } else {
            let d: u64 = self.inner.abs_diff(&now);
            sys_now.checked_add_nanos(d)
        };
        match system_time {
            None => Err(ArchiveError::EncodingRange),
            Some(wall) => match wall.unix_nanos() {
                None => Err(ArchiveError::EncodingRange),
                Some(nanos) => Ok(to_timestamp(nanos)),
            },
        }
    }

    /// Decodes a timestamp into a reading of this process's monotonic clock.
    ///
    /// `now` and `sys_now` are readings of the monotonic and of the wall
    /// clock that were sampled together, just before the call. The reading
    /// lies as far after `now` as the timestamp lies after `sys_now`, or as
    /// far before. Where no reading is that far from `now` the decoding fails
    /// with `EncodingRange`.
    pub fn deserialize(value: u64, now: Instant, sys_now: WallTime) -> (r: Result<
        SerdeInstant,
        ArchiveError,
    >)
        ensures
            match spec_deserialize(value, now, sys_now) {
                Ok(nanos) => r matches Ok(decoded) && decoded@@ == nanos,
                Err(e) => r == Err::<SerdeInstant, ArchiveError>(e),
            },
    {
        let system_time: WallTime = WallTime::from_unix_nanos(from_timestamp(value));
        let offset: i128 = system_time.signed_nanos_since(&sys_now);
        match now.checked_add_signed(offset) {
            Some(instant) => Ok(SerdeInstant { inner: instant }),
            None => Err(ArchiveError::EncodingRange),
        }
    }

    /// Puts a timestamp, as [`SerdeInstant::serialize`] made it, in the fixed
    /// layout.
    pub fn resolve(&self, resolver: u64) -> (archived: ArchivedSerdeInstant)
        ensures
            archived.spec_native() == resolver,
    {
        ArchivedSerdeInstant::from_native(resolver)
    }

    /// Encodes the reading in the fixed layout: the timestamp that
    /// [`SerdeInstant::serialize`] gives under the same samples, as eight
    /// bytes.
    pub fn archive(&self, now: Instant, sys_now: WallTime) -> (r: Result<
        ArchivedSerdeInstant,
        ArchiveError,
    >)
        ensures
            match spec_serialize(self@, now, sys_now) {
                Ok(timestamp) => r matches Ok(archived) && archived.spec_native() == timestamp,
                Err(e) => r == Err::<ArchivedSerdeInstant, ArchiveError>(e),
            },
    {
        match self.serialize(now, sys_now) {
            Ok(timestamp) => Ok(self.resolve(timestamp)),
            Err(e) => Err(e),
        }
    }
}

impl View for ArchivedSerdeInstant {
    type V = Seq<u8>;

    /// The eight bytes of the layout: the timestamp, lowest byte first.
    open spec fn view(&self) -> Seq<u8> {
        spec_u64_to_le_bytes(self.spec_native())
    }
}

impl ArchivedSerdeInstant {
    /// Width in bytes of the fixed layout.
    pub const ARCHIVED_LEN: usize = 8;

    /// The timestamp that the eight bytes hold.
    pub closed spec fn spec_native(self) -> u64 {
        self.value
    }

    /// The layout has eight bytes, and they read as the timestamp.
    pub proof fn lemma_layout(self)
        ensures
            self@.len() == 8,
            spec_u64_from_le_bytes(self@) == self.spec_native(),
    {
        lemma_auto_spec_u64_to_from_le_bytes();
    }

    /// Two archived timestamps with the same bytes are the same.
    pub proof fn lemma_view_injective(self, other: ArchivedSerdeInstant)
        requires
            self@ == other@,
        ensures
            self == other,
    {
        lemma_auto_spec_u64_to_from_le_bytes();
        assert(spec_u64_from_le_bytes(self@) == self.value);
        assert(spec_u64_from_le_bytes(other@) == other.value);
    }

    /// Checks a buffer against the fixed layout without reading any byte of
    /// it: the layout asks for exactly eight bytes and for nothing else.
    pub fn check_bytes(buf: &[u8]) -> (r: Result<(), ArchiveError>)
        ensures
            r == spec_check_bytes(buf@),
            r is Ok <==> buf@.len() == 8,
    {
        let found: usize = buf.len();
        if found == Self::ARCHIVED_LEN {
            Ok(())
        } else {
            Err(ArchiveError::TruncatedBuffer { expected: Self::ARCHIVED_LEN, found })
        }
    }

    /// Reads an archived timestamp from a buffer. The buffer is validated
    /// first; a buffer of eight bytes is never refused.
    pub fn from_bytes(buf: &[u8]) -> (r: Result<ArchivedSerdeInstant, ArchiveError>)
        ensures
            match spec_check_bytes(buf@) {
                Ok(_) => r matches Ok(archived) && archived@ == buf@,
                Err(e) => r == Err::<ArchivedSerdeInstant, ArchiveError>(e),
            },
    {
        match Self::check_bytes(buf) {
            Err(e) => Err(e),
            Ok(_) => {
                let value: u64 = u64_from_le_bytes(buf);
                proof {
                    lemma_auto_spec_u64_to_from_le_bytes();
                }
                Ok(ArchivedSerdeInstant { value })
            },
        }
    }

    /// The eight bytes of the layout.
    pub fn to_bytes(&self) -> (bytes: Vec<u8>)
        ensures
            bytes@ == self@,
            bytes@.len() == 8,
            spec_check_bytes(bytes@) is Ok,
            spec_u64_from_le_bytes(bytes@) == self.spec_native(),
    {
        proof {
            self.lemma_layout();
        }
        u64_to_le_bytes(self.value)
    }

    /// The archived form of a timestamp.
    pub fn from_native(value: u64) -> (archived: ArchivedSerdeInstant)
        ensures
            archived.spec_native() == value,
            archived@ == spec_u64_to_le_bytes(value),
    {
        ArchivedSerdeInstant { value }
    }

    /// The timestamp that the archived form holds.
    pub fn to_native(&self) -> (value: u64)
        ensures
            value == self.spec_native(),
    {
        self.value
    }

    /// Decodes the archived timestamp into a reading of this process's
    /// monotonic clock, as [`SerdeInstant::deserialize`] does with the
    /// timestamp that the bytes hold.
    pub fn deserialize(&self, now: Instant, sys_now: WallTime) -> (r: Result<
        SerdeInstant,
        ArchiveError,
    >)
        ensures
            match spec_deserialize(self.spec_native(), now, sys_now) {
                Ok(nanos) => r matches Ok(decoded) && decoded@@ == nanos,
                Err(e) => r == Err::<SerdeInstant, ArchiveError>(e),
            },
    {
        SerdeInstant::deserialize(self.value, now, sys_now)
    }
}

/// A timestamp stands for the signed nanoseconds it was made from.
pub proof fn lemma_nanos_of_timestamp_of_nanos(nanos: i64)
    ensures
        nanos_of_timestamp(timestamp_of_nanos(nanos)) == nanos,
{
}

/// A timestamp is made again from the signed nanoseconds it stands for.
pub proof fn lemma_timestamp_of_nanos_of_timestamp(timestamp: u64)
    ensures
        timestamp_of_nanos(nanos_of_timestamp(timestamp)) == timestamp,
{
}

/// Encoding a reading and decoding the timestamp gives the reading back, off
/// by the drift between the two clocks from the first sampling to the second:
/// by how much more the monotonic clock advanced than the wall clock did.
/// With clocks that advance alike the reading comes back unchanged.
pub proof fn lemma_round_trip_drift(
    instant: Instant,
    now1: Instant,
    sys1: WallTime,
    now2: Instant,
    sys2: WallTime,
)
    requires
        spec_serialize(instant, now1, sys1) is Ok,
    ensures
        spec_deserialize_nanos(spec_serialize(instant, now1, sys1)->Ok_0, now2, sys2) == instant@
            + ((now2@ - now1@) - (sys2.total_nanos() - sys1.total_nanos())),
{
    lemma_nanos_of_timestamp_of_nanos(wall_nanos_of(instant, now1, sys1) as i64);
}

/// Where the two clocks drift apart by no more than `jitter` nanoseconds
/// between the sampling for the encoding and the one for the decoding, the
/// decoded reading lies within `jitter` nanoseconds of the encoded one.
pub proof fn lemma_round_trip_within_jitter(
    instant: Instant,
    now1: Instant,
    sys1: WallTime,
    now2: Instant,
    sys2: WallTime,
    jitter: int,
)
    requires
        spec_serialize(instant, now1, sys1) is Ok,
        -jitter <= (now2@ - now1@) - (sys2.total_nanos() - sys1.total_nanos()) <= jitter,
    ensures
        -jitter <= spec_deserialize_nanos(spec_serialize(instant, now1, sys1)->Ok_0, now2, sys2)
            - instant@ <= jitter,
{
    lemma_round_trip_drift(instant, now1, sys1, now2, sys2);
}

/// Two decodings of one timestamp differ by the drift between the two clocks
/// from the first sampling to the second: by how much more the monotonic
/// clock advanced than the wall clock did.
pub proof fn lemma_deserialize_twice(
    timestamp: u64,
    now1: Instant,
    sys1: WallTime,
    now2: Instant,
    sys2: WallTime,
)
    ensures
        spec_deserialize_nanos(timestamp, now2, sys2) - spec_deserialize_nanos(
            timestamp,
            now1,
            sys1,
        ) == (now2@ - now1@) - (sys2.total_nanos() - sys1.total_nanos()),
{
}

/// Two encodings of one reading differ, as nanoseconds since the epoch, by
/// the drift between the two clocks from the first sampling to the second:
/// by how much more the wall clock advanced than the monotonic clock did.
pub proof fn lemma_serialize_twice(
    instant: Instant,
    now1: Instant,
    sys1: WallTime,
    now2: Instant,
    sys2: WallTime,
)
    requires
        spec_serialize(instant, now1, sys1) is Ok,
        spec_serialize(instant, now2, sys2) is Ok,
    ensures
        nanos_of_timestamp(spec_serialize(instant, now2, sys2)->Ok_0) - nanos_of_timestamp(
            spec_serialize(instant, now1, sys1)->Ok_0,
        ) == (sys2.total_nanos() - sys1.total_nanos()) - (now2@ - now1@),
{
    lemma_nanos_of_timestamp_of_nanos(wall_nanos_of(instant, now1, sys1) as i64);
    lemma_nanos_of_timestamp_of_nanos(wall_nanos_of(instant, now2, sys2) as i64);
}

/// Where the two clocks drift apart by no more than `jitter` nanoseconds
/// between two encodings of one reading, the two timestamps differ by no more
/// than `jitter` nanoseconds.
pub proof fn lemma_serialize_twice_within_jitter(
    instant: Instant,
    now1: Instant,
    sys1: WallTime,
    now2: Instant,
    sys2: WallTime,
    jitter: int,
)
    requires
        spec_serialize(instant, now1, sys1) is Ok,
        spec_serialize(instant, now2, sys2) is Ok,
        -jitter <= (sys2.total_nanos() - sys1.total_nanos()) - (now2@ - now1@) <= jitter,
    ensures
        -jitter <= nanos_of_timestamp(spec_serialize(instant, now2, sys2)->Ok_0)
            - nanos_of_timestamp(spec_serialize(instant, now1, sys1)->Ok_0) <= jitter,
{
    lemma_serialize_twice(instant, now1, sys1, now2, sys2);
}

/// The eight bytes of any timestamp pass the check of the fixed layout and
/// read as that timestamp again.
pub proof fn lemma_archived_round_trip(timestamp: u64)
    ensures
        spec_check_bytes(spec_u64_to_le_bytes(timestamp)) is Ok,
        spec_u64_from_le_bytes(spec_u64_to_le_bytes(timestamp)) == timestamp,
{
    lemma_auto_spec_u64_to_from_le_bytes();
}

/// The round trip through the fixed layout is that of the timestamp: a
/// reading that is encoded, put into eight bytes, read from them and decoded
/// comes back off by the drift between the two clocks and by nothing else.
pub proof fn lemma_archived_round_trip_drift(
    instant: Instant,
    now1: Instant,
    sys1: WallTime,
    now2: Instant,
    sys2: WallTime,
)
    requires
        spec_serialize(instant, now1, sys1) is Ok,
    ensures
        ({
            let bytes = spec_u64_to_le_bytes(spec_serialize(instant, now1, sys1)->Ok_0);
            &&& spec_check_bytes(bytes) is Ok
            &&& spec_deserialize_nanos(spec_u64_from_le_bytes(bytes), now2, sys2) == instant@ + ((
            now2@ - now1@) - (sys2.total_nanos() - sys1.total_nanos()))
        }),
{
    lemma_archived_round_trip(spec_serialize(instant, now1, sys1)->Ok_0);
    lemma_round_trip_drift(instant, now1, sys1, now2, sys2);
}

} // verus!
