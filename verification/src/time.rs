//! The conversion of points in time.
//!
//! A point in time crosses the boundary as its distance from the Unix
//! epoch: a signed 64-bit number of whole seconds, negative before the
//! epoch, and an unsigned 32-bit number of nanoseconds on top of them, away
//! from the epoch.

use crate::buffer::RustBuffer;
use crate::converter::{check_consumed, whole, FfiConverter};
use crate::error::DecodeError;
use crate::wire::{lemma_be_bytes_len, to_unsigned};
use std::time::{Duration, SystemTime};
use vstd::prelude::*;

verus! {

/// `std::time::SystemTime`: a reading of the system clock. How far it lies
/// from the epoch is known here by [`epoch_distance_of`] alone.
#[verifier::external_type_specification]
#[verifier::external_body]
pub struct ExSystemTime(SystemTime);

/// How far from the Unix epoch a time of the system clock lies: whether
/// at or after the epoch, and the whole seconds and the nanoseconds on top
/// of them that `SystemTime::duration_since` counts between the two.
pub uninterp spec fn epoch_distance_of(time: SystemTime) -> (bool, u64, u32);

/// `SystemTime::duration_since` with `SystemTime::UNIX_EPOCH` as the
/// earlier time. For a time at or after the epoch it gives the `Duration`
/// between the two, for a time before it an error that holds that
/// `Duration`. Of the `Duration`, `as_secs` gives the whole seconds and
/// `subsec_nanos` the rest, which is less than a billion. All of it depends
/// on the time alone.
#[verifier::external_body]
fn distance_from_epoch(time: &SystemTime) -> (r: (bool, u64, u32))
    ensures
        r == epoch_distance_of(*time),
        r.2 < 1_000_000_000,
{
    match time.duration_since(SystemTime::UNIX_EPOCH) {
        Ok(after) => (true, after.as_secs(), after.subsec_nanos()),
        Err(error) => (false, error.duration().as_secs(), error.duration().subsec_nanos()),
    }
}

/// `SystemTime::checked_add`: the time that long after, where the platform
/// can hold it.
pub assume_specification[ SystemTime::checked_add ](time: &SystemTime, duration: Duration) -> Option<
    SystemTime,
>;

/// `SystemTime::checked_sub`: the time that long before, where the platform
/// can hold it.
pub assume_specification[ SystemTime::checked_sub ](time: &SystemTime, duration: Duration) -> Option<
    SystemTime,
>;

/// `Duration::new`, which panics when the whole seconds in `nanos` carry
/// `secs` over the top; with a billion nanoseconds and more kept out, none
/// do.
pub assume_specification[ Duration::new ](secs: u64, nanos: u32) -> Duration
    requires
        nanos < 1_000_000_000,
;

/// `SystemTime::UNIX_EPOCH`.
#[verifier::external_body]
fn unix_epoch() -> SystemTime {
    SystemTime::UNIX_EPOCH
}

/// A point in time as it is on the wire.
///
/// With `seconds` at zero or above the point lies `seconds` seconds and
/// `nanos` nanoseconds after the epoch, with `seconds` below zero as many
/// seconds and `nanos` nanoseconds before it. The sign is that of
/// `seconds` alone, so a point less than one second before the epoch has
/// no form of its own: it is written like the point that far after.
#[derive(Debug, Clone, Copy, PartialEq, Eq, Structural)]
pub struct Timestamp {
    pub seconds: i64,
    pub nanos: u32,
}

impl DeepView for Timestamp {
    type V = Timestamp;

    open spec fn deep_view(&self) -> Timestamp {
        *self
    }
}

/// The wire form of the point that lies `secs` seconds and `nanos`
/// nanoseconds from the epoch, after it or before it; none where the
/// seconds do not fit 63 bits.
pub open spec fn wire_form(after: bool, secs: u64, nanos: u32) -> Option<Timestamp> {
    if secs > i64::MAX {
        None
    } else if after {
        Some(Timestamp { seconds: secs as i64, nanos })
    } else {
        Some(Timestamp { seconds: (-(secs as int)) as i64, nanos })
    }
}

/// Where a wire form lies: whether after the epoch, and how many seconds
/// and nanoseconds from it; nowhere with a second of nanoseconds or more.
pub open spec fn distance_of(t: Timestamp) -> Option<(bool, u64, u32)> {
    if t.nanos >= 1_000_000_000 {
        None
    } else if t.seconds >= 0 {
        Some((true, t.seconds as u64, t.nanos))
    } else {
        Some((false, (-(t.seconds as int)) as u64, t.nanos))
    }
}

/// A wire form lies as far from the epoch as the point that it was made
/// for, and on the same side of it, but for a point less than a second
/// before the epoch, whose wire form lies after it.
pub proof fn wire_form_keeps_distance(after: bool, secs: u64, nanos: u32)
    requires
        secs <= i64::MAX,
        nanos < 1_000_000_000,
    ensures
        wire_form(after, secs, nanos) matches Some(t) && distance_of(t) == Some(
            (after || secs == 0, secs, nanos),
        ),
{
}

impl Timestamp {
    /// The wire form of the point that lies `secs` seconds and `nanos`
    /// nanoseconds after the epoch, or as far before it.
    pub fn from_epoch_distance(after: bool, secs: u64, nanos: u32) -> (r: Option<Timestamp>)
        ensures
            r == wire_form(after, secs, nanos),
    {
        if secs > 0x7fff_ffff_ffff_ffff {
            None
        } else if after {
            Some(Timestamp { seconds: secs as i64, nanos })
        } else {
            Some(Timestamp { seconds: -(secs as i64), nanos })
        }
    }

    /// Whether the point lies after the epoch, and how many seconds and
    /// nanoseconds from it.
    pub fn epoch_distance(&self) -> (r: Option<(bool, u64, u32)>)
        ensures
            r == distance_of(*self),
    {
        if self.nanos >= 1_000_000_000 {
            None
        } else if self.seconds >= 0 {
            Some((true, self.seconds as u64, self.nanos))
        } else {
            Some((false, (-(self.seconds as i128)) as u64, self.nanos))
        }
    }

    /// The wire form of a time of the system clock: that of its distance
    /// from the epoch, where the seconds of that distance fit 63 bits.
    pub fn from_system_time(time: SystemTime) -> (r: Option<Timestamp>)
        ensures
            r == wire_form(
                epoch_distance_of(time).0,
                epoch_distance_of(time).1,
                epoch_distance_of(time).2,
            ),
            r matches Some(t) ==> t.nanos < 1_000_000_000,
    {
        let (after, secs, nanos) = distance_from_epoch(&time);
        Timestamp::from_epoch_distance(after, secs, nanos)
    }

    /// The time of the system clock that the wire form stands for, where
    /// its nanoseconds are less than a second and the platform can hold the
    /// time. The distance that is handed to the clock is what
    /// [`Timestamp::epoch_distance`] gives. The clock keeps it only as
    /// finely as the platform counts time, so nothing is said here of where
    /// the time that comes out lies.
    pub fn to_system_time(&self) -> (r: Option<SystemTime>)
        ensures
            self.nanos >= 1_000_000_000 ==> r is None,
    {
        match self.epoch_distance() {
            Some((after, secs, nanos)) => {
                let epoch = unix_epoch();
                if after {
                    epoch.checked_add(Duration::new(secs, nanos))
                } else {
                    epoch.checked_sub(Duration::new(secs, nanos))
                }
            },
            None => None,
        }
    }
}

/// The bytes of a point in time: its seconds, then its nanoseconds.
pub open spec fn written_timestamp<UT>(t: Timestamp) -> Seq<u8> {
    <i64 as FfiConverter<UT>>::written(t.seconds) + <u32 as FfiConverter<UT>>::written(t.nanos)
}

/// The nanoseconds that follow `n` bytes of seconds.
pub open spec fn read_nanos<UT>(bytes: Seq<u8>, seconds: i64, n: int) -> Result<
    (Timestamp, int),
    DecodeError,
> {
    match <u32 as FfiConverter<UT>>::read(bytes.skip(n)) {
        Ok((nanos, m)) => Ok((Timestamp { seconds, nanos }, n + m)),
        Err(e) => Err(e),
    }
}

impl<UT> FfiConverter<UT> for Timestamp {
    type FfiType = RustBuffer;

    open spec fn writable(v: Timestamp) -> bool {
        true
    }

    open spec fn lowerable(v: Timestamp) -> bool {
        true
    }

    open spec fn lowered(v: Timestamp) -> Seq<u8> {
        written_timestamp::<UT>(v)
    }

    open spec fn lifted(r: Seq<u8>) -> Result<Timestamp, DecodeError> {
        whole(<Timestamp as FfiConverter<UT>>::read(r), r.len())
    }

    open spec fn written(v: Timestamp) -> Seq<u8> {
        written_timestamp::<UT>(v)
    }

    open spec fn read(bytes: Seq<u8>) -> Result<(Timestamp, int), DecodeError> {
        match <i64 as FfiConverter<UT>>::read(bytes) {
            Ok((seconds, n)) => read_nanos::<UT>(bytes, seconds, n),
            Err(e) => Err(e),
        }
    }

    proof fn lift_inverts_lower(v: Timestamp) {
        <Timestamp as FfiConverter<UT>>::read_inverts_write(v, Seq::empty());
    }

    proof fn read_inverts_write(v: Timestamp, rest: Seq<u8>) {
        let seconds = <i64 as FfiConverter<UT>>::written(v.seconds);
        let nanos = <u32 as FfiConverter<UT>>::written(v.nanos);
        <i64 as FfiConverter<UT>>::read_inverts_write(v.seconds, nanos + rest);
        assert(seconds + (nanos + rest) == (seconds + nanos) + rest);
        assert((seconds + nanos + rest).skip(seconds.len() as int) == nanos + rest);
        <u32 as FfiConverter<UT>>::read_inverts_write(v.nanos, rest);
    }

    proof fn read_stays_in_bounds(bytes: Seq<u8>) {
    }

    fn encoded_len(obj: &Timestamp) -> Option<usize> {
        proof {
            lemma_be_bytes_len(to_unsigned(obj.seconds as int, 8), 8);
            lemma_be_bytes_len(obj.nanos as nat, 4);
        }
        Some(12)
    }

    fn can_lower(obj: &Timestamp) -> bool {
        true
    }

    fn lower(obj: Timestamp) -> RustBuffer {
        proof {
            lemma_be_bytes_len(to_unsigned(obj.seconds as int, 8), 8);
            lemma_be_bytes_len(obj.nanos as nat, 4);
        }
        let mut buf: Vec<u8> = Vec::new();
        <Timestamp as FfiConverter<UT>>::write(obj, &mut buf);
        RustBuffer::from_vec(buf)
    }

    fn try_lift(v: RustBuffer) -> Result<Timestamp, DecodeError> {
        let vec = v.destroy_into_vec();
        let mut buf = vec.as_slice();
        let value = <Timestamp as FfiConverter<UT>>::try_read(&mut buf)?;
        check_consumed(buf)?;
        Ok(value)
    }

    fn write(obj: Timestamp, buf: &mut Vec<u8>) {
        <i64 as FfiConverter<UT>>::write(obj.seconds, buf);
        <u32 as FfiConverter<UT>>::write(obj.nanos, buf);
    }

    fn try_read(buf: &mut &[u8]) -> Result<Timestamp, DecodeError> {
        let mut ahead: &[u8] = *buf;
        let seconds = <i64 as FfiConverter<UT>>::try_read(&mut ahead)?;
        let nanos = <u32 as FfiConverter<UT>>::try_read(&mut ahead)?;
        *buf = ahead;
        Ok(Timestamp { seconds, nanos })
    }
}

} // verus!
