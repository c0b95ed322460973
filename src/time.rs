//! Timestamps: points in time of one monotonic clock, at microsecond resolution.
use vstd::prelude::*;
use core::time::Duration;
use vstd::std_specs::ops::{AddSpec, SubSpec};

verus! {

/// The length of a `Duration`, in nanoseconds.
pub uninterp spec fn duration_nanos(d: Duration) -> nat;

/// Relies on `Duration::as_nanos`: the total number of nanoseconds.
#[verifier::external_body]
fn nanos_of(d: &Duration) -> (r: u128)
    ensures
        r == duration_nanos(*d),
{
    d.as_nanos()
}

/// Relies on `Duration::from_micros`: a duration of the given microseconds.
#[verifier::external_body]
fn duration_from_micros(micros: u64) -> (r: Duration)
    ensures
        duration_nanos(r) == micros * 1000,
{
    Duration::from_micros(micros)
}

/// Whole microseconds in `nanos` nanoseconds, as a clock reading: a
/// reading of zero is taken as one microsecond after the epoch.
pub open spec fn micros_reading(nanos: int) -> int {
    if nanos / 1000 == 0 {
        1
    } else {
        nanos / 1000
    }
}

/// An absolute point in time.
///
/// The absolute value of a `Timestamp` is opaque and not related to any
/// calendar time; only timestamps of the same clock may be compared. It is
/// held as a strictly positive number of microseconds since the clock's epoch.
#[derive(PartialEq, Eq, Structural, PartialOrd, Ord, Debug, Copy, Clone, Hash)]
pub struct Timestamp {
    micros: u64,
}

impl Timestamp {
    /// Microseconds since the clock's epoch.
    pub closed spec fn micros(self) -> int {
        self.micros as int
    }

    /// The timestamp `m` microseconds after the epoch.
    pub closed spec fn at_micros(m: int) -> Timestamp {
        Timestamp { micros: m as u64 }
    }

    pub proof fn lemma_at_micros(m: int)
        requires
            1 <= m <= u64::MAX,
        ensures
            Timestamp::at_micros(m).micros() == m,
    {
    }

    #[verifier::type_invariant]
    pub closed spec fn inv(self) -> bool {
        self.micros > 0
    }

    /// Makes a `Timestamp` from a `Duration` since the clock's epoch. The
    /// duration is cut to whole microseconds, and zero becomes one
    /// microsecond.
    pub fn from_duration_impl(duration: Duration) -> (r: Self)
        requires
            duration_nanos(duration) / 1000 <= u64::MAX,
        ensures
            r.micros() == micros_reading(duration_nanos(duration) as int),
    {
        let micros = (nanos_of(&duration) / 1000) as u64;
        // if the value is 0 then round up to 1us after the epoch
        let micros: u64 = if micros == 0 { 1 } else { micros };
        Timestamp { micros }
    }

    /// Makes a `Timestamp` from a `Duration` since the clock's epoch; meant
    /// for time sources only.
    pub fn from_duration(duration: Duration) -> (r: Self)
        requires
            duration_nanos(duration) / 1000 <= u64::MAX,
        ensures
            r.micros() == micros_reading(duration_nanos(duration) as int),
    {
        Self::from_duration_impl(duration)
    }

    /// The `Duration` since the clock's epoch.
    pub fn as_duration_impl(self) -> (r: Duration)
        ensures
            duration_nanos(r) == self.micros() * 1000,
    {
        duration_from_micros(self.micros)
    }

    /// The `Duration` since the clock's epoch; meant for time sources only.
    pub fn as_duration(self) -> (r: Duration)
        ensures
            duration_nanos(r) == self.micros() * 1000,
    {
        self.as_duration_impl()
    }

    /// The timestamp `duration` later, or `None` where it lies beyond the
    /// range of `Timestamp`.
    pub fn checked_add(self, duration: Duration) -> (r: Option<Self>)
        ensures
            r.is_none() <==> self.micros() + duration_nanos(duration) / 1000 > u64::MAX,
            r.is_some() ==> r.unwrap().micros() == self.micros() + duration_nanos(duration) / 1000,
    {
        proof { use_type_invariant(self); }
        let add = nanos_of(&duration) / 1000;
        if add > (u64::MAX - self.micros) as u128 {
            None
        } else {
            Some(Timestamp { micros: self.micros + add as u64 })
        }
    }

    /// The timestamp `duration` earlier, or `None` where it lies before the
    /// clock's epoch. A result at the epoch itself becomes one microsecond.
    pub fn checked_sub(self, duration: Duration) -> (r: Option<Self>)
        ensures
            r.is_none() <==> duration_nanos(duration) > self.micros() * 1000,
            r.is_some() ==> r.unwrap().micros() == micros_reading(
                self.micros() * 1000 - duration_nanos(duration),
            ),
    {
        let nanos = nanos_of(&duration);
        let own = self.micros as u128 * 1000;
        if nanos > own {
            None
        } else {
            let micros = ((own - nanos) / 1000) as u64;
            let micros: u64 = if micros == 0 { 1 } else { micros };
            Some(Timestamp { micros })
        }
    }

    /// The `Duration` elapsed since `earlier`, or zero where `earlier` is
    /// the later of the two.
    pub fn saturating_duration_since(self, earlier: Self) -> (r: Duration)
        ensures
            duration_nanos(r) == if earlier.micros() > self.micros() {
                0
            } else {
                (self.micros() - earlier.micros()) * 1000
            },
    {
        if earlier.micros > self.micros {
            duration_from_micros(0)
        } else {
            self.duration_since(earlier)
        }
    }

    /// The `Duration` elapsed since `earlier`, which is not later than `self`.
    pub fn duration_since(self, earlier: Self) -> (r: Duration)
        requires
            earlier.micros() <= self.micros(),
        ensures
            duration_nanos(r) == (self.micros() - earlier.micros()) * 1000,
    {
        duration_from_micros(self.micros - earlier.micros)
    }

    /// Microseconds since the clock's epoch; never zero.
    pub fn as_micros(self) -> (r: u64)
        ensures
            r == self.micros(),
            r >= 1,
    {
        proof { use_type_invariant(self); }
        self.micros
    }

    /// Makes a `Timestamp` from a `Duration` since the clock's epoch, as
    /// [`Timestamp::from_duration`] does, or `None` where the duration's
    /// whole microseconds exceed the range of `Timestamp`.
    pub fn try_from_duration(duration: Duration) -> (r: Option<Self>)
        ensures
            r.is_none() <==> duration_nanos(duration) / 1000 > u64::MAX,
            r.is_some() ==> r.unwrap().micros() == micros_reading(duration_nanos(duration) as int),
    {
        if nanos_of(&duration) / 1000 > u64::MAX as u128 {
            None
        } else {
            Some(Self::from_duration_impl(duration))
        }
    }
}

/// Adding a whole number of microseconds to a timestamp and subtracting it
/// again gives the timestamp back, wherever the sum stays in range.
pub proof fn lemma_add_then_sub(t: Timestamp, d: Duration)
    requires
        1 <= t.micros(),
        t.micros() + duration_nanos(d) / 1000 <= u64::MAX,
        duration_nanos(d) % 1000 == 0,
    ensures
        t.add_req(d),
        t.add_spec(d).sub_req(d),
        t.add_spec(d).sub_spec(d) == t,
{
    let m = t.micros() + duration_nanos(d) / 1000;
    Timestamp::lemma_at_micros(m);
    assert(m * 1000 - duration_nanos(d) == t.micros() * 1000);
    assert((t.micros() * 1000) / 1000 == t.micros());
    Timestamp::lemma_at_micros(t.micros());
}

impl core::ops::Add<Duration> for Timestamp {
    type Output = Timestamp;

    fn add(self, rhs: Duration) -> (r: Timestamp) {
        self.checked_add(rhs).unwrap()
    }
}

impl vstd::std_specs::ops::AddSpecImpl<Duration> for Timestamp {
    open spec fn obeys_add_spec() -> bool {
        true
    }

    open spec fn add_req(self, rhs: Duration) -> bool {
        self.micros() + duration_nanos(rhs) / 1000 <= u64::MAX
    }

    open spec fn add_spec(self, rhs: Duration) -> Timestamp {
        Timestamp::at_micros(self.micros() + duration_nanos(rhs) / 1000)
    }
}

impl core::ops::Sub<Duration> for Timestamp {
    type Output = Timestamp;

    fn sub(self, rhs: Duration) -> (r: Timestamp) {
        self.checked_sub(rhs).unwrap()
    }
}

impl vstd::std_specs::ops::SubSpecImpl<Duration> for Timestamp {
    open spec fn obeys_sub_spec() -> bool {
        true
    }

    open spec fn sub_req(self, rhs: Duration) -> bool {
        duration_nanos(rhs) <= self.micros() * 1000
    }

    open spec fn sub_spec(self, rhs: Duration) -> Timestamp {
        Timestamp::at_micros(micros_reading(self.micros() * 1000 - duration_nanos(rhs)))
    }
}

impl core::ops::Sub<Timestamp> for Timestamp {
    type Output = Duration;

    /// The `Duration` from `rhs` to `self`.
    fn sub(self, rhs: Timestamp) -> (r: Duration) {
        self.duration_since(rhs)
    }
}

impl vstd::std_specs::ops::SubSpecImpl<Timestamp> for Timestamp {
    open spec fn obeys_sub_spec() -> bool {
        false
    }

    open spec fn sub_req(self, rhs: Timestamp) -> bool {
        rhs.micros() <= self.micros()
    }

    open spec fn sub_spec(self, rhs: Timestamp) -> Duration {
        arbitrary()
    }
}

impl core::ops::AddAssign<Duration> for Timestamp {
    /// Moves the timestamp `other` later; past the end of the range of
    /// `Timestamp` it stops at the end.
    fn add_assign(&mut self, other: Duration)
        ensures
            final(self).micros() == if old(self).micros() + duration_nanos(other) / 1000 > u64::MAX {
                u64::MAX as int
            } else {
                old(self).micros() + duration_nanos(other) / 1000
            },
    {
        *self = match self.checked_add(other) {
            Some(t) => t,
            None => Timestamp { micros: u64::MAX },
        };
    }
}

impl core::ops::SubAssign<Duration> for Timestamp {
    /// Moves the timestamp `other` earlier; before the epoch it stops one
    /// microsecond after it.
    fn sub_assign(&mut self, other: Duration)
        ensures
            final(self).micros() == if duration_nanos(other) > old(self).micros() * 1000 {
                1
            } else {
                micros_reading(old(self).micros() * 1000 - duration_nanos(other))
            },
    {
        *self = match self.checked_sub(other) {
            Some(t) => t,
            None => Timestamp { micros: 1 },
        };
    }
}

} // verus!
