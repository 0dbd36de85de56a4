//! Dual timestamps: a monotonic counter used for every ordering decision and a
//! wall-clock reading kept for log correlation.

use std::time::{Duration, Instant, SystemTime, UNIX_EPOCH};
use vstd::prelude::*;

verus! {

/// A dual timestamp: monotonic for ordering, wall-clock for log correlation.
/// All ordering decisions use `monotonic_ns`.
#[derive(Debug, Clone, Copy, PartialEq, Eq, Ord, Structural)]
pub struct Timestamp {
    /// Monotonic nanoseconds since the origin of the monotonic clock it was read
    /// from (process start for a process-wide clock). Never goes backward.
    pub monotonic_ns: u64,
    /// Wall-clock nanoseconds since the Unix epoch. For log correlation only.
    pub wall_clock_ns: i64,
}

/// Declares `std::time::SystemTime` to the verifier as an opaque type.
#[verifier::external_type_specification]
#[verifier::external_body]
pub struct ExSystemTime(SystemTime);

/// Reads the system wall clock through `SystemTime::now`. What comes back
/// depends on the machine's clock, so nothing is stated of it.
#[verifier::external_body]
fn read_system_time() -> SystemTime {
    SystemTime::now()
}

/// `SystemTime::duration_since(UNIX_EPOCH)`: the time elapsed since the Unix
/// epoch, or `None` where the clock reads earlier than the epoch. The elapsed
/// amount depends on the clock reading, which is opaque here; nothing more is stated.
#[verifier::external_body]
fn elapsed_since_unix_epoch(t: &SystemTime) -> Option<Duration> {
    t.duration_since(UNIX_EPOCH).ok()
}

/// `Duration::as_nanos`: the whole number of nanoseconds in `d`. A `Duration`
/// is opaque here, so nothing is stated of the count.
#[verifier::external_body]
fn duration_as_nanos(d: &Duration) -> u128 {
    d.as_nanos()
}

/// Declares `std::time::Instant` to the verifier as an opaque type.
#[verifier::external_type_specification]
#[verifier::external_body]
pub struct ExInstant(Instant);

/// Reads the monotonic clock through `Instant::now`. What comes back depends on
/// the machine's clock, so nothing is stated of it.
#[verifier::external_body]
fn read_instant() -> Instant {
    Instant::now()
}

/// `Instant::elapsed`: the time the monotonic clock has run since `origin`
/// (zero if the clock reads earlier). It depends on the clock, so nothing is
/// stated of it.
#[verifier::external_body]
fn instant_elapsed(origin: &Instant) -> Duration {
    origin.elapsed()
}

/// A monotonic clock: nanoseconds counted from the instant it was started.
/// It keeps its last reading, and no reading is ever smaller than the one
/// before it. Its measurements of the time run since its start are kept, in
/// order, as a ghost history.
pub struct MonotonicClock {
    origin: Instant,
    last_ns: u64,
    history: Ghost<Seq<u128>>,
}

impl MonotonicClock {
    /// The last reading the clock gave (zero before the first).
    pub closed spec fn last_reading(&self) -> u64 {
        self.last_ns
    }

    /// The nanoseconds since its start that the clock has measured, oldest first.
    pub closed spec fn measurements(&self) -> Seq<u128> {
        self.history@
    }

    /// Starts a monotonic clock at the current instant.
    pub fn start() -> (clock: Self)
        ensures
            clock.last_reading() == 0,
            clock.measurements() == Seq::<u128>::empty(),
    {
        MonotonicClock { origin: read_instant(), last_ns: 0, history: Ghost(Seq::empty()) }
    }

    /// Records a measurement of `elapsed_ns` nanoseconds since the clock's start
    /// and gives the resulting reading: the measurement saturated to `u64`, or
    /// the last reading where the measurement falls below it. The history of
    /// measurements taken from the machine's clock is left as it is.
    pub fn record(&mut self, elapsed_ns: u128) -> (ns: u64)
        ensures
            ns == if saturate_to_u64(elapsed_ns) >= old(self).last_reading() {
                saturate_to_u64(elapsed_ns)
            } else {
                old(self).last_reading()
            },
            ns >= old(self).last_reading(),
            elapsed_ns <= u64::MAX ==> ns >= elapsed_ns,
            elapsed_ns > u64::MAX ==> ns == u64::MAX,
            ns == old(self).last_reading() || ns == elapsed_ns || (elapsed_ns > u64::MAX && ns
                == u64::MAX),
            final(self).last_reading() == ns,
            final(self).measurements() == old(self).measurements(),
    {
        let measured: u64 = if elapsed_ns <= u64::MAX as u128 {
            elapsed_ns as u64
        } else {
            u64::MAX
        };
        let ns: u64 = if measured >= self.last_ns {
            measured
        } else {
            self.last_ns
        };
        self.last_ns = ns;
        ns
    }

    /// Reads the clock: the nanoseconds it has run since it was started. It
    /// measures the time run on the machine's monotonic clock, appends that
    /// measurement to the history, and gives the larger of the measurement
    /// (saturated to `u64`) and the previous reading: never smaller than the
    /// previous reading, and never smaller than what it measured.
    pub fn read_ns(&mut self) -> (ns: u64)
        ensures
            ns >= old(self).last_reading(),
            final(self).last_reading() == ns,
            final(self).measurements().len() == old(self).measurements().len() + 1,
            final(self).measurements().drop_last() == old(self).measurements(),
            ns == reading_after(old(self).last_reading(), final(self).measurements().last()),
    {
        let d = instant_elapsed(&self.origin);
        let elapsed_ns = duration_as_nanos(&d);
        self.history = Ghost(self.history@.push(elapsed_ns));
        self.record(elapsed_ns)
    }
}

/// The reading a monotonic clock gives after its previous reading `previous`
/// when it measures `elapsed_ns` nanoseconds since its start.
pub open spec fn reading_after(previous: u64, elapsed_ns: u128) -> u64 {
    if saturate_to_u64(elapsed_ns) >= previous {
        saturate_to_u64(elapsed_ns)
    } else {
        previous
    }
}

/// A reading is the running maximum of the measurements: it is at least the
/// previous reading, at least the measurement (or `u64::MAX` when the
/// measurement does not fit), and it is one of the two.
pub proof fn lemma_reading_is_running_max(previous: u64, elapsed_ns: u128)
    ensures
        reading_after(previous, elapsed_ns) >= previous,
        elapsed_ns <= u64::MAX ==> reading_after(previous, elapsed_ns) >= elapsed_ns,
        elapsed_ns > u64::MAX ==> reading_after(previous, elapsed_ns) == u64::MAX,
        reading_after(previous, elapsed_ns) == previous || reading_after(previous, elapsed_ns)
            == elapsed_ns || (elapsed_ns > u64::MAX && reading_after(previous, elapsed_ns)
            == u64::MAX),
        previous <= elapsed_ns <= u64::MAX ==> reading_after(previous, elapsed_ns) == elapsed_ns,
{
}

/// Saturation keeps every count that fits in `u64` and caps the rest at `u64::MAX`.
pub proof fn lemma_saturate_to_u64(ns: u128)
    ensures
        ns <= u64::MAX ==> saturate_to_u64(ns) == ns,
        ns > u64::MAX ==> saturate_to_u64(ns) == u64::MAX,
{
}

/// A nanosecond count narrowed to `u64`, saturating at `u64::MAX`.
pub open spec fn saturate_to_u64(ns: u128) -> u64 {
    if ns <= u64::MAX {
        ns as u64
    } else {
        u64::MAX
    }
}

/// The wall-clock field for a reading of the system clock: the nanoseconds since
/// the Unix epoch, truncated to `i64`, or zero when the clock reads earlier than
/// the epoch.
pub open spec fn spec_wall_clock_ns(reading: Option<u128>) -> i64 {
    match reading {
        Some(ns) => ns as i64,
        None => 0,
    }
}

/// Turns a system-clock reading (nanoseconds since the Unix epoch, or `None`
/// when the clock reads earlier than the epoch) into the wall-clock field.
pub fn wall_clock_from_reading(reading: Option<u128>) -> (ns: i64)
    ensures
        ns == spec_wall_clock_ns(reading),
        reading is None ==> ns == 0,
        forall|r: u128| reading == Some(r) && r <= i64::MAX ==> ns == r,
        forall|r: u128| reading == Some(r) ==> (ns as u64) as int == r % 0x1_0000_0000_0000_0000,
{
    proof {
        if let Some(r) = reading {
            lemma_wall_clock_keeps_low_bits(r);
        }
    }
    match reading {
        Some(r) => r as i64,
        None => 0,
    }
}

/// The saturating difference `later - earlier` of two monotonic readings.
pub open spec fn saturating_gap(later: u64, earlier: u64) -> nat {
    if later >= earlier {
        (later - earlier) as nat
    } else {
        0
    }
}

/// The distance between two monotonic readings.
pub open spec fn monotonic_distance(a: u64, b: u64) -> nat {
    if a >= b {
        (a - b) as nat
    } else {
        (b - a) as nat
    }
}

impl Timestamp {
    /// The timestamp whose monotonic reading is `ns` and whose wall-clock reading is zero.
    pub open spec fn spec_from_monotonic_ns(ns: u64) -> Timestamp {
        Timestamp { monotonic_ns: ns, wall_clock_ns: 0 }
    }

    /// Whether `add_ns(ns)` stays inside the ranges of both fields.
    pub open spec fn can_add_ns(self, ns: u64) -> bool {
        &&& self.monotonic_ns + ns <= u64::MAX
        &&& self.wall_clock_ns + ns <= i64::MAX
    }

    /// The timestamp `ns` nanoseconds after `self`, on both clocks.
    pub open spec fn spec_add_ns(self, ns: u64) -> Timestamp {
        Timestamp {
            monotonic_ns: (self.monotonic_ns + ns) as u64,
            wall_clock_ns: (self.wall_clock_ns + ns) as i64,
        }
    }

    /// The timestamp for a monotonic reading `monotonic_ns` and a wall-clock
    /// reading `wall_reading`, as `wall_clock_from_reading` turns it into nanoseconds.
    pub open spec fn spec_from_clock_readings(monotonic_ns: u64, wall_reading: Option<u128>) -> Timestamp {
        Timestamp { monotonic_ns, wall_clock_ns: spec_wall_clock_ns(wall_reading) }
    }

    /// Reads both clocks: the monotonic field is the next reading of `clock`,
    /// and the wall-clock field is the system clock's nanoseconds since the Unix
    /// epoch (zero when that clock reads earlier than the epoch). Whatever the
    /// clocks return, the monotonic field never goes backward: it is at least
    /// the clock's previous reading, and it becomes the clock's last reading.
    pub fn now(clock: &mut MonotonicClock) -> (ts: Self)
        ensures
            ts.monotonic_ns >= old(clock).last_reading(),
            final(clock).last_reading() == ts.monotonic_ns,
            final(clock).measurements().len() == old(clock).measurements().len() + 1,
            final(clock).measurements().drop_last() == old(clock).measurements(),
            ts.monotonic_ns == reading_after(
                old(clock).last_reading(),
                final(clock).measurements().last(),
            ),
    {
        let monotonic_ns = clock.read_ns();
        let wall = read_system_time();
        let wall_reading: Option<u128> = match elapsed_since_unix_epoch(&wall) {
            Some(d) => Some(duration_as_nanos(&d)),
            None => None,
        };
        Self::from_clock_readings(monotonic_ns, wall_reading)
    }

    /// Builds the timestamp for the two clock readings that `now` takes: a
    /// monotonic reading, and the system clock's nanoseconds since the Unix epoch
    /// (`None` when it reads earlier than the epoch).
    pub fn from_clock_readings(monotonic_ns: u64, wall_reading: Option<u128>) -> (ts: Self)
        ensures
            ts == Self::spec_from_clock_readings(monotonic_ns, wall_reading),
            ts.monotonic_ns == monotonic_ns,
            wall_reading is None ==> ts.wall_clock_ns == 0,
            forall|r: u128| wall_reading == Some(r) && r <= i64::MAX ==> ts.wall_clock_ns == r,
            forall|r: u128|
                wall_reading == Some(r) ==> (ts.wall_clock_ns as u64) as int == r % 0x1_0000_0000_0000_0000,
    {
        Timestamp { monotonic_ns, wall_clock_ns: wall_clock_from_reading(wall_reading) }
    }

    /// Builds a timestamp from a monotonic reading; the wall-clock reading is zero.
    pub fn from_monotonic_ns(ns: u64) -> (ts: Self)
        ensures
            ts == Self::spec_from_monotonic_ns(ns),
            ts.monotonic_ns == ns,
            ts.wall_clock_ns == 0,
    {
        Timestamp { monotonic_ns: ns, wall_clock_ns: 0 }
    }

    /// Monotonic nanoseconds from `earlier` to `self`, saturating at zero when
    /// `earlier` is in fact later.
    pub fn duration_since_ns(&self, earlier: &Self) -> (d: u64)
        ensures
            d == saturating_gap(self.monotonic_ns, earlier.monotonic_ns),
    {
        self.monotonic_ns.saturating_sub(earlier.monotonic_ns)
    }

    /// The timestamp `ns` nanoseconds later on both clocks.
    pub fn add_ns(&self, ns: u64) -> (ts: Self)
        requires
            self.can_add_ns(ns),
        ensures
            ts == self.spec_add_ns(ns),
            ts.monotonic_ns == self.monotonic_ns + ns,
            ts.wall_clock_ns == self.wall_clock_ns + ns,
            ts.monotonic_ns >= self.monotonic_ns,
            ts.wall_clock_ns >= self.wall_clock_ns,
    {
        let wall: i128 = self.wall_clock_ns as i128 + ns as i128;
        Timestamp { monotonic_ns: self.monotonic_ns + ns, wall_clock_ns: wall as i64 }
    }

    /// Whether the monotonic readings of `self` and `other` lie within
    /// `tolerance_ns` of each other.
    pub fn aligns_with(&self, other: &Self, tolerance_ns: u64) -> (b: bool)
        ensures
            b == (monotonic_distance(self.monotonic_ns, other.monotonic_ns) <= tolerance_ns),
    {
        let distance: u64 = if self.monotonic_ns >= other.monotonic_ns {
            self.monotonic_ns - other.monotonic_ns
        } else {
            other.monotonic_ns - self.monotonic_ns
        };
        distance <= tolerance_ns
    }
}



/// Truncating a reading to `i64` keeps its low 64 bits.
proof fn lemma_wall_clock_keeps_low_bits(r: u128)
    ensures
        ((r as i64) as u64) as int == r % 0x1_0000_0000_0000_0000,
{
    assert(((r as i64) as u64) == (r % 0x1_0000_0000_0000_0000) as u64) by (bit_vector);
}

/// The wall-clock field of a timestamp built from clock readings is the system
/// clock's nanoseconds since the Unix epoch: the reading itself whenever it fits
/// in `i64`, its low 64 bits otherwise, and zero for a clock that reads earlier
/// than the epoch; the monotonic field is the monotonic reading, whatever the
/// wall clock reads.
pub proof fn lemma_clock_readings_fields(monotonic_ns: u64, wall_reading: Option<u128>)
    ensures
        Timestamp::spec_from_clock_readings(monotonic_ns, wall_reading).monotonic_ns == monotonic_ns,
        wall_reading is None ==> Timestamp::spec_from_clock_readings(
            monotonic_ns,
            wall_reading,
        ).wall_clock_ns == 0,
        forall|r: u128|
            wall_reading == Some(r) && r <= i64::MAX ==> Timestamp::spec_from_clock_readings(
                monotonic_ns,
                wall_reading,
            ).wall_clock_ns == r,
        forall|r: u128|
            wall_reading == Some(r) ==> (Timestamp::spec_from_clock_readings(
                monotonic_ns,
                wall_reading,
            ).wall_clock_ns as u64) as int == r % 0x1_0000_0000_0000_0000,
{
    if let Some(r) = wall_reading {
        lemma_wall_clock_keeps_low_bits(r);
    }
}

/// A timestamp built from a monotonic reading carries that reading and a zero
/// wall clock; the default timestamp is zero on both clocks.
pub proof fn lemma_from_monotonic_ns_fields(ns: u64)
    ensures
        Timestamp::spec_from_monotonic_ns(ns).monotonic_ns == ns,
        Timestamp::spec_from_monotonic_ns(ns).wall_clock_ns == 0,
        Timestamp::spec_from_monotonic_ns(0) == (Timestamp { monotonic_ns: 0, wall_clock_ns: 0 }),
{
}

/// The saturating gap is the plain difference when the later reading is not
/// smaller, and zero otherwise; the distance is the absolute difference.
pub proof fn lemma_gap_and_distance(a: u64, b: u64)
    ensures
        a >= b ==> saturating_gap(a, b) + b == a,
        a <= b ==> saturating_gap(a, b) == 0,
        monotonic_distance(a, b) == saturating_gap(a, b) + saturating_gap(b, a),
        a >= b ==> monotonic_distance(a, b) + b == a,
        a < b ==> monotonic_distance(a, b) + a == b,
{
}

/// Adding moves each clock forward by exactly the offset.
pub proof fn lemma_add_ns_fields(t: Timestamp, ns: u64)
    requires
        t.can_add_ns(ns),
    ensures
        t.spec_add_ns(ns).monotonic_ns == t.monotonic_ns + ns,
        t.spec_add_ns(ns).wall_clock_ns == t.wall_clock_ns + ns,
{
}

/// What `add_ns` adds, `duration_since_ns` reads back: the timestamp `d`
/// nanoseconds after `t` lies exactly `d` nanoseconds after `t`.
pub proof fn lemma_duration_since_add(t: Timestamp, d: u64)
    requires
        t.can_add_ns(d),
    ensures
        saturating_gap(t.spec_add_ns(d).monotonic_ns, t.monotonic_ns) == d,
        saturating_gap(t.monotonic_ns, t.spec_add_ns(d).monotonic_ns) == 0,
{
}

/// Durations never go negative: of the two directions between two
/// timestamps, at least one is zero, and a timestamp is zero nanoseconds after itself.
pub proof fn lemma_duration_saturates(a: Timestamp, b: Timestamp)
    ensures
        saturating_gap(a.monotonic_ns, a.monotonic_ns) == 0,
        a.monotonic_ns <= b.monotonic_ns ==> saturating_gap(a.monotonic_ns, b.monotonic_ns) == 0,
        saturating_gap(a.monotonic_ns, b.monotonic_ns) == 0 || saturating_gap(
            b.monotonic_ns,
            a.monotonic_ns,
        ) == 0,
{
}

/// Alignment is symmetric and reflexive, and a wider tolerance keeps every
/// alignment that a narrower one admits.
pub proof fn lemma_alignment_laws(a: Timestamp, b: Timestamp, tol: u64, wider: u64)
    requires
        tol <= wider,
    ensures
        monotonic_distance(a.monotonic_ns, b.monotonic_ns) == monotonic_distance(
            b.monotonic_ns,
            a.monotonic_ns,
        ),
        monotonic_distance(a.monotonic_ns, a.monotonic_ns) <= tol,
        monotonic_distance(a.monotonic_ns, b.monotonic_ns) <= tol ==> monotonic_distance(
            a.monotonic_ns,
            b.monotonic_ns,
        ) <= wider,
{
}

/// Two timestamps align within a tolerance exactly when neither lies more
/// than that tolerance after the other.
pub proof fn lemma_alignment_by_durations(a: Timestamp, b: Timestamp, tol: u64)
    ensures
        (monotonic_distance(a.monotonic_ns, b.monotonic_ns) <= tol) == (saturating_gap(
            a.monotonic_ns,
            b.monotonic_ns,
        ) <= tol && saturating_gap(b.monotonic_ns, a.monotonic_ns) <= tol),
{
}

/// A timestamp moved forward by `d` aligns with the original exactly when `d`
/// is within the tolerance.
pub proof fn lemma_add_aligns(t: Timestamp, d: u64, tol: u64)
    requires
        t.can_add_ns(d),
    ensures
        (monotonic_distance(t.spec_add_ns(d).monotonic_ns, t.monotonic_ns) <= tol) == (d <= tol),
{
}

/// Adding in two steps lands where adding the sum in one step does, on both
/// clocks: whenever the two steps are in range, so is the single one.
pub proof fn lemma_add_ns_composes(t: Timestamp, a: u64, b: u64)
    requires
        t.can_add_ns(a),
        t.spec_add_ns(a).can_add_ns(b),
    ensures
        a + b <= u64::MAX,
        t.can_add_ns((a + b) as u64),
        t.spec_add_ns(a).spec_add_ns(b) == t.spec_add_ns((a + b) as u64),
{
}

/// Monotonic time never goes backward: two successive timestamps read from one
/// clock, with only other readings of that clock in between, are in order.
pub proof fn lemma_successive_readings_in_order(
    first: Timestamp,
    after_first: MonotonicClock,
    before_second: MonotonicClock,
    second: Timestamp,
)
    requires
        after_first.last_reading() == first.monotonic_ns,
        before_second.last_reading() >= after_first.last_reading(),
        second.monotonic_ns >= before_second.last_reading(),
    ensures
        first.monotonic_ns <= second.monotonic_ns,
        saturating_gap(first.monotonic_ns, second.monotonic_ns) == 0,
{
}

impl Default for Timestamp {
    /// The timestamp at zero on both clocks.
    fn default() -> (ts: Self)
        ensures
            ts == Self::spec_from_monotonic_ns(0),
            ts.monotonic_ns == 0,
            ts.wall_clock_ns == 0,
    {
        Timestamp { monotonic_ns: 0, wall_clock_ns: 0 }
    }
}

} // verus!
