use omni_sense_core::timestamp::wall_clock_from_reading;
use omni_sense_core::{MonotonicClock, Timestamp};
use std::cmp::Ordering;

#[test]
fn from_monotonic_ns_sets_only_the_monotonic_clock() {
    let t = Timestamp::from_monotonic_ns(1_234);
    assert_eq!(t.monotonic_ns, 1_234);
    assert_eq!(t.wall_clock_ns, 0);
}

#[test]
fn default_is_zero_on_both_clocks() {
    let t = Timestamp::default();
    assert_eq!(t, Timestamp::from_monotonic_ns(0));
}

#[test]
fn duration_since_is_the_monotonic_gap() {
    let later = Timestamp::from_monotonic_ns(1_000);
    let earlier = Timestamp::from_monotonic_ns(250);
    assert_eq!(later.duration_since_ns(&earlier), 750);
}

#[test]
fn duration_since_saturates_at_zero() {
    let later = Timestamp::from_monotonic_ns(1_000);
    let earlier = Timestamp::from_monotonic_ns(250);
    assert_eq!(earlier.duration_since_ns(&later), 0);
    assert_eq!(later.duration_since_ns(&later), 0);
    let max = Timestamp::from_monotonic_ns(u64::MAX);
    assert_eq!(Timestamp::default().duration_since_ns(&max), 0);
    assert_eq!(max.duration_since_ns(&Timestamp::default()), u64::MAX);
}

#[test]
fn duration_since_ignores_the_wall_clock() {
    let a = Timestamp { monotonic_ns: 500, wall_clock_ns: -9_000 };
    let b = Timestamp { monotonic_ns: 100, wall_clock_ns: 77_000 };
    assert_eq!(a.duration_since_ns(&b), 400);
}

#[test]
fn add_ns_moves_both_clocks() {
    let t = Timestamp { monotonic_ns: 10, wall_clock_ns: -20 };
    let u = t.add_ns(35);
    assert_eq!(u.monotonic_ns, 45);
    assert_eq!(u.wall_clock_ns, 15);
}

#[test]
fn add_then_duration_reads_back_the_offset() {
    let t = Timestamp { monotonic_ns: 7_000, wall_clock_ns: 1_700_000_000 };
    for d in [0u64, 1, 999, 123_456_789] {
        assert_eq!(t.add_ns(d).duration_since_ns(&t), d);
        assert_eq!(t.duration_since_ns(&t.add_ns(d)), 0);
    }
}

#[test]
fn add_ns_composes() {
    let t = Timestamp { monotonic_ns: 3, wall_clock_ns: 4 };
    assert_eq!(t.add_ns(10).add_ns(20), t.add_ns(30));
    let big = 1u64 << 63;
    let s = Timestamp { monotonic_ns: 0, wall_clock_ns: -(1i64 << 62) };
    assert_eq!(s.add_ns(1).add_ns(big / 2 - 1), s.add_ns(big / 2));
}

#[test]
fn add_ns_with_an_offset_past_i64_max_moves_the_wall_clock_forward() {
    let t = Timestamp { monotonic_ns: 0, wall_clock_ns: -1 };
    let u = t.add_ns(1u64 << 63);
    assert_eq!(u.monotonic_ns, 1u64 << 63);
    assert_eq!(u.wall_clock_ns, i64::MAX);
    assert!(u.wall_clock_ns > t.wall_clock_ns);
    let v = Timestamp { monotonic_ns: 0, wall_clock_ns: i64::MIN };
    let w = v.add_ns(u64::MAX);
    assert_eq!(w.wall_clock_ns, i64::MAX);
}

#[test]
fn aligns_with_compares_the_monotonic_distance() {
    let a = Timestamp::from_monotonic_ns(1_000);
    let b = Timestamp { monotonic_ns: 1_300, wall_clock_ns: 55 };
    assert!(a.aligns_with(&b, 300));
    assert!(b.aligns_with(&a, 300));
    assert!(!a.aligns_with(&b, 299));
    assert!(!b.aligns_with(&a, 299));
    assert!(a.aligns_with(&b, 10_000));
}

#[test]
fn aligns_with_is_reflexive() {
    let a = Timestamp { monotonic_ns: 42, wall_clock_ns: 9 };
    assert!(a.aligns_with(&a, 0));
}

#[test]
fn aligns_with_extreme_readings() {
    let lo = Timestamp::from_monotonic_ns(0);
    let hi = Timestamp::from_monotonic_ns(u64::MAX);
    assert!(lo.aligns_with(&hi, u64::MAX));
    assert!(!hi.aligns_with(&lo, u64::MAX - 1));
}

#[test]
fn aligned_after_adding_exactly_when_within_tolerance() {
    let t = Timestamp::from_monotonic_ns(500);
    assert!(t.add_ns(40).aligns_with(&t, 40));
    assert!(!t.add_ns(41).aligns_with(&t, 40));
}

#[test]
fn from_clock_readings_keeps_the_two_clocks_apart() {
    let t = Timestamp::from_clock_readings(2_500, Some(1_700_000_000_000_000_000));
    assert_eq!(t.monotonic_ns, 2_500);
    assert_eq!(t.wall_clock_ns, 1_700_000_000_000_000_000);
}

#[test]
fn from_clock_readings_before_the_epoch_gives_a_zero_wall_clock() {
    let t = Timestamp::from_clock_readings(77, None);
    assert_eq!(t.monotonic_ns, 77);
    assert_eq!(t.wall_clock_ns, 0);
    assert_eq!(wall_clock_from_reading(None), 0);
}

#[test]
fn clock_readings_never_go_backward() {
    let mut clock = MonotonicClock::start();
    assert_eq!(clock.record(100), 100);
    assert_eq!(clock.record(50), 100);
    assert_eq!(clock.record(250), 250);
    assert_eq!(clock.record(u128::MAX), u64::MAX);
    assert_eq!(clock.record(0), u64::MAX);
}

#[test]
fn wall_clock_reading_is_truncated_to_i64() {
    assert_eq!(wall_clock_from_reading(Some(42)), 42);
    assert_eq!(wall_clock_from_reading(Some((1u128 << 64) + 5)), 5);
    assert_eq!(wall_clock_from_reading(Some(u64::MAX as u128)), -1);
}

#[test]
fn now_reads_a_monotonic_count_and_the_wall_clock() {
    let mut clock = MonotonicClock::start();
    let a = Timestamp::now(&mut clock);
    let b = Timestamp::now(&mut clock);
    assert!(b.monotonic_ns >= a.monotonic_ns);
    assert!(b.duration_since_ns(&a) == b.monotonic_ns - a.monotonic_ns);
    // The monotonic field counts from the clock's start, not from the epoch.
    assert!(a.monotonic_ns < 60_000_000_000);
    // Some time after 2020-01-01, which a clock that ran would show.
    assert!(a.wall_clock_ns > 1_577_836_800_000_000_000);
    assert!(clock.read_ns() >= b.monotonic_ns);
}

#[test]
fn order_follows_the_monotonic_clock_first() {
    let a = Timestamp { monotonic_ns: 1, wall_clock_ns: 1_000 };
    let b = Timestamp { monotonic_ns: 2, wall_clock_ns: -1_000 };
    assert!(a < b);
    assert_eq!(a.partial_cmp(&b), Some(Ordering::Less));
    assert_eq!(b.partial_cmp(&a), Some(Ordering::Greater));
    assert_eq!(a.cmp(&b), Ordering::Less);
}

#[test]
fn order_breaks_ties_by_the_wall_clock() {
    let a = Timestamp { monotonic_ns: 5, wall_clock_ns: -3 };
    let b = Timestamp { monotonic_ns: 5, wall_clock_ns: 4 };
    assert!(a < b);
    assert_eq!(a.partial_cmp(&a), Some(Ordering::Equal));
    assert_eq!(a.cmp(&b), Ordering::Less);
}

#[test]
fn sorting_events_by_timestamp() {
    let mut ts = vec![
        Timestamp::from_monotonic_ns(30),
        Timestamp::from_monotonic_ns(10),
        Timestamp::from_monotonic_ns(20),
    ];
    ts.sort();
    let order: Vec<u64> = ts.iter().map(|t| t.monotonic_ns).collect();
    assert_eq!(order, vec![10, 20, 30]);
}
