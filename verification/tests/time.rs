use polling_utils::time::{Clock, Duration, Instant};

#[test]
fn new_carries_whole_seconds() {
    let span = Duration::new(2, 1_500_000_000).unwrap();
    assert_eq!(span.as_secs(), 3);
    assert_eq!(span.subsec_nanos(), 500_000_000);
    let span = Duration::new(0, 999_999_999).unwrap();
    assert_eq!(span.as_secs(), 0);
    assert_eq!(span.subsec_nanos(), 999_999_999);
    let span = Duration::new(0, u32::MAX).unwrap();
    assert_eq!(span.as_secs(), 4);
    assert_eq!(span.subsec_nanos(), 294_967_295);
}

#[test]
fn new_refuses_what_is_longer_than_the_longest() {
    assert_eq!(Duration::new(u64::MAX, 1_000_000_000), None);
    assert_eq!(Duration::new(u64::MAX - 3, u32::MAX), None);
    assert_eq!(Duration::new(u64::MAX, 999_999_999), Some(Duration::max()));
    assert_eq!(Duration::new(u64::MAX - 1, 1_999_999_999), Some(Duration::max()));
}

#[test]
fn from_millis_and_secs() {
    assert_eq!(Duration::from_millis(50), Duration::new(0, 50_000_000).unwrap());
    assert_eq!(Duration::from_millis(1_250), Duration::new(1, 250_000_000).unwrap());
    assert_eq!(Duration::from_millis(0), Duration::from_secs(0));
    assert_eq!(Duration::from_secs(7), Duration::new(7, 0).unwrap());
    let longest = Duration::from_millis(u64::MAX);
    assert_eq!(longest.as_secs(), 18_446_744_073_709_551);
    assert_eq!(longest.subsec_nanos(), 615_000_000);
}

#[test]
fn the_longest_span() {
    assert_eq!(Duration::max().as_secs(), u64::MAX);
    assert_eq!(Duration::max().subsec_nanos(), 999_999_999);
}

#[test]
fn shorter_than() {
    let a = Duration::new(1, 999_999_999).unwrap();
    let b = Duration::new(2, 0).unwrap();
    assert!(a.lt(b));
    assert!(!b.lt(a));
    assert!(!a.lt(a));
    assert!(Duration::new(2, 1).unwrap().lt(Duration::new(2, 2).unwrap()));
    assert!(!Duration::new(3, 0).unwrap().lt(Duration::new(2, 999).unwrap()));
}

#[test]
fn checked_add_carries() {
    let a = Duration::new(1, 600_000_000).unwrap();
    let b = Duration::new(2, 500_000_000).unwrap();
    assert_eq!(a.checked_add(b), Some(Duration::new(4, 100_000_000).unwrap()));
    assert_eq!(
        Duration::from_millis(50).checked_add(Duration::from_millis(200)),
        Some(Duration::from_millis(250))
    );
    assert_eq!(
        Duration::new(0, 999_999_999).unwrap().checked_add(Duration::new(0, 1).unwrap()),
        Some(Duration::from_secs(1))
    );
}

#[test]
fn checked_add_stops_at_the_longest() {
    let nano = Duration::new(0, 1).unwrap();
    assert_eq!(Duration::max().checked_add(nano), None);
    assert_eq!(Duration::max().checked_add(Duration::from_secs(0)), Some(Duration::max()));
    assert_eq!(Duration::from_secs(u64::MAX).checked_add(Duration::from_secs(1)), None);
    assert_eq!(
        Duration::new(u64::MAX, 999_999_998).unwrap().checked_add(nano),
        Some(Duration::max())
    );
    assert_eq!(Duration::max().checked_add(Duration::max()), None);
}

#[test]
fn saturating_sub_borrows_and_stops_at_nothing() {
    let a = Duration::new(3, 100_000_000).unwrap();
    let b = Duration::new(1, 600_000_000).unwrap();
    assert_eq!(a.saturating_sub(b), Duration::new(1, 500_000_000).unwrap());
    assert_eq!(b.saturating_sub(a), Duration::from_secs(0));
    assert_eq!(a.saturating_sub(a), Duration::from_secs(0));
    assert_eq!(
        Duration::from_millis(200).saturating_sub(Duration::from_millis(60)),
        Duration::from_millis(140)
    );
}

#[test]
fn points_on_the_clock() {
    let start = Instant::after_start(Duration::from_secs(0));
    let later = Instant::after_start(Duration::from_millis(60));
    assert_eq!(later.since_start(), Duration::from_millis(60));
    assert!(start.lt(later));
    assert!(!later.lt(start));
    assert!(!later.lt(later));
    assert_eq!(start.checked_add(Duration::from_millis(60)), Some(later));
    assert_eq!(later.saturating_duration_since(start), Duration::from_millis(60));
    assert_eq!(start.saturating_duration_since(later), Duration::from_secs(0));
}

#[test]
fn the_longest_span_leads_past_the_end_of_the_clock() {
    let later = Instant::after_start(Duration::new(0, 1).unwrap());
    assert_eq!(later.checked_add(Duration::max()), None);
    let start = Instant::after_start(Duration::from_secs(0));
    assert_eq!(start.checked_add(Duration::max()), Some(Instant::after_start(Duration::max())));
}

#[test]
fn the_clock_does_not_run_backwards() {
    let clock = Clock::start();
    let first = clock.now();
    let second = clock.now();
    assert!(!second.lt(first));
    assert!(first.since_start().subsec_nanos() < 1_000_000_000);
    assert!(second.since_start().as_secs() < 60);
}

#[test]
fn the_clock_counts_from_its_start() {
    let clock = Clock::start();
    let elapsed = clock.origin().elapsed();
    let now = clock.now();
    let by_library = std::time::Duration::new(
        now.since_start().as_secs(),
        now.since_start().subsec_nanos(),
    );
    assert!(by_library >= elapsed);
}

#[test]
fn a_clock_started_at_a_reading_counts_from_it() {
    let reading = std::time::Instant::now();
    let clock = Clock::started_at(reading);
    assert_eq!(*clock.origin(), reading);
    let now = clock.now();
    let by_library = std::time::Duration::new(
        now.since_start().as_secs(),
        now.since_start().subsec_nanos(),
    );
    assert!(by_library <= reading.elapsed());
}

#[test]
fn only_the_longest_span_is_the_longest() {
    assert!(Duration::max().is_max());
    assert!(!Duration::new(u64::MAX, 999_999_998).unwrap().is_max());
    assert!(!Duration::from_secs(u64::MAX).is_max());
    assert!(!Duration::from_secs(0).is_max());
}
