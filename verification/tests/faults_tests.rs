use rtmemlock::faults::FaultCounters;

#[test]
fn counters_start_at_zero() {
    let mut c = FaultCounters::new();
    assert_eq!(c.observe(123, 456), (123, 456));
}

#[test]
fn deltas_accumulate_since_last_reading() {
    let mut c = FaultCounters::new();
    assert_eq!(c.observe(5, 7), (5, 7));
    assert_eq!(c.observe(6, 10), (1, 3));
    assert_eq!(c.observe(6, 10), (0, 0));
    assert_eq!(c.observe(8, 11), (2, 1));
}

#[test]
fn delta_of_unchanged_counters_is_zero_not_negative() {
    let mut c = FaultCounters::new();
    let _ = c.observe(42, 42);
    let (maj, min) = c.observe(42, 42);
    assert_eq!((maj, min), (0, 0));
}
