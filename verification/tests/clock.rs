use lora_node::clock::MonotonicClock;

#[test]
fn clock_starts_at_zero() {
    let c = MonotonicClock::new();
    assert_eq!(c.now(), 0);
}

#[test]
fn clock_takes_later_readings_only() {
    let mut c = MonotonicClock::new();
    assert!(c.advance_to(0));
    assert!(c.advance_to(48_000_000));
    assert_eq!(c.now(), 48_000_000);
    assert!(!c.advance_to(47_999_999));
    assert_eq!(c.now(), 48_000_000);
    assert!(c.advance_to(u64::MAX));
    assert_eq!(c.now(), u64::MAX);
}

#[test]
fn seconds_are_counted_in_timer_ticks() {
    assert_eq!(lora_node::clock::TIMER_HZ, 48_000_000);
    assert_eq!(lora_node::clock::ticks_of_secs(0), Some(0));
    assert_eq!(lora_node::clock::ticks_of_secs(1), Some(48_000_000));
    assert_eq!(lora_node::clock::ticks_of_secs(2), Some(96_000_000));
    assert_eq!(lora_node::clock::ticks_of_secs(89), Some(4_272_000_000));
    assert_eq!(lora_node::clock::ticks_of_secs(90), None);
    assert_eq!(lora_node::clock::ticks_of_secs(u32::MAX), None);
}

#[test]
fn wide_counter_carries_the_count_over_a_wraparound() {
    let mut c = lora_node::clock::WideCounter::new(0);
    assert_eq!(c.total(), 0);
    assert_eq!(c.observe(10), 10);
    assert_eq!(c.observe(10), 10);
    assert_eq!(c.observe(u32::MAX), 4_294_967_295);
    assert_eq!(c.observe(0), 4_294_967_296);
    assert_eq!(c.observe(5), 4_294_967_301);
    assert_eq!(c.observe(4), 2 * 4_294_967_296 + 4);
    assert_eq!(c.total(), 8_589_934_596);

    let mut late = lora_node::clock::WideCounter::new(4_000_000_000);
    assert_eq!(late.observe(4_000_000_100), 100);
    assert_eq!(late.observe(99), 294_967_395);
}
