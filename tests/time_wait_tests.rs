use std::cell::Cell;

use snowid::config::SnowIDConfig;
use snowid::time::{cap_timestamp, elapsed_ms, time_since_epoch, unix_time_ms};
use snowid::wait::{next_backoff, spin_wait};
use snowid::SnowID;

#[test]
fn test_unix_time_is_reasonable() {
    let now = unix_time_ms();
    assert!(now > 1704067200000);
    assert!(now < 4102444800000);
}

#[test]
fn test_time_since_epoch() {
    let epoch = 1704067200000u64; // 2024-01-01
    let ts = time_since_epoch(epoch);
    assert!(ts > 0);
    assert!(ts < 100 * 365 * 24 * 60 * 60 * 1000);
}

#[test]
fn elapsed_saturates_before_epoch() {
    assert_eq!(elapsed_ms(1_000, 400), 600);
    assert_eq!(elapsed_ms(400, 1_000), 0);
    assert_eq!(elapsed_ms(7, 7), 0);
}

#[test]
fn test_next_backoff() {
    assert_eq!(next_backoff(1), 2);
    assert_eq!(next_backoff(50), 100);
    assert_eq!(next_backoff(100), 100);
    assert_eq!(next_backoff(200), 100);
}

#[test]
fn next_backoff_extremes() {
    assert_eq!(next_backoff(0), 0);
    assert_eq!(next_backoff(u64::MAX), 100);
    assert_eq!(next_backoff(49), 98);
}

#[test]
fn test_spin_wait_disabled() {
    let config = SnowIDConfig::builder().enable_spin(false).build();
    let result = spin_wait(100, &config, || 200);
    assert!(result.is_none());
}

#[test]
fn test_spin_wait_immediate_advance() {
    let config = SnowIDConfig::builder()
        .enable_spin(true)
        .spin_loops(10)
        .build();
    let result = spin_wait(100, &config, || 200);
    assert_eq!(result, Some(200));
}

#[test]
fn spin_wait_gives_up_on_a_stuck_clock() {
    let config = SnowIDConfig::builder().enable_spin(true).spin_loops(10).build();
    assert_eq!(spin_wait(100, &config, || 100), None);
    let zero = SnowIDConfig::builder().enable_spin(true).spin_loops(0).build();
    assert_eq!(spin_wait(100, &zero, || 200), None);
}

#[test]
fn test_wait_next_millis_progresses() {
    let generator = SnowID::new(1).unwrap();
    let from = generator.get_time_since_epoch();
    let next = generator.wait_next_millis(from);
    assert!(next > from);
}

#[test]
fn test_wait_next_millis_progresses_no_spin() {
    let cfg = SnowIDConfig::builder()
        .enable_spin(false)
        .spin_loops(0)
        .spin_yield_every(0)
        .build();
    let generator = SnowID::with_config(1, cfg).unwrap();
    let from = generator.get_time_since_epoch();
    let next = generator.wait_next_millis(from);
    assert!(next > from);
}

#[test]
fn cap_timestamp_holds_readings_to_the_range() {
    let max = (1u64 << 42) - 1;
    assert_eq!(cap_timestamp(5), 5);
    assert_eq!(cap_timestamp(max), max);
    assert_eq!(cap_timestamp(max + 1), max);
    assert_eq!(cap_timestamp(u64::MAX), max);
}

#[test]
fn spin_wait_returns_the_first_reading_past() {
    let config = SnowIDConfig::builder().enable_spin(true).spin_loops(10).build();
    let calls = Cell::new(0u64);
    let clock = || {
        calls.set(calls.get() + 1);
        99 + calls.get()
    };
    assert_eq!(spin_wait(100, &config, clock), Some(101));
    assert_eq!(calls.get(), 2);
}
