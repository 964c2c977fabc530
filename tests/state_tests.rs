use snowid::state::{successor_raw, State};

#[test]
fn test_state_roundtrip() {
    let ts = 123456789u64;
    let seq = 4095u16;
    let state = State::new(ts, seq);

    assert_eq!(state.timestamp(), ts);
    assert_eq!(state.sequence(), seq);
}

#[test]
fn test_state_max_values() {
    let max_ts = (1u64 << 48) - 1;
    let max_seq = u16::MAX;
    let state = State::new(max_ts, max_seq);

    assert_eq!(state.timestamp(), max_ts);
    assert_eq!(state.sequence(), max_seq);
}

#[test]
fn test_state_zero() {
    let state = State::new(0, 0);
    assert_eq!(state.raw(), 0);
    assert_eq!(state.timestamp(), 0);
    assert_eq!(state.sequence(), 0);
}

#[test]
fn state_packing_layout() {
    let state = State::new(3, 7);
    assert_eq!(state.raw(), (3 << 16) | 7);
    assert_eq!(State::from_raw(state.raw()), state);
}

#[test]
fn successor_claims_new_millisecond() {
    let s = State::new(100, 17);
    assert_eq!(s.successor(105, 4095), Some(State::new(105, 0)));
}

#[test]
fn successor_counts_within_millisecond() {
    let s = State::new(100, 17);
    assert_eq!(s.successor(100, 4095), Some(State::new(100, 18)));
}

#[test]
fn successor_never_regresses_under_clock_regression() {
    let s = State::new(100, 17);
    let n = s.successor(40, 4095).unwrap();
    assert_eq!(n, State::new(100, 18));
    assert!(n.timestamp() >= 100);
    let full = State::new(100, 4095);
    let n = full.successor(40, 4095).unwrap();
    assert!(n.timestamp() > 100);
    assert_eq!(n.sequence(), 0);
}

#[test]
fn successor_at_end_of_range() {
    let max_ts = (1u64 << 42) - 1;
    assert_eq!(State::new(max_ts, 63).successor(max_ts, 63), None);
    assert_eq!(State::new(max_ts + 1, 0).successor(5, 63), None);
    assert_eq!(State::new(max_ts, 62).successor(max_ts, 63), Some(State::new(max_ts, 63)));
    assert_eq!(successor_raw(State::new(max_ts, 63).raw(), 0, 63, true), None);
    assert_eq!(successor_raw(State::new(8, 3).raw(), 9, 63, false), Some(State::new(9, 0).raw()));
}

#[test]
fn exhausting_one_millisecond_advances_timestamp_once() {
    // Default layout: 4096 sequence numbers per millisecond.
    let max_seq = 4095u16;
    let ts = 1_000u64;
    let mut s = State::new(999, 0).successor(ts, max_seq).unwrap();
    assert_eq!(s, State::new(ts, 0));
    let mut advances = 0;
    for _ in 0..max_seq {
        let n = s.successor(ts, max_seq).unwrap();
        if n.timestamp() != s.timestamp() {
            advances += 1;
        }
        s = n;
    }
    assert_eq!(s, State::new(ts, max_seq));
    assert_eq!(advances, 0);
    // The 4097th claim in the same millisecond moves to the next one.
    let n = s.successor(ts, max_seq).unwrap();
    assert!(n.timestamp() > ts);
    assert_eq!(n.sequence(), 0);
}

#[test]
fn end_to_end_scenario_with_simulated_clock() {
    // Three rapid claims in one millisecond, then one after the clock moved 2 ms.
    let max_seq = 4095u16;
    let mut s = State::new(0, 0);
    let mut seen = Vec::new();
    for now in [500u64, 500, 500] {
        s = s.successor(now, max_seq).unwrap();
        seen.push((s.timestamp(), s.sequence()));
    }
    assert_eq!(seen, vec![(500, 0), (500, 1), (500, 2)]);
    s = s.successor(502, max_seq).unwrap();
    assert_eq!((s.timestamp(), s.sequence()), (502, 0));
}

#[test]
fn update_within_clock_waits_for_a_used_up_millisecond() {
    let full = State::new(100, 63).raw();
    assert_eq!(successor_raw(full, 100, 63, false), None);
    assert_eq!(successor_raw(full, 100, 63, true), Some(State::new(101, 0).raw()));
    assert_eq!(successor_raw(full, 101, 63, false), Some(State::new(101, 0).raw()));
    let open = State::new(100, 5).raw();
    assert_eq!(successor_raw(open, 100, 63, false), Some(State::new(100, 6).raw()));
}
