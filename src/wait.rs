use vstd::prelude::*;

use crate::config::SnowIDConfig;

verus! {

/// Longest pause of the sleeping phase, in milliseconds.
pub const MAX_BACKOFF_MS: u64 = 100;

/// Relies on std::hint::spin_loop, a processor hint with no effect on values.
pub assume_specification[ core::hint::spin_loop ]();

/// The pause after `current`: twice as long, capped at `MAX_BACKOFF_MS`.
pub fn next_backoff(current: u64) -> (r: u64)
    ensures
        r == (if 2 * current > MAX_BACKOFF_MS {
            MAX_BACKOFF_MS as int
        } else {
            2 * current
        }),
{
    if current > MAX_BACKOFF_MS / 2 {
        MAX_BACKOFF_MS
    } else {
        current * 2
    }
}

/// The spinning phase of the wait for the clock to pass `from_timestamp`:
/// up to `spin_loops` readings of `get_time`, each followed by a spin hint.
/// Returns the first reading past `from_timestamp`; `None` when spinning is
/// disabled or no reading passed it.
pub fn spin_wait<F: Fn() -> u64>(from_timestamp: u64, config: &SnowIDConfig, get_time: F) -> (r:
    Option<u64>)
    requires
        get_time.requires(()),
    ensures
        !config.spec_spin_enabled() || config.spec_spin_loops() == 0 ==> r is None,
        r matches Some(t) ==> t > from_timestamp && get_time.ensures((), t),
        config.spec_spin_enabled() && config.spec_spin_loops() > 0 && (forall|t: u64|
            get_time.ensures((), t) ==> t > from_timestamp) ==> r is Some,
{
    if !config.spin_enabled() || config.spin_loops() == 0 {
        return None;
    }
    let loops = config.spin_loops();
    let mut i: u32 = 0;
    while i < loops
        invariant
            get_time.requires(()),
            config.spec_spin_enabled(),
            loops == config.spec_spin_loops(),
            loops > 0,
            i == 0 || !(forall|t: u64| get_time.ensures((), t) ==> t > from_timestamp),
        decreases loops - i,
    {
        let t = get_time();
        if t > from_timestamp {
            return Some(t);
        }
        core::hint::spin_loop();
        i = i + 1;
    }
    None
}

} // verus!
