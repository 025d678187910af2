//! How long the user has been away from the keyboard and mouse.

use std::time::Duration;
use vstd::prelude::*;

use crate::clock::{duration_from_millis, nanos_of};

verus! {

/// The system-wide idle time, where the platform reports one.
///
/// This build has no platform source of idle time, so it always answers `None`.
pub fn system_idle_time() -> (idle: Option<Duration>)
    ensures
        idle is None,
{
    None
}

/// Milliseconds between two readings of a 32-bit millisecond tick counter
/// that wraps around: `last_input` is the tick of the last input event and
/// `now` the current tick. A counter that wrapped once in between still gives
/// the true distance.
pub fn idle_millis(now: u32, last_input: u32) -> (ms: u64)
    ensures
        ms < 0x1_0000_0000,
        ms == (if now >= last_input { now - last_input } else { now + 0x1_0000_0000 - last_input }),
{
    let d: u32 = now.wrapping_sub(last_input);
    d as u64
}

/// The idle time that two readings of a 32-bit millisecond tick counter
/// give: `now`, and `last_input`, the tick of the last input event.
pub fn idle_duration(now: u32, last_input: u32) -> (idle: Duration)
    ensures
        nanos_of(idle) == (if now >= last_input { now - last_input } else { now + 0x1_0000_0000 - last_input })
            * 1_000_000,
{
    duration_from_millis(idle_millis(now, last_input))
}

} // verus!
