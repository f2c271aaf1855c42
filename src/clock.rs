//! Time since start-up, kept as an explicit value rather than a global.

use vstd::prelude::*;

verus! {

/// The millisecond counter's value when the firmware started.
#[derive(Clone, Copy, Debug, PartialEq, Eq, Structural)]
pub struct StartTime {
    pub start_ms: u32,
}

/// The millisecond counter for a timer value in microseconds: whole
/// milliseconds, wrapped to 32 bits.
pub open spec fn millis_of(micros: i64) -> u32 {
    ((micros / 1000) % 0x1_0000_0000) as u32
}

/// The millisecond counter for the timer value `micros` (microseconds since
/// boot, never negative).
pub fn time_ms(micros: i64) -> (r: u32)
    requires
        micros >= 0,
    ensures
        r == millis_of(micros),
{
    ((micros / 1000) as u64 % 0x1_0000_0000) as u32
}

/// Records `now_ms` as the moment of start-up.
pub fn init_start_time(now_ms: u32) -> (r: StartTime)
    ensures
        r.start_ms == now_ms,
{
    StartTime { start_ms: now_ms }
}

impl StartTime {
    /// Milliseconds from start-up to `now_ms`, modulo 2^32: correct across
    /// one wrap of the counter.
    pub fn duration_since_start(&self, now_ms: u32) -> (r: u32)
        ensures
            r == (now_ms - self.start_ms) % 0x1_0000_0000,
            now_ms >= self.start_ms ==> r == now_ms - self.start_ms,
    {
        now_ms.wrapping_sub(self.start_ms)
    }
}

/// How long the frame loop sleeps after a frame whose work took
/// `elapsed_ms`: the rest of the frame period `frame_ms`, or nothing once the
/// period is used up.
pub fn frame_delay(frame_ms: u32, elapsed_ms: u32) -> (r: u32)
    ensures
        elapsed_ms < frame_ms ==> r == frame_ms - elapsed_ms,
        elapsed_ms >= frame_ms ==> r == 0,
{
    if elapsed_ms < frame_ms {
        frame_ms - elapsed_ms
    } else {
        0
    }
}

} // verus!
