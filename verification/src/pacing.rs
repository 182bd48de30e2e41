use vstd::prelude::*;

verus! {

/// The presentation cadence, in ticks of the display loop per second.
pub const REFRESH_RATE_HZ: u32 = 60;

/// Whole milliseconds of one tick of a `rate_hz` cadence, `None` for a
/// degenerate rate of zero.
pub fn interval_millis(rate_hz: u32) -> (r: Option<u64>)
    ensures
        match r {
            Some(d) => rate_hz > 0 && d as int == 1000int / rate_hz as int,
            None => rate_hz == 0,
        },
{
    if rate_hz > 0 {
        Some(1000u64 / (rate_hz as u64))
    } else {
        None
    }
}

/// A monotonic deadline schedule for one cadence: each deadline is the
/// previous one plus a fixed interval, so processing jitter never
/// accumulates into drift. The decode worker keys one clock to the stream's
/// nominal frame duration; the presentation loop keys an independent one to
/// the fixed refresh interval. The caller supplies the current monotonic
/// time in milliseconds and performs the actual sleeping.
#[derive(Clone, Copy, Debug, PartialEq, Eq, Structural)]
pub struct PacingClock {
    pub interval_millis: u64,
    pub next_deadline_millis: u64,
}

/// Sum of a deadline and an interval, held at the top of the clock's range.
pub open spec fn saturated_next(deadline: u64, interval: u64) -> int {
    if deadline + interval <= u64::MAX {
        deadline + interval
    } else {
        u64::MAX as int
    }
}

impl PacingClock {
    /// Starts the schedule: the first deadline is one interval after `now`.
    pub fn new(interval_millis: u64, now_millis: u64) -> (c: PacingClock)
        ensures
            c.interval_millis == interval_millis,
            c.next_deadline_millis as int == saturated_next(now_millis, interval_millis),
    {
        let next: u64 = if now_millis <= u64::MAX - interval_millis {
            now_millis + interval_millis
        } else {
            u64::MAX
        };
        PacingClock { interval_millis, next_deadline_millis: next }
    }

    /// Moves the schedule one tick forward: the next deadline is the previous
    /// deadline plus the interval, independent of when the tick's work
    /// actually finished.
    pub fn advance(&mut self)
        ensures
            final (self).interval_millis == old(self).interval_millis,
            final (self).next_deadline_millis as int == saturated_next(
                old(self).next_deadline_millis,
                old(self).interval_millis,
            ),
    {
        if self.next_deadline_millis <= u64::MAX - self.interval_millis {
            self.next_deadline_millis = self.next_deadline_millis + self.interval_millis;
        } else {
            self.next_deadline_millis = u64::MAX;
        }
    }

    /// How long to sleep from `now` to the next deadline: zero when the
    /// deadline already passed, so a late tick never blocks.
    pub fn wait_millis(&self, now_millis: u64) -> (w: u64)
        ensures
            w as int == if now_millis >= self.next_deadline_millis {
                0
            } else {
                self.next_deadline_millis - now_millis
            },
    {
        if now_millis >= self.next_deadline_millis {
            0
        } else {
            self.next_deadline_millis - now_millis
        }
    }
}

} // verus!
