use vstd::prelude::*;

verus! {

/// The timing of a slow software PWM output: a period of `interval`, of which the first
/// `on_time` is on. Times are microseconds on the caller's monotonic clock.
#[derive(Copy, Clone, Debug)]
pub struct PwmTiming {
    pub interval: u64,
    pub on_time: u64,
    pub start_of_interval: u64,
}

/// What one tick asks of the output: the level to drive, and how long until the next change
/// (`None` when the output is constantly on or off).
pub open spec fn tick_result(t: PwmTiming, now: u64) -> (bool, Option<u64>) {
    if t.on_time == 0 {
        (false, None)
    } else if t.on_time == t.interval {
        (true, None)
    } else {
        let elapsed = if now >= t.start_of_interval {
            now - t.start_of_interval
        } else {
            0
        };
        let in_cycle = if elapsed > t.interval {
            0
        } else {
            elapsed
        };
        if in_cycle < t.on_time {
            (true, Some(t.on_time))
        } else {
            (false, Some((t.interval - t.on_time) as u64))
        }
    }
}

/// Where the period starts after a tick: a new period begins when the current one is over.
pub open spec fn period_start_after(t: PwmTiming, now: u64) -> u64 {
    if t.on_time == 0 || t.on_time == t.interval {
        t.start_of_interval
    } else {
        let elapsed = if now >= t.start_of_interval {
            now - t.start_of_interval
        } else {
            0
        };
        if elapsed > t.interval {
            now
        } else {
            t.start_of_interval
        }
    }
}

impl PwmTiming {
    /// An output that is off, with its period starting at `now`.
    pub fn new(interval: u64, now: u64) -> (p: PwmTiming)
        ensures
            p.interval == interval,
            p.on_time == 0,
            p.start_of_interval == now,
    {
        PwmTiming { interval, on_time: 0, start_of_interval: now }
    }

    /// Sets how long the output is on in each period.
    pub fn set_on_time(&mut self, on_time: u64)
        ensures
            final(self).on_time == on_time,
            final(self).interval == old(self).interval,
            final(self).start_of_interval == old(self).start_of_interval,
    {
        self.on_time = on_time;
    }

    /// Sets the period and the on time together.
    pub fn set_interval(&mut self, interval: u64, on_time: u64)
        ensures
            final(self).on_time == on_time,
            final(self).interval == interval,
            final(self).start_of_interval == old(self).start_of_interval,
    {
        self.interval = interval;
        self.on_time = on_time;
    }

    /// One tick at time `now`.
    pub fn tick(&mut self, now: u64) -> (r: (bool, Option<u64>))
        ensures
            r == tick_result(*old(self), now),
            final(self).start_of_interval == period_start_after(*old(self), now),
            final(self).interval == old(self).interval,
            final(self).on_time == old(self).on_time,
    {
        if self.on_time == 0 {
            return (false, None);
        }
        if self.on_time == self.interval {
            return (true, None);
        }
        let mut time_in_cycle = if now >= self.start_of_interval {
            now - self.start_of_interval
        } else {
            0
        };
        if time_in_cycle > self.interval {
            self.start_of_interval = now;
            time_in_cycle = 0;
        }
        if time_in_cycle < self.on_time {
            (true, Some(self.on_time))
        } else {
            (false, Some(self.interval - self.on_time))
        }
    }
}

/// An output with no on time is always off, and one on for its whole period always on.
pub proof fn lemma_pwm_extremes(t: PwmTiming, now: u64)
    ensures
        t.on_time == 0 ==> tick_result(t, now) == (false, None::<u64>),
        t.on_time == t.interval && t.on_time != 0 ==> tick_result(t, now) == (true, None::<u64>),
{
}

} // verus!
