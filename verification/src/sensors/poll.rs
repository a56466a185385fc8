use vstd::prelude::*;

verus! {

/// When a polled sensor is next read. Times are microseconds on the caller's monotonic clock.
#[derive(Copy, Clone, Debug)]
pub struct PollSchedule {
    pub poll_interval: u64,
    pub next_poll: u64,
    /// How much earlier than a full interval the following reading is scheduled.
    pub lead: u64,
}

impl PollSchedule {
    /// A schedule whose first reading is due at `now`.
    pub fn new(poll_interval: u64, lead: u64, now: u64) -> (p: PollSchedule)
        ensures
            p == (PollSchedule { poll_interval, next_poll: now, lead }),
    {
        PollSchedule { poll_interval, next_poll: now, lead }
    }

    /// Asks at time `now` whether a reading is due. When it is not, returns `(false, wait)`
    /// with the time until it is. When it is, returns `(true, interval)` and schedules the
    /// next reading a full interval (less the lead) from `now`.
    pub fn poll(&mut self, now: u64) -> (r: (bool, u64))
        requires
            old(self).lead <= old(self).poll_interval,
            now + old(self).poll_interval <= u64::MAX,
        ensures
            now < old(self).next_poll ==> r == (false, (old(self).next_poll - now) as u64)
                && *final(self) == *old(self),
            now >= old(self).next_poll ==> r == (true, old(self).poll_interval)
                && *final(self) == (PollSchedule {
                next_poll: (now + old(self).poll_interval - old(self).lead) as u64,
                ..*old(self)
            }),
    {
        if now < self.next_poll {
            return (false, self.next_poll - now);
        }
        self.next_poll = now + self.poll_interval - self.lead;
        (true, self.poll_interval)
    }

    /// Reads are due again from `now`, with a new interval.
    pub fn set_poll_interval(&mut self, poll_interval: u64, now: u64)
        ensures
            *final(self) == (PollSchedule { poll_interval, next_poll: now, ..*old(self) }),
    {
        self.poll_interval = poll_interval;
        self.next_poll = now;
    }
}

} // verus!
