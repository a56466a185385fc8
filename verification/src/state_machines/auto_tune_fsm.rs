use vstd::prelude::*;

verus! {

/// The stages of an auto-tune run, in order.
#[derive(Debug, Copy, Clone, PartialEq, Eq, Structural)]
pub enum State {
    Setup,
    GatheringData,
    AnalyzingData,
    Done,
}

/// The stage after `s`; `Done` is the last one.
pub open spec fn stage_after(s: State) -> Option<State> {
    match s {
        State::Setup => Some(State::GatheringData),
        State::GatheringData => Some(State::AnalyzingData),
        State::AnalyzingData => Some(State::Done),
        State::Done => None,
    }
}

impl State {
    /// Moves to the next stage and returns it; at the last stage nothing moves.
    pub fn next(&mut self) -> (r: Option<State>)
        ensures
            r == stage_after(*old(self)),
            *final(self) == match r {
                Some(n) => n,
                None => *old(self),
            },
    {
        match self {
            State::Setup => {
                *self = State::GatheringData;
                Some(State::GatheringData)
            },
            State::GatheringData => {
                *self = State::AnalyzingData;
                Some(State::AnalyzingData)
            },
            State::AnalyzingData => {
                *self = State::Done;
                Some(State::Done)
            },
            State::Done => None,
        }
    }
}

/// An auto-tune run that yields parameters of type `P` when it is done. Times are
/// microseconds on the caller's monotonic clock.
pub struct AutoTuner<P> {
    pub state: State,
    pub parameters: Option<P>,
    pub start_time: u64,
    pub duration: u64,
    pub delta_time: u64,
    pub next_reading: u64,
}

impl<P: Copy> AutoTuner<P> {
    /// A run starting at `now`: one minute long, a reading every second, the first one due
    /// now.
    pub fn new(now: u64) -> (t: Self)
        ensures
            t.state == State::Setup,
            t.parameters is None,
            t.start_time == now,
            t.duration == 60_000_000,
            t.delta_time == 1_000_000,
            t.next_reading == now,
    {
        AutoTuner {
            state: State::Setup,
            parameters: None,
            start_time: now,
            duration: 60_000_000,
            delta_time: 1_000_000,
            next_reading: now,
        }
    }

    /// One step of the run at time `now`: setting up moves to gathering data, analysing moves
    /// to done, and a finished run returns its parameters.
    pub fn run(&mut self, now: u64) -> (r: Option<P>)
        ensures
            old(self).state == State::Setup ==> final(self).state == State::GatheringData && r is None,
            old(self).state == State::GatheringData ==> final(self).state == State::GatheringData
                && r is None,
            old(self).state == State::AnalyzingData ==> final(self).state == State::Done && r is None,
            old(self).state == State::Done ==> final(self).state == State::Done && r == old(self).parameters,
            final(self).parameters == old(self).parameters,
            final(self).start_time == old(self).start_time,
            final(self).duration == old(self).duration,
            final(self).delta_time == old(self).delta_time,
            final(self).next_reading == old(self).next_reading,
    {
        match self.state {
            State::Setup => {
                self.state = State::GatheringData;
                None
            },
            State::GatheringData => {
                if self.next_reading > now {
                    return None;
                }
                None
            },
            State::AnalyzingData => {
                self.state = State::Done;
                None
            },
            State::Done => self.parameters,
        }
    }
}

} // verus!
