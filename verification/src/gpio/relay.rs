use vstd::prelude::*;

verus! {

/// What a relay is doing; times are microseconds on the caller's monotonic clock.
#[derive(Copy, Clone, Debug, PartialEq, Eq, Structural)]
pub enum State {
    On,
    Off,
    /// On until the given time, then off.
    OnUntil(u64),
    /// Off until the given time, then on.
    OffUntil(u64),
}

/// The state a relay moves to at time `now`: a timed state whose time has come gives way to
/// the opposite steady state; otherwise there is nothing to move to (`None` for the steady
/// states, the same state for a timed one still running).
pub open spec fn state_at(s: State, now: u64) -> Option<State> {
    match s {
        State::On => None,
        State::Off => None,
        State::OnUntil(t) => if now < t {
            Some(State::OnUntil(t))
        } else {
            Some(State::Off)
        },
        State::OffUntil(t) => if now < t {
            Some(State::OffUntil(t))
        } else {
            Some(State::On)
        },
    }
}

/// Whether the relay's output is energised in this state.
pub open spec fn is_energised(s: State) -> bool {
    s is On || s is OnUntil
}

/// How long until a timed state runs out (zero once it has), `None` for a steady state.
pub open spec fn time_left(s: State, now: u64) -> Option<u64> {
    match s {
        State::OnUntil(t) => Some(if t > now { (t - now) as u64 } else { 0 }),
        State::OffUntil(t) => Some(if t > now { (t - now) as u64 } else { 0 }),
        _ => None,
    }
}

impl State {
    /// A relay starts off.
    pub fn default() -> (s: State)
        ensures
            s == State::Off,
    {
        State::Off
    }

    /// On, for `on_time` from `now` when given, else for good.
    pub fn on(on_time: Option<u64>, now: u64) -> (s: State)
        requires
            on_time matches Some(d) ==> now + d <= u64::MAX,
        ensures
            s == match on_time {
                Some(d) => State::OnUntil((now + d) as u64),
                None => State::On,
            },
    {
        if let Some(on_time) = on_time {
            State::OnUntil(now + on_time)
        } else {
            State::On
        }
    }

    /// Off, for `off_time` from `now` when given, else for good.
    pub fn off(off_time: Option<u64>, now: u64) -> (s: State)
        requires
            off_time matches Some(d) ==> now + d <= u64::MAX,
        ensures
            s == match off_time {
                Some(d) => State::OffUntil((now + d) as u64),
                None => State::Off,
            },
    {
        if let Some(off_time) = off_time {
            State::OffUntil(now + off_time)
        } else {
            State::Off
        }
    }

    /// Moves a timed state on at time `now`, and returns the state to apply, if any.
    pub fn next(&mut self, now: u64) -> (r: Option<State>)
        ensures
            r == state_at(*old(self), now),
            *final(self) == match r {
                Some(n) => n,
                None => *old(self),
            },
    {
        let next = match self {
            State::On => None,
            State::Off => None,
            State::OnUntil(off_instant) => {
                if now < *off_instant {
                    return Some(State::OnUntil(*off_instant));
                }
                Some(State::Off)
            },
            State::OffUntil(on_instant) => {
                if now < *on_instant {
                    return Some(State::OffUntil(*on_instant));
                }
                Some(State::On)
            },
        };
        if let Some(next) = next {
            *self = next;
        }
        next
    }

    /// Whether the output is energised in this state.
    pub fn energised(&self) -> (b: bool)
        ensures
            b == is_energised(*self),
    {
        match self {
            State::On | State::OnUntil(_) => true,
            _ => false,
        }
    }

    /// How long the state still runs at time `now`: zero once its time has come, `None` for
    /// a steady state.
    pub fn remaining(&self, now: u64) -> (r: Option<u64>)
        ensures
            r == time_left(*self, now),
    {
        match self {
            State::OnUntil(t) | State::OffUntil(t) => Some(
                if *t > now {
                    *t - now
                } else {
                    0
                },
            ),
            _ => None,
        }
    }

    /// One tick of a relay at time `now`: when there is a state to apply, the output level to
    /// drive and how long until the state runs out.
    pub fn tick(&mut self, now: u64) -> (r: Option<(bool, Option<u64>)>)
        ensures
            *final(self) == match state_at(*old(self), now) {
                Some(n) => n,
                None => *old(self),
            },
            r == match state_at(*old(self), now) {
                Some(n) => Some((is_energised(n), time_left(n, now))),
                None => None,
            },
    {
        match self.next(now) {
            Some(next_state) => Some((next_state.energised(), next_state.remaining(now))),
            None => None,
        }
    }
}

/// A relay turned on for a while stays on until its time comes, and then turns off for good.
pub proof fn lemma_timed_on_runs_out(now: u64, d: u64, later: u64)
    requires
        now + d <= u64::MAX,
    ensures
        later < now + d ==> state_at(State::OnUntil((now + d) as u64), later) == Some(
            State::OnUntil((now + d) as u64),
        ),
        later >= now + d ==> state_at(State::OnUntil((now + d) as u64), later) == Some(State::Off),
        state_at(State::Off, later) is None,
{
}

} // verus!
