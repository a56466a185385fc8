use vstd::prelude::*;

verus! {

/// A request to the pump. `B` is a pressure (bar), `G` a weight (grams); durations are
/// microseconds.
#[derive(Copy, Clone, Debug)]
pub enum Message<B, G> {
    On,
    Off,
    SetPressure(B),
    OnForTime(u64),
    OnForTimeAtPressure(u64, B),
    OnForYield { pressure: B, grams: G },
    OnForHotWater,
    Backflush,
}

/// What the pump is doing. Times are microseconds on the caller's monotonic clock.
#[derive(Copy, Clone, Debug)]
pub enum State<G> {
    /// Running, until the given time when there is one.
    On(Option<u64>),
    Off,
    /// Running until the scale has gained `target` over its reading `start`.
    OnForYield { start: G, target: G },
    Backflush,
}

/// The pressure the pump motor is driven at.
#[derive(Copy, Clone, Debug)]
pub enum PressureSetting<B> {
    /// The configured maximum pressure.
    Max,
    /// The motor stopped (zero duty cycle).
    Released,
    /// A requested pressure.
    Bar(B),
}

/// What a transition asks of the hardware: the solenoid valve (`Some(true)`: open,
/// `Some(false)`: closed, `None`: left as it is) and the motor pressure.
#[derive(Copy, Clone, Debug)]
pub struct Actuation<B> {
    pub valve: Option<bool>,
    pub pressure: PressureSetting<B>,
}

/// The pump's controller: its state and where it is in a backflush cycle.
pub struct PumpControl<G> {
    pub state: State<G>,
    pub backflush_cycle_start: u64,
    pub backflush_in_off_cycle: bool,
}

/// The state a message puts the pump in, at time `now` and with the scale reading
/// `current_scale`.
pub open spec fn state_for<B, G>(message: Message<B, G>, now: u64, current_scale: G) -> State<G> {
    match message {
        Message::On => State::On(None),
        Message::Off => State::Off,
        Message::SetPressure(_) => State::On(None),
        Message::OnForTime(d) => State::On(Some((now + d) as u64)),
        Message::OnForTimeAtPressure(d, _) => State::On(Some((now + d) as u64)),
        Message::OnForYield { pressure: _, grams } => State::OnForYield {
            start: current_scale,
            target: grams,
        },
        Message::OnForHotWater => State::On(None),
        Message::Backflush => State::Backflush,
    }
}

/// What a message asks of the hardware: the brew requests open the valve, hot water closes
/// it (the water goes to the wand), stopping closes it and releases the motor.
pub open spec fn actuation_for<B, G>(message: Message<B, G>) -> Actuation<B> {
    match message {
        Message::On => Actuation { valve: Some(true), pressure: PressureSetting::Max },
        Message::Off => Actuation { valve: Some(false), pressure: PressureSetting::Released },
        Message::SetPressure(p) => Actuation { valve: None, pressure: PressureSetting::Bar(p) },
        Message::OnForTime(_) => Actuation { valve: Some(true), pressure: PressureSetting::Max },
        Message::OnForTimeAtPressure(_, p) => Actuation {
            valve: Some(true),
            pressure: PressureSetting::Bar(p),
        },
        Message::OnForYield { pressure, grams: _ } => Actuation {
            valve: Some(true),
            pressure: PressureSetting::Bar(pressure),
        },
        Message::OnForHotWater => Actuation {
            valve: Some(false),
            pressure: PressureSetting::Max,
        },
        Message::Backflush => Actuation { valve: Some(true), pressure: PressureSetting::Max },
    }
}

/// Whether a message's duration, added to `now`, fits the clock.
pub open spec fn fits_clock<B, G>(message: Message<B, G>, now: u64) -> bool {
    match message {
        Message::OnForTime(d) => now + d <= u64::MAX,
        Message::OnForTimeAtPressure(d, _) => now + d <= u64::MAX,
        _ => true,
    }
}

impl<G: Copy> PumpControl<G> {
    /// A stopped pump, its backflush cycle starting at `now`.
    pub fn new(now: u64) -> (p: Self)
        ensures
            p.state is Off,
            p.backflush_cycle_start == now,
            p.backflush_in_off_cycle,
    {
        PumpControl { state: State::Off, backflush_cycle_start: now, backflush_in_off_cycle: true }
    }

    /// Handles a message at time `now`; `current_scale` is the scale's reading, used by the
    /// yield request. A backflush request starts a new cycle in its on phase.
    pub fn transition<B: Copy>(&mut self, message: Message<B, G>, now: u64, current_scale: G) -> (a:
        Actuation<B>)
        requires
            fits_clock(message, now),
        ensures
            final(self).state == state_for(message, now, current_scale),
            a == actuation_for(message),
            message is Backflush ==> final(self).backflush_cycle_start == now
                && !final(self).backflush_in_off_cycle,
            !(message is Backflush) ==> final(self).backflush_cycle_start
                == old(self).backflush_cycle_start && final(self).backflush_in_off_cycle
                == old(self).backflush_in_off_cycle,
    {
        match message {
            Message::On => {
                self.state = State::On(None);
                Actuation { valve: Some(true), pressure: PressureSetting::Max }
            },
            Message::Off => {
                self.state = State::Off;
                Actuation { valve: Some(false), pressure: PressureSetting::Released }
            },
            Message::SetPressure(pressure) => {
                self.state = State::On(None);
                Actuation { valve: None, pressure: PressureSetting::Bar(pressure) }
            },
            Message::OnForTime(duration) => {
                self.state = State::On(Some(now + duration));
                Actuation { valve: Some(true), pressure: PressureSetting::Max }
            },
            Message::OnForTimeAtPressure(duration, pressure) => {
                self.state = State::On(Some(now + duration));
                Actuation { valve: Some(true), pressure: PressureSetting::Bar(pressure) }
            },
            Message::OnForYield { pressure, grams } => {
                self.state = State::OnForYield { start: current_scale, target: grams };
                Actuation { valve: Some(true), pressure: PressureSetting::Bar(pressure) }
            },
            Message::OnForHotWater => {
                self.state = State::On(None);
                Actuation { valve: Some(false), pressure: PressureSetting::Max }
            },
            Message::Backflush => {
                self.state = State::Backflush;
                self.backflush_cycle_start = now;
                self.backflush_in_off_cycle = false;
                Actuation { valve: Some(true), pressure: PressureSetting::Max }
            },
        }
    }

    /// Whether a timed run is over at time `now` (strictly after its end).
    pub fn timer_expired(&self, now: u64) -> (r: bool)
        ensures
            r == (self.state matches State::On(Some(end)) && now > end),
    {
        match self.state {
            State::On(Some(end)) => now > end,
            _ => false,
        }
    }

    /// One step of a backflush at time `now`: the pump runs for `on_time`, then rests for
    /// `off_time`, and starts over. Returns what the hardware must do, if anything.
    pub fn backflush_step<B>(&mut self, now: u64, on_time: u64, off_time: u64) -> (a: Option<
        Actuation<B>,
    >)
        requires
            old(self).state is Backflush,
            on_time + off_time <= u64::MAX,
        ensures
            final(self).state == old(self).state,
            ({
                let elapsed = if now >= old(self).backflush_cycle_start {
                    now - old(self).backflush_cycle_start
                } else {
                    0
                };
                if elapsed > off_time + on_time {
                    &&& a == Some(
                        Actuation::<B> { valve: Some(true), pressure: PressureSetting::Max },
                    )
                    &&& final(self).backflush_cycle_start == now
                    &&& !final(self).backflush_in_off_cycle
                } else if elapsed > on_time && !old(self).backflush_in_off_cycle {
                    &&& a == Some(
                        Actuation::<B> { valve: Some(false), pressure: PressureSetting::Released },
                    )
                    &&& final(self).backflush_cycle_start == old(self).backflush_cycle_start
                    &&& final(self).backflush_in_off_cycle
                } else {
                    &&& a is None
                    &&& final(self).backflush_cycle_start == old(self).backflush_cycle_start
                    &&& final(self).backflush_in_off_cycle == old(self).backflush_in_off_cycle
                }
            }),
    {
        let elapsed = if now >= self.backflush_cycle_start {
            now - self.backflush_cycle_start
        } else {
            0
        };
        if elapsed > off_time + on_time {
            self.backflush_cycle_start = now;
            self.backflush_in_off_cycle = false;
            Some(Actuation { valve: Some(true), pressure: PressureSetting::Max })
        } else if elapsed > on_time && !self.backflush_in_off_cycle {
            self.backflush_in_off_cycle = true;
            Some(Actuation { valve: Some(false), pressure: PressureSetting::Released })
        } else {
            None
        }
    }
}

/// The motor is stopped exactly when the pump is turned off, and turning it off also closes
/// the valve; every request that leaves the pump running keeps the motor driven. Hot water is
/// the one running request that closes the valve, sending the water to the wand at full
/// pressure; every brewing request opens the valve to the group.
pub proof fn lemma_running_pump_keeps_pressure<B, G>(message: Message<B, G>, now: u64, current_scale: G)
    ensures
        (actuation_for(message).pressure is Released) <==> (state_for(
            message,
            now,
            current_scale,
        ) is Off),
        state_for(message, now, current_scale) is Off ==> actuation_for(message).valve == Some(
            false,
        ),
        (actuation_for(message).valve == Some(false) && !(actuation_for(message).pressure is Released))
            <==> message is OnForHotWater,
        message is OnForHotWater ==> actuation_for(message).pressure is Max && state_for(
            message,
            now,
            current_scale,
        ) is On,
        (message is On || message is OnForTime || message is OnForTimeAtPressure
            || message is OnForYield || message is Backflush) ==> actuation_for(message).valve
            == Some(true),
{
}

} // verus!
