use vstd::prelude::*;

verus! {

broadcast use vstd::string::group_string_axioms;

/// The debounced position of one switch.
#[derive(Debug, Copy, Clone, PartialEq, Eq, Structural)]
pub enum SwitchState {
    Active,
    Released,
}

/// The position a switch takes given what its pin reads (`true`: closed), and whether it
/// changed.
pub open spec fn switch_after(current: SwitchState, closed: bool) -> Option<SwitchState> {
    if closed && current == SwitchState::Released {
        Some(SwitchState::Active)
    } else if !closed && current == SwitchState::Active {
        Some(SwitchState::Released)
    } else {
        None
    }
}

impl SwitchState {
    /// A switch starts released.
    pub fn default() -> (s: SwitchState)
        ensures
            s == SwitchState::Released,
    {
        SwitchState::Released
    }

    /// The new position when the pin reading differs from the current position, else `None`.
    pub fn update(&self, state: bool) -> (r: Option<SwitchState>)
        ensures
            r == switch_after(*self, state),
    {
        match (state, self) {
            (true, SwitchState::Released) => Some(SwitchState::Active),
            (false, SwitchState::Active) => Some(SwitchState::Released),
            _ => None,
        }
    }
}

/// What the combination of the three switches asks the machine to do.
#[derive(Debug, Copy, Clone, PartialEq, Eq, Structural)]
pub enum SwitchesState {
    Idle,
    Brew,
    HotWater,
    Steam,
    AutoTune,
    Backflush,
}

/// The request given by the brew, hot water and steam switches. Brew wins over hot water,
/// which wins over steam; brew with hot water asks for a backflush, and all three for an
/// auto-tune.
pub open spec fn requested(brew: SwitchState, hot_water: SwitchState, steam: SwitchState) -> SwitchesState {
    let b = brew == SwitchState::Active;
    let h = hot_water == SwitchState::Active;
    let s = steam == SwitchState::Active;
    if b && h && s {
        SwitchesState::AutoTune
    } else if b && h {
        SwitchesState::Backflush
    } else if b {
        SwitchesState::Brew
    } else if h {
        SwitchesState::HotWater
    } else if s {
        SwitchesState::Steam
    } else {
        SwitchesState::Idle
    }
}

/// The name of a request.
pub open spec fn request_name(s: SwitchesState) -> Seq<char> {
    match s {
        SwitchesState::Idle => "Idle"@,
        SwitchesState::Brew => "Brew"@,
        SwitchesState::HotWater => "Hot Water"@,
        SwitchesState::Steam => "Steam"@,
        SwitchesState::AutoTune => "Autotune"@,
        SwitchesState::Backflush => "Backflush"@,
    }
}

impl SwitchesState {
    /// The request the three switches give; it does not depend on the current request.
    pub fn update(&self, brew: SwitchState, hot_water: SwitchState, steam: SwitchState) -> (r:
        Self)
        ensures
            r == requested(brew, hot_water, steam),
    {
        match (brew, hot_water, steam) {
            (SwitchState::Active, SwitchState::Active, SwitchState::Active) => Self::AutoTune,
            (SwitchState::Active, SwitchState::Active, SwitchState::Released) => Self::Backflush,
            (SwitchState::Active, _, _) => Self::Brew,
            (_, SwitchState::Active, _) => Self::HotWater,
            (_, _, SwitchState::Active) => Self::Steam,
            _ => Self::Idle,
        }
    }

    /// The name of the request.
    pub fn name(&self) -> (s: String)
        ensures
            s@ == request_name(*self),
    {
        match self {
            Self::Idle => "Idle".to_string(),
            Self::Brew => "Brew".to_string(),
            Self::HotWater => "Hot Water".to_string(),
            Self::Steam => "Steam".to_string(),
            Self::AutoTune => "Autotune".to_string(),
            Self::Backflush => "Backflush".to_string(),
        }
    }
}

/// The debounced positions of the brew, hot water and steam switches.
#[derive(Debug, Copy, Clone)]
pub struct Switches {
    brew_switch_state: SwitchState,
    hot_water_switch_state: SwitchState,
    steam_switch_state: SwitchState,
}

impl Switches {
    /// All switches released.
    pub fn new() -> (s: Switches)
        ensures
            s.brew() == SwitchState::Released,
            s.hot_water() == SwitchState::Released,
            s.steam() == SwitchState::Released,
    {
        Switches {
            brew_switch_state: SwitchState::Released,
            hot_water_switch_state: SwitchState::Released,
            steam_switch_state: SwitchState::Released,
        }
    }

    pub closed spec fn brew(&self) -> SwitchState {
        self.brew_switch_state
    }

    pub closed spec fn hot_water(&self) -> SwitchState {
        self.hot_water_switch_state
    }

    pub closed spec fn steam(&self) -> SwitchState {
        self.steam_switch_state
    }

    /// Takes one reading of the three pins (`true`: closed) into the debounced positions.
    pub fn sample(&mut self, brew_closed: bool, hot_water_closed: bool, steam_closed: bool)
        ensures
            final(self).brew() == (match switch_after(old(self).brew(), brew_closed) {
                Some(n) => n,
                None => old(self).brew(),
            }),
            final(self).hot_water() == (match switch_after(
                old(self).hot_water(),
                hot_water_closed,
            ) {
                Some(n) => n,
                None => old(self).hot_water(),
            }),
            final(self).steam() == (match switch_after(old(self).steam(), steam_closed) {
                Some(n) => n,
                None => old(self).steam(),
            }),
    {
        if let Some(new_state) = self.brew_switch_state.update(brew_closed) {
            self.brew_switch_state = new_state;
        }
        if let Some(new_state) = self.hot_water_switch_state.update(hot_water_closed) {
            self.hot_water_switch_state = new_state;
        }
        if let Some(new_state) = self.steam_switch_state.update(steam_closed) {
            self.steam_switch_state = new_state;
        }
    }

    /// What the switches currently ask for.
    pub fn get_state(&self) -> (r: SwitchesState)
        ensures
            r == requested(self.brew(), self.hot_water(), self.steam()),
    {
        let brew = self.brew_switch_state;
        let hot_water = self.hot_water_switch_state;
        let steam = self.steam_switch_state;
        SwitchesState::Idle.update(brew, hot_water, steam)
    }

    /// The positions as the status report gives them: `true` for a switch that is active.
    pub fn positions(&self) -> (r: crate::schemas::status::Switches)
        ensures
            r.brew == (self.brew() == SwitchState::Active),
            r.water == (self.hot_water() == SwitchState::Active),
            r.steam == (self.steam() == SwitchState::Active),
    {
        crate::schemas::status::Switches {
            brew: self.brew_switch_state == SwitchState::Active,
            water: self.hot_water_switch_state == SwitchState::Active,
            steam: self.steam_switch_state == SwitchState::Active,
        }
    }
}

/// After a reading, a switch's position matches its pin: closed means active.
pub proof fn lemma_switch_follows_pin(current: SwitchState, closed: bool)
    ensures
        (match switch_after(current, closed) {
            Some(n) => n,
            None => current,
        }) == (if closed {
            SwitchState::Active
        } else {
            SwitchState::Released
        }),
        switch_after(current, closed) is Some <==> (closed != (current == SwitchState::Active)),
{
}

/// Whether a switch is in its active position.
pub open spec fn is_active(s: SwitchState) -> bool {
    s == SwitchState::Active
}

/// What each combination of the front switches asks for, in terms of which switches are on:
/// all three ask for an auto-tune, brew and hot water without steam for a backflush, brew
/// without hot water for a brew (whatever steam is), hot water without brew for hot water
/// (whatever steam is), steam alone for steam, and none for idle.
pub proof fn lemma_request_meaning(brew: SwitchState, hot_water: SwitchState, steam: SwitchState)
    ensures
        (requested(brew, hot_water, steam) == SwitchesState::AutoTune) <==> (is_active(brew)
            && is_active(hot_water) && is_active(steam)),
        (requested(brew, hot_water, steam) == SwitchesState::Backflush) <==> (is_active(brew)
            && is_active(hot_water) && !is_active(steam)),
        (requested(brew, hot_water, steam) == SwitchesState::Brew) <==> (is_active(brew)
            && !is_active(hot_water)),
        (requested(brew, hot_water, steam) == SwitchesState::HotWater) <==> (!is_active(brew)
            && is_active(hot_water)),
        (requested(brew, hot_water, steam) == SwitchesState::Steam) <==> (!is_active(brew)
            && !is_active(hot_water) && is_active(steam)),
        (requested(brew, hot_water, steam) == SwitchesState::Idle) <==> (!is_active(brew)
            && !is_active(hot_water) && !is_active(steam)),
{
}

} // verus!
