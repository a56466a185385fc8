use vstd::prelude::*;
use crate::gpio::switch::SwitchesState;
use crate::types::Millimeters;
use crate::state_machines::system_fsm::{SystemState, SystemStatus};
use crate::state_machines::operational_fsm::{Operational, OperationalState};

verus! {

broadcast use vstd::string::group_string_axioms;

/// How long the pump runs for a shot started from the brew switch, in microseconds.
pub const BREW_PUMP_TIME: u64 = 5_000_000;

/// One thing the main loop does in answer to the switches. The boiler modes stand for the
/// machine's settings: brew temperature (also used for hot water), steam, and the cooler
/// backflush temperature.
#[derive(Debug, Copy, Clone, PartialEq, Eq, Structural)]
pub enum Action {
    /// Take the scale out of its brewing mode.
    StopBrewing,
    /// Record an info event that the machine switched to the given position.
    AnnounceSwitch(SwitchesState),
    BoilerOff,
    BoilerBrewTemperature,
    BoilerSteam,
    BoilerBackflushTemperature,
    PumpOff,
    /// Run the pump for the given time, in microseconds.
    PumpOnFor(u64),
    PumpHotWater,
    PumpBackflush,
    /// Put the scale in its brewing mode.
    ScaleStartBrew,
    /// Ask the level sensor for a reading; the brew goes on once it has been read.
    ReadLevel,
    /// Refuse to brew: the water is too low.
    WarnLowWater,
    /// Ask the operational state machine to start auto-tuning.
    StartAutoTune,
}

/// What the main loop does when the switches change from `previous` to `current`: leaving
/// brew stops the scale's brewing mode, then the new position is served. Nothing is done when
/// the switches did not change.
pub open spec fn switch_actions(previous: SwitchesState, current: SwitchesState) -> Seq<Action> {
    if previous == current {
        Seq::empty()
    } else {
        let first = if previous == SwitchesState::Brew {
            seq![Action::StopBrewing]
        } else {
            Seq::empty()
        };
        first + match current {
            SwitchesState::Idle => seq![
                Action::AnnounceSwitch(SwitchesState::Idle),
                Action::BoilerOff,
                Action::PumpOff,
            ],
            SwitchesState::Brew => seq![Action::ReadLevel],
            SwitchesState::HotWater => seq![Action::BoilerBrewTemperature, Action::PumpHotWater],
            SwitchesState::Steam => seq![
                Action::AnnounceSwitch(SwitchesState::Steam),
                Action::PumpOff,
                Action::BoilerSteam,
            ],
            SwitchesState::Backflush => seq![
                Action::AnnounceSwitch(SwitchesState::Backflush),
                Action::BoilerBackflushTemperature,
                Action::PumpBackflush,
            ],
            SwitchesState::AutoTune => seq![
                Action::AnnounceSwitch(SwitchesState::AutoTune),
                Action::PumpOff,
                Action::StartAutoTune,
            ],
        }
    }
}

/// What the main loop does once the level sensor has been read for a brew: the reading is the
/// distance down to the water, so a distance at or beyond the threshold means too little water.
pub open spec fn brew_actions(level: Millimeters, low_level_threshold: Millimeters) -> Seq<Action> {
    if level >= low_level_threshold {
        seq![Action::WarnLowWater]
    } else {
        seq![
            Action::AnnounceSwitch(SwitchesState::Brew),
            Action::ScaleStartBrew,
            Action::PumpOnFor(BREW_PUMP_TIME),
            Action::BoilerBrewTemperature,
        ]
    }
}

/// The text of the info event recorded on switching to a position.
pub open spec fn announcement(s: SwitchesState) -> Seq<char> {
    match s {
        SwitchesState::Idle => "Switched to idle"@,
        SwitchesState::Brew => "Switched to brew"@,
        SwitchesState::HotWater => "Switched to hot water"@,
        SwitchesState::Steam => "Switched to steam"@,
        SwitchesState::Backflush => "Switched to backflush"@,
        SwitchesState::AutoTune => "Switched to auto-tune"@,
    }
}

/// The text of the info event recorded on switching to `s`.
pub fn announcement_text(s: SwitchesState) -> (text: String)
    ensures
        text@ == announcement(s),
{
    match s {
        SwitchesState::Idle => "Switched to idle".to_string(),
        SwitchesState::Brew => "Switched to brew".to_string(),
        SwitchesState::HotWater => "Switched to hot water".to_string(),
        SwitchesState::Steam => "Switched to steam".to_string(),
        SwitchesState::Backflush => "Switched to backflush".to_string(),
        SwitchesState::AutoTune => "Switched to auto-tune".to_string(),
    }
}

/// The actions for a change of the switches.
pub fn on_switch_change(previous: SwitchesState, current: SwitchesState) -> (actions: Vec<Action>)
    ensures
        actions@ == switch_actions(previous, current),
{
    let mut actions: Vec<Action> = Vec::new();
    if previous == current {
        proof {
            assert(actions@ =~= switch_actions(previous, current));
        }
        return actions;
    }
    if previous == SwitchesState::Brew {
        actions.push(Action::StopBrewing);
    }
    match current {
        SwitchesState::Idle => {
            actions.push(Action::AnnounceSwitch(SwitchesState::Idle));
            actions.push(Action::BoilerOff);
            actions.push(Action::PumpOff);
        },
        SwitchesState::Brew => {
            actions.push(Action::ReadLevel);
        },
        SwitchesState::HotWater => {
            actions.push(Action::BoilerBrewTemperature);
            actions.push(Action::PumpHotWater);
        },
        SwitchesState::Steam => {
            actions.push(Action::AnnounceSwitch(SwitchesState::Steam));
            actions.push(Action::PumpOff);
            actions.push(Action::BoilerSteam);
        },
        SwitchesState::Backflush => {
            actions.push(Action::AnnounceSwitch(SwitchesState::Backflush));
            actions.push(Action::BoilerBackflushTemperature);
            actions.push(Action::PumpBackflush);
        },
        SwitchesState::AutoTune => {
            actions.push(Action::AnnounceSwitch(SwitchesState::AutoTune));
            actions.push(Action::PumpOff);
            actions.push(Action::StartAutoTune);
        },
    }
    proof {
        assert(actions@ =~= switch_actions(previous, current));
    }
    actions
}

/// The actions once the level has been read for a brew.
pub fn on_level_read(level: Millimeters, low_level_threshold: Millimeters) -> (actions: Vec<Action>)
    ensures
        actions@ == brew_actions(level, low_level_threshold),
{
    let mut actions: Vec<Action> = Vec::new();
    if level >= low_level_threshold {
        actions.push(Action::WarnLowWater);
    } else {
        actions.push(Action::AnnounceSwitch(SwitchesState::Brew));
        actions.push(Action::ScaleStartBrew);
        actions.push(Action::PumpOnFor(BREW_PUMP_TIME));
        actions.push(Action::BoilerBrewTemperature);
    }
    proof {
        assert(actions@ =~= brew_actions(level, low_level_threshold));
    }
    actions
}

/// The pump never runs while the machine heats for steam or stands idle, and a brew only
/// starts the pump when there is enough water.
pub proof fn lemma_pump_safety(previous: SwitchesState, level: Millimeters, threshold: Millimeters)
    ensures
        previous != SwitchesState::Steam ==> switch_actions(previous, SwitchesState::Steam).contains(
            Action::PumpOff,
        ),
        previous != SwitchesState::Idle ==> switch_actions(previous, SwitchesState::Idle).contains(
            Action::PumpOff,
        ),
        level >= threshold ==> !brew_actions(level, threshold).contains(
            Action::PumpOnFor(BREW_PUMP_TIME),
        ),
{
    let first: Seq<Action> = if previous == SwitchesState::Brew { seq![Action::StopBrewing] } else { Seq::empty() };
    if previous != SwitchesState::Steam {
        assert(switch_actions(previous, SwitchesState::Steam)[first.len() as int + 1]
            == Action::PumpOff);
    }
    if previous != SwitchesState::Idle {
        assert(switch_actions(previous, SwitchesState::Idle)[first.len() as int + 2]
            == Action::PumpOff);
    }
    if level >= threshold {
        assert(brew_actions(level, threshold) =~= seq![Action::WarnLowWater]);
    }
}

/// Leaving brew stops the scale's brewing mode before anything else, and only leaving brew
/// does; nothing at all is done when the switches did not change.
pub proof fn lemma_leaving_brew_stops_brewing(previous: SwitchesState, current: SwitchesState)
    ensures
        previous == SwitchesState::Brew && current != SwitchesState::Brew ==> switch_actions(
            previous,
            current,
        ).len() > 0 && switch_actions(previous, current)[0] == Action::StopBrewing,
        switch_actions(previous, current).contains(Action::StopBrewing) <==> (previous
            == SwitchesState::Brew && current != SwitchesState::Brew),
        (switch_actions(previous, current).len() == 0) <==> (previous == current),
{
    let acts = switch_actions(previous, current);
    if previous != current {
        let first: Seq<Action> = if previous == SwitchesState::Brew { seq![Action::StopBrewing] } else { Seq::empty() };
        let rest = acts.subrange(first.len() as int, acts.len() as int);
        assert(acts =~= first + rest);
        assert(!rest.contains(Action::StopBrewing)) by {
            if rest.contains(Action::StopBrewing) {
                let k = choose|k: int| 0 <= k < rest.len() && rest[k] == Action::StopBrewing;
                assert(acts[first.len() + k] == Action::StopBrewing);
            }
        }
        if previous == SwitchesState::Brew {
            assert(acts[0] == Action::StopBrewing);
        } else {
            assert(acts =~= rest);
        }
    }
}

/// Each position is served once the switches reach it: idle turns the boiler and the pump
/// off, brew asks for a level reading (and nothing else yet), hot water heats to the brew
/// temperature and runs the pump for hot water, steam stops the pump and heats for steam,
/// backflush heats to the backflush temperature and runs the backflush, and auto-tune stops
/// the pump and asks for auto-tuning. Every position but brew and hot water is announced.
pub proof fn lemma_switch_serves_position(previous: SwitchesState, current: SwitchesState)
    requires
        previous != current,
    ensures
        current == SwitchesState::Idle ==> switch_actions(previous, current).contains(
            Action::BoilerOff,
        ) && switch_actions(previous, current).contains(Action::PumpOff),
        current == SwitchesState::Brew ==> switch_actions(previous, current).last()
            == Action::ReadLevel && !switch_actions(previous, current).contains(
            Action::PumpOnFor(BREW_PUMP_TIME),
        ),
        current == SwitchesState::HotWater ==> switch_actions(previous, current).contains(
            Action::BoilerBrewTemperature,
        ) && switch_actions(previous, current).contains(Action::PumpHotWater),
        current == SwitchesState::Steam ==> switch_actions(previous, current).contains(
            Action::BoilerSteam,
        ) && !switch_actions(previous, current).contains(Action::PumpHotWater),
        current == SwitchesState::Backflush ==> switch_actions(previous, current).contains(
            Action::BoilerBackflushTemperature,
        ) && switch_actions(previous, current).contains(Action::PumpBackflush),
        current == SwitchesState::AutoTune ==> switch_actions(previous, current).contains(
            Action::PumpOff,
        ) && switch_actions(previous, current).contains(Action::StartAutoTune),
        switch_actions(previous, current).contains(Action::AnnounceSwitch(current)) <==> (current
            != SwitchesState::Brew && current != SwitchesState::HotWater),
{
    let acts = switch_actions(previous, current);
    let first: Seq<Action> = if previous == SwitchesState::Brew { seq![Action::StopBrewing] } else { Seq::empty() };
    let n = first.len() as int;
    let rest = acts.subrange(n, acts.len() as int);
    assert(acts =~= first + rest);
    assert forall|a: Action| #[trigger] acts.contains(a) && a != Action::StopBrewing implies rest.contains(a) by {
        let k = choose|k: int| 0 <= k < acts.len() && acts[k] == a;
        assert(rest[k - n] == a);
    }
    match current {
        SwitchesState::Idle => {
            assert(acts[n + 1] == Action::BoilerOff);
            assert(acts[n + 2] == Action::PumpOff);
            assert(acts[n] == Action::AnnounceSwitch(current));
        },
        SwitchesState::Brew => {
            assert(rest =~= seq![Action::ReadLevel]);
            assert(!rest.contains(Action::AnnounceSwitch(current))) by {
                if rest.contains(Action::AnnounceSwitch(current)) {
                    let k = choose|k: int| 0 <= k < rest.len() && rest[k] == Action::AnnounceSwitch(current);
                }
            }
            assert(!rest.contains(Action::PumpOnFor(BREW_PUMP_TIME))) by {
                if rest.contains(Action::PumpOnFor(BREW_PUMP_TIME)) {
                    let k = choose|k: int| 0 <= k < rest.len() && rest[k] == Action::PumpOnFor(BREW_PUMP_TIME);
                }
            }
        },
        SwitchesState::HotWater => {
            assert(acts[n] == Action::BoilerBrewTemperature);
            assert(acts[n + 1] == Action::PumpHotWater);
            assert(rest =~= seq![Action::BoilerBrewTemperature, Action::PumpHotWater]);
            assert(!rest.contains(Action::AnnounceSwitch(current))) by {
                if rest.contains(Action::AnnounceSwitch(current)) {
                    let k = choose|k: int| 0 <= k < rest.len() && rest[k] == Action::AnnounceSwitch(current);
                }
            }
        },
        SwitchesState::Steam => {
            assert(acts[n] == Action::AnnounceSwitch(current));
            assert(acts[n + 2] == Action::BoilerSteam);
            assert(rest =~= seq![Action::AnnounceSwitch(current), Action::PumpOff, Action::BoilerSteam]);
            assert(!rest.contains(Action::PumpHotWater)) by {
                if rest.contains(Action::PumpHotWater) {
                    let k = choose|k: int| 0 <= k < rest.len() && rest[k] == Action::PumpHotWater;
                }
            }
        },
        SwitchesState::Backflush => {
            assert(acts[n] == Action::AnnounceSwitch(current));
            assert(acts[n + 1] == Action::BoilerBackflushTemperature);
            assert(acts[n + 2] == Action::PumpBackflush);
        },
        SwitchesState::AutoTune => {
            assert(acts[n] == Action::AnnounceSwitch(current));
            assert(acts[n + 1] == Action::PumpOff);
            assert(acts[n + 2] == Action::StartAutoTune);
        },
    }
}

/// One thing the main loop does on a tick, given the state the machine is in.
#[derive(Debug, Copy, Clone, PartialEq, Eq, Structural)]
pub enum TickAction {
    /// Log the readings and show the idle pattern.
    ShowIdle,
    /// Show the boiler temperature on the brewing scale.
    ShowBrewTemperature,
    /// Show the boiler temperature on the steaming scale.
    ShowSteamTemperature,
    /// Announce that the boiler is being auto-tuned.
    AnnounceAutoTune,
    /// Turn the boiler off.
    BoilerOff,
    /// Move the operational state machine from initialising auto-tuning to auto-tuning.
    StartAutoTune,
    /// Start a fresh auto-tuner.
    NewAutoTuner,
    /// Run one step of the auto-tuner.
    RunAutoTuner,
    /// Hand the auto-tuner's parameters to the boiler.
    UpdateBoilerModel,
    /// Move the operational state machine from auto-tuning back to idle.
    CompleteAutoTune,
    /// Go back to the normal loop interval.
    ResetLoopInterval,
    /// Report that the machine is in error.
    ReportError,
    /// Report that the machine has panicked.
    ReportPanic,
    /// Report a state the loop does not handle.
    ReportUnhandled,
}

/// What the main loop does on a tick: while healthy it serves the operational state, and
/// otherwise it only reports.
pub open spec fn tick_actions(system: SystemStatus, operational: Operational) -> Seq<TickAction> {
    match system {
        SystemStatus::Healthy => match operational {
            Operational::Idle => seq![TickAction::ShowIdle],
            Operational::Brewing => seq![TickAction::ShowBrewTemperature],
            Operational::Steaming => seq![TickAction::ShowSteamTemperature],
            Operational::AutoTuneInit => seq![
                TickAction::AnnounceAutoTune,
                TickAction::BoilerOff,
                TickAction::StartAutoTune,
                TickAction::NewAutoTuner,
            ],
            Operational::AutoTuning => seq![TickAction::RunAutoTuner],
            Operational::StartingUp(_) => Seq::empty(),
        },
        SystemStatus::Error(_) => seq![TickAction::ReportError],
        SystemStatus::Panic(_) => seq![TickAction::ReportPanic],
        _ => seq![TickAction::ReportUnhandled],
    }
}

/// What the main loop does after a step of the auto-tuner: once it has its parameters, they
/// go to the boiler and auto-tuning ends; before that nothing is done.
pub open spec fn auto_tune_step_actions(finished: bool) -> Seq<TickAction> {
    if finished {
        seq![
            TickAction::UpdateBoilerModel,
            TickAction::CompleteAutoTune,
            TickAction::ResetLoopInterval,
        ]
    } else {
        Seq::empty()
    }
}

/// The actions of one tick of the main loop.
pub fn on_tick(system: &SystemState, operational: &OperationalState) -> (actions: Vec<TickAction>)
    ensures
        actions@ == tick_actions(system@, operational@),
{
    let mut actions: Vec<TickAction> = Vec::new();
    match system {
        SystemState::Healthy => match operational {
            OperationalState::Idle => actions.push(TickAction::ShowIdle),
            OperationalState::Brewing => actions.push(TickAction::ShowBrewTemperature),
            OperationalState::Steaming => actions.push(TickAction::ShowSteamTemperature),
            OperationalState::AutoTuneInit => {
                actions.push(TickAction::AnnounceAutoTune);
                actions.push(TickAction::BoilerOff);
                actions.push(TickAction::StartAutoTune);
                actions.push(TickAction::NewAutoTuner);
            },
            OperationalState::AutoTuning => actions.push(TickAction::RunAutoTuner),
            OperationalState::StartingUp(_) => {},
        },
        SystemState::Error(_) => actions.push(TickAction::ReportError),
        SystemState::Panic(_) => actions.push(TickAction::ReportPanic),
        _ => actions.push(TickAction::ReportUnhandled),
    }
    proof {
        assert(actions@ =~= tick_actions(system@, operational@));
    }
    actions
}

/// The actions after a step of the auto-tuner; `finished` tells whether it returned its
/// parameters.
pub fn on_auto_tune_step(finished: bool) -> (actions: Vec<TickAction>)
    ensures
        actions@ == auto_tune_step_actions(finished),
{
    let mut actions: Vec<TickAction> = Vec::new();
    if finished {
        actions.push(TickAction::UpdateBoilerModel);
        actions.push(TickAction::CompleteAutoTune);
        actions.push(TickAction::ResetLoopInterval);
    }
    proof {
        assert(actions@ =~= auto_tune_step_actions(finished));
    }
    actions
}

/// The boiler and the auto-tuner are only touched while the machine is healthy: in any other
/// state a tick does nothing but report.
pub proof fn lemma_unhealthy_tick_only_reports(system: SystemStatus, operational: Operational)
    ensures
        !(system is Healthy) ==> tick_actions(system, operational).len() == 1 && (tick_actions(
            system,
            operational,
        )[0] == TickAction::ReportError || tick_actions(system, operational)[0]
            == TickAction::ReportPanic || tick_actions(system, operational)[0]
            == TickAction::ReportUnhandled),
{
}

/// A brew only starts with enough water: at or beyond the threshold the machine only warns,
/// and below it the brew is announced, the scale starts, the pump runs for the brew time and
/// the boiler heats to the brew temperature, without a warning.
pub proof fn lemma_brew_decision(level: Millimeters, threshold: Millimeters)
    ensures
        level >= threshold ==> brew_actions(level, threshold).len() == 1 && brew_actions(
            level,
            threshold,
        )[0] == Action::WarnLowWater,
        level < threshold ==> brew_actions(level, threshold).contains(Action::PumpOnFor(
            BREW_PUMP_TIME,
        )) && brew_actions(level, threshold).contains(Action::ScaleStartBrew) && brew_actions(
            level,
            threshold,
        ).contains(Action::BoilerBrewTemperature) && brew_actions(level, threshold).contains(
            Action::AnnounceSwitch(SwitchesState::Brew),
        ) && !brew_actions(level, threshold).contains(Action::WarnLowWater),
        BREW_PUMP_TIME == 5_000_000,
{
    if level < threshold {
        let acts = brew_actions(level, threshold);
        assert(acts[0] == Action::AnnounceSwitch(SwitchesState::Brew));
        assert(acts[1] == Action::ScaleStartBrew);
        assert(acts[2] == Action::PumpOnFor(BREW_PUMP_TIME));
        assert(acts[3] == Action::BoilerBrewTemperature);
        assert(!acts.contains(Action::WarnLowWater)) by {
            if acts.contains(Action::WarnLowWater) {
                let k = choose|k: int| 0 <= k < acts.len() && acts[k] == Action::WarnLowWater;
            }
        }
    }
}

/// The auto-tuner is only run while the machine is healthy and auto-tuning, and the boiler
/// is only turned off and auto-tuning only started while it is healthy and initialising
/// auto-tuning. After a step of the auto-tuner, auto-tuning is completed exactly when the
/// tuner has finished, and then the boiler gets the new parameters first.
pub proof fn lemma_tick_meaning(system: SystemStatus, operational: Operational, finished: bool)
    ensures
        tick_actions(system, operational).contains(TickAction::RunAutoTuner) <==> (system is Healthy
            && operational is AutoTuning),
        tick_actions(system, operational).contains(TickAction::StartAutoTune) <==> (system
            is Healthy && operational is AutoTuneInit),
        tick_actions(system, operational).contains(TickAction::BoilerOff) <==> (system is Healthy
            && operational is AutoTuneInit),
        auto_tune_step_actions(finished).contains(TickAction::CompleteAutoTune) <==> finished,
        finished ==> auto_tune_step_actions(finished)[0] == TickAction::UpdateBoilerModel,
{
    let acts = tick_actions(system, operational);
    assert forall|a: TickAction| #[trigger] acts.contains(a) implies (a == TickAction::RunAutoTuner
        ==> system is Healthy && operational is AutoTuning) && ((a == TickAction::StartAutoTune
        || a == TickAction::BoilerOff) ==> system is Healthy && operational is AutoTuneInit) by {
        let k = choose|k: int| 0 <= k < acts.len() && acts[k] == a;
    }
    if system is Healthy && operational is AutoTuning {
        assert(acts[0] == TickAction::RunAutoTuner);
    }
    if system is Healthy && operational is AutoTuneInit {
        assert(acts[1] == TickAction::BoilerOff);
        assert(acts[2] == TickAction::StartAutoTune);
    }
    let steps = auto_tune_step_actions(finished);
    if finished {
        assert(steps[1] == TickAction::CompleteAutoTune);
    } else {
        assert(!steps.contains(TickAction::CompleteAutoTune)) by {
            if steps.contains(TickAction::CompleteAutoTune) {
                let k = choose|k: int| 0 <= k < steps.len() && steps[k] == TickAction::CompleteAutoTune;
            }
        }
    }
}

} // verus!
