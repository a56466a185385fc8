use rs_coffee::state_machines::auto_tune_fsm::{AutoTuner, State as TuneStage};
use rs_coffee::state_machines::operational_fsm::{OperationalState, Transitions};
use rs_coffee::state_machines::system_fsm::{SystemState, Transition};
use rs_coffee::state_machines::FsmError;

fn text_of(e: &FsmError) -> String {
    match e {
        FsmError::InvalidStateTransition(m) => format!("InvalidStateTransition: {}", m),
        FsmError::SystemInErrorState(m) => format!("SystemInErrorState: {}", m),
        FsmError::Busy(m, _) => format!("Busy: {}", m),
        FsmError::NotYetImplemented => "NotYetImplemented".to_string(),
        _ => "other".to_string(),
    }
}

#[test]
fn operational_auto_tune_cycle() {
    let mut s = OperationalState::default();
    assert_eq!(s.to_text(), "Starting up: ...");
    assert!(s.transition(Transitions::StartAutoTune).is_ok());
    assert_eq!(s.to_text(), "Initialising auto-tune");
    assert!(s.transition(Transitions::StartAutoTune).is_ok());
    assert_eq!(s.to_text(), "Auto-tuning");
    assert!(s.transition(Transitions::AutoTuneComplete).is_ok());
    assert_eq!(s.to_text(), "Idle");
}

#[test]
fn operational_start_up_stages_then_idle() {
    let mut s = OperationalState::default();
    assert!(s.transition(Transitions::StartingUpStage("Board Setup".to_string())).is_ok());
    assert_eq!(s.to_text(), "Starting up: Board Setup");
    assert!(s.transition(Transitions::Idle).is_ok());
    assert_eq!(s.to_report().state, "Idle");
    assert!(s.to_report().attributes.is_none());
}

#[test]
fn operational_refusals_leave_state_unchanged() {
    let mut s = OperationalState::default();
    let e = s.transition(Transitions::StartBrewing).unwrap_err();
    assert_eq!(text_of(&e), "Busy: System is still starting up");
    assert_eq!(s.to_text(), "Starting up: ...");

    s.transition(Transitions::Idle).unwrap();
    let e = s.transition(Transitions::StartAutoTune).unwrap_err();
    assert_eq!(text_of(&e), "InvalidStateTransition: Cannot start auto-tune from current state");
    assert_eq!(s.to_text(), "Idle");
    let e = s.transition(Transitions::Stop).unwrap_err();
    assert_eq!(text_of(&e), "NotYetImplemented");
    assert_eq!(e.description(), "Not yet implemented");

    let mut t = OperationalState::AutoTuning;
    let e = t.transition(Transitions::StartBrewing).unwrap_err();
    assert_eq!(text_of(&e), "Busy: System is still busy auto-tuning");
    assert_eq!(t.to_text(), "Auto-tuning");
}

#[test]
fn system_start_up_to_healthy() {
    let mut s = SystemState::default();
    assert_eq!(s.to_text(), "StartingUp: Created App State");
    assert!(s.transition(Transition::Idle).is_ok());
    assert_eq!(s.to_text(), "Healthy");
    let e = s.transition(Transition::Idle).unwrap_err();
    assert_eq!(text_of(&e), "InvalidStateTransition: Healthy -> Return to idle");
    assert_eq!(s.to_text(), "Healthy");
}

#[test]
fn system_start_up_refuses_warnings() {
    let mut s = SystemState::default();
    let e = s.transition(Transition::Warning("hot".to_string())).unwrap_err();
    assert_eq!(
        text_of(&e),
        "InvalidStateTransition: StartingUp: Created App State -> Setting warning: hot"
    );
}

#[test]
fn system_errors_accumulate_and_clear() {
    let mut s = SystemState::Healthy;
    s.set_error("a".to_string()).unwrap();
    assert_eq!(s.to_text(), "Error: a");
    s.set_error("b".to_string()).unwrap();
    assert_eq!(s.to_text(), "Error: a | b");
    let e = s.transition(Transition::Idle).unwrap_err();
    assert_eq!(text_of(&e), "SystemInErrorState: Error: a | b");
    assert_eq!(e.description(), "System in error state");
    assert!(s.transition(Transition::ClearErrros).is_ok());
    assert_eq!(s.to_text(), "Healthy");
}

#[test]
fn system_panic_is_final() {
    let mut s = SystemState::Error("x".to_string());
    s.panic("p".to_string()).unwrap();
    assert_eq!(s.to_text(), "Panic: p");
    s.panic("q".to_string()).unwrap();
    assert_eq!(s.to_text(), "Panic: p | q");
    for t in [
        Transition::Idle,
        Transition::ClearErrros,
        Transition::ClearWarnings,
        Transition::Error("e".to_string()),
    ] {
        let e = s.transition(t).unwrap_err();
        assert_eq!(text_of(&e), "SystemInErrorState: Panic: p | q");
        assert_eq!(s.to_text(), "Panic: p | q");
    }
}

#[test]
fn system_transition_texts() {
    assert_eq!(Transition::Idle.to_text(), "Return to idle");
    assert_eq!(Transition::ClearWarnings.to_text(), "Clear Warnings");
    assert_eq!(Transition::ClearErrros.to_text(), "Clear Errors");
    assert_eq!(Transition::Panic("x".to_string()).to_text(), "Panic: x");
    assert_eq!(SystemState::Warning("w".to_string()).to_text(), "Warning: w");
}

#[test]
fn auto_tune_stages_in_order() {
    let mut s = TuneStage::Setup;
    assert_eq!(s.next(), Some(TuneStage::GatheringData));
    assert_eq!(s.next(), Some(TuneStage::AnalyzingData));
    assert_eq!(s.next(), Some(TuneStage::Done));
    assert_eq!(s.next(), None);
    assert_eq!(s, TuneStage::Done);
}

#[test]
fn auto_tuner_run_steps() {
    let mut t: AutoTuner<u32> = AutoTuner::new(10);
    assert_eq!(t.run(10), None);
    assert_eq!(t.state, TuneStage::GatheringData);
    assert_eq!(t.run(5), None);
    assert_eq!(t.state, TuneStage::GatheringData);
    t.state = TuneStage::AnalyzingData;
    t.parameters = Some(7);
    assert_eq!(t.run(20), None);
    assert_eq!(t.state, TuneStage::Done);
    assert_eq!(t.run(30), Some(7));
}
