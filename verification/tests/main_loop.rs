use rs_coffee::api::request::{check_body_length, BodyDecision, MAX_LEN};
use rs_coffee::control::{on_auto_tune_step, on_tick, TickAction};
use rs_coffee::models::auto_tune::{next_phase, PhaseStep, TestOutcome, TunerPhase};
use rs_coffee::schemas::event::{EventBuffer, LevelFilter};
use rs_coffee::state_machines::operational_fsm::OperationalState;
use rs_coffee::state_machines::system_fsm::SystemState;
use rs_coffee::text::parse_u32;

#[test]
fn tick_serves_the_operational_state_while_healthy() {
    let healthy = SystemState::Healthy;
    assert_eq!(on_tick(&healthy, &OperationalState::Idle), vec![TickAction::ShowIdle]);
    assert_eq!(
        on_tick(&healthy, &OperationalState::Brewing),
        vec![TickAction::ShowBrewTemperature]
    );
    assert_eq!(
        on_tick(&healthy, &OperationalState::Steaming),
        vec![TickAction::ShowSteamTemperature]
    );
    assert_eq!(
        on_tick(&healthy, &OperationalState::AutoTuneInit),
        vec![
            TickAction::AnnounceAutoTune,
            TickAction::BoilerOff,
            TickAction::StartAutoTune,
            TickAction::NewAutoTuner
        ]
    );
    assert_eq!(
        on_tick(&healthy, &OperationalState::AutoTuning),
        vec![TickAction::RunAutoTuner]
    );
    assert!(on_tick(&healthy, &OperationalState::StartingUp("Board".to_string())).is_empty());
}

#[test]
fn tick_only_reports_when_unhealthy() {
    let op = OperationalState::AutoTuning;
    assert_eq!(
        on_tick(&SystemState::Error("e".to_string()), &op),
        vec![TickAction::ReportError]
    );
    assert_eq!(
        on_tick(&SystemState::Panic("p".to_string()), &op),
        vec![TickAction::ReportPanic]
    );
    assert_eq!(
        on_tick(&SystemState::Warning("w".to_string()), &op),
        vec![TickAction::ReportUnhandled]
    );
}

#[test]
fn finished_auto_tune_updates_the_boiler_and_ends() {
    assert!(on_auto_tune_step(false).is_empty());
    assert_eq!(
        on_auto_tune_step(true),
        vec![
            TickAction::UpdateBoilerModel,
            TickAction::CompleteAutoTune,
            TickAction::ResetLoopInterval
        ]
    );
}

#[test]
fn auto_tuner_phases_in_order() {
    assert_eq!(
        next_phase(TunerPhase::Init, TestOutcome::Busy),
        PhaseStep::Advance(TunerPhase::MeasureAmbient)
    );
    assert_eq!(next_phase(TunerPhase::MeasureAmbient, TestOutcome::Busy), PhaseStep::Stay);
    assert_eq!(
        next_phase(TunerPhase::MeasureAmbient, TestOutcome::Finished),
        PhaseStep::Advance(TunerPhase::MeasureHeatingUp)
    );
    assert_eq!(
        next_phase(TunerPhase::MeasureHeatingUp, TestOutcome::Finished),
        PhaseStep::Advance(TunerPhase::MeasureSteadyState)
    );
    assert_eq!(
        next_phase(TunerPhase::MeasureSteadyState, TestOutcome::Finished),
        PhaseStep::Advance(TunerPhase::Done)
    );
    assert_eq!(next_phase(TunerPhase::MeasureHeatingUp, TestOutcome::Failed), PhaseStep::Fail);
    for outcome in [TestOutcome::Busy, TestOutcome::Finished, TestOutcome::Failed] {
        assert_eq!(next_phase(TunerPhase::Done, outcome), PhaseStep::Stay);
    }
}

#[test]
fn request_bodies_over_the_limit_are_refused() {
    assert_eq!(MAX_LEN, 2048);
    assert!(matches!(check_body_length(None), BodyDecision::Read(0)));
    assert!(matches!(check_body_length(Some(2048)), BodyDecision::Read(2048)));
    match check_body_length(Some(2049)) {
        BodyDecision::Refuse(status, message) => {
            assert_eq!(status, 413);
            assert_eq!(message, "Request too big");
        }
        BodyDecision::Read(_) => panic!("a body over the limit was accepted"),
    }
}

#[test]
fn publishable_events_are_taken_in_order() {
    let mut buffer = EventBuffer::new();
    buffer.info("a", "one".to_string());
    buffer.debug("b", "two".to_string());
    buffer.error("c", "three".to_string());
    buffer.info("d", "four".to_string());
    let published = buffer.take_publishable(&LevelFilter::Info);
    let messages: Vec<&str> = published.iter().map(|e| e.message.as_str()).collect();
    assert_eq!(messages, vec!["one", "three", "four"]);
    assert!(buffer.events.is_empty());
    assert!(buffer.take_publishable(&LevelFilter::Trace).is_empty());
}

#[test]
fn parse_u32_edge_cases() {
    assert_eq!(parse_u32("+"), None);
    assert_eq!(parse_u32("007"), Some(7));
    assert_eq!(parse_u32("99999999999"), None);
    assert_eq!(parse_u32("12a"), None);
    assert_eq!(parse_u32("١٢"), None);
}
