use vstd::prelude::*;
use super::error::{Error, ErrorView};
use crate::schemas::status::Operation as OperationReport;

verus! {

broadcast use vstd::string::group_string_axioms;

/// What the machine is busy with.
#[derive(Debug, Clone)]
pub enum OperationalState {
    StartingUp(String),
    AutoTuneInit,
    AutoTuning,
    Idle,
    Brewing,
    Steaming,
}

/// A request to change what the machine is busy with.
pub enum Transitions {
    StartingUpStage(String),
    Idle,
    StartAutoTune,
    AutoTuneComplete,
    StartBrewing,
    StartSteaming,
    Stop,
}

/// Model of [`OperationalState`].
pub enum Operational {
    StartingUp(Seq<char>),
    AutoTuneInit,
    AutoTuning,
    Idle,
    Brewing,
    Steaming,
}

/// Model of [`Transitions`].
pub enum OperationalEvent {
    StartingUpStage(Seq<char>),
    Idle,
    StartAutoTune,
    AutoTuneComplete,
    StartBrewing,
    StartSteaming,
    Stop,
}

impl View for OperationalState {
    type V = Operational;

    open spec fn view(&self) -> Operational {
        match self {
            OperationalState::StartingUp(m) => Operational::StartingUp(m@),
            OperationalState::AutoTuneInit => Operational::AutoTuneInit,
            OperationalState::AutoTuning => Operational::AutoTuning,
            OperationalState::Idle => Operational::Idle,
            OperationalState::Brewing => Operational::Brewing,
            OperationalState::Steaming => Operational::Steaming,
        }
    }
}

impl View for Transitions {
    type V = OperationalEvent;

    open spec fn view(&self) -> OperationalEvent {
        match self {
            Transitions::StartingUpStage(m) => OperationalEvent::StartingUpStage(m@),
            Transitions::Idle => OperationalEvent::Idle,
            Transitions::StartAutoTune => OperationalEvent::StartAutoTune,
            Transitions::AutoTuneComplete => OperationalEvent::AutoTuneComplete,
            Transitions::StartBrewing => OperationalEvent::StartBrewing,
            Transitions::StartSteaming => OperationalEvent::StartSteaming,
            Transitions::Stop => OperationalEvent::Stop,
        }
    }
}

/// How a state reads when it is shown.
pub open spec fn operational_text(s: Operational) -> Seq<char> {
    match s {
        Operational::StartingUp(stage) => "Starting up: "@ + stage,
        Operational::AutoTuning => "Auto-tuning"@,
        Operational::AutoTuneInit => "Initialising auto-tune"@,
        Operational::Idle => "Idle"@,
        Operational::Brewing => "Brewing"@,
        Operational::Steaming => "Steaming"@,
    }
}

/// The transition table: the state that follows, or the error that refuses the transition.
pub open spec fn next_operational(s: Operational, t: OperationalEvent) -> Result<
    Operational,
    ErrorView,
> {
    match (s, t) {
        (Operational::StartingUp(_), OperationalEvent::Idle) => Ok(Operational::Idle),
        (Operational::StartingUp(_), OperationalEvent::StartingUpStage(m)) => Ok(
            Operational::StartingUp(m),
        ),
        (Operational::StartingUp(_), OperationalEvent::StartAutoTune) => Ok(
            Operational::AutoTuneInit,
        ),
        (Operational::AutoTuneInit, OperationalEvent::StartAutoTune) => Ok(Operational::AutoTuning),
        (_, OperationalEvent::StartAutoTune) => Err(
            ErrorView::InvalidStateTransition("Cannot start auto-tune from current state"@),
        ),
        (Operational::StartingUp(_), _) => Err(
            ErrorView::Busy("System is still starting up"@, None),
        ),
        (Operational::AutoTuning, OperationalEvent::AutoTuneComplete) => Ok(Operational::Idle),
        (Operational::AutoTuning, _) => Err(
            ErrorView::Busy("System is still busy auto-tuning"@, None),
        ),
        (_, _) => Err(ErrorView::NotYetImplemented),
    }
}

impl OperationalState {
    /// The state a new system starts in.
    pub fn default() -> (s: OperationalState)
        ensures
            s@ == Operational::StartingUp("..."@),
    {
        OperationalState::StartingUp("...".to_string())
    }

    /// The state as text.
    pub fn to_text(&self) -> (text: String)
        ensures
            text@ == operational_text(self@),
    {
        match self {
            OperationalState::StartingUp(stage) => "Starting up: ".to_string().concat(
                stage.as_str(),
            ),
            OperationalState::AutoTuning => "Auto-tuning".to_string(),
            OperationalState::AutoTuneInit => "Initialising auto-tune".to_string(),
            OperationalState::Idle => "Idle".to_string(),
            OperationalState::Brewing => "Brewing".to_string(),
            OperationalState::Steaming => "Steaming".to_string(),
        }
    }

    /// Applies a transition. On success the state becomes the one the table gives; on
    /// refusal the state is left as it was and the table's error is returned.
    pub fn transition(&mut self, next: Transitions) -> (r: Result<(), Error>)
        ensures
            match next_operational(old(self)@, next@) {
                Ok(s) => r is Ok && final(self)@ == s,
                Err(e) => r matches Err(err) && err@ == e && final(self)@ == old(self)@,
            },
    {
        match (&*self, &next) {
            (OperationalState::StartingUp(_), Transitions::Idle) => {
                *self = OperationalState::Idle;
                Ok(())
            },
            (OperationalState::StartingUp(_), Transitions::StartingUpStage(message)) => {
                *self = OperationalState::StartingUp(message.clone());
                Ok(())
            },
            (OperationalState::StartingUp(_), Transitions::StartAutoTune) => {
                *self = OperationalState::AutoTuneInit;
                Ok(())
            },
            (OperationalState::AutoTuneInit, Transitions::StartAutoTune) => {
                *self = OperationalState::AutoTuning;
                Ok(())
            },
            (_, Transitions::StartAutoTune) => Err(
                Error::InvalidStateTransition(
                    "Cannot start auto-tune from current state".to_string(),
                ),
            ),
            (OperationalState::StartingUp(_), _) => Err(
                Error::Busy("System is still starting up".to_string(), None),
            ),
            (OperationalState::AutoTuning, Transitions::AutoTuneComplete) => {
                *self = OperationalState::Idle;
                Ok(())
            },
            (OperationalState::AutoTuning, _) => Err(
                Error::Busy("System is still busy auto-tuning".to_string(), None),
            ),
            (_, _) => Err(Error::NotYetImplemented),
        }
    }

    /// The report of this state: its text and no attributes.
    pub fn to_report(&self) -> (report: OperationReport)
        ensures
            report.state@ == operational_text(self@),
            report.attributes is None,
    {
        OperationReport { state: self.to_text(), attributes: None }
    }
}

/// Auto-tuning is only entered from its initialisation, by a request to start it.
pub proof fn lemma_auto_tuning_entered_from_init(s: Operational, t: OperationalEvent)
    ensures
        next_operational(s, t) == Ok::<Operational, ErrorView>(Operational::AutoTuning) ==> s
            == Operational::AutoTuneInit && t == OperationalEvent::StartAutoTune,
{
}

/// While auto-tuning, the only accepted request is its completion, which makes the machine
/// idle; every other request is answered busy.
pub proof fn lemma_auto_tuning_exits(t: OperationalEvent)
    ensures
        match next_operational(Operational::AutoTuning, t) {
            Ok(n) => n == Operational::Idle && t == OperationalEvent::AutoTuneComplete,
            Err(e) => t == OperationalEvent::StartAutoTune || e is Busy,
        },
{
}

/// Auto-tuning can only start while the machine is still starting up or initialising it.
pub proof fn lemma_auto_tune_start(s: Operational)
    ensures
        next_operational(s, OperationalEvent::StartAutoTune) is Ok <==> (s is StartingUp || s
            == Operational::AutoTuneInit),
{
}

} // verus!
