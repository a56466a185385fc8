use vstd::prelude::*;
use super::error::{Error, ErrorView};

verus! {

broadcast use vstd::string::group_string_axioms;

/// The health of the whole machine.
#[derive(Debug, Clone)]
pub enum SystemState {
    StartingUp(String),
    Healthy,
    Warning(String),
    Error(String),
    Panic(String),
}

/// A request to change the health of the machine.
pub enum Transition {
    Idle,
    Warning(String),
    ClearWarnings,
    Error(String),
    ClearErrros,
    Panic(String),
}

/// Model of [`SystemState`], messages taken by their characters.
pub enum SystemStatus {
    StartingUp(Seq<char>),
    Healthy,
    Warning(Seq<char>),
    Error(Seq<char>),
    Panic(Seq<char>),
}

/// Model of [`Transition`].
pub enum SystemEvent {
    Idle,
    Warning(Seq<char>),
    ClearWarnings,
    Error(Seq<char>),
    ClearErrros,
    Panic(Seq<char>),
}

impl View for SystemState {
    type V = SystemStatus;

    open spec fn view(&self) -> SystemStatus {
        match self {
            SystemState::StartingUp(m) => SystemStatus::StartingUp(m@),
            SystemState::Healthy => SystemStatus::Healthy,
            SystemState::Warning(m) => SystemStatus::Warning(m@),
            SystemState::Error(m) => SystemStatus::Error(m@),
            SystemState::Panic(m) => SystemStatus::Panic(m@),
        }
    }
}

impl View for Transition {
    type V = SystemEvent;

    open spec fn view(&self) -> SystemEvent {
        match self {
            Transition::Idle => SystemEvent::Idle,
            Transition::Warning(m) => SystemEvent::Warning(m@),
            Transition::ClearWarnings => SystemEvent::ClearWarnings,
            Transition::Error(m) => SystemEvent::Error(m@),
            Transition::ClearErrros => SystemEvent::ClearErrros,
            Transition::Panic(m) => SystemEvent::Panic(m@),
        }
    }
}

/// How a state reads when it is shown.
pub open spec fn status_text(s: SystemStatus) -> Seq<char> {
    match s {
        SystemStatus::StartingUp(m) => "StartingUp: "@ + m,
        SystemStatus::Healthy => "Healthy"@,
        SystemStatus::Warning(m) => "Warning: "@ + m,
        SystemStatus::Error(m) => "Error: "@ + m,
        SystemStatus::Panic(m) => "Panic: "@ + m,
    }
}

/// How a transition reads when it is shown.
pub open spec fn event_text(t: SystemEvent) -> Seq<char> {
    match t {
        SystemEvent::Idle => "Return to idle"@,
        SystemEvent::Warning(m) => "Setting warning: "@ + m,
        SystemEvent::ClearWarnings => "Clear Warnings"@,
        SystemEvent::Error(m) => "Error: "@ + m,
        SystemEvent::ClearErrros => "Clear Errors"@,
        SystemEvent::Panic(m) => "Panic: "@ + m,
    }
}

/// Two messages joined, the older one first.
pub open spec fn joined(older: Seq<char>, newer: Seq<char>) -> Seq<char> {
    older + " | "@ + newer
}

/// The transition table: the state that follows, or the error that refuses the transition.
/// A panic can only be followed by further panics; an error can only be cleared, escalated
/// to a panic, or accumulate further errors; starting up ends with `Idle`.
pub open spec fn next_status(s: SystemStatus, t: SystemEvent) -> Result<SystemStatus, ErrorView> {
    match (s, t) {
        (SystemStatus::Panic(current), SystemEvent::Panic(m)) => Ok(
            SystemStatus::Panic(joined(current, m)),
        ),
        (SystemStatus::Panic(_), _) => Err(ErrorView::SystemInErrorState(status_text(s))),
        (_, SystemEvent::Panic(m)) => Ok(SystemStatus::Panic(m)),
        (SystemStatus::Error(current), SystemEvent::Error(m)) => Ok(
            SystemStatus::Error(joined(current, m)),
        ),
        (SystemStatus::Error(_), SystemEvent::ClearErrros) => Ok(SystemStatus::Healthy),
        (SystemStatus::Error(_), _) => Err(ErrorView::SystemInErrorState(status_text(s))),
        (_, SystemEvent::Error(m)) => Ok(SystemStatus::Error(m)),
        (SystemStatus::StartingUp(_), SystemEvent::Idle) => Ok(SystemStatus::Healthy),
        (_, _) => Err(
            ErrorView::InvalidStateTransition(status_text(s) + " -> "@ + event_text(t)),
        ),
    }
}

impl SystemState {
    /// The state a new system starts in.
    pub fn default() -> (s: SystemState)
        ensures
            s@ == SystemStatus::StartingUp("Created App State"@),
    {
        SystemState::StartingUp("Created App State".to_string())
    }

    /// The state as text.
    pub fn to_text(&self) -> (text: String)
        ensures
            text@ == status_text(self@),
    {
        match self {
            SystemState::StartingUp(m) => "StartingUp: ".to_string().concat(m.as_str()),
            SystemState::Healthy => "Healthy".to_string(),
            SystemState::Warning(m) => "Warning: ".to_string().concat(m.as_str()),
            SystemState::Error(m) => "Error: ".to_string().concat(m.as_str()),
            SystemState::Panic(m) => "Panic: ".to_string().concat(m.as_str()),
        }
    }

    /// Applies a transition. On success the state becomes the one the table gives; on
    /// refusal the state is left as it was and the table's error is returned.
    pub fn transition(&mut self, next: Transition) -> (r: Result<(), Error>)
        ensures
            match next_status(old(self)@, next@) {
                Ok(s) => r is Ok && final(self)@ == s,
                Err(e) => r matches Err(err) && err@ == e && final(self)@ == old(self)@,
            },
    {
        let result: Result<SystemState, Error> = match (&*self, &next) {
            (SystemState::Panic(current), Transition::Panic(message)) => Ok(
                SystemState::Panic(current.clone().concat(" | ").concat(message.as_str())),
            ),
            (SystemState::Panic(_), _) => Err(Error::SystemInErrorState(self.to_text())),
            (_, Transition::Panic(message)) => Ok(SystemState::Panic(message.clone())),
            (SystemState::Error(current), Transition::Error(message)) => Ok(
                SystemState::Error(current.clone().concat(" | ").concat(message.as_str())),
            ),
            (SystemState::Error(_), Transition::ClearErrros) => Ok(SystemState::Healthy),
            (SystemState::Error(_), _) => Err(Error::SystemInErrorState(self.to_text())),
            (_, Transition::Error(message)) => Ok(SystemState::Error(message.clone())),
            (SystemState::StartingUp(_), Transition::Idle) => Ok(SystemState::Healthy),
            (_, _) => Err(
                Error::InvalidStateTransition(
                    self.to_text().concat(" -> ").concat(next.to_text().as_str()),
                ),
            ),
        };
        match result {
            Ok(next_state) => {
                *self = next_state;
                Ok(())
            },
            Err(e) => Err(e),
        }
    }

    /// Raises an error.
    pub fn set_error(&mut self, message: String) -> (r: Result<(), Error>)
        ensures
            match next_status(old(self)@, SystemEvent::Error(message@)) {
                Ok(s) => r is Ok && final(self)@ == s,
                Err(e) => r matches Err(err) && err@ == e && final(self)@ == old(self)@,
            },
    {
        self.transition(Transition::Error(message))
    }

    /// Raises a panic.
    pub fn panic(&mut self, message: String) -> (r: Result<(), Error>)
        ensures
            match next_status(old(self)@, SystemEvent::Panic(message@)) {
                Ok(s) => r is Ok && final(self)@ == s,
                Err(e) => r matches Err(err) && err@ == e && final(self)@ == old(self)@,
            },
    {
        self.transition(Transition::Panic(message))
    }
}

impl Transition {
    /// The transition as text.
    pub fn to_text(&self) -> (text: String)
        ensures
            text@ == event_text(self@),
    {
        match self {
            Transition::Idle => "Return to idle".to_string(),
            Transition::Warning(m) => "Setting warning: ".to_string().concat(m.as_str()),
            Transition::ClearWarnings => "Clear Warnings".to_string(),
            Transition::Error(m) => "Error: ".to_string().concat(m.as_str()),
            Transition::ClearErrros => "Clear Errors".to_string(),
            Transition::Panic(m) => "Panic: ".to_string().concat(m.as_str()),
        }
    }
}

/// Once the system has panicked it stays panicked: only another panic is accepted, and it
/// keeps the system in panic.
pub proof fn lemma_panic_is_absorbing(current: Seq<char>, t: SystemEvent)
    ensures
        match next_status(SystemStatus::Panic(current), t) {
            Ok(s) => s is Panic && t is Panic,
            Err(_) => !(t is Panic),
        },
{
}

/// A panic is accepted in every state, and leads to the panic state.
pub proof fn lemma_panic_always_accepted(s: SystemStatus, message: Seq<char>)
    ensures
        next_status(s, SystemEvent::Panic(message)) matches Ok(n) && n is Panic,
{
}

/// An error is only left by clearing the errors, which makes the system healthy, or by a
/// panic; a further error keeps it in error.
pub proof fn lemma_error_only_cleared_or_escalated(current: Seq<char>, t: SystemEvent)
    ensures
        next_status(SystemStatus::Error(current), t) matches Ok(n) ==> ((n is Error && t is Error)
            || (n == SystemStatus::Healthy && t is ClearErrros) || (n is Panic && t is Panic)),
{
}

/// Messages accumulate: a new panic or error while in that state joins its message to the
/// current one, the older first.
pub proof fn lemma_messages_accumulate(current: Seq<char>, message: Seq<char>)
    ensures
        next_status(SystemStatus::Error(current), SystemEvent::Error(message)) == Ok::<
            SystemStatus,
            ErrorView,
        >(SystemStatus::Error(current + " | "@ + message)),
        next_status(SystemStatus::Panic(current), SystemEvent::Panic(message)) == Ok::<
            SystemStatus,
            ErrorView,
        >(SystemStatus::Panic(current + " | "@ + message)),
{
}

/// Starting up ends only with `Idle` (to healthy), an error or a panic.
pub proof fn lemma_start_up_exits(stage: Seq<char>, t: SystemEvent)
    ensures
        next_status(SystemStatus::StartingUp(stage), t) matches Ok(n) ==> ((n
            == SystemStatus::Healthy && t is Idle) || (n is Error && t is Error) || (n is Panic
            && t is Panic)),
{
}

} // verus!
