use vstd::prelude::*;

verus! {

broadcast use vstd::string::group_string_axioms;

/// Errors reported by the state machines when a transition is refused.
#[derive(Debug)]
pub enum Error {
    InvalidStateTransition(String),
    InvalidState(String),
    SystemAlreadyInHigherErrorState(String),
    SystemInErrorState(String),
    SystemInPanicState(String),
    _Internal(String),
    NotYetImplemented,
    /// The machine is occupied; the optional value is a suggested retry delay in milliseconds.
    Busy(String, Option<u64>),
}

/// Mathematical model of [`Error`]: every message is taken by its characters.
pub enum ErrorView {
    InvalidStateTransition(Seq<char>),
    InvalidState(Seq<char>),
    SystemAlreadyInHigherErrorState(Seq<char>),
    SystemInErrorState(Seq<char>),
    SystemInPanicState(Seq<char>),
    _Internal(Seq<char>),
    NotYetImplemented,
    Busy(Seq<char>, Option<u64>),
}

impl View for Error {
    type V = ErrorView;

    open spec fn view(&self) -> ErrorView {
        match self {
            Error::InvalidStateTransition(m) => ErrorView::InvalidStateTransition(m@),
            Error::InvalidState(m) => ErrorView::InvalidState(m@),
            Error::SystemAlreadyInHigherErrorState(m) => ErrorView::SystemAlreadyInHigherErrorState(
                m@,
            ),
            Error::SystemInErrorState(m) => ErrorView::SystemInErrorState(m@),
            Error::SystemInPanicState(m) => ErrorView::SystemInPanicState(m@),
            Error::_Internal(m) => ErrorView::_Internal(m@),
            Error::NotYetImplemented => ErrorView::NotYetImplemented,
            Error::Busy(m, retry) => ErrorView::Busy(m@, *retry),
        }
    }
}

/// The short description of each kind of error.
pub open spec fn description_of(e: ErrorView) -> Seq<char> {
    match e {
        ErrorView::InvalidStateTransition(_) => "Invalid state transition"@,
        ErrorView::InvalidState(_) => "Invalid state"@,
        ErrorView::SystemAlreadyInHigherErrorState(_) => "System already in higher error state"@,
        ErrorView::SystemInErrorState(_) => "System in error state"@,
        ErrorView::SystemInPanicState(_) => "System in panic state"@,
        ErrorView::_Internal(_) => "Internal error"@,
        ErrorView::NotYetImplemented => "Not yet implemented"@,
        ErrorView::Busy(_, _) => "System busy"@,
    }
}

impl Error {
    /// A short description of the kind of error, without its message.
    pub fn description(&self) -> (d: &'static str)
        ensures
            d@ == description_of(self@),
    {
        match self {
            Error::InvalidStateTransition(_) => "Invalid state transition",
            Error::InvalidState(_) => "Invalid state",
            Error::SystemAlreadyInHigherErrorState(_) => "System already in higher error state",
            Error::SystemInErrorState(_) => "System in error state",
            Error::SystemInPanicState(_) => "System in panic state",
            Error::_Internal(_) => "Internal error",
            Error::NotYetImplemented => "Not yet implemented",
            Error::Busy(_, _) => "System busy",
        }
    }
}

} // verus!
