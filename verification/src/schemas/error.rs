use vstd::prelude::*;

verus! {

/// Why a drink's description is refused.
#[derive(Debug)]
pub enum Error {
    MissingOutputSpecifier,
    MissingProfile,
    InvalidProfile(String),
    OutOfBounds(String),
}

/// Model of [`Error`].
pub enum ErrorView {
    MissingOutputSpecifier,
    MissingProfile,
    InvalidProfile(Seq<char>),
    OutOfBounds(Seq<char>),
}

impl View for Error {
    type V = ErrorView;

    open spec fn view(&self) -> ErrorView {
        match self {
            Error::MissingOutputSpecifier => ErrorView::MissingOutputSpecifier,
            Error::MissingProfile => ErrorView::MissingProfile,
            Error::InvalidProfile(m) => ErrorView::InvalidProfile(m@),
            Error::OutOfBounds(m) => ErrorView::OutOfBounds(m@),
        }
    }
}

/// How an error reads when it is shown.
pub open spec fn error_text(e: ErrorView) -> Seq<char> {
    match e {
        ErrorView::MissingOutputSpecifier => "Shot must specify either weight or time"@,
        ErrorView::MissingProfile => "Shot must have at least one profile"@,
        ErrorView::InvalidProfile(reason) => "Invalid profile: "@ + reason,
        ErrorView::OutOfBounds(reason) => "Value out of bounds: "@ + reason,
    }
}

impl Error {
    /// The error as text.
    pub fn to_text(&self) -> (s: String)
        ensures
            s@ == error_text(self@),
    {
        match self {
            Error::MissingOutputSpecifier => "Shot must specify either weight or time".to_string(),
            Error::MissingProfile => "Shot must have at least one profile".to_string(),
            Error::InvalidProfile(reason) => "Invalid profile: ".to_string().concat(reason.as_str()),
            Error::OutOfBounds(reason) => "Value out of bounds: ".to_string().concat(reason.as_str()),
        }
    }
}

} // verus!
