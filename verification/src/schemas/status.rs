use vstd::prelude::*;

verus! {

/// `serde_json::Value`, carried opaquely in reports.
#[verifier::external_type_specification]
#[verifier::external_body]
pub struct ExJsonValue(serde_json::Value);

/// The positions of the three front switches.
#[derive(Clone, Copy, PartialEq, Eq, Structural)]
pub struct Switches {
    pub brew: bool,
    pub water: bool,
    pub steam: bool,
}

/// What the operational state machine reports about itself.
pub struct Operation {
    pub state: String,
    pub attributes: Option<serde_json::Value>,
}

} // verus!
