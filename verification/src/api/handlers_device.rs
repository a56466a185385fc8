use vstd::prelude::*;

verus! {

/// The firmware version that the device reports.
pub fn version() -> (v: &'static str)
    ensures
        v@ == "0.1.0"@,
{
    "0.1.0"
}

} // verus!
