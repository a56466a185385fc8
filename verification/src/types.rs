use vstd::prelude::*;

verus! {

/// A distance in millimetres, as the level sensor reports it.
pub type Millimeters = u16;

} // verus!
