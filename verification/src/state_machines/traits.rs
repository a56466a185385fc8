use vstd::prelude::*;
use super::error::Error;

verus! {

/// A request that some state machine accepts.
pub trait StateTrasition {}

/// A state machine shared between threads, driven through a handle.
pub trait ArcMutexState<T: StateTrasition> {
    fn transition(&self, next: T) -> Result<(), Error>;
}

impl StateTrasition for super::operational_fsm::Transitions {}

} // verus!
