pub mod auto_tune_fsm;
pub mod error;
pub mod operational_fsm;
pub mod system_fsm;
pub mod traits;

pub use error::Error as FsmError;
pub use traits::ArcMutexState;
