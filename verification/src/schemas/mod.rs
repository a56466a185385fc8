pub mod drink;
pub mod error;
pub mod event;
pub mod publish;
pub mod shot;
pub mod status;

pub use error::Error;
