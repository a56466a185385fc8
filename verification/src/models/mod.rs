
pub mod data_manipulation;
pub mod auto_tune;
