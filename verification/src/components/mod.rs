pub mod pump;
