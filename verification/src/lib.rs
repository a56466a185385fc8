pub mod api;
pub mod components;
pub mod control;
pub mod gpio;
pub mod models;
pub mod schemas;
pub mod sensors;
pub mod state_machines;
pub mod text;
pub mod types;
