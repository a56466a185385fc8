pub mod handlers_device;
pub mod handlers_drinks;
pub mod home_assistant;
pub mod mqtt;
pub mod request;
