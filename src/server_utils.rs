pub mod authorization;
pub mod background_task;
pub mod configuration;
pub mod session_store;
