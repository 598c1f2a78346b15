pub mod language;
pub mod user;
