pub mod error;
pub mod jwt;
pub mod response;
