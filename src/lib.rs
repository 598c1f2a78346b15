//! Session authentication and authorization: a signed token codec, a session
//! table with sliding expiry, the per-request authorization pipeline and the
//! periodic session reaper, together with the small models the pages share.

pub mod api;
pub mod server_utils;
pub mod model;
pub mod utils;
pub mod client;
pub mod layout;
pub mod pages;
