use vstd::prelude::*;
use vstd::string::*;

verus! {

/// The client of the server functions that need a session: each request it
/// sends carries the session token as a bearer credential.
#[derive(Debug, Clone, Copy, PartialEq, Eq, Structural)]
pub struct AddAuthHeaderClient;

impl AddAuthHeaderClient {
    /// The header that presents `token`: `Authorization: Bearer <token>`.
    pub fn authorization_header(token: &str) -> (r: (String, String))
        ensures
            r.0@ == "Authorization"@,
            r.1@ == "Bearer "@ + token@,
    {
        (String::from_str("Authorization"), String::from_str("Bearer ").concat(token))
    }
}

} // verus!
