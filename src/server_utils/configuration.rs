use vstd::prelude::*;
use vstd::string::*;

use crate::utils::{decimal, decimal_text};

verus! {

#[verifier::external_type_specification]
#[verifier::external_body]
pub struct ExLevel(log::Level);

/// The settings of the server process.
pub struct Settings {
    pub database: DatabaseSettings,
    pub log: LogSettings,
    pub session_secret: Vec<u8>,
    pub dummy_bcrypt_hash: String,
}

/// Where the database is and who connects to it.
#[derive(Debug, Clone, PartialEq, Eq)]
pub struct DatabaseSettings {
    pub username: String,
    pub password: String,
    pub host: String,
    pub port: u16,
    pub database_name: String,
}

/// The connection URL of the database settings `d`.
pub open spec fn connection_url(d: DatabaseSettings) -> Seq<char> {
    "postgres://"@ + d.username@ + ":"@ + d.password@ + "@"@ + d.host@ + ":"@ + decimal(
        d.port as int,
    ) + "/"@ + d.database_name@
}

impl DatabaseSettings {
    /// `postgres://<username>:<password>@<host>:<port>/<database_name>`.
    pub fn connection_string(&self) -> (r: String)
        ensures
            r@ == connection_url(*self),
    {
        let port = decimal_text(self.port as i128);
        String::from_str("postgres://").concat(self.username.as_str()).concat(":").concat(
            self.password.as_str(),
        ).concat("@").concat(self.host.as_str()).concat(":").concat(port.as_str()).concat(
            "/",
        ).concat(self.database_name.as_str())
    }
}

/// How much is logged, where, and for how many days log files are kept.
pub struct LogSettings {
    pub max_level: log::Level,
    pub path_string: String,
    pub days_to_keep: u64,
}

} // verus!
