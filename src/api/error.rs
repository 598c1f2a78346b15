use vstd::prelude::*;
use vstd::string::*;

use crate::api::response::ApiResponse;

verus! {

/// Every error kind that an API call can report to the client.
#[derive(Debug, Clone, PartialEq, Eq)]
pub enum ApiError {
    InvalidCredentials,
    Unauthorized,
    DbError(String),
    DBConnectionError,
    UnexpectedError(String),
    Expired,
}

/// The human readable text of an error.
pub open spec fn error_message(e: ApiError) -> Seq<char> {
    match e {
        ApiError::InvalidCredentials => "Invalid username or password"@,
        ApiError::Unauthorized => "Unauthorized"@,
        ApiError::DbError(detail) => "Database error: "@ + detail@,
        ApiError::DBConnectionError => "No DB connection"@,
        ApiError::UnexpectedError(detail) => detail@,
        ApiError::Expired => "Session expired"@,
    }
}

impl ApiError {
    /// The text shown for this error.
    pub fn message(&self) -> (r: String)
        ensures
            r@ == error_message(*self),
    {
        match self {
            ApiError::InvalidCredentials => String::from_str("Invalid username or password"),
            ApiError::Unauthorized => String::from_str("Unauthorized"),
            ApiError::DbError(detail) => String::from_str("Database error: ").concat(detail.as_str()),
            ApiError::DBConnectionError => String::from_str("No DB connection"),
            ApiError::UnexpectedError(detail) => detail.clone(),
            ApiError::Expired => String::from_str("Session expired"),
        }
    }
}

/// The answer of a call that stops with `err`: no session, no data.
pub fn return_early(err: ApiError) -> (r: ApiResponse<()>)
    ensures
        r.error == Some(err),
        r.expires_at == 0,
        r.token@ == Seq::<char>::empty(),
{
    let token = String::new();
    ApiResponse { error: Some(err), expires_at: 0, token, data: () }
}

} // verus!
