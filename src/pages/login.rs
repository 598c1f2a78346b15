use vstd::prelude::*;
use vstd::string::*;

use crate::api::error::{return_early, ApiError};
use crate::api::jwt::{issued_for, JwtKeys, SessionId};
use crate::api::response::ApiResponse;
use crate::server_utils::session_store::{has_session, Session, SessionStore};

verus! {

/// What a login form sends.
#[derive(Debug, Clone, PartialEq, Eq)]
pub struct LoginCallParams {
    pub username: String,
    pub password: String,
}

/// The account row a login looks up by user name.
#[derive(Debug, Clone, PartialEq, Eq)]
pub struct AccountRow {
    pub id: i64,
    pub pw_hash: String,
}

/// What `bcrypt::verify` says of `password` against the stored `hash`:
/// whether it matches, or `None` when the hash cannot be read.
pub uninterp spec fn bcrypt_verdict(password: Seq<char>, hash: Seq<char>) -> Option<bool>;

/// Relies on `bcrypt::verify`: the constant-time check of a password against a
/// bcrypt hash.
#[verifier::external_body]
fn password_matches(password: &str, hash: &str) -> (r: Option<bool>)
    ensures
        r == bcrypt_verdict(password@, hash@),
{
    bcrypt::verify(password, hash).ok()
}

/// The verdict on a login from the account lookup.
#[derive(Debug, Clone, Copy, PartialEq, Eq, Structural)]
pub enum CredentialsVerdict {
    /// The password matches: the account id.
    Accepted(i64),
    /// The account could not be looked up.
    LookupFailed,
    /// No such user, or the password does not match.
    Rejected,
    /// The stored hash cannot be read.
    UnreadableHash,
}

pub open spec fn credentials_verdict(
    lookup: Result<Option<AccountRow>, String>,
    password: Seq<char>,
) -> CredentialsVerdict {
    match lookup {
        Err(_) => CredentialsVerdict::LookupFailed,
        Ok(None) => CredentialsVerdict::Rejected,
        Ok(Some(row)) => match bcrypt_verdict(password, row.pw_hash@) {
            Some(true) => CredentialsVerdict::Accepted(row.id),
            Some(false) => CredentialsVerdict::Rejected,
            None => CredentialsVerdict::UnreadableHash,
        },
    }
}

/// Checks a password against the account found for the user name (an error
/// when the lookup failed). An unknown user costs a check against
/// `dummy_hash` too, so that the answer time does not tell whether the user
/// exists.
pub fn check_credentials(
    lookup: Result<Option<AccountRow>, String>,
    password: &str,
    dummy_hash: &str,
) -> (r: Result<i64, ApiError>)
    ensures
        match credentials_verdict(lookup, password@) {
            CredentialsVerdict::Accepted(id) => r == Ok::<i64, ApiError>(id),
            CredentialsVerdict::LookupFailed => r == Err::<i64, ApiError>(
                ApiError::DBConnectionError,
            ),
            CredentialsVerdict::Rejected => r == Err::<i64, ApiError>(ApiError::InvalidCredentials),
            CredentialsVerdict::UnreadableHash => r matches Err(ApiError::UnexpectedError(_)),
        },
{
    match lookup {
        Err(_) => Err(ApiError::DBConnectionError),
        Ok(None) => {
            let _ = password_matches("", dummy_hash);
            Err(ApiError::InvalidCredentials)
        },
        Ok(Some(row)) => match password_matches(password, row.pw_hash.as_str()) {
            Some(true) => Ok(row.id),
            Some(false) => Err(ApiError::InvalidCredentials),
            None => Err(ApiError::UnexpectedError(String::from_str("unreadable password hash"))),
        },
    }
}

/// The answer to a login once the session row was (or was not) inserted: the
/// signed token of the new session and its expiry.
pub fn login_response(keys: &JwtKeys, created: Result<Session, String>) -> (r: ApiResponse<()>)
    ensures
        created matches Err(detail) ==> r.error matches Some(ApiError::DbError(d)) && d@
            == "Error inserting session: "@ + detail@ && r.expires_at == 0 && r.token@.len() == 0,
        created matches Ok(s) ==> r.error is None && r.expires_at == s.expires_at && issued_for(
            keys@,
            s.id,
            r.token@,
        ),
{
    match created {
        Err(detail) => return_early(
            ApiError::DbError(String::from_str("Error inserting session: ").concat(detail.as_str())),
        ),
        Ok(s) => {
            let token = keys.encode(s.id);
            ApiResponse { expires_at: s.expires_at, token, error: None, data: () }
        },
    }
}

/// The answer to a login that was refused for the verdict `v`: no session,
/// no token, expiry 0, and the error of the verdict.
pub open spec fn refused_with(v: CredentialsVerdict, r: ApiResponse<()>) -> bool {
    r.expires_at == 0 && r.token@.len() == 0 && r.error is Some && match v {
        CredentialsVerdict::LookupFailed => r.error == Some(ApiError::DBConnectionError),
        CredentialsVerdict::Rejected => r.error == Some(ApiError::InvalidCredentials),
        CredentialsVerdict::UnreadableHash => r.error->Some_0 is UnexpectedError,
        CredentialsVerdict::Accepted(_) => false,
    }
}

/// What a login asks next, once the account was looked up.
#[derive(Debug, PartialEq, Eq)]
pub enum LoginAction {
    /// Insert a session of this account, valid until this time, and report
    /// the row back to `login_response`.
    Create(i64, i64),
    /// Answer with this response.
    Answer(ApiResponse<()>),
}

/// The step of a login after the account lookup: a session to create, valid
/// until `now + ttl`, when the password matches, else the refusal.
pub fn after_lookup(
    lookup: Result<Option<AccountRow>, String>,
    password: &str,
    dummy_hash: &str,
    now: i64,
    ttl: i64,
) -> (r: LoginAction)
    ensures
        match credentials_verdict(lookup, password@) {
            CredentialsVerdict::Accepted(id) => if i64::MIN <= now + ttl <= i64::MAX {
                r == LoginAction::Create(id, (now + ttl) as i64)
            } else {
                r is Answer && r->Answer_0.expires_at == 0 && r->Answer_0.token@.len() == 0
                    && r->Answer_0.error is Some && r->Answer_0.error->Some_0 is UnexpectedError
            },
            v => r is Answer && refused_with(v, r->Answer_0),
        },
{
    match check_credentials(lookup, password, dummy_hash) {
        Err(e) => LoginAction::Answer(return_early(e)),
        Ok(id) => match now.checked_add(ttl) {
            Some(expires_at) => LoginAction::Create(id, expires_at),
            None => LoginAction::Answer(
                return_early(ApiError::UnexpectedError(String::from_str("session expiry out of range"))),
            ),
        },
    }
}

/// A login against `store`: checks the credentials of the account found for
/// the user name, then opens the session `new_id`, valid until `now + ttl`.
/// Earlier sessions of the account stay valid. An unknown user and a wrong
/// password get the same answer.
pub fn login(
    store: &mut SessionStore,
    keys: &JwtKeys,
    params: &LoginCallParams,
    lookup: Result<Option<AccountRow>, String>,
    dummy_hash: &str,
    new_id: SessionId,
    now: i64,
    ttl: i64,
) -> (r: ApiResponse<()>)
    requires
        old(store).wf(),
        i64::MIN <= now + ttl <= i64::MAX,
    ensures
        final(store).wf(),
        !(credentials_verdict(lookup, params.password@) is Accepted) ==> refused_with(
            credentials_verdict(lookup, params.password@),
            r,
        ) && final(store)@ == old(store)@,
        credentials_verdict(lookup, params.password@) matches CredentialsVerdict::Accepted(
            account_id,
        ) ==> (if has_session(old(store)@, new_id) {
            r.error is Some && r.error->Some_0 is DbError && r.expires_at == 0 && r.token@.len()
                == 0 && final(store)@ == old(store)@
        } else {
            final(store)@ == old(store)@.push(
                Session { id: new_id, account_id, expires_at: (now + ttl) as i64 },
            ) && r.error is None && r.expires_at == now + ttl && issued_for(
                keys@,
                new_id,
                r.token@,
            )
        }),
        r.error is None <==> (credentials_verdict(lookup, params.password@) is Accepted
            && !has_session(old(store)@, new_id)),
{
    let (account_id, _) = match after_lookup(
        lookup,
        params.password.as_str(),
        dummy_hash,
        now,
        ttl,
    ) {
        LoginAction::Answer(r) => return r,
        LoginAction::Create(id, _) => (id, 0),
    };
    let created = match store.create(new_id, account_id, now, ttl) {
        Ok(s) => Ok(s),
        Err(ApiError::DbError(detail)) => Err(detail),
        Err(_) => Err(String::new()),
    };
    login_response(keys, created)
}

} // verus!
