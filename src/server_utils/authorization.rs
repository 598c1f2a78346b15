use vstd::prelude::*;
use vstd::string::*;

use crate::api::error::ApiError;
use crate::api::jwt::{decoded, opt_view, JwtKeys, SessionId};
use crate::server_utils::session_store::{
    find_session, lemma_kept_row_was_there, live_rows, renewed, Session, SessionStore,
};
use crate::utils::{clamp_i64, saturate_i64};

verus! {

/// The text of the first capture group of the leftmost match of `pattern` in
/// `text`, as the regex crate finds it; `None` when the pattern does not
/// compile or does not match, or the group takes no part in the match.
pub uninterp spec fn regex_first_group(pattern: Seq<char>, text: Seq<char>) -> Option<Seq<char>>;

/// The shape an Authorization header value must have: `Bearer <token>`.
pub open spec fn bearer_pattern() -> Seq<char> {
    "Bearer (.+)"@
}

/// The text has no line break.
pub open spec fn no_newline(h: Seq<char>) -> bool {
    forall|k: int| 0 <= k < h.len() ==> h[k] != '\n'
}

/// `Bearer ` stands at index `i` of `h`, and at least one character follows.
pub open spec fn bearer_at(h: Seq<char>, i: int) -> bool {
    0 <= i && i + 7 < h.len() && h.subrange(i, i + 7) == "Bearer "@
}

/// The leftmost match of `Bearer (.+)` in a text without line breaks: all
/// that follows the first `Bearer ` after which a character follows.
pub open spec fn first_bearer_token(h: Seq<char>) -> Option<Seq<char>> {
    if exists|i: int| bearer_at(h, i) {
        let i = choose|i: int| bearer_at(h, i) && forall|j: int| 0 <= j < i ==> !bearer_at(h, j);
        Some(h.subrange(i + 7, h.len() as int))
    } else {
        None
    }
}

/// Relies on `regex::Regex::new` and `Regex::captures`: the first group of the
/// leftmost match. For `Bearer (.+)` on a text without line breaks (where `.`
/// matches every character) that is all that follows the leftmost `Bearer `
/// after which a character follows.
#[verifier::external_body]
fn first_group(pattern: &str, text: &str) -> (r: Option<String>)
    ensures
        opt_view(r) == regex_first_group(pattern@, text@),
        pattern@ == bearer_pattern() && no_newline(text@) ==> opt_view(r) == first_bearer_token(
            text@,
        ),
{
    regex::Regex::new(pattern).ok().and_then(
        |re| re.captures(text).and_then(|c| c.get(1)).map(|m| m.as_str().to_string()),
    )
}

/// The text of an optional header value, if any.
pub open spec fn header_view(header: Option<&str>) -> Option<Seq<char>> {
    match header {
        Some(h) => Some(h@),
        None => None,
    }
}

/// The token that an Authorization header carries: none when the header is
/// missing (or not text), empty, or not of the `Bearer <token>` shape.
pub open spec fn bearer_of(header: Option<Seq<char>>) -> Option<Seq<char>> {
    match header {
        None => None,
        Some(h) => if h.len() == 0 {
            None
        } else if no_newline(h) {
            first_bearer_token(h)
        } else {
            regex_first_group(bearer_pattern(), h)
        },
    }
}

/// The session that a request's Authorization header names, if its token
/// checks out.
pub open spec fn session_of(secret: Seq<u8>, header: Option<Seq<char>>) -> Option<SessionId> {
    match bearer_of(header) {
        None => None,
        Some(token) => match decoded(secret, token) {
            Ok(id) => Some(id),
            Err(_) => None,
        },
    }
}

/// What a session row allows at time `now`: none is Unauthorized, one that
/// expired (at `now` or before) is Expired.
pub open spec fn session_verdict(row: Option<Session>, now: i64) -> Result<Session, ApiError> {
    match row {
        None => Err(ApiError::Unauthorized),
        Some(s) => if s.expires_at <= now {
            Err(ApiError::Expired)
        } else {
            Ok(s)
        },
    }
}

/// Where the last `/`-separated segment of a path starts.
pub open spec fn segment_start(p: Seq<char>) -> int
    decreases p.len(),
{
    if p.len() == 0 {
        0
    } else if p.last() == '/' {
        p.len() as int
    } else {
        segment_start(p.drop_last())
    }
}

/// The path's last segment starts with `login`: the entry point that issues
/// sessions, which cannot require one.
pub open spec fn is_login_path(p: Seq<char>) -> bool {
    let s = p.subrange(segment_start(p), p.len() as int);
    s.len() >= 5 && s.subrange(0, 5) == "login"@
}

proof fn lemma_segment_start_bounds(p: Seq<char>)
    ensures
        0 <= segment_start(p) <= p.len(),
    decreases p.len(),
{
    if p.len() > 0 {
        lemma_segment_start_bounds(p.drop_last());
    }
}

/// Whether a request to `path` skips authorization (the login entry point).
pub fn bypasses_authorization(path: &str) -> (r: bool)
    ensures
        r == is_login_path(path@),
{
    let n = path.unicode_len();
    let mut start: usize = n;
    assert(path@.subrange(0, n as int) =~= path@);
    while start > 0 && path.get_char(start - 1) != '/'
        invariant
            start <= n,
            n == path@.len(),
            segment_start(path@) == segment_start(path@.subrange(0, start as int)),
        decreases start,
    {
        assert(path@.subrange(0, start as int).drop_last() =~= path@.subrange(0, start - 1));
        start = start - 1;
    }
    assert(segment_start(path@) == start);
    proof {
        lemma_segment_start_bounds(path@);
        reveal_strlit("login");
    }
    let seg = path.substring_char(start, n);
    if seg.unicode_len() < 5 {
        return false;
    }
    let r = seg.get_char(0) == 'l' && seg.get_char(1) == 'o' && seg.get_char(2) == 'g'
        && seg.get_char(3) == 'i' && seg.get_char(4) == 'n';
    let ghost login = seq!['l', 'o', 'g', 'i', 'n'];
    assert("login"@ =~= login);
    if r {
        assert(seg@.subrange(0, 5) =~= login);
    } else {
        assert(exists|k: int| 0 <= k < 5 && seg@[k] != login[k]);
        assert(seg@.subrange(0, 5) != login) by {
            let k = choose|k: int| 0 <= k < 5 && seg@[k] != login[k];
            assert(seg@.subrange(0, 5)[k] == seg@[k]);
        }
    }
    r
}

/// The token of an Authorization header value (`None` when the header is
/// missing or not text). Anything else than `Bearer <token>` is Unauthorized.
pub fn extract_token(header: Option<&str>) -> (r: Result<String, ApiError>)
    ensures
        r matches Ok(t) ==> bearer_of(header_view(header)) == Some(t@),
        r matches Err(e) ==> bearer_of(header_view(header)) is None && e == ApiError::Unauthorized,
{
    match header {
        None => Err(ApiError::Unauthorized),
        Some(h) => {
            if h.is_empty() {
                Err(ApiError::Unauthorized)
            } else {
                match first_group("Bearer (.+)", h) {
                    None => Err(ApiError::Unauthorized),
                    Some(token) => Ok(token),
                }
            }
        },
    }
}

/// The session named by an Authorization header, with the token that named it.
/// A missing, malformed, tampered or foreign token is Unauthorized; why it
/// failed is not told.
pub fn decode_session(keys: &JwtKeys, header: Option<&str>) -> (r: Result<(SessionId, String), ApiError>)
    ensures
        r matches Ok((id, t)) ==> bearer_of(header_view(header)) == Some(t@) && decoded(keys@, t@)
            == Ok::<SessionId, crate::api::jwt::TokenError>(id) && session_of(keys@, header_view(header))
            == Some(id),
        r matches Err(e) ==> session_of(keys@, header_view(header)) is None && e
            == ApiError::Unauthorized,
{
    let token = match extract_token(header) {
        Err(e) => return Err(e),
        Ok(t) => t,
    };
    match keys.decode(token.as_str()) {
        Err(_) => Err(ApiError::Unauthorized),
        Ok(id) => Ok((id, token)),
    }
}

/// The verdict on a looked-up session row at time `now`.
pub fn check_session(row: Option<Session>, now: i64) -> (r: Result<Session, ApiError>)
    ensures
        r == session_verdict(row, now),
        row is None ==> r == Err::<Session, ApiError>(ApiError::Unauthorized),
        row matches Some(s) && s.expires_at <= now ==> r == Err::<Session, ApiError>(
            ApiError::Expired,
        ),
{
    match row {
        None => Err(ApiError::Unauthorized),
        Some(s) => if s.expires_at <= now {
            Err(ApiError::Expired)
        } else {
            Ok(s)
        },
    }
}

/// The verified identity that an authorized request carries downstream.
#[derive(Debug, Clone, PartialEq, Eq)]
pub struct RequestIdentity {
    pub account_id: i64,
    pub session_token: String,
    pub expires_at: i64,
}

/// The identity of a request whose session was renewed, or Unauthorized when
/// the renewal failed: a failed renewal never extends trust.
pub fn renewal_outcome(session: Session, token: String, renewal: Result<i64, ApiError>) -> (r: Result<
    RequestIdentity,
    ApiError,
>)
    ensures
        r is Ok <==> renewal is Ok,
        r matches Ok(ident) ==> ident.account_id == session.account_id && ident.session_token@
            == token@ && renewal == Ok::<i64, ApiError>(ident.expires_at),
        r matches Err(e) ==> e == ApiError::Unauthorized,
{
    match renewal {
        Ok(expires_at) => Ok(RequestIdentity { account_id: session.account_id, session_token: token, expires_at }),
        Err(_) => Err(ApiError::Unauthorized),
    }
}

/// The authorization policy: the signing keys, the session time-to-live and
/// how long a session may have been dead before a request sweeps it away.
pub struct Authorisation {
    pub keys: JwtKeys,
    pub session_ttl: i64,
    pub cleanup_window: i64,
}

/// The verdict on a request with the Authorization header `header` at `now`,
/// against the session rows `rows` left by the sweep.
pub open spec fn auth_verdict(
    secret: Seq<u8>,
    rows: Seq<Session>,
    header: Option<Seq<char>>,
    now: i64,
) -> Result<Session, ApiError> {
    match session_of(secret, header) {
        None => Err(ApiError::Unauthorized),
        Some(id) => session_verdict(find_session(rows, id), now),
    }
}

/// Where a request stands in the authorization pipeline.
#[derive(Debug, Clone, PartialEq, Eq)]
pub enum AuthState {
    /// Nothing was done yet.
    Received,
    /// The sweep of long dead sessions was asked for.
    Sweeping,
    /// The session with this id, named by this token, was asked for.
    LookingUp(SessionId, String),
    /// This live session, named by this token, is being renewed.
    Renewing(Session, String),
    /// The request is decided.
    Decided,
}

/// What the pipeline asks of the session table next.
#[derive(Debug, PartialEq, Eq)]
pub enum AuthAction {
    /// Delete the sessions that expired before this cutoff.
    Sweep(i64),
    /// Look up the session with this id.
    Fetch(SessionId),
    /// Reset, in one statement, the expiry of this session to this time and
    /// return the stored value.
    Renew(SessionId, i64),
    /// The request is decided: it goes on with this identity, or is answered
    /// with this error.
    Answer(Result<RequestIdentity, ApiError>),
}

/// What the session table reports back.
#[derive(Debug, PartialEq, Eq)]
pub enum AuthEvent {
    /// A request arrived.
    Start,
    /// The sweep ran. A failed sweep is reported the same way: it never
    /// blocks authorization.
    Swept,
    /// The lookup gave this row, or failed.
    Fetched(Result<Option<Session>, ApiError>),
    /// The renewal stored this expiry, or failed.
    Renewed(Result<i64, ApiError>),
}

impl Authorisation {
    pub fn new(keys: JwtKeys, session_ttl: i64, cleanup_window: i64) -> (r: Self)
        ensures
            r.keys@ == keys@,
            r.session_ttl == session_ttl,
            r.cleanup_window == cleanup_window,
    {
        Authorisation { keys, session_ttl, cleanup_window }
    }

    /// The cutoff of the sweep that precedes each authorization at `now`
    /// (held to the range of `i64`).
    pub open spec fn cleanup_cutoff(&self, now: i64) -> i64 {
        clamp_i64(now - self.cleanup_window)
    }

    /// `r` is the outcome, and `after` the session rows, of authorizing a
    /// request with the header `header` at `now` against the rows `before`:
    /// the sweep always runs; a missing, malformed or foreign token, or one
    /// that names no stored session, is Unauthorized and an expired session
    /// is Expired, with nothing else changed; a live session is renewed to
    /// `now + session_ttl` and the request carries its identity.
    pub open spec fn authorized(
        &self,
        before: Seq<Session>,
        after: Seq<Session>,
        header: Option<Seq<char>>,
        now: i64,
        r: Result<RequestIdentity, ApiError>,
    ) -> bool {
        let cleaned = live_rows(before, self.cleanup_cutoff(now));
        match auth_verdict(self.keys@, cleaned, header, now) {
            Err(e) => r == Err::<RequestIdentity, ApiError>(e) && after == cleaned,
            Ok(s) => r is Ok && r->Ok_0.account_id == s.account_id && r->Ok_0.expires_at == now
                + self.session_ttl && bearer_of(header) == Some(r->Ok_0.session_token@) && after
                == renewed(cleaned, s.id, r->Ok_0.expires_at),
        }
    }

    /// One step of the authorization pipeline: from where the request stands
    /// and what the session table reported, the next state and what to ask
    /// of the table next.
    pub fn step(&self, state: AuthState, event: AuthEvent, header: Option<&str>, now: i64) -> (r: (
        AuthState,
        AuthAction,
    ))
        requires
            i64::MIN <= now + self.session_ttl <= i64::MAX,
        ensures
            match (state, event) {
                (AuthState::Received, AuthEvent::Start) => r.0 == AuthState::Sweeping && r.1
                    == AuthAction::Sweep(self.cleanup_cutoff(now)),
                (AuthState::Sweeping, AuthEvent::Swept) => match session_of(
                    self.keys@,
                    header_view(header),
                ) {
                    None => r.0 == AuthState::Decided && r.1 == AuthAction::Answer(
                        Err(ApiError::Unauthorized),
                    ),
                    Some(id) => r.1 == AuthAction::Fetch(id) && r.0 is LookingUp && r.0->LookingUp_0
                        == id && bearer_of(header_view(header)) == Some(r.0->LookingUp_1@),
                },
                (AuthState::LookingUp(id, t), AuthEvent::Fetched(res)) => match res {
                    Err(_) => r.0 == AuthState::Decided && r.1 == AuthAction::Answer(
                        Err(ApiError::Unauthorized),
                    ),
                    Ok(row) => match session_verdict(row, now) {
                        Err(e) => r.0 == AuthState::Decided && r.1 == AuthAction::Answer(Err(e)),
                        Ok(s) => r.0 == AuthState::Renewing(s, t) && r.1 == AuthAction::Renew(
                            id,
                            (now + self.session_ttl) as i64,
                        ),
                    },
                },
                (AuthState::Renewing(s, t), AuthEvent::Renewed(res)) => r.0 == AuthState::Decided
                    && r.1 is Answer && match res {
                    Ok(e) => r.1->Answer_0 is Ok && r.1->Answer_0->Ok_0.account_id == s.account_id
                        && r.1->Answer_0->Ok_0.session_token@ == t@ && r.1->Answer_0->Ok_0.expires_at
                        == e,
                    Err(_) => r.1->Answer_0 == Err::<RequestIdentity, ApiError>(
                        ApiError::Unauthorized,
                    ),
                },
                _ => r.0 == AuthState::Decided && r.1 is Answer && r.1->Answer_0 is Err
                    && r.1->Answer_0->Err_0 is UnexpectedError,
            },
    {
        match (state, event) {
            (AuthState::Received, AuthEvent::Start) => {
                let cutoff = saturate_i64(now as i128 - self.cleanup_window as i128);
                (AuthState::Sweeping, AuthAction::Sweep(cutoff))
            },
            (AuthState::Sweeping, AuthEvent::Swept) => match decode_session(&self.keys, header) {
                Err(e) => (AuthState::Decided, AuthAction::Answer(Err(e))),
                Ok((id, token)) => (AuthState::LookingUp(id, token), AuthAction::Fetch(id)),
            },
            (AuthState::LookingUp(id, token), AuthEvent::Fetched(res)) => match res {
                Err(_) => (AuthState::Decided, AuthAction::Answer(Err(ApiError::Unauthorized))),
                Ok(row) => match check_session(row, now) {
                    Err(e) => (AuthState::Decided, AuthAction::Answer(Err(e))),
                    Ok(s) => (
                        AuthState::Renewing(s, token),
                        AuthAction::Renew(id, now + self.session_ttl),
                    ),
                },
            },
            (AuthState::Renewing(s, token), AuthEvent::Renewed(res)) => (
                AuthState::Decided,
                AuthAction::Answer(renewal_outcome(s, token, res)),
            ),
            _ => (
                AuthState::Decided,
                AuthAction::Answer(
                    Err(ApiError::UnexpectedError(String::from_str("authorization step out of order"))),
                ),
            ),
        }
    }

    /// Authorizes a request at time `now` against `store` by running the
    /// pipeline's steps: sweeps the long dead sessions, then extracts and
    /// decodes the bearer token, looks the session up, checks its expiry and
    /// renews it to `now + session_ttl`.
    pub fn authorize(&self, store: &mut SessionStore, header: Option<&str>, now: i64) -> (r: Result<
        RequestIdentity,
        ApiError,
    >)
        requires
            old(store).wf(),
            i64::MIN <= now + self.session_ttl <= i64::MAX,
        ensures
            final(store).wf(),
            self.authorized(old(store)@, final(store)@, header_view(header), now, r),
            r is Ok ==> session_of(self.keys@, header_view(header)) is Some && find_session(
                old(store)@,
                session_of(self.keys@, header_view(header))->Some_0,
            ) is Some && find_session(
                old(store)@,
                session_of(self.keys@, header_view(header))->Some_0,
            )->Some_0.expires_at > now,
    {
        let ghost before = *store;
        let (state, action) = self.step(AuthState::Received, AuthEvent::Start, header, now);
        let cutoff = match action {
            AuthAction::Sweep(c) => c,
            _ => return Err(ApiError::Unauthorized),
        };
        let _ = store.delete_expired(cutoff);
        let (state, action) = self.step(state, AuthEvent::Swept, header, now);
        let id = match action {
            AuthAction::Fetch(id) => id,
            AuthAction::Answer(r) => return r,
            _ => return Err(ApiError::Unauthorized),
        };
        let row = store.fetch(id);
        let (state, action) = self.step(state, AuthEvent::Fetched(Ok(row)), header, now);
        match action {
            AuthAction::Renew(_, _) => {},
            AuthAction::Answer(r) => return r,
            _ => return Err(ApiError::Unauthorized),
        }
        proof {
            lemma_kept_row_was_there(&before, cutoff, id);
        }
        let renewal = store.renew(id, now, self.session_ttl);
        let (_, action) = self.step(state, AuthEvent::Renewed(renewal), header, now);
        match action {
            AuthAction::Answer(r) => r,
            _ => Err(ApiError::Unauthorized),
        }
    }
}

/// What became of a request at the authorization gate.
#[derive(Debug, Clone, PartialEq, Eq)]
pub enum AuthOutcome {
    /// The login entry point: no session is asked for.
    Bypass,
    /// The request goes on downstream with this identity.
    Authorized(RequestIdentity),
    /// The request is answered with this error.
    Rejected(ApiError),
}

/// The authorization result an outcome stands for (a bypass stands for none:
/// it is read as Unauthorized).
pub open spec fn outcome_result(o: AuthOutcome) -> Result<RequestIdentity, ApiError> {
    match o {
        AuthOutcome::Authorized(ident) => Ok(ident),
        AuthOutcome::Rejected(e) => Err(e),
        AuthOutcome::Bypass => Err(ApiError::Unauthorized),
    }
}

/// Wraps the handler `service`: requests to the login path go straight to it,
/// all others only once authorized.
pub struct AuthorisationMiddleware<S> {
    pub service: S,
    pub auth: Authorisation,
}

impl<S> AuthorisationMiddleware<S> {
    pub fn new(service: S, auth: Authorisation) -> (r: Self)
        ensures
            r.service == service,
            r.auth == auth,
    {
        AuthorisationMiddleware { service, auth }
    }

    /// Decides a request to `path` with the given Authorization header at time
    /// `now`: the login path passes untouched, any other is authorized.
    pub fn call(&self, store: &mut SessionStore, path: &str, header: Option<&str>, now: i64) -> (r:
        AuthOutcome)
        requires
            old(store).wf(),
            i64::MIN <= now + self.auth.session_ttl <= i64::MAX,
        ensures
            final(store).wf(),
            is_login_path(path@) ==> r == AuthOutcome::Bypass && final(store)@ == old(store)@,
            !is_login_path(path@) ==> r !is Bypass && self.auth.authorized(
                old(store)@,
                final(store)@,
                header_view(header),
                now,
                outcome_result(r),
            ),
    {
        if bypasses_authorization(path) {
            return AuthOutcome::Bypass;
        }
        match self.auth.authorize(store, header, now) {
            Ok(ident) => AuthOutcome::Authorized(ident),
            Err(e) => AuthOutcome::Rejected(e),
        }
    }
}

} // verus!
