use leptos_ssr_first::api::error::ApiError;
use leptos_ssr_first::api::jwt::{get_jwt_keys, JwtKeys, SessionId};
use leptos_ssr_first::client::AddAuthHeaderClient;
use leptos_ssr_first::server_utils::authorization::{
    bypasses_authorization, check_session, decode_session, extract_token, renewal_outcome,
    AuthAction, AuthEvent, AuthOutcome, AuthState, Authorisation, AuthorisationMiddleware,
};
use leptos_ssr_first::server_utils::session_store::{Session, SessionStore};

const SECRET: &[u8] = b"secret for authorization tests";

fn policy() -> Authorisation {
    Authorisation::new(get_jwt_keys(SECRET.to_vec()), 3600, 3000)
}

fn bearer(keys: &JwtKeys, bits: u128) -> String {
    format!("Bearer {}", keys.encode(SessionId { bits }))
}

#[test]
fn login_paths_bypass() {
    assert!(bypasses_authorization("/api/login"));
    assert!(bypasses_authorization("/api/login12345"));
    assert!(bypasses_authorization("login"));
    assert!(!bypasses_authorization("/api/get_user"));
    assert!(!bypasses_authorization("/login/get_user"));
    assert!(!bypasses_authorization("/api/"));
    assert!(!bypasses_authorization(""));
    assert!(!bypasses_authorization("/api/logi"));
}

#[test]
fn header_shapes() {
    assert_eq!(extract_token(None), Err(ApiError::Unauthorized));
    assert_eq!(extract_token(Some("")), Err(ApiError::Unauthorized));
    assert_eq!(extract_token(Some("Bearer")), Err(ApiError::Unauthorized));
    assert_eq!(extract_token(Some("Bearer ")), Err(ApiError::Unauthorized));
    assert_eq!(extract_token(Some("Basic abc")), Err(ApiError::Unauthorized));
    assert_eq!(extract_token(Some("Bearer abc.def")), Ok("abc.def".to_string()));
}

#[test]
fn client_header_is_accepted_shape() {
    let (name, value) = AddAuthHeaderClient::authorization_header("tok");
    assert_eq!(name, "Authorization");
    assert_eq!(value, "Bearer tok");
    assert_eq!(extract_token(Some(value.as_str())), Ok("tok".to_string()));
}

#[test]
fn decode_session_maps_every_failure_to_unauthorized() {
    let keys = get_jwt_keys(SECRET.to_vec());
    let other = get_jwt_keys(b"other".to_vec());
    assert_eq!(decode_session(&keys, Some("Bearer nonsense")), Err(ApiError::Unauthorized));
    assert_eq!(
        decode_session(&keys, Some(bearer(&other, 5).as_str())),
        Err(ApiError::Unauthorized)
    );
    let header = bearer(&keys, 5);
    let (id, token) = decode_session(&keys, Some(header.as_str())).unwrap();
    assert_eq!(id, SessionId { bits: 5 });
    assert_eq!(format!("Bearer {}", token), header);
}

#[test]
fn expiry_boundary_is_expired() {
    let s = Session { id: SessionId { bits: 1 }, account_id: 3, expires_at: 1000 };
    assert_eq!(check_session(Some(s), 1000), Err(ApiError::Expired));
    assert_eq!(check_session(Some(s), 1001), Err(ApiError::Expired));
    assert_eq!(check_session(Some(s), 999), Ok(s));
    assert_eq!(check_session(None, 999), Err(ApiError::Unauthorized));
}

#[test]
fn failed_renewal_fails_closed() {
    let s = Session { id: SessionId { bits: 1 }, account_id: 3, expires_at: 1000 };
    assert_eq!(
        renewal_outcome(s, "t".to_string(), Err(ApiError::DbError("down".to_string()))),
        Err(ApiError::Unauthorized)
    );
    let ident = renewal_outcome(s, "t".to_string(), Ok(4600)).unwrap();
    assert_eq!(ident.account_id, 3);
    assert_eq!(ident.session_token, "t");
    assert_eq!(ident.expires_at, 4600);
}

#[test]
fn session_lifecycle_with_sliding_expiry() {
    let auth = policy();
    let mut store = SessionStore::new();
    let t0: i64 = 1_700_000_000;
    let id = SessionId { bits: 0xabcdef };
    store.create(id, 77, t0, 3600).unwrap();
    let header = bearer(&auth.keys, 0xabcdef);

    let first = auth.authorize(&mut store, Some(header.as_str()), t0).unwrap();
    assert_eq!(first.account_id, 77);
    assert_eq!(first.expires_at, t0 + 3600);

    let second = auth.authorize(&mut store, Some(header.as_str()), t0 + 1800).unwrap();
    assert_eq!(second.expires_at, t0 + 1800 + 3600);

    let epsilon = 5;
    assert_eq!(
        auth.authorize(&mut store, Some(header.as_str()), t0 + 1800 + 3601 + epsilon),
        Err(ApiError::Expired)
    );
}

#[test]
fn bare_bearer_header_is_unauthorized_without_lookup() {
    let auth = policy();
    let mut store = SessionStore::new();
    store.create(SessionId { bits: 1 }, 5, 1000, 3600).unwrap();
    assert_eq!(auth.authorize(&mut store, Some("Bearer"), 1000), Err(ApiError::Unauthorized));
    assert_eq!(store.fetch(SessionId { bits: 1 }).unwrap().expires_at, 4600);
}

#[test]
fn unknown_session_is_unauthorized_not_expired() {
    let auth = policy();
    let mut store = SessionStore::new();
    let header = bearer(&auth.keys, 99);
    assert_eq!(
        auth.authorize(&mut store, Some(header.as_str()), 1000),
        Err(ApiError::Unauthorized)
    );
}

#[test]
fn long_dead_session_is_swept_before_lookup() {
    let auth = policy();
    let mut store = SessionStore::new();
    store.create(SessionId { bits: 1 }, 5, 0, 100).unwrap();
    let header = bearer(&auth.keys, 1);
    assert_eq!(
        auth.authorize(&mut store, Some(header.as_str()), 100 + 3001),
        Err(ApiError::Unauthorized)
    );
    assert_eq!(store.len(), 0);
}

#[test]
fn middleware_passes_login_and_gates_the_rest() {
    let mw = AuthorisationMiddleware::new((), policy());
    let mut store = SessionStore::new();
    store.create(SessionId { bits: 3 }, 8, 0, 10).unwrap();
    assert_eq!(mw.call(&mut store, "/api/login", None, 1_000_000), AuthOutcome::Bypass);
    assert_eq!(store.len(), 1);
    assert_eq!(
        mw.call(&mut store, "/api/get_user", None, 1_000_000),
        AuthOutcome::Rejected(ApiError::Unauthorized)
    );
    store.create(SessionId { bits: 4 }, 8, 1_000_000, 3600).unwrap();
    let header = bearer(&mw.auth.keys, 4);
    match mw.call(&mut store, "/api/get_user", Some(header.as_str()), 1_000_100) {
        AuthOutcome::Authorized(ident) => {
            assert_eq!(ident.account_id, 8);
            assert_eq!(ident.expires_at, 1_000_100 + 3600);
        }
        other => panic!("not authorized: {:?}", other),
    }
}

#[test]
fn steps_of_a_successful_authorization() {
    let auth = policy();
    let id = SessionId { bits: 11 };
    let header = bearer(&auth.keys, 11);
    let h = Some(header.as_str());
    let (st, act) = auth.step(AuthState::Received, AuthEvent::Start, h, 10_000);
    assert_eq!(act, AuthAction::Sweep(7_000));
    assert_eq!(st, AuthState::Sweeping);
    let (st, act) = auth.step(st, AuthEvent::Swept, h, 10_000);
    assert_eq!(act, AuthAction::Fetch(id));
    let row = Session { id, account_id: 4, expires_at: 10_500 };
    let (st, act) = auth.step(st, AuthEvent::Fetched(Ok(Some(row))), h, 10_000);
    assert_eq!(act, AuthAction::Renew(id, 13_600));
    let (st, act) = auth.step(st, AuthEvent::Renewed(Ok(13_600)), h, 10_000);
    assert_eq!(st, AuthState::Decided);
    match act {
        AuthAction::Answer(Ok(ident)) => {
            assert_eq!(ident.account_id, 4);
            assert_eq!(ident.expires_at, 13_600);
            assert_eq!(format!("Bearer {}", ident.session_token), header);
        }
        other => panic!("unexpected {:?}", other),
    }
}

#[test]
fn steps_reject_early() {
    let auth = policy();
    let (st, _) = auth.step(AuthState::Received, AuthEvent::Start, Some("Bearer"), 0);
    let (st, act) = auth.step(st, AuthEvent::Swept, Some("Bearer"), 0);
    assert_eq!(st, AuthState::Decided);
    assert_eq!(act, AuthAction::Answer(Err(ApiError::Unauthorized)));

    let header = bearer(&auth.keys, 11);
    let h = Some(header.as_str());
    let (st, _) = auth.step(AuthState::Sweeping, AuthEvent::Swept, h, 0);
    let (_, act) = auth.step(st.clone(), AuthEvent::Fetched(Ok(None)), h, 0);
    assert_eq!(act, AuthAction::Answer(Err(ApiError::Unauthorized)));
    let (_, act) = auth.step(st.clone(), AuthEvent::Fetched(Err(ApiError::DBConnectionError)), h, 0);
    assert_eq!(act, AuthAction::Answer(Err(ApiError::Unauthorized)));
    let row = Session { id: SessionId { bits: 11 }, account_id: 4, expires_at: 0 };
    let (_, act) = auth.step(st, AuthEvent::Fetched(Ok(Some(row))), h, 0);
    assert_eq!(act, AuthAction::Answer(Err(ApiError::Expired)));

    let renewing = AuthState::Renewing(row, "t".to_string());
    let (_, act) = auth.step(renewing, AuthEvent::Renewed(Err(ApiError::DbError("x".to_string()))), h, 0);
    assert_eq!(act, AuthAction::Answer(Err(ApiError::Unauthorized)));
    let (st, act) = auth.step(AuthState::Decided, AuthEvent::Swept, h, 0);
    assert_eq!(st, AuthState::Decided);
    assert!(matches!(act, AuthAction::Answer(Err(ApiError::UnexpectedError(_)))));
}

#[test]
fn sweep_cutoff_saturates() {
    let auth = Authorisation::new(get_jwt_keys(SECRET.to_vec()), 3600, 3000);
    let (_, act) = auth.step(AuthState::Received, AuthEvent::Start, None, i64::MIN + 5);
    assert_eq!(act, AuthAction::Sweep(i64::MIN));
}

#[test]
fn header_with_text_before_bearer() {
    assert_eq!(extract_token(Some("xBearer abc")), Ok("abc".to_string()));
    assert_eq!(extract_token(Some("Bearer Bearer ")), Ok("Bearer ".to_string()));
}
