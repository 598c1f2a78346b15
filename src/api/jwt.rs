use vstd::prelude::*;
use vstd::string::*;

verus! {

/// A session identifier: a 128-bit value, written as a UUID.
#[derive(Debug, Clone, Copy, PartialEq, Eq, Structural, Hash)]
pub struct SessionId {
    pub bits: u128,
}

/// Why a token could not be produced or read back.
#[derive(Debug, Clone, Copy, PartialEq, Eq, Structural)]
pub enum TokenError {
    /// The signature or the envelope of the token is not valid.
    InvalidToken,
    /// The token is valid but carries no session id claim.
    MissingClaim,
    /// The session id claim is not a UUID.
    InvalidSessionId,
}

#[verifier::external_type_specification]
#[verifier::external_body]
pub struct ExJwtError(jsonwebtoken::errors::Error);

/// The lower-case hexadecimal digit of `d` (for `0 <= d < 16`).
pub open spec fn hex_char(d: int) -> char {
    seq!['0', '1', '2', '3', '4', '5', '6', '7', '8', '9', 'a', 'b', 'c', 'd', 'e', 'f'][d]
}

/// The last `n` hexadecimal digits of `x`, most significant first.
pub open spec fn hex_digits(x: int, n: nat) -> Seq<char>
    decreases n,
{
    if n == 0 {
        Seq::empty()
    } else {
        hex_digits(x / 16, (n - 1) as nat).push(hex_char(x % 16))
    }
}

/// The hyphenated lower-case text of a UUID: 8-4-4-4-12 hexadecimal digits.
pub open spec fn uuid_hyphenated(x: u128) -> Seq<char> {
    let h = hex_digits(x as int, 32);
    h.subrange(0, 8) + seq!['-'] + h.subrange(8, 12) + seq!['-'] + h.subrange(12, 16) + seq![
        '-',
    ] + h.subrange(16, 20) + seq!['-'] + h.subrange(20, 32)
}

/// What `uuid::Uuid::parse_str` makes of a text: the value, or `None` when it
/// is no UUID in any of the forms the parser accepts.
pub uninterp spec fn uuid_parsed(s: Seq<char>) -> Option<u128>;

/// What `jsonwebtoken::decode` makes of `token` under an HS256 key made of
/// `secret`, with no claim required and no time-based check, reading the
/// claims as a map of strings: `None` when the signature or the envelope is
/// not valid or a claim is not a string, else the value of the claim named
/// `claim`, if the token has one.
pub uninterp spec fn jwt_claims(secret: Seq<u8>, claim: Seq<char>, token: Seq<char>) -> Option<
    Option<Seq<char>>,
>;

/// The text an optional string holds, if any.
pub open spec fn opt_view(o: Option<String>) -> Option<Seq<char>> {
    match o {
        Some(s) => Some(s@),
        None => None,
    }
}

/// Relies on `Uuid::from_u128` and uuid's `Display`, which writes the
/// hyphenated lower-case form.
#[verifier::external_body]
fn uuid_to_text(bits: u128) -> (r: String)
    ensures
        r@ == uuid_hyphenated(bits),
{
    sqlx::types::Uuid::from_u128(bits).to_string()
}

/// Relies on `uuid::Uuid::parse_str` (and `Uuid::as_u128`), which accepts the
/// hyphenated form of every value.
#[verifier::external_body]
fn uuid_from_text(s: &str) -> (r: Option<u128>)
    ensures
        r == uuid_parsed(s@),
        forall|x: u128| #[trigger] uuid_hyphenated(x) == s@ ==> r == Some(x),
{
    sqlx::types::Uuid::parse_str(s).ok().map(|u| u.as_u128())
}

/// Relies on `jsonwebtoken::encode` with the default (HS256) header and an
/// `EncodingKey::from_secret`: HMAC signing of a map of strings does not fail,
/// the token holds one claim, `claim: value`, and `jsonwebtoken::decode` under
/// the same secret gives that claim back.
#[verifier::external_body]
fn jwt_sign(secret: &[u8], claim: &str, value: &str) -> (r: Result<String, jsonwebtoken::errors::Error>)
    ensures
        r is Ok,
        r matches Ok(t) ==> jwt_claims(secret@, claim@, t@) == Some(Some(value@)),
{
    let mut claims = std::collections::BTreeMap::new();
    claims.insert(claim, value);
    let key = jsonwebtoken::EncodingKey::from_secret(secret);
    jsonwebtoken::encode(&jsonwebtoken::Header::default(), &claims, &key)
}

/// Relies on `jsonwebtoken::decode` with a `DecodingKey::from_secret` and an
/// HS256 validation that requires no claim and checks no time or audience.
#[verifier::external_body]
fn jwt_verify(secret: &[u8], claim: &str, token: &str) -> (r: Result<Option<String>, jsonwebtoken::errors::Error>)
    ensures
        r matches Ok(c) ==> jwt_claims(secret@, claim@, token@) == Some(opt_view(c)),
        r is Err ==> jwt_claims(secret@, claim@, token@) is None,
{
    let key = jsonwebtoken::DecodingKey::from_secret(secret);
    let mut validation = jsonwebtoken::Validation::new(jsonwebtoken::Algorithm::HS256);
    validation.required_spec_claims = std::collections::HashSet::new();
    validation.validate_aud = false;
    validation.validate_exp = false;
    jsonwebtoken::decode::<std::collections::BTreeMap<String, String>>(token, &key, &validation)
        .map(|data| data.claims.get(claim).cloned())
}

/// The name of the one claim a token carries.
pub open spec fn session_claim() -> Seq<char> {
    "session_id"@
}

/// `token` is a token that `secret` signed for session `id`.
pub open spec fn issued_for(secret: Seq<u8>, id: SessionId, token: Seq<char>) -> bool {
    jwt_claims(secret, session_claim(), token) == Some(Some(uuid_hyphenated(id.bits)))
}

/// The outcome of reading the session id out of a claim text.
pub open spec fn claim_to_session(text: Seq<char>) -> Result<SessionId, TokenError> {
    match uuid_parsed(text) {
        Some(bits) => Ok(SessionId { bits }),
        None => Err(TokenError::InvalidSessionId),
    }
}

/// The outcome of decoding `token` under `secret`.
pub open spec fn decoded(secret: Seq<u8>, token: Seq<char>) -> Result<SessionId, TokenError> {
    match jwt_claims(secret, session_claim(), token) {
        None => Err(TokenError::InvalidToken),
        Some(None) => Err(TokenError::MissingClaim),
        Some(Some(text)) => claim_to_session(text),
    }
}

/// The payload of a token: the session id as text.
#[derive(Debug, Clone, PartialEq, Eq)]
pub struct JwtClaim {
    session_id: String,
}

impl View for JwtClaim {
    type V = Seq<char>;

    closed spec fn view(&self) -> Seq<char> {
        self.session_id@
    }
}

impl JwtClaim {
    /// The claim naming `session_id`, in hyphenated form.
    pub fn new(session_id: SessionId) -> (r: Self)
        ensures
            r@ == uuid_hyphenated(session_id.bits),
    {
        JwtClaim { session_id: uuid_to_text(session_id.bits) }
    }

    /// The session id the claim names.
    pub fn try_into_uuid(self) -> (r: Result<SessionId, TokenError>)
        ensures
            r == claim_to_session(self@),
            forall|id: SessionId| #[trigger] uuid_hyphenated(id.bits) == self@ ==> r == Ok::<SessionId, TokenError>(id),
    {
        match uuid_from_text(self.session_id.as_str()) {
            Some(bits) => Ok(SessionId { bits }),
            None => Err(TokenError::InvalidSessionId),
        }
    }
}

/// The process-wide signing secret from which tokens are signed and checked.
#[derive(Clone)]
pub struct JwtKeys {
    secret: Vec<u8>,
}

impl View for JwtKeys {
    type V = Seq<u8>;

    closed spec fn view(&self) -> Seq<u8> {
        self.secret@
    }
}

/// The keys made of `secret`.
pub fn get_jwt_keys(secret: Vec<u8>) -> (r: JwtKeys)
    ensures
        r@ == secret@,
{
    JwtKeys { secret }
}

impl JwtKeys {
    /// The signed token for session `id`; `decode` gives `id` back from it.
    pub fn encode(&self, id: SessionId) -> (r: String)
        ensures
            issued_for(self@, id, r@),
    {
        let claim = JwtClaim::new(id);
        match jwt_sign(self.secret.as_slice(), "session_id", claim.session_id.as_str()) {
            Ok(token) => token,
            Err(_) => String::new(),
        }
    }

    /// The session id that `token` carries, once its signature is checked.
    pub fn decode(&self, token: &str) -> (r: Result<SessionId, TokenError>)
        ensures
            r == decoded(self@, token@),
            forall|id: SessionId| #[trigger] issued_for(self@, id, token@) ==> r == Ok::<SessionId, TokenError>(id),
    {
        match jwt_verify(self.secret.as_slice(), "session_id", token) {
            Err(_) => Err(TokenError::InvalidToken),
            Ok(None) => Err(TokenError::MissingClaim),
            Ok(Some(text)) => {
                let claim = JwtClaim { session_id: text };
                claim.try_into_uuid()
            },
        }
    }
}

} // verus!
