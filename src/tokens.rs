//! Session tokens: claims signed with HS256 under a process-wide secret and
//! bounded in time.
use vstd::prelude::*;
use crate::auth::User;
use crate::text::{int_text, push_signed, string_from_chars};

verus! {

/// `jsonwebtoken::errors::Error`, carried opaque and mapped to `TokenError`.
#[verifier::external_type_specification]
#[verifier::external_body]
pub struct ExJwtError(jsonwebtoken::errors::Error);

/// Validity window of a token when the configuration gives none.
pub const DEFAULT_VALIDITY_HOURS: u32 = 24;

/// The decoded payload of a session token. `iat` and `exp` are in seconds
/// since the Unix epoch.
#[derive(Debug, Clone)]
pub struct Claims {
    pub sub: String,
    pub username: String,
    pub cadre: String,
    pub exp: u64,
    pub iat: u64,
}

/// The signing secret and the validity window, fixed for the life of the
/// process.
#[derive(Debug, Clone)]
pub struct TokenConfig {
    pub secret: Vec<u8>,
    pub validity_hours: u32,
}

/// Why a token could not be issued or was not accepted. A tampered and an
/// expired token are the same `Invalid`.
#[derive(Debug, Clone, Copy, PartialEq, Eq, Structural)]
pub enum TokenError {
    Invalid,
    SigningFailed,
    ClockOutOfRange,
}

impl TokenConfig {
    /// Seconds that a token stays valid.
    pub open spec fn window(&self) -> int {
        self.validity_hours as int * 3600
    }

    pub fn new(secret: Vec<u8>, validity_hours: u32) -> (r: TokenConfig)
        ensures
            r.secret@ == secret@,
            r.validity_hours == validity_hours,
    {
        TokenConfig { secret, validity_hours }
    }

    /// A configuration with the default window of 24 hours.
    pub fn with_default_validity(secret: Vec<u8>) -> (r: TokenConfig)
        ensures
            r.secret@ == secret@,
            r.validity_hours == 24,
    {
        TokenConfig { secret, validity_hours: DEFAULT_VALIDITY_HOURS }
    }
}

/// The signing secret.
pub fn get_jwt_secret(config: &TokenConfig) -> (r: &[u8])
    ensures
        r@ == config.secret@,
{
    config.secret.as_slice()
}

/// What `jsonwebtoken::encode` makes of these claims under the default HS256
/// header and an HMAC key from `secret`.
pub uninterp spec fn hs256_token(
    secret: Seq<u8>,
    sub: Seq<char>,
    username: Seq<char>,
    cadre: Seq<char>,
    iat: u64,
    exp: u64,
) -> Seq<char>;

/// Relies on `jsonwebtoken::encode` with `Header::default()` (HS256) and
/// `EncodingKey::from_secret`: signs the claims, written as a JSON object; the
/// token depends on the secret and the claims alone. It fails only where the
/// key's family differs from the header's algorithm or the claims do not
/// serialize: neither happens with an HMAC key, HS256 and a JSON map.
#[verifier::external_body]
fn encode_hs256(secret: &[u8], claims: &Claims) -> (r: Result<String, jsonwebtoken::errors::Error>)
    ensures
        r is Ok,
        r matches Ok(t) ==> t@ == hs256_token(secret@, claims.sub@, claims.username@, claims.cadre@, claims.iat, claims.exp),
{
    let mut m = serde_json::Map::new();
    m.insert("sub".to_string(), claims.sub.clone().into());
    m.insert("username".to_string(), claims.username.clone().into());
    m.insert("cadre".to_string(), claims.cadre.clone().into());
    m.insert("exp".to_string(), claims.exp.into());
    m.insert("iat".to_string(), claims.iat.into());
    let key = jsonwebtoken::EncodingKey::from_secret(secret);
    jsonwebtoken::encode(&jsonwebtoken::Header::default(), &m, &key)
}

/// The fields of a decoded payload, each where it is present with the
/// expected JSON type.
pub struct DecodedFields {
    pub sub: Option<String>,
    pub username: Option<String>,
    pub cadre: Option<String>,
    pub exp: Option<u64>,
    pub iat: Option<u64>,
}

/// Relies on `jsonwebtoken::decode` with `Validation::new(HS256)` and
/// `DecodingKey::from_secret`, its own expiry check switched off (it reads the
/// clock; `verify_token_at` checks `exp` itself): where the signature matches
/// `secret`, the payload as JSON, of which the five fields are read out
/// (`Value::as_str`, `Value::as_u64`); an error where the signature does not
/// match, where the token is malformed, or where it has no numeric `exp`. A
/// token that `encode` made from claims under `secret` has a matching
/// signature, the HS256 header, a numeric `exp` and no `aud`, so it decodes,
/// and its fields are those claims.
#[verifier::external_body]
fn decode_hs256(secret: &[u8], token: &str) -> (r: Result<DecodedFields, jsonwebtoken::errors::Error>)
    ensures
        forall|s: Seq<char>, u: Seq<char>, k: Seq<char>, i: u64, e: u64|
            token@ == #[trigger] hs256_token(secret@, s, u, k, i, e) ==> r is Ok,
        forall|s: Seq<char>, u: Seq<char>, k: Seq<char>, i: u64, e: u64|
            r is Ok && token@ == #[trigger] hs256_token(secret@, s, u, k, i, e) ==> {
                &&& r->Ok_0.sub matches Some(x) && x@ == s
                &&& r->Ok_0.username matches Some(x) && x@ == u
                &&& r->Ok_0.cadre matches Some(x) && x@ == k
                &&& r->Ok_0.iat == Some(i)
                &&& r->Ok_0.exp == Some(e)
            },
{
    let key = jsonwebtoken::DecodingKey::from_secret(secret);
    let mut validation = jsonwebtoken::Validation::new(jsonwebtoken::Algorithm::HS256);
    validation.validate_exp = false;
    let v = jsonwebtoken::decode::<serde_json::Value>(token, &key, &validation)?.claims;
    Ok(DecodedFields {
        sub: v["sub"].as_str().map(String::from),
        username: v["username"].as_str().map(String::from),
        cadre: v["cadre"].as_str().map(String::from),
        exp: v["exp"].as_u64(),
        iat: v["iat"].as_u64(),
    })
}

/// `std::time::SystemTime`, a reading of the system clock, carried opaque.
#[verifier::external_type_specification]
#[verifier::external_body]
pub struct ExSystemTime(std::time::SystemTime);

/// Relies on `std::time::SystemTime::now`: a reading of the system clock.
#[verifier::external_body]
fn clock_now() -> (r: std::time::SystemTime) {
    std::time::SystemTime::now()
}

/// Relies on `std::time::SystemTime::duration_since` with `UNIX_EPOCH`: the
/// whole seconds since the Unix epoch, or `None` for a reading before it.
#[verifier::external_body]
fn seconds_since_epoch(t: &std::time::SystemTime) -> (r: Option<u64>) {
    t.duration_since(std::time::UNIX_EPOCH).ok().map(|d| d.as_secs())
}

/// The claims minted for `user` at time `now`.
pub open spec fn claims_of(c: Claims, user: &User, now: u64, window: int) -> bool {
    &&& c.sub@ == int_text(user.id as int)
    &&& c.username@ == user.username@
    &&& c.cadre@ == user.cadre@
    &&& c.iat == now
    &&& c.exp == now + window
}

/// Claims for `user` issued at `now`, expiring `validity_hours` later.
pub fn build_claims(user: &User, now: u64, validity_hours: u32) -> (c: Claims)
    requires
        now + validity_hours * 3600 <= u64::MAX,
    ensures
        claims_of(c, user, now, validity_hours * 3600),
{
    let mut sub: Vec<char> = Vec::new();
    push_signed(&mut sub, user.id as i64);
    Claims {
        sub: string_from_chars(&sub),
        username: user.username.clone(),
        cadre: user.cadre.clone(),
        exp: now + validity_hours as u64 * 3600,
        iat: now,
    }
}

/// Issues a token for `user` at time `now`.
pub fn issue_token_at(config: &TokenConfig, user: &User, now: u64) -> (r: Result<String, TokenError>)
    ensures
        now + config.window() > u64::MAX ==> r == Err::<String, TokenError>(TokenError::ClockOutOfRange),
        now + config.window() <= u64::MAX ==> (r matches Ok(t) && t@ == hs256_token(config.secret@,
            int_text(user.id as int), user.username@, user.cadre@, now, (now + config.window()) as u64)),
{
    let w: u64 = config.validity_hours as u64 * 3600;
    if now > u64::MAX - w {
        return Err(TokenError::ClockOutOfRange);
    }
    let claims = build_claims(user, now, config.validity_hours);
    match encode_hs256(get_jwt_secret(config), &claims) {
        Ok(t) => Ok(t),
        Err(_) => Err(TokenError::SigningFailed),
    }
}

/// The system clock in whole seconds since the Unix epoch; `None` for a
/// clock set before it.
pub(crate) fn clock_seconds() -> (r: Option<u64>) {
    seconds_since_epoch(&clock_now())
}

/// Issues a token for `user`, valid from now for the configured window. A
/// clock set before the Unix epoch, or so late that the window does not fit,
/// is reported as `ClockOutOfRange`.
pub fn generate_token(config: &TokenConfig, user: &User) -> (r: Result<String, TokenError>)
    ensures
        r is Err ==> r == Err::<String, TokenError>(TokenError::ClockOutOfRange),
        r matches Ok(t) ==> exists|now: u64| now + config.window() <= u64::MAX && t@ == #[trigger] hs256_token(
            config.secret@, int_text(user.id as int), user.username@, user.cadre@, now,
            (now + config.window()) as u64),
{
    let now = match clock_seconds() {
        Some(n) => n,
        None => return Err(TokenError::ClockOutOfRange),
    };
    let r = issue_token_at(config, user, now);
    proof {
        if now as int + config.window() <= u64::MAX {
            assert(r matches Ok(t) && t@ == hs256_token(config.secret@, int_text(user.id as int),
                user.username@, user.cadre@, now, (now + config.window()) as u64));
        }
    }
    r
}

/// `c` carries the claims that `token` was signed with under `secret`.
pub open spec fn claims_of_token(c: Claims, secret: Seq<u8>, token: Seq<char>) -> bool {
    forall|s: Seq<char>, u: Seq<char>, k: Seq<char>, i: u64, e: u64|
        token == #[trigger] hs256_token(secret, s, u, k, i, e) ==> {
            &&& c.sub@ == s
            &&& c.username@ == u
            &&& c.cadre@ == k
            &&& c.iat == i
            &&& c.exp == e
        }
}

/// The claims of decoded fields; `None` where a field is missing or of the
/// wrong type.
fn claims_from_fields(f: DecodedFields) -> (r: Option<Claims>)
    ensures
        r matches Some(c) ==> {
            &&& f.sub matches Some(x) && x@ == c.sub@
            &&& f.username matches Some(x) && x@ == c.username@
            &&& f.cadre matches Some(x) && x@ == c.cadre@
            &&& f.iat == Some(c.iat)
            &&& f.exp == Some(c.exp)
        },
        (f.sub is Some && f.username is Some && f.cadre is Some && f.iat is Some && f.exp is Some) ==> r is Some,
{
    match (f.sub, f.username, f.cadre, f.exp, f.iat) {
        (Some(sub), Some(username), Some(cadre), Some(exp), Some(iat)) => Some(
            Claims { sub, username, cadre, exp, iat },
        ),
        _ => None,
    }
}

/// Accepts claims at time `now` only while they have not expired.
pub fn accept_claims(claims: Claims, now: u64) -> (r: Result<Claims, TokenError>)
    ensures
        now < claims.exp ==> r == Ok::<Claims, TokenError>(claims),
        now >= claims.exp ==> r == Err::<Claims, TokenError>(TokenError::Invalid),
{
    if now < claims.exp {
        Ok(claims)
    } else {
        Err(TokenError::Invalid)
    }
}

/// Verifies a token at time `now`: its signature must match the secret and
/// its `exp` must lie after `now`. The claims returned are those the token was
/// signed with.
pub fn verify_token_at(config: &TokenConfig, token: &str, now: u64) -> (r: Result<Claims, TokenError>)
    ensures
        r is Err ==> r == Err::<Claims, TokenError>(TokenError::Invalid),
        r matches Ok(c) ==> now < c.exp && claims_of_token(c, config.secret@, token@),
        forall|s: Seq<char>, u: Seq<char>, k: Seq<char>, i: u64, e: u64|
            token@ == #[trigger] hs256_token(config.secret@, s, u, k, i, e) && now < e ==> r is Ok,
{
    let fields = match decode_hs256(get_jwt_secret(config), token) {
        Ok(f) => f,
        Err(_) => return Err(TokenError::Invalid),
    };
    let ghost g = fields;
    match claims_from_fields(fields) {
        Some(c) => {
            assert(claims_of_token(c, config.secret@, token@)) by {
                assert forall|s: Seq<char>, u: Seq<char>, k: Seq<char>, i: u64, e: u64|
                    token@ == #[trigger] hs256_token(config.secret@, s, u, k, i, e) implies {
                        &&& c.sub@ == s
                        &&& c.username@ == u
                        &&& c.cadre@ == k
                        &&& c.iat == i
                        &&& c.exp == e
                    } by {
                    assert(g.sub matches Some(x) && x@ == s);
                }
            }
            accept_claims(c, now)
        },
        None => Err(TokenError::Invalid),
    }
}

/// Verifies a token now.
pub fn verify_token(config: &TokenConfig, token: &str) -> (r: Result<Claims, TokenError>)
    ensures
        r is Err ==> r == Err::<Claims, TokenError>(TokenError::Invalid),
        r matches Ok(c) ==> claims_of_token(c, config.secret@, token@),
{
    let now = match clock_seconds() {
        Some(n) => n,
        None => return Err(TokenError::Invalid),
    };
    verify_token_at(config, token, now)
}

/// A token issued for a user verifies to that user's claims: the subject is
/// the user's id, username and cadre are the user's, and the times are those
/// it was issued with.
pub proof fn lemma_issued_token_claims(c: Claims, secret: Seq<u8>, user: User, now: u64, exp: u64)
    requires
        claims_of_token(c, secret, hs256_token(secret, int_text(user.id as int), user.username@,
            user.cadre@, now, exp)),
    ensures
        c.sub@ == int_text(user.id as int),
        c.username@ == user.username@,
        c.cadre@ == user.cadre@,
        c.iat == now,
        c.exp == exp,
{
    let t = hs256_token(secret, int_text(user.id as int), user.username@, user.cadre@, now, exp);
    assert(t == hs256_token(secret, int_text(user.id as int), user.username@, user.cadre@, now, exp));
}

/// A token whose `exp` is not after `now` is never accepted at `now`: where
/// `verify_token_at` returns claims `c` for it, `now < c.exp` and `c.exp` is
/// the token's `exp`.
pub proof fn lemma_expired_token_rejected(
    c: Claims,
    secret: Seq<u8>,
    sub: Seq<char>,
    username: Seq<char>,
    cadre: Seq<char>,
    iat: u64,
    exp: u64,
    now: u64,
)
    requires
        claims_of_token(c, secret, hs256_token(secret, sub, username, cadre, iat, exp)),
        now < c.exp,
    ensures
        now < exp,
{
    let t = hs256_token(secret, sub, username, cadre, iat, exp);
    assert(t == hs256_token(secret, sub, username, cadre, iat, exp));
}

} // verus!
