//! Session tokens: signed, expiring claims about one user.

use vstd::prelude::*;
use crate::config::AuthConfig;
use crate::errors::AuthError;

verus! {

#[verifier::external_type_specification]
#[verifier::external_body]
pub struct ExJwtError(jsonwebtoken::errors::Error);

/// How long a session token stays valid, in seconds (24 hours).
pub const SESSION_SECONDS: u64 = 86400;

/// The signed payload of a session token.
#[derive(Debug, PartialEq, Eq)]
pub struct Claims {
    pub sub: i32,
    pub name: String,
    pub username: String,
    pub exp: u64,
}

/// The authenticated identity handed to callers: never a password hash.
#[derive(Debug, PartialEq, Eq)]
pub struct SlimUser {
    pub id: i32,
    pub email: String,
    pub username: String,
}

/// The compact HS256 token that `jsonwebtoken::encode` makes of the claims
/// `{sub, name, username, exp}` under a secret.
pub uninterp spec fn signed_token(sub: i32, name: Seq<char>, username: Seq<char>, exp: u64, secret: Seq<u8>) -> Seq<char>;

/// What `jsonwebtoken::decode` (HS256, expiry not checked) reads out of a
/// token under a secret: `None` where the token does not decode as a whole
/// (it is malformed, its signature does not check, it has no numeric `exp`,
/// or it names an audience); else the fields `sub`, `name`, `username`,
/// `exp`, each `None` where absent or of another JSON type.
pub uninterp spec fn token_fields(token: Seq<char>, secret: Seq<u8>) -> Option<(Option<i64>, Option<Seq<char>>, Option<Seq<char>>, Option<u64>)>;

/// Relies on jsonwebtoken::encode with the default (HS256) header: the claims
/// go in as a JSON object, which always serializes, and HMAC signing with a
/// secret key always succeeds; the token reads back to the same fields under
/// the same secret.
#[verifier::external_body]
fn encode_claims(sub: i32, name: &str, username: &str, exp: u64, secret: &[u8]) -> (r: Result<String, jsonwebtoken::errors::Error>)
    ensures
        r is Ok,
        r is Ok ==> r->Ok_0@ == signed_token(sub, name@, username@, exp, secret@),
        r is Ok ==> r->Ok_0@.len() > 0,
        r is Ok ==> token_fields(r->Ok_0@, secret@) == Some((Some(sub as i64), Some(name@), Some(username@), Some(exp))),
{
    let mut claims = serde_json::Map::new();
    claims.insert("sub".to_owned(), serde_json::Value::from(sub));
    claims.insert("name".to_owned(), serde_json::Value::from(name));
    claims.insert("username".to_owned(), serde_json::Value::from(username));
    claims.insert("exp".to_owned(), serde_json::Value::from(exp));
    let key = jsonwebtoken::EncodingKey::from_secret(secret);
    jsonwebtoken::encode(&jsonwebtoken::Header::default(), &claims, &key)
}

/// The view of an optional text field.
pub open spec fn text_view(o: Option<String>) -> Option<Seq<char>> {
    match o {
        Some(s) => Some(s@),
        None => None,
    }
}

/// Relies on jsonwebtoken::decode with HS256 and the expiry check switched
/// off: the signature and the structure are checked, the fields are read out.
/// A token without a `.` cannot be split into its parts and fails.
#[verifier::external_body]
fn decode_fields(token: &str, secret: &[u8]) -> (r: Result<(Option<i64>, Option<String>, Option<String>, Option<u64>), jsonwebtoken::errors::Error>)
    ensures
        !token@.contains('.') ==> r is Err,
        match r {
            Ok((s, n, u, e)) => token_fields(token@, secret@) == Some((s, text_view(n), text_view(u), e)),
            Err(_) => token_fields(token@, secret@) is None,
        },
{
    let mut validation = jsonwebtoken::Validation::new(jsonwebtoken::Algorithm::HS256);
    validation.validate_exp = false;
    let key = jsonwebtoken::DecodingKey::from_secret(secret);
    let c = jsonwebtoken::decode::<serde_json::Map<String, serde_json::Value>>(token, &key, &validation)?.claims;
    let sub = c.get("sub").and_then(serde_json::Value::as_i64);
    let name = c.get("name").and_then(serde_json::Value::as_str).map(str::to_owned);
    let username = c.get("username").and_then(serde_json::Value::as_str).map(str::to_owned);
    let exp = c.get("exp").and_then(serde_json::Value::as_u64);
    Ok((sub, name, username, exp))
}

/// Relies on chrono::Local::now: the current time in seconds since the epoch;
/// chrono panics rather than report a time before the epoch.
#[verifier::external_body]
pub(crate) fn current_timestamp() -> (r: i64)
    ensures
        r >= 0,
{
    chrono::Local::now().timestamp()
}

/// The identity a token carries under a secret at time `now`: present only
/// where the token is authentic, all four fields are there, the subject fits
/// an `i32`, and the expiry lies after `now`.
pub open spec fn identity_of(token: Seq<char>, secret: Seq<u8>, now: i64) -> Option<(i32, Seq<char>, Seq<char>)> {
    match token_fields(token, secret) {
        Some((Some(sub), Some(name), Some(username), Some(exp))) =>
            if i32::MIN <= sub <= i32::MAX && exp > now {
                Some((sub as i32, name, username))
            } else {
                None
            },
        _ => None,
    }
}

/// A token whose expiry is not after `now` carries no identity at `now`,
/// however authentic it is.
pub proof fn lemma_expired_token_rejected(token: Seq<char>, secret: Seq<u8>, now: i64)
    requires
        token_fields(token, secret) matches Some((_, _, _, Some(exp))) && exp <= now,
    ensures
        identity_of(token, secret, now) is None,
{
}

/// What a token issued at time `now` is: the signed claims for the user,
/// expiring one session length later, that read back to the user's identity
/// until then and to none from then on.
pub open spec fn issued_token(t: Seq<char>, id: i32, email: Seq<char>, username: Seq<char>, secret: Seq<u8>, now: u64) -> bool {
    &&& now <= u64::MAX - SESSION_SECONDS
    &&& t == signed_token(id, email, username, (now + SESSION_SECONDS) as u64, secret)
    &&& t.len() > 0
    &&& forall|at: i64| at < now + SESSION_SECONDS ==>
        #[trigger] identity_of(t, secret, at) == Some((id, email, username))
    &&& forall|at: i64| at >= now + SESSION_SECONDS ==>
        (#[trigger] identity_of(t, secret, at)) is None
}

/// A token issued for the user at some time that fits a timestamp.
pub open spec fn issued_for(t: Seq<char>, id: i32, email: Seq<char>, username: Seq<char>, secret: Seq<u8>) -> bool {
    exists|now: u64| #[trigger] issued_token(t, id, email, username, secret, now)
}

/// A token issued at one time reads back, at any time before its expiry, to
/// the identity it was issued for.
pub proof fn lemma_token_read_back(t: Seq<char>, id: i32, email: Seq<char>, username: Seq<char>, secret: Seq<u8>, issued: u64, at: i64)
    requires
        issued_token(t, id, email, username, secret, issued),
        at < issued + SESSION_SECONDS,
    ensures
        identity_of(t, secret, at) == Some((id, email, username)),
{
}

/// The outcome of checking a token at time `now`: the identity it carries,
/// or `Unauthorized` where it carries none.
pub open spec fn checked_at(token: Seq<char>, secret: Seq<u8>, now: i64, r: Result<SlimUser, AuthError>) -> bool {
    match identity_of(token, secret, now) {
        Some(who) => r is Ok && slim_view(r->Ok_0) == who,
        None => r == Err::<SlimUser, AuthError>(AuthError::Unauthorized),
    }
}

/// The view of an identity as a triple.
pub open spec fn slim_view(u: SlimUser) -> (i32, Seq<char>, Seq<char>) {
    (u.id, u.email@, u.username@)
}

impl Claims {
    /// Claims for a user, expiring one session length after `now`.
    pub fn with_email(id: i32, email: &str, username: &str, now: u64) -> (r: Claims)
        requires
            now <= u64::MAX - SESSION_SECONDS,
        ensures
            r.sub == id,
            r.name@ == email@,
            r.username@ == username@,
            r.exp == now + SESSION_SECONDS,
    {
        Claims {
            sub: id,
            name: email.to_owned(),
            username: username.to_owned(),
            exp: now + SESSION_SECONDS,
        }
    }
}

impl From<Claims> for SlimUser {
    fn from(claims: Claims) -> (r: SlimUser)
        ensures
            r.id == claims.sub,
            r.email@ == claims.name@,
            r.username@ == claims.username@,
    {
        SlimUser { id: claims.sub, email: claims.name, username: claims.username }
    }
}

impl vstd::std_specs::convert::FromSpecImpl<Claims> for SlimUser {
    open spec fn obeys_from_spec() -> bool {
        true
    }

    open spec fn from_spec(claims: Claims) -> SlimUser {
        SlimUser { id: claims.sub, email: claims.name, username: claims.username }
    }
}

/// Signs a token for the user at time `now`; it expires one session length
/// later and, until then, reads back to the same identity. Signing always
/// succeeds.
pub fn issue_token(id: i32, email: &str, username: &str, secret: &[u8], now: u64) -> (r: Result<String, AuthError>)
    requires
        now <= u64::MAX - SESSION_SECONDS,
    ensures
        r is Ok,
        r is Ok ==> issued_token(r->Ok_0@, id, email@, username@, secret@, now),
{
    let claims = Claims::with_email(id, email, username, now);
    match encode_claims(claims.sub, claims.name.as_str(), claims.username.as_str(), claims.exp, secret) {
        Ok(t) => Ok(t),
        Err(_) => Err(AuthError::InternalServerError),
    }
}

/// Checks a token at time `now`: the identity it carries where it is
/// authentic, complete and unexpired, `Unauthorized` otherwise, whatever the
/// reason. A token without a `.` is always `Unauthorized`.
pub fn verify_token(token: &str, secret: &[u8], now: i64) -> (r: Result<SlimUser, AuthError>)
    ensures
        checked_at(token@, secret@, now, r),
        !token@.contains('.') ==> r == Err::<SlimUser, AuthError>(AuthError::Unauthorized),
{
    match decode_fields(token, secret) {
        Ok((Some(sub), Some(name), Some(username), Some(exp))) => {
            let live = now < 0 || exp > now as u64;
            if i32::MIN as i64 <= sub && sub <= i32::MAX as i64 && live {
                let claims = Claims { sub: sub as i32, name, username, exp };
                Ok(SlimUser::from(claims))
            } else {
                Err(AuthError::Unauthorized)
            }
        },
        _ => Err(AuthError::Unauthorized),
    }
}

/// A token for the user, issued at the current time and expiring 24 hours
/// later. It always succeeds.
pub fn create_token(id: i32, email: &str, username: &str, config: &AuthConfig) -> (r: Result<String, AuthError>)
    ensures
        r is Ok,
        r is Ok ==> issued_for(r->Ok_0@, id, email@, username@, config.secret()),
{
    let now = current_timestamp();
    issue_token(id, email, username, config.get_secret(), now as u64)
}

/// The identity a token carries, checked against the current time.
pub fn decode_token(token: &str, config: &AuthConfig) -> (r: Result<SlimUser, AuthError>)
    ensures
        exists|now: i64| now >= 0 && #[trigger] checked_at(token@, config.secret(), now, r),
        !token@.contains('.') ==> r == Err::<SlimUser, AuthError>(AuthError::Unauthorized),
{
    let now = current_timestamp();
    verify_token(token, config.get_secret(), now)
}

} // verus!
