use vstd::prelude::*;
use crate::clock::{now_utc, read_by_clock, seconds_after_minutes, Timestamp, CALENDAR_FIRST_SECOND, CALENDAR_LAST_SECOND};

verus! {

#[verifier::external_type_specification]
#[verifier::external_body]
pub struct ExJwtError(jsonwebtoken::errors::Error);

/// What a token carries: the subject (the account's user id), the expiry
/// instant in seconds, the role name and the e-mail address.
pub struct Claims {
    pub sub: String,
    pub exp: usize,
    pub role: String,
    pub email: String,
}

/// How long an access token stays valid.
pub const TOKEN_LIFETIME_MINUTES: i64 = 60;

/// The token `jsonwebtoken::encode` produces with the default header
/// (HS256) for the claims object `{"sub", "exp", "role", "email"}`, members in
/// that order, signed with the bytes of `secret`.
pub uninterp spec fn jwt_signed(
    sub: Seq<char>,
    exp: usize,
    role: Seq<char>,
    email: Seq<char>,
    secret: Seq<char>,
) -> Seq<char>;

/// `jsonwebtoken::encode(&Header::default(), claims, &EncodingKey::from_secret(secret))`
/// where the claims are the JSON object with the members `sub`, `exp`, `role`
/// and `email`, in that order (a `serde_json::Map`, which with the crate's
/// `preserve_order` feature serialises its members in insertion order).
/// Claimed: it returns a token, and that token is the one named `jwt_signed`
/// of the same claims and secret; HS256 signing depends on these
/// alone. It does not fail: the default header's algorithm (HS256) is of the
/// key's family (HMAC), HMAC accepts a key of any length, serialising the
/// header and a map of strings and numbers cannot fail, and HMAC signing
/// always yields a tag. This rests on the crypto provider of the crate's
/// `rust_crypto` feature, the one used when no program installs another
/// (nothing here calls `CryptoProvider::install_default`).
#[verifier::external_body]
fn jwt_encode(sub: &str, exp: usize, role: &str, email: &str, secret: &str) -> (r: Result<
    String,
    jsonwebtoken::errors::Error,
>)
    ensures
        r is Ok,
        r matches Ok(t) ==> t@ == jwt_signed(sub@, exp, role@, email@, secret@),
{
    let mut claims = serde_json::Map::new();
    claims.insert("sub".to_string(), serde_json::Value::from(sub));
    claims.insert("exp".to_string(), serde_json::Value::from(exp));
    claims.insert("role".to_string(), serde_json::Value::from(role));
    claims.insert("email".to_string(), serde_json::Value::from(email));
    jsonwebtoken::encode(
        &jsonwebtoken::Header::default(),
        &claims,
        &jsonwebtoken::EncodingKey::from_secret(secret.as_bytes()),
    )
}

/// Why no token could be made.
#[derive(Debug, Clone, Copy, PartialEq, Eq, Structural)]
pub enum TokenError {
    /// The expiry instant is outside the range of the clock's calendar.
    Expiry,
    /// The signer refused the claims.
    Encoding,
}

/// The expiry claim of a token issued at `issued`: `TOKEN_LIFETIME_MINUTES`
/// later, in seconds since the epoch.
pub open spec fn expiry_after(issued: Timestamp) -> usize {
    (issued.secs + 60 * TOKEN_LIFETIME_MINUTES) as usize
}

/// A token can be issued at `issued`: an ordinary instant (fraction below
/// one second) which, with its expiry, lies within the clock's calendar.
pub open spec fn issuable_at(issued: Timestamp) -> bool {
    &&& issued.nanos < 1_000_000_000
    &&& CALENDAR_FIRST_SECOND <= issued.secs
    &&& issued.secs + 60 * TOKEN_LIFETIME_MINUTES <= CALENDAR_LAST_SECOND
}

/// The expiry of a token issued at `now`: `TOKEN_LIFETIME_MINUTES` later, as
/// a count of seconds. `Err` when that instant has no calendar date; for an
/// ordinary instant, exactly when `!issuable_at(now)`.
pub fn token_expiry(now: Timestamp) -> (r: Result<usize, TokenError>)
    ensures
        r matches Ok(e) ==> e == expiry_after(now),
        r matches Err(e) ==> e == TokenError::Expiry,
        issuable_at(now) ==> r is Ok,
        now.nanos < 1_000_000_000 && !issuable_at(now) ==> r is Err,
{
    match seconds_after_minutes(now, TOKEN_LIFETIME_MINUTES) {
        Some(s) => Ok(#[verifier::truncate] (s as usize)),
        None => Err(TokenError::Expiry),
    }
}

/// Signs a token for the given claims and expiry; signing always succeeds.
pub fn create_jwt_expiring(id: &str, role: &str, email: &str, secret: &str, exp: usize) -> (r:
    Result<String, TokenError>)
    ensures
        r matches Ok(t) && t@ == jwt_signed(id@, exp, role@, email@, secret@),
{
    match jwt_encode(id, exp, role, email, secret) {
        Ok(t) => Ok(t),
        Err(_) => Err(TokenError::Encoding),
    }
}

/// What issuing a token for these claims at `issued` gives: the token that
/// expires an hour after `issued`, or `Err(Expiry)` when that hour-later
/// instant has no calendar date.
pub open spec fn token_issued(
    r: Result<String, TokenError>,
    id: Seq<char>,
    role: Seq<char>,
    email: Seq<char>,
    secret: Seq<char>,
    issued: Timestamp,
) -> bool {
    &&& match r {
        Ok(t) => t@ == jwt_signed(id, expiry_after(issued), role, email, secret),
        Err(e) => e == TokenError::Expiry,
    }
    &&& issuable_at(issued) ==> r is Ok
    &&& issued.nanos < 1_000_000_000 && !issuable_at(issued) ==> r is Err
}

/// Issues an access token for an account as of the instant `now`, valid for
/// `TOKEN_LIFETIME_MINUTES` after it.
pub fn create_jwt_at(id: &str, role: &str, email: &str, secret: &str, now: Timestamp) -> (r:
    Result<String, TokenError>)
    ensures
        token_issued(r, id@, role@, email@, secret@, now),
{
    let exp = token_expiry(now)?;
    create_jwt_expiring(id, role, email, secret, exp)
}

/// Issues an access token for an account, valid for an hour from now. Gives
/// the token (or why none could be made) and the instant the clock read
/// during the call, which the token's expiry is counted from.
pub fn create_jwt(id: &str, role: &str, email: &str, secret: &str) -> (r: (
    Result<String, TokenError>,
    Timestamp,
))
    ensures
        token_issued(r.0, id@, role@, email@, secret@, r.1),
        0 <= r.1.secs <= CALENDAR_LAST_SECOND,
        r.1.nanos < 1_000_000_000,
        read_by_clock(r.1),
{
    let now = now_utc();
    (create_jwt_at(id, role, email, secret, now), now)
}

} // verus!
