//! The credential service: signed bearer tokens and password hashes.
//!
//! A token carries the user it speaks for and the instant at which it
//! expires, signed with the one secret of the configuration. Validation needs
//! nothing but the token, the secret and the current time.

use vstd::prelude::*;
use crate::config::Config;
use vstd::string::{StrSliceExecFns, StringExecFns};
use crate::error::{reported, AppError, AppErrorView};
use crate::text::same_text;

verus! {

/// Seconds for which a token is valid after it was issued: seven days.
pub const TOKEN_LIFETIME_SECONDS: i64 = 604_800;

/// Work factor of the password hash.
pub const PASSWORD_HASH_COST: u32 = 10;

/// The payload of a token: the user it speaks for and the instant, in
/// seconds since the Unix epoch, at which it expires.
#[derive(Clone, Copy, Debug, PartialEq, Eq, Structural)]
pub struct Claims {
    pub sub: u128,
    pub exp: i64,
}

/// The identity that a valid token establishes.
#[derive(Clone, Copy, Debug, PartialEq, Eq, Structural)]
pub struct AuthUser {
    pub user_id: u128,
}

#[verifier::external_type_specification]
#[verifier::external_body]
pub struct ExBcryptError(bcrypt::BcryptError);

/// The token that `jsonwebtoken::encode` produces for the claims
/// `(sub, exp)` under the HMAC secret `secret`, with the default header; none
/// where it reports an error.
pub uninterp spec fn jwt_token(sub: u128, exp: i64, secret: Seq<char>) -> Option<Seq<char>>;

/// The claims `(sub, exp)` that `jsonwebtoken::decode` reads from `token`
/// under the HMAC secret `secret` when it checks everything but the expiry;
/// none where it rejects the token or the claims are not of that shape.
pub uninterp spec fn jwt_claims(token: Seq<char>, secret: Seq<char>) -> Option<(u128, i64)>;

/// What `bcrypt::verify` finds for a password and a stored hash; none where
/// it reports an error, as for a hash that is not well-formed.
pub uninterp spec fn bcrypt_outcome(password: Seq<char>, hash: Seq<char>) -> Option<bool>;

/// How a hash at the work factor `cost` begins: the version `2b` and the
/// work factor in two digits, each between dollar signs. The salt and the
/// digest follow.
pub open spec fn hash_heading(cost: u32) -> Seq<char> {
    "$2b$"@ + seq!["0123456789"@[cost as int / 10], "0123456789"@[cost as int % 10]] + "$"@
}

/// Whether a stored hash says that it was made at the work factor `cost`.
pub open spec fn carries_cost(hash: Seq<char>, cost: u32) -> bool {
    hash.len() >= 7 && hash.subrange(0, 7) == hash_heading(cost)
}

/// Calls `jsonwebtoken::encode` with the default header (HS256), the claims
/// object `{"sub": <user as hyphenated UUID>, "exp": <exp>}` and `secret` as
/// the HMAC key.
///
/// Trusted: the result is [`jwt_token`] of the arguments. There is a token:
/// with an HMAC key and a claims object whose keys are strings, the encoder
/// has no path that fails. And a token that was produced with an expiry that
/// is not negative is read back by `jsonwebtoken::decode` under the same
/// secret as the same claims. (The decoder requires `exp` to be present as an
/// unsigned number.)
#[verifier::external_body]
fn jwt_encode(sub: u128, exp: i64, secret: &str) -> (token: Option<String>)
    ensures
        token.is_some(),
        match token {
            Some(text) => jwt_token(sub, exp, secret@) == Some(text@),
            None => jwt_token(sub, exp, secret@).is_none(),
        },
        token.is_some() && exp >= 0 ==> jwt_claims(token.unwrap()@, secret@) == Some((sub, exp)),
{
    let mut claims = serde_json::Map::new();
    let subject = uuid::Uuid::from_u128(sub).to_string();
    claims.insert("sub".to_string(), serde_json::Value::from(subject));
    claims.insert("exp".to_string(), serde_json::Value::from(exp));
    let key = jsonwebtoken::EncodingKey::from_secret(secret.as_bytes());
    jsonwebtoken::encode(&jsonwebtoken::Header::default(), &claims, &key).ok()
}

/// Calls `jsonwebtoken::decode` with `secret` as the HMAC key and the default
/// validation (HS256, `exp` required) except that the expiry is not compared
/// with the clock, then reads `sub` as a UUID and `exp` as a signed integer.
///
/// Trusted: the result is [`jwt_claims`] of the arguments. (The decoder still
/// reads the system clock on every call, and stops the process on a machine
/// whose clock reads before 1970; the result does not depend on what it
/// read.)
#[verifier::external_body]
fn jwt_decode(token: &str, secret: &str) -> (claims: Option<Claims>)
    ensures
        match claims {
            Some(c) => jwt_claims(token@, secret@) == Some((c.sub, c.exp)),
            None => jwt_claims(token@, secret@).is_none(),
        },
{
    let mut validation = jsonwebtoken::Validation::default();
    validation.validate_exp = false;
    let key = jsonwebtoken::DecodingKey::from_secret(secret.as_bytes());
    let data = jsonwebtoken::decode::<serde_json::Value>(token, &key, &validation).ok()?;
    let sub = uuid::Uuid::parse_str(data.claims.get("sub")?.as_str()?).ok()?;
    let exp = data.claims.get("exp")?.as_i64()?;
    Some(Claims { sub: sub.as_u128(), exp })
}

/// Calls `bcrypt::hash`, which salts the password at random.
///
/// Trusted: a hash that it returns is one that `bcrypt::verify` accepts for
/// the same password, and it begins with the version `2b` and the work
/// factor that was asked for, in two digits. (The hasher takes work factors
/// from 4 to 31 only, and writes the hash as `$2b$`, the work factor, `$`,
/// the salt and the digest.)
#[verifier::external_body]
fn bcrypt_hash(password: &str, cost: u32) -> (hash: Result<String, bcrypt::BcryptError>)
    ensures
        hash matches Ok(text) ==> bcrypt_outcome(password@, text@) == Some(true),
        hash matches Ok(text) ==> carries_cost(text@, cost),
{
    bcrypt::hash(password, cost)
}

/// Calls `bcrypt::verify`.
///
/// Trusted: the result is [`bcrypt_outcome`] of the arguments.
#[verifier::external_body]
fn bcrypt_verify(password: &str, hash: &str) -> (verdict: Result<bool, bcrypt::BcryptError>)
    ensures
        match verdict {
            Ok(matches) => bcrypt_outcome(password@, hash@) == Some(matches),
            Err(_) => bcrypt_outcome(password@, hash@).is_none(),
        },
{
    bcrypt::verify(password, hash)
}

/// Whether an instant is one that the clock can read: the dates of the
/// `time` crate end with the year 999,999 on either side of the epoch.
pub open spec fn clock_reading(now: i64) -> bool {
    -40_000_000_000_000 <= now <= 40_000_000_000_000
}

/// Reads the clock through `time::OffsetDateTime::now_utc` and gives the
/// instant in seconds since the Unix epoch.
///
/// Trusted: of the instant only that it lies within the years that the
/// `time` crate can represent.
#[verifier::external_body]
fn unix_now() -> (now: i64)
    ensures
        clock_reading(now),
{
    time::OffsetDateTime::now_utc().unix_timestamp()
}

/// What a validation at `now` makes of the claims that were read from a
/// token: the user they name while they have not expired, and in every other
/// case the one authentication failure, which gives no reason.
pub open spec fn claims_verdict(claims: Option<(u128, i64)>, now: i64) -> Result<
    AuthUser,
    AppErrorView,
> {
    match claims {
        Some((sub, exp)) => if now <= exp {
            Ok(AuthUser { user_id: sub })
        } else {
            Err(AppErrorView::AuthError)
        },
        None => Err(AppErrorView::AuthError),
    }
}

/// What the validation of `token` under `secret` at `now` comes to.
pub open spec fn validation(token: Seq<char>, secret: Seq<char>, now: i64) -> Result<
    AuthUser,
    AppErrorView,
> {
    claims_verdict(jwt_claims(token, secret), now)
}

/// The token that the `Authorization` header value presents: what follows
/// the scheme `Bearer` and one space.
pub open spec fn presented_token(header: Seq<char>) -> Option<Seq<char>> {
    if header.len() >= 7 && header.subrange(0, 7) == "Bearer "@ {
        Some(header.subrange(7, header.len() as int))
    } else {
        None
    }
}

/// The characters of a header value that may be absent.
pub open spec fn header_text(header: Option<&str>) -> Option<Seq<char>> {
    match header {
        Some(value) => Some(value@),
        None => None,
    }
}

/// What the authentication of a request at `now` comes to, given the value of
/// its `Authorization` header if it has one.
pub open spec fn authentication(header: Option<Seq<char>>, secret: Seq<char>, now: i64) -> Result<
    AuthUser,
    AppErrorView,
> {
    match header {
        Some(value) => match presented_token(value) {
            Some(token) => validation(token, secret, now),
            None => Err(AppErrorView::AuthError),
        },
        None => Err(AppErrorView::AuthError),
    }
}

/// What issuing a token for `user_id` at `now` comes to: the token for that
/// user with the expiry one lifetime after `now`, or an internal failure
/// where signing fails.
pub open spec fn issuance(user_id: u128, now: i64, secret: Seq<char>) -> Result<
    Seq<char>,
    AppErrorView,
> {
    match jwt_token(user_id, (now + TOKEN_LIFETIME_SECONDS) as i64, secret) {
        Some(token) => Ok(token),
        None => Err(AppErrorView::InternalError),
    }
}

/// What issuing a token comes to when the clock reads `now`: as
/// [`issuance`], but the internal failure where the expiry cannot be
/// represented.
pub open spec fn issuance_by_clock(user_id: u128, now: i64, secret: Seq<char>) -> Result<
    Seq<char>,
    AppErrorView,
> {
    if now + TOKEN_LIFETIME_SECONDS <= i64::MAX {
        issuance(user_id, now, secret)
    } else {
        Err(AppErrorView::InternalError)
    }
}

/// Mathematical value of the result of issuing a token.
pub open spec fn issued(result: Result<String, AppError>) -> Result<Seq<char>, AppErrorView> {
    match result {
        Ok(token) => Ok(token@),
        Err(error) => Err(error@),
    }
}

/// Judges claims that were read from a token at `now`.
pub fn check_claims(claims: Option<Claims>, now: i64) -> (verdict: Result<AuthUser, AppError>)
    ensures
        reported(verdict) == claims_verdict(
            match claims {
                Some(c) => Some((c.sub, c.exp)),
                None => None,
            },
            now,
        ),
{
    match claims {
        Some(c) => if now <= c.exp {
            Ok(AuthUser { user_id: c.sub })
        } else {
            Err(AppError::AuthError)
        },
        None => Err(AppError::AuthError),
    }
}

/// Validates `token` at `now`: its signature under the secret of the
/// configuration, its shape and its expiry. Every failure is the same
/// authentication failure.
pub fn validate_token(token: &str, config: &Config, now: i64) -> (verdict: Result<
    AuthUser,
    AppError,
>)
    ensures
        reported(verdict) == validation(token@, config.jwt_secret@, now),
{
    check_claims(jwt_decode(token, config.jwt_secret.as_str()), now)
}

/// Reads the token out of the value of an `Authorization` header.
pub fn bearer_token(header: &str) -> (token: Option<String>)
    ensures
        match token {
            Some(text) => presented_token(header@) == Some(text@),
            None => presented_token(header@).is_none(),
        },
{
    let length = header.unicode_len();
    if length < 7 {
        return None;
    }
    if same_text(header.substring_char(0, 7), "Bearer ") {
        Some(String::from_str(header.substring_char(7, length)))
    } else {
        None
    }
}

/// Authenticates a request at `now` from the value of its `Authorization`
/// header. A request without the header, with another scheme or with a token
/// that does not validate fails with the authentication failure.
pub fn authenticate_at(header: Option<&str>, config: &Config, now: i64) -> (verdict: Result<
    AuthUser,
    AppError,
>)
    ensures
        reported(verdict) == authentication(header_text(header), config.jwt_secret@, now),
{
    match header {
        Some(value) => match bearer_token(value) {
            Some(token) => validate_token(token.as_str(), config, now),
            None => Err(AppError::AuthError),
        },
        None => Err(AppError::AuthError),
    }
}

/// Authenticates a request at the time of the call; see [`authenticate_at`].
pub fn authenticate(header: Option<&str>, config: &Config) -> (verdict: Result<AuthUser, AppError>)
    ensures
        exists|now: i64|
            clock_reading(now) && reported(verdict) == #[trigger] authentication(
                header_text(header),
                config.jwt_secret@,
                now,
            ),
{
    let now = unix_now();
    let verdict = authenticate_at(header, config, now);
    assert(reported(verdict) == authentication(header_text(header), config.jwt_secret@, now));
    verdict
}

/// Whether `token` speaks for `user_id` until `expiry`: under `secret` it
/// validates as that user at every instant up to `expiry`, and fails to
/// validate at every later one.
pub open spec fn valid_until(token: Seq<char>, secret: Seq<char>, user_id: u128, expiry: int) -> bool {
    forall|at: i64|
        #[trigger] validation(token, secret, at) == if at <= expiry {
            Ok::<AuthUser, AppErrorView>(AuthUser { user_id })
        } else {
            Err::<AuthUser, AppErrorView>(AppErrorView::AuthError)
        }
}

/// Issues a token for `user_id` at `now`. It expires one lifetime later.
/// Issuing gives a token unless the expiry cannot be represented, which is
/// the internal failure.
///
/// Unless the expiry lies before the Unix epoch, the token that was issued
/// validates under the same secret as `user_id` at every instant up to its
/// expiry, and fails to validate at every later one.
pub fn create_token_at(user_id: u128, now: i64, config: &Config) -> (token: Result<String, AppError>)
    ensures
        token is Ok <==> now + TOKEN_LIFETIME_SECONDS <= i64::MAX,
        issued(token) == issuance_by_clock(user_id, now, config.jwt_secret@),
        token is Ok && now + TOKEN_LIFETIME_SECONDS >= 0 ==> valid_until(
            token.unwrap()@,
            config.jwt_secret@,
            user_id,
            now + TOKEN_LIFETIME_SECONDS,
        ),
{
    if now > i64::MAX - TOKEN_LIFETIME_SECONDS {
        return Err(AppError::InternalError);
    }
    match jwt_encode(user_id, now + TOKEN_LIFETIME_SECONDS, config.jwt_secret.as_str()) {
        Some(token) => Ok(token),
        None => Err(AppError::InternalError),
    }
}

/// What holds of a token that was issued when the clock read `now`: it is
/// the token for the user with the expiry one lifetime after `now`, and it
/// speaks for the user until then.
pub open spec fn issued_by_clock(
    token: Result<String, AppError>,
    user_id: u128,
    now: i64,
    secret: Seq<char>,
) -> bool {
    &&& clock_reading(now)
    &&& issued(token) == issuance(user_id, now, secret)
    &&& token is Ok && now + TOKEN_LIFETIME_SECONDS >= 0 ==> valid_until(
        token.unwrap()@,
        secret,
        user_id,
        now + TOKEN_LIFETIME_SECONDS,
    )
}

/// Issues a token for `user_id` at the time of the call; see
/// [`create_token_at`]. Issuing always gives a token: the clock reads no
/// instant whose expiry cannot be represented.
pub fn create_token(user_id: u128, config: &Config) -> (token: Result<String, AppError>)
    ensures
        token is Ok,
        exists|now: i64| #[trigger] issued_by_clock(token, user_id, now, config.jwt_secret@),
{
    let now = unix_now();
    let token = create_token_at(user_id, now, config);
    assert(issued_by_clock(token, user_id, now, config.jwt_secret@));
    token
}

/// A token validates only as the user that its claims name, and never after
/// the expiry that they carry.
pub proof fn law_validation_respects_the_claims(
    token: Seq<char>,
    secret: Seq<char>,
    now: i64,
    user: AuthUser,
)
    requires
        validation(token, secret, now) == Ok::<AuthUser, AppErrorView>(user),
    ensures
        jwt_claims(token, secret) matches Some(claims) && claims.0 == user.user_id && now
            <= claims.1,
        forall|later: i64|
            later > jwt_claims(token, secret).unwrap().1 ==> #[trigger] validation(
                token,
                secret,
                later,
            ) == Err::<AuthUser, AppErrorView>(AppErrorView::AuthError),
{
}

/// What checking a password against a stored hash comes to: whether they
/// match, or the internal failure where the hash cannot be read.
pub open spec fn password_check(password: Seq<char>, hash: Seq<char>) -> Result<
    bool,
    AppErrorView,
> {
    match bcrypt_outcome(password, hash) {
        Some(matches) => Ok(matches),
        None => Err(AppErrorView::InternalError),
    }
}

/// Hashes a password for storage, salted at random and at the work factor
/// [`PASSWORD_HASH_COST`]. The hash is one that [`verify_password`] accepts
/// for the same password. Where hashing fails the failure is internal.
pub fn hash_password(password: &str) -> (hash: Result<String, AppError>)
    ensures
        match hash {
            Ok(text) => {
                &&& password_check(password@, text@) == Ok::<bool, AppErrorView>(true)
                &&& carries_cost(text@, PASSWORD_HASH_COST)
                &&& text@.subrange(0, 7) == "$2b$10$"@
            },
            Err(error) => error@ == AppErrorView::InternalError,
        },
{
    proof {
        lemma_heading_of_the_work_factor();
    }
    match bcrypt_hash(password, PASSWORD_HASH_COST) {
        Ok(text) => Ok(text),
        Err(_) => Err(AppError::InternalError),
    }
}

/// A hash at the work factor of this library begins with `$2b$10$`.
pub proof fn lemma_heading_of_the_work_factor()
    ensures
        hash_heading(PASSWORD_HASH_COST) == "$2b$10$"@,
{
    reveal_strlit("$2b$");
    reveal_strlit("0123456789");
    reveal_strlit("$");
    reveal_strlit("$2b$10$");
    assert(hash_heading(PASSWORD_HASH_COST) =~= "$2b$10$"@);
}

/// Checks a password against a stored hash.
pub fn verify_password(password: &str, hash: &str) -> (verdict: Result<bool, AppError>)
    ensures
        reported(verdict) == password_check(password@, hash@),
{
    match bcrypt_verify(password, hash) {
        Ok(matches) => Ok(matches),
        Err(_) => Err(AppError::InternalError),
    }
}

} // verus!
