//! Registration and login: the requests, their validation, and the steps
//! that turn them into a recorded user and a token.

use vstd::prelude::*;
use vstd::string::{StrSliceExecFns, StringExecFns};
use crate::auth::{
    create_token_at, hash_password, issuance, password_check, valid_until, verify_password,
    AuthUser, TOKEN_LIFETIME_SECONDS,
};
use crate::config::Config;
use crate::error::{reported, reported_view, AppError, AppErrorView};
use crate::models::{text_of, User, UserView};
use crate::reconcile::{enrolled, Ledger, LedgerView};
use crate::text::same_text;

verus! {

/// Characters that a password must have at least.
pub const MIN_PASSWORD_LENGTH: usize = 6;

/// What a new user sends to register.
#[derive(Debug)]
pub struct RegisterRequest {
    pub email: String,
    pub password: String,
    pub full_name: Option<String>,
}

/// What a user sends to log in.
#[derive(Debug)]
pub struct LoginRequest {
    pub email: String,
    pub password: String,
}

/// What a user gets who registered or logged in.
#[derive(Debug)]
pub struct AuthResponse {
    pub token: String,
    pub user: User,
}

/// Mathematical value of an [`AuthResponse`].
pub struct AuthResponseView {
    pub token: Seq<char>,
    pub user: UserView,
}

impl View for AuthResponse {
    type V = AuthResponseView;

    open spec fn view(&self) -> AuthResponseView {
        AuthResponseView { token: self.token@, user: self.user@ }
    }
}

/// Whether `validator::validate_email` accepts the text as an e-mail address.
pub uninterp spec fn email_accepted(address: Seq<char>) -> bool;

/// Calls `validator::validate_email`.
///
/// Trusted: the result is [`email_accepted`] of the argument.
#[verifier::external_body]
fn validate_email(address: &str) -> (accepted: bool)
    ensures
        accepted == email_accepted(address@),
{
    validator::validate_email(address)
}

/// Why a registration is refused before anything is looked up, if it is: the
/// address is not an e-mail address, the password is too short, or both. The
/// message names each field that failed, the address first.
pub open spec fn request_objection(email: Seq<char>, password: Seq<char>) -> Option<AppErrorView> {
    let email_fails = !email_accepted(email);
    let password_fails = password.len() < MIN_PASSWORD_LENGTH;
    if email_fails && password_fails {
        Some(
            AppErrorView::ValidationError(
                "email: Validation error: email\npassword: Validation error: length"@,
            ),
        )
    } else if email_fails {
        Some(AppErrorView::ValidationError("email: Validation error: email"@))
    } else if password_fails {
        Some(AppErrorView::ValidationError("password: Validation error: length"@))
    } else {
        None
    }
}

/// Judges a registration from whether its address was accepted and how many
/// characters its password has.
pub fn judge_request(email_accepted: bool, password_length: usize) -> (verdict: Result<(), AppError>)
    ensures
        verdict is Ok <==> email_accepted && password_length >= MIN_PASSWORD_LENGTH,
        verdict matches Err(error) ==> error@ == (if !email_accepted && password_length
            < MIN_PASSWORD_LENGTH {
            AppErrorView::ValidationError(
                "email: Validation error: email\npassword: Validation error: length"@,
            )
        } else if !email_accepted {
            AppErrorView::ValidationError("email: Validation error: email"@)
        } else {
            AppErrorView::ValidationError("password: Validation error: length"@)
        }),
{
    let password_fails = password_length < MIN_PASSWORD_LENGTH;
    if !email_accepted && password_fails {
        Err(
            AppError::ValidationError(
                String::from_str(
                    "email: Validation error: email\npassword: Validation error: length",
                ),
            ),
        )
    } else if !email_accepted {
        Err(AppError::ValidationError(String::from_str("email: Validation error: email")))
    } else if password_fails {
        Err(AppError::ValidationError(String::from_str("password: Validation error: length")))
    } else {
        Ok(())
    }
}

impl RegisterRequest {
    /// Checks the request: the address must be an e-mail address and the
    /// password must have at least six characters.
    pub fn validate(&self) -> (verdict: Result<(), AppError>)
        ensures
            match verdict {
                Ok(_) => request_objection(self.email@, self.password@).is_none(),
                Err(error) => request_objection(self.email@, self.password@) == Some(error@),
            },
    {
        judge_request(validate_email(self.email.as_str()), self.password.as_str().unicode_len())
    }
}

/// Mathematical value of the result of a registration or a login.
pub open spec fn answered(result: Result<AuthResponse, AppError>) -> Result<
    AuthResponseView,
    AppErrorView,
> {
    reported_view(result)
}

/// Whether the token of a successful answer speaks for the user of the
/// answer until one lifetime after `now`. It holds of every answer whose
/// expiry does not lie before the Unix epoch.
pub open spec fn carries_valid_token(
    answer: Result<AuthResponse, AppError>,
    now: i64,
    secret: Seq<char>,
) -> bool {
    answer is Ok && now + TOKEN_LIFETIME_SECONDS >= 0 ==> valid_until(
        answer.unwrap().token@,
        secret,
        answer.unwrap().user.id,
        now + TOKEN_LIFETIME_SECONDS,
    )
}

/// What recording a checked registration under `password_hash` comes to: the
/// ledger afterwards and the answer. The user is recorded unless something
/// stands against it; a user who was recorded stays so even where the token
/// then cannot be signed.
pub open spec fn enrolment(
    ledger: LedgerView,
    email: Seq<char>,
    password_hash: Seq<char>,
    full_name: Option<Seq<char>>,
    id: u128,
    now: i64,
    secret: Seq<char>,
) -> (LedgerView, Result<AuthResponseView, AppErrorView>) {
    match ledger.enrol_objection(id, email) {
        Some(error) => (ledger, Err(error)),
        None => {
            let user = enrolled(id, email, password_hash, full_name, now);
            (
                ledger.enrol(user),
                match issuance(id, now, secret) {
                    Ok(token) => Ok(AuthResponseView { token, user }),
                    Err(error) => Err(error),
                },
            )
        },
    }
}

/// Records the user of a checked registration under `password_hash` and
/// issues the first token.
pub fn enrol(
    ledger: &mut Ledger,
    request: RegisterRequest,
    password_hash: String,
    id: u128,
    now: i64,
    config: &Config,
) -> (answer: Result<AuthResponse, AppError>)
    requires
        old(ledger).wf(),
        now + TOKEN_LIFETIME_SECONDS <= i64::MAX,
    ensures
        final(ledger).wf(),
        (final(ledger)@, answered(answer)) == enrolment(
            old(ledger)@,
            request.email@,
            password_hash@,
            text_of(request.full_name),
            id,
            now,
            config.jwt_secret@,
        ),
        answer is Ok <==> old(ledger)@.enrol_objection(id, request.email@).is_none(),
        carries_valid_token(answer, now, config.jwt_secret@),
{
    let user = match ledger.add_user(id, request.email, password_hash, request.full_name, now) {
        Ok(user) => user,
        Err(error) => { return Err(error); },
    };
    match create_token_at(user.id, now, config) {
        Ok(token) => Ok(AuthResponse { token, user }),
        Err(error) => Err(error),
    }
}

/// Registers a user: checks the request, hashes the password, records the
/// user on the free plan and issues the first token.
///
/// A request that fails the check is refused with its objection. Otherwise
/// either hashing failed, which is the internal failure, or the outcome is
/// that of [`enrol`] under a hash that matches the password. A registration
/// that fails records nothing.
pub fn register(ledger: &mut Ledger, request: RegisterRequest, id: u128, now: i64, config: &Config) -> (answer:
    Result<AuthResponse, AppError>)
    requires
        old(ledger).wf(),
        now + TOKEN_LIFETIME_SECONDS <= i64::MAX,
    ensures
        final(ledger).wf(),
        carries_valid_token(answer, now, config.jwt_secret@),
        answer is Ok ==> request_objection(request.email@, request.password@).is_none() && old(
            ledger,
        )@.enrol_objection(id, request.email@).is_none(),
        answer is Err ==> final(ledger)@ == old(ledger)@,
        match request_objection(request.email@, request.password@) {
            Some(error) => final(ledger)@ == old(ledger)@ && answered(answer) == Err::<
                AuthResponseView,
                AppErrorView,
            >(error),
            None => {
                ||| (final(ledger)@ == old(ledger)@ && answered(answer) == Err::<
                    AuthResponseView,
                    AppErrorView,
                >(AppErrorView::InternalError))
                ||| exists|hash: Seq<char>|
                    password_check(request.password@, hash) == Ok::<bool, AppErrorView>(true) && (
                    final(ledger)@,
                    answered(answer),
                ) == #[trigger] enrolment(
                        old(ledger)@,
                        request.email@,
                        hash,
                        text_of(request.full_name),
                        id,
                        now,
                        config.jwt_secret@,
                    )
            },
        },
{
    match request.validate() {
        Ok(_) => {},
        Err(error) => { return Err(error); },
    }
    let password_hash = match hash_password(request.password.as_str()) {
        Ok(hash) => hash,
        Err(error) => { return Err(error); },
    };
    let ghost hash = password_hash@;
    let ghost before = ledger@;
    let ghost email = request.email@;
    let ghost name = text_of(request.full_name);
    let answer = enrol(ledger, request, password_hash, id, now, config);
    assert((ledger@, answered(answer)) == enrolment(
        before,
        email,
        hash,
        name,
        id,
        now,
        config.jwt_secret@,
    ));
    answer
}

/// What a datastore's refusal to record a user is reported as: a breach of
/// the constraint that keeps addresses unique is a validation failure that
/// says so; every other refusal is a datastore failure with its detail.
pub open spec fn insert_failure(constraint: Option<Seq<char>>, detail: Seq<char>) -> AppErrorView {
    if constraint == Some("users_email_key"@) {
        AppErrorView::ValidationError("Email already exists"@)
    } else {
        AppErrorView::DatabaseError(detail)
    }
}

/// Reports a datastore's refusal to record a user, given the constraint that
/// was breached, if one was, and the datastore's own words.
pub fn classify_insert_failure(constraint: Option<&str>, detail: String) -> (error: AppError)
    ensures
        error@ == insert_failure(
            match constraint {
                Some(name) => Some(name@),
                None => None,
            },
            detail@,
        ),
{
    match constraint {
        Some(name) => if same_text(name, "users_email_key") {
            AppError::ValidationError(String::from_str("Email already exists"))
        } else {
            AppError::DatabaseError(detail)
        },
        None => AppError::DatabaseError(detail),
    }
}

/// What a login comes to once the password was checked against the hash of
/// the user under the address, if there is such a user: the token and the
/// user where the password matches; the authentication failure where there
/// is no such user or the password does not match; the internal failure
/// where the check or the signing fails.
pub open spec fn login_verdict(
    user: Option<UserView>,
    check: Result<bool, AppErrorView>,
    now: i64,
    secret: Seq<char>,
) -> Result<AuthResponseView, AppErrorView> {
    match user {
        None => Err(AppErrorView::AuthError),
        Some(user) => match check {
            Err(error) => Err(error),
            Ok(false) => Err(AppErrorView::AuthError),
            Ok(true) => match issuance(user.id, now, secret) {
                Ok(token) => Ok(AuthResponseView { token, user }),
                Err(error) => Err(error),
            },
        },
    }
}

/// What a login with `email` and `password` comes to at `now`.
pub open spec fn login_outcome(
    ledger: LedgerView,
    email: Seq<char>,
    password: Seq<char>,
    now: i64,
    secret: Seq<char>,
) -> Result<AuthResponseView, AppErrorView> {
    if ledger.has_email(email) {
        let user = ledger.user_with_email(email);
        login_verdict(Some(user), password_check(password, user.password_hash), now, secret)
    } else {
        login_verdict(None, Ok(false), now, secret)
    }
}

/// Ends a login for the user that was found under the address, if any, given
/// what the check of the password against the stored hash came to.
pub fn conclude_login(user: Option<User>, check: Result<bool, AppError>, now: i64, config: &Config) -> (answer:
    Result<AuthResponse, AppError>)
    requires
        now + TOKEN_LIFETIME_SECONDS <= i64::MAX,
    ensures
        answered(answer) == login_verdict(
            match user {
                Some(found) => Some(found@),
                None => None,
            },
            reported(check),
            now,
            config.jwt_secret@,
        ),
        answer is Ok <==> user is Some && reported(check) == Ok::<bool, AppErrorView>(true),
        carries_valid_token(answer, now, config.jwt_secret@),
{
    let user = match user {
        Some(found) => found,
        None => { return Err(AppError::AuthError); },
    };
    match check {
        Err(error) => Err(error),
        Ok(false) => Err(AppError::AuthError),
        Ok(true) => match create_token_at(user.id, now, config) {
            Ok(token) => Ok(AuthResponse { token, user }),
            Err(error) => Err(error),
        },
    }
}

/// Logs a user in at `now`: looks the user up by address, checks the
/// password against the stored hash and issues a token. An unknown address
/// and a wrong password fail alike.
pub fn login(ledger: &Ledger, request: &LoginRequest, now: i64, config: &Config) -> (answer: Result<
    AuthResponse,
    AppError,
>)
    requires
        ledger.wf(),
        now + TOKEN_LIFETIME_SECONDS <= i64::MAX,
    ensures
        answered(answer) == login_outcome(
            ledger@,
            request.email@,
            request.password@,
            now,
            config.jwt_secret@,
        ),
        answer is Ok <==> ledger@.has_email(request.email@) && password_check(
            request.password@,
            ledger@.user_with_email(request.email@).password_hash,
        ) == Ok::<bool, AppErrorView>(true),
        carries_valid_token(answer, now, config.jwt_secret@),
{
    match ledger.user_by_email(request.email.as_str()) {
        Some(user) => {
            let check = verify_password(request.password.as_str(), user.password_hash.as_str());
            conclude_login(Some(user), check, now, config)
        },
        None => conclude_login(None, Ok(false), now, config),
    }
}

/// The record of the authenticated user. A user who is not recorded is a
/// datastore failure.
pub fn me(ledger: &Ledger, auth_user: &AuthUser) -> (answer: Result<User, AppError>)
    requires
        ledger.wf(),
    ensures
        answer matches Ok(user) ==> ledger@.has_user(auth_user.user_id) && user@ == ledger@.user(
            auth_user.user_id,
        ),
        answer matches Err(error) ==> !ledger@.has_user(auth_user.user_id) && error@
            == AppErrorView::DatabaseError("no such user"@),
{
    match ledger.user(auth_user.user_id) {
        Some(user) => Ok(user),
        None => Err(AppError::DatabaseError(String::from_str("no such user"))),
    }
}

} // verus!
