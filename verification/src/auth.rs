//! Authentication: the claims of a session token, the decision on a request's token, and
//! password checks with bcrypt.

use crate::resources::{NewUser, User};
use crate::validation::{report_fields, new_user_failures};
use vstd::prelude::*;

verus! {

/// How long a session token stays valid: seven days, in seconds.
pub const AUTH_TOKEN_LIFETIME_SECONDS: i64 = 604_800;

/// The claims carried by a session token: the user's id and the expiry as a Unix time.
#[derive(Clone, Copy, Debug, PartialEq, Eq)]
pub struct Claims {
    pub sub: i32,
    pub exp: i64,
}

/// The identity of an authenticated request.
#[derive(Clone, Copy, Debug, PartialEq, Eq)]
pub struct AuthMiddleware {
    pub user_id: i32,
}

/// A request whose session carries no valid token.
#[derive(Clone, Copy, Debug, PartialEq, Eq)]
pub enum AuthError {
    AuthError,
}

impl AuthError {
    /// The HTTP status of the refusal: 401 Unauthorized.
    pub fn status_code(&self) -> (code: u16)
        ensures
            code == 401,
    {
        401
    }

    /// The header that sends an htmx client back to the start page.
    pub fn redirect_header(&self) -> (header: (&'static str, &'static str))
        ensures
            header.0@ == "HX-Redirect"@,
            header.1@ == "/"@,
    {
        ("HX-Redirect", "/")
    }

    /// The text of the refusal, which is also the body of the response.
    pub fn to_string(&self) -> (text: String)
        ensures
            text@ == "Authentication error"@,
    {
        String::from_str("Authentication error")
    }
}

/// The claims of a token issued to `user_id` at Unix time `now`.
pub open spec fn claims_issued(user_id: i32, now: int) -> Claims {
    Claims { sub: user_id, exp: (now + AUTH_TOKEN_LIFETIME_SECONDS) as i64 }
}

/// The claims of the token issued to `user` at Unix time `now`: it names the user and
/// expires seven days later.
pub fn auth_claims(user: &User, now: i64) -> (claims: Claims)
    requires
        now + AUTH_TOKEN_LIFETIME_SECONDS <= i64::MAX,
    ensures
        claims == claims_issued(user.id, now as int),
{
    Claims { sub: user.id, exp: now + AUTH_TOKEN_LIFETIME_SECONDS }
}

impl AuthMiddleware {
    /// The decision on a request: authenticated as the token's subject when the session held
    /// a token that decoded to `claims`, refused otherwise.
    pub fn from_claims(decoded: Option<Claims>) -> (r: Result<AuthMiddleware, AuthError>)
        ensures
            decoded is None <==> r is Err,
            decoded matches Some(c) ==> r == Ok::<AuthMiddleware, AuthError>(
                AuthMiddleware { user_id: c.sub },
            ),
    {
        match decoded {
            Some(claims) => Ok(AuthMiddleware { user_id: claims.sub }),
            None => Err(AuthError::AuthError),
        }
    }
}

/// What bcrypt's `verify` answers for a password and a stored hash: `None` when it fails
/// (a malformed hash), else whether the password matches.
pub uninterp spec fn bcrypt_verifies(password: Seq<char>, hash: Seq<char>) -> Option<bool>;

/// bcrypt `verify(password, hash)`, with its error mapped to `None`.
#[verifier::external_body]
fn bcrypt_verify(password: &str, hash: &str) -> (r: Option<bool>)
    ensures
        r == bcrypt_verifies(password@, hash@),
{
    bcrypt::verify(password, hash).ok()
}

/// The shape of a hash that bcrypt writes at the default cost: 60 characters beginning with
/// `$2b$12$`.
pub open spec fn is_bcrypt_hash_text(h: Seq<char>) -> bool {
    h.len() == 60 && h.subrange(0, 7) == "$2b$12$"@
}

/// bcrypt `hash(password, DEFAULT_COST)`, with its error mapped to `None`.
///
/// The salt is random, so the hash itself is not stated; what is claimed is what bcrypt's
/// source shows: the hash is written as `$2b$12$` followed by 53 characters of salt and
/// digest, and `verify` parses the cost and salt back out of it and recomputes the same
/// digest, so the password verifies against its own hash.
#[verifier::external_body]
fn bcrypt_hash(password: &str) -> (r: Option<String>)
    ensures
        r matches Some(h) ==> is_bcrypt_hash_text(h@),
        r matches Some(h) ==> bcrypt_verifies(password@, h@) == Some(true),
{
    bcrypt::hash(password, bcrypt::DEFAULT_COST).ok()
}

/// The answer to a login attempt.
#[derive(Clone, Copy, Debug, PartialEq, Eq)]
pub enum LoginOutcome {
    /// The password matches: a session token is issued.
    LoggedIn,
    /// No user has the email, or the password does not match.
    InvalidCredentials,
    /// The stored hash could not be checked.
    ServerError,
}

impl LoginOutcome {
    /// The HTTP status of the answer: 200, 401 or 500.
    pub fn status_code(&self) -> (code: u16)
        ensures
            code == match *self {
                LoginOutcome::LoggedIn => 200u16,
                LoginOutcome::InvalidCredentials => 401u16,
                LoginOutcome::ServerError => 500u16,
            },
    {
        match self {
            LoginOutcome::LoggedIn => 200,
            LoginOutcome::InvalidCredentials => 401,
            LoginOutcome::ServerError => 500,
        }
    }

    /// The body of the answer.
    pub fn body(&self) -> (text: &'static str)
        ensures
            text@ == match *self {
                LoginOutcome::LoggedIn => "User logged in"@,
                LoginOutcome::InvalidCredentials => "Invalid credentials"@,
                LoginOutcome::ServerError => "Something went wrong"@,
            },
    {
        match self {
            LoginOutcome::LoggedIn => "User logged in",
            LoginOutcome::InvalidCredentials => "Invalid credentials",
            LoginOutcome::ServerError => "Something went wrong",
        }
    }
}

/// The view of an optional string.
pub open spec fn opt_view(s: Option<&str>) -> Option<Seq<char>> {
    match s {
        Some(x) => Some(x@),
        None => None,
    }
}

/// The answer to a login with `password`, given the stored hash of the user with the email
/// (`None` when there is no such user).
pub open spec fn login_outcome(password: Seq<char>, stored_hash: Option<Seq<char>>) -> LoginOutcome {
    match stored_hash {
        None => LoginOutcome::InvalidCredentials,
        Some(hash) => match bcrypt_verifies(password, hash) {
            None => LoginOutcome::ServerError,
            Some(true) => LoginOutcome::LoggedIn,
            Some(false) => LoginOutcome::InvalidCredentials,
        },
    }
}

/// Decides a login attempt with `password` against the stored hash of the user found by the
/// email, if any.
pub fn check_login(password: &str, stored_hash: Option<&str>) -> (outcome: LoginOutcome)
    ensures
        outcome == login_outcome(password@, opt_view(stored_hash)),
{
    match stored_hash {
        None => LoginOutcome::InvalidCredentials,
        Some(hash) => match bcrypt_verify(password, hash) {
            None => LoginOutcome::ServerError,
            Some(true) => LoginOutcome::LoggedIn,
            Some(false) => LoginOutcome::InvalidCredentials,
        },
    }
}

/// Why a registration request is not stored.
pub enum RegistrationError {
    /// A rule is broken; the report says which.
    Invalid(garde::Report),
    /// The password could not be hashed.
    HashFailed,
}

/// The user to insert for a registration request: the request checked against the
/// registration rules, with the password replaced by its bcrypt hash.
pub fn prepare_registration(user: &NewUser) -> (r: Result<NewUser, RegistrationError>)
    ensures
        new_user_failures(user.name@, user.email@, user.password@).len() != 0 <==> r is Err
            && r->Err_0 is Invalid,
        r matches Err(RegistrationError::Invalid(report)) ==> report_fields(report)
            == new_user_failures(user.name@, user.email@, user.password@),
        r matches Ok(stored) ==> {
            &&& stored.name@ == user.name@
            &&& stored.email@ == user.email@
            &&& is_bcrypt_hash_text(stored.password@)
            &&& bcrypt_verifies(user.password@, stored.password@) == Some(true)
        },
{
    let checked = NewUser {
        name: user.name.clone(),
        email: user.email.clone(),
        password: user.password.clone(),
    };
    if let Err(report) = checked.validate() {
        return Err(RegistrationError::Invalid(report));
    }
    match bcrypt_hash(user.password.as_str()) {
        Some(hash) => Ok(NewUser { name: checked.name, email: checked.email, password: hash }),
        None => Err(RegistrationError::HashFailed),
    }
}

/// Law: a password that was registered logs in: once the stored hash verifies the
/// password (as [`prepare_registration`] ensures of the hash it stores), a login with that
/// password against that hash succeeds.
pub proof fn lemma_registered_password_logs_in(password: Seq<char>, stored_hash: Seq<char>)
    requires
        bcrypt_verifies(password, stored_hash) == Some(true),
    ensures
        login_outcome(password, Some(stored_hash)) == LoginOutcome::LoggedIn,
{
}

/// Law: the stored password is not the submitted one, unless the submitted password is itself
/// shaped like a bcrypt hash (60 characters beginning with `$2b$12$`): a stored hash always
/// has that shape.
pub proof fn lemma_stored_hash_differs_from_password(password: Seq<char>, stored_hash: Seq<char>)
    requires
        is_bcrypt_hash_text(stored_hash),
        !is_bcrypt_hash_text(password),
    ensures
        stored_hash != password,
{
}

/// Law: a login never succeeds for an unknown email.
pub proof fn lemma_unknown_email_is_refused(password: Seq<char>)
    ensures
        login_outcome(password, None) == LoginOutcome::InvalidCredentials,
{
}

} // verus!
