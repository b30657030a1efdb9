//! What the HTTP API answers: the status code and status text of every error,
//! the replies to registrations and logins, and the session cookie.
use vstd::prelude::*;
use vstd::std_specs::convert::FromSpecImpl;
use vstd::string::*;

use crate::database::DatabaseError;
use crate::error::SuperoxideError;
use crate::state::{AccountLoginResult, AccountRegistrationResult};

verus! {

/// The details of a user that the front-end is shown.
pub struct FrontendUserDetails {
    pub username: String,
}

/// An error answered to an HTTP request.
pub enum HttpServerError {
    NotFound,
    Unauthorized,
    InternalServerError(SuperoxideError),
    InvalidParameters,
    TooManyRequests,
}

/// The result of serving an HTTP request.
pub type HttpServerResponse<T> = Result<T, HttpServerError>;

/// The HTTP status code each error is answered with.
pub open spec fn error_status_code(error: HttpServerError) -> u16 {
    match error {
        HttpServerError::NotFound => 404,
        HttpServerError::Unauthorized => 401,
        HttpServerError::InternalServerError(_) => 500,
        HttpServerError::InvalidParameters => 400,
        HttpServerError::TooManyRequests => 429,
    }
}

/// The text of the `status` field of the JSON body each error is answered with.
pub open spec fn error_status_label(error: HttpServerError) -> Seq<char> {
    match error {
        HttpServerError::NotFound => "not_found"@,
        HttpServerError::Unauthorized => "unauthorized"@,
        HttpServerError::InternalServerError(_) => "internal_server_error"@,
        HttpServerError::InvalidParameters => "invalid_parameters"@,
        HttpServerError::TooManyRequests => "too_many_requests"@,
    }
}

/// Whether two HTTP errors are of the same kind (the same variant).
pub open spec fn same_http_error_kind(a: HttpServerError, b: HttpServerError) -> bool {
    match (a, b) {
        (HttpServerError::NotFound, HttpServerError::NotFound) => true,
        (HttpServerError::Unauthorized, HttpServerError::Unauthorized) => true,
        (HttpServerError::InternalServerError(_), HttpServerError::InternalServerError(_)) => true,
        (HttpServerError::InvalidParameters, HttpServerError::InvalidParameters) => true,
        (HttpServerError::TooManyRequests, HttpServerError::TooManyRequests) => true,
        _ => false,
    }
}

/// Every kind of error is answered with a status code and a status text of its
/// own: two errors share either exactly when they are of the same kind. Each
/// code is a client error (4xx) but that of an internal error (500).
pub proof fn lemma_error_answers_distinct(a: HttpServerError, b: HttpServerError)
    ensures
        error_status_code(a) == error_status_code(b) <==> same_http_error_kind(a, b),
        error_status_label(a) == error_status_label(b) <==> same_http_error_kind(a, b),
        400 <= error_status_code(a) < 500 <==> !(a is InternalServerError),
{
    reveal_strlit("not_found");
    reveal_strlit("unauthorized");
    reveal_strlit("internal_server_error");
    reveal_strlit("invalid_parameters");
    reveal_strlit("too_many_requests");
    if error_status_label(a) == error_status_label(b) {
        assert(error_status_label(a).len() == error_status_label(b).len());
    }
}

impl HttpServerError {
    /// The HTTP status code this error is answered with.
    pub fn status_code(&self) -> (code: u16)
        ensures
            code == error_status_code(*self),
    {
        match self {
            HttpServerError::NotFound => 404,
            HttpServerError::Unauthorized => 401,
            HttpServerError::InternalServerError(_) => 500,
            HttpServerError::InvalidParameters => 400,
            HttpServerError::TooManyRequests => 429,
        }
    }

    /// The text of the `status` field of the JSON body this error is answered with.
    pub fn status_label(&self) -> (label: &'static str)
        ensures
            label@ == error_status_label(*self),
    {
        match self {
            HttpServerError::NotFound => "not_found",
            HttpServerError::Unauthorized => "unauthorized",
            HttpServerError::InternalServerError(_) => "internal_server_error",
            HttpServerError::InvalidParameters => "invalid_parameters",
            HttpServerError::TooManyRequests => "too_many_requests",
        }
    }
}

impl From<SuperoxideError> for HttpServerError {
    fn from(value: SuperoxideError) -> (error: Self) {
        HttpServerError::InternalServerError(value)
    }
}

impl FromSpecImpl<SuperoxideError> for HttpServerError {
    open spec fn obeys_from_spec() -> bool {
        true
    }

    open spec fn from_spec(value: SuperoxideError) -> Self {
        HttpServerError::InternalServerError(value)
    }
}

impl From<DatabaseError> for HttpServerError {
    fn from(value: DatabaseError) -> (error: Self) {
        HttpServerError::InternalServerError(SuperoxideError::DatabaseError(value))
    }
}

impl FromSpecImpl<DatabaseError> for HttpServerError {
    open spec fn obeys_from_spec() -> bool {
        true
    }

    open spec fn from_spec(value: DatabaseError) -> Self {
        HttpServerError::InternalServerError(SuperoxideError::DatabaseError(value))
    }
}

/// Represents query parameters used in HTTP requests: a query that does not
/// parse is answered as [`HttpServerError::InvalidParameters`], so that no
/// internal server details are exposed.
pub struct ApiQuery<T>(pub T);

/// The part of the HTTP server that serves the account routes.
pub struct AccountsModule;

/// The part of the HTTP server that serves the `/me` route.
pub struct MeModule;

/// The part of the HTTP server that serves the routes of a user's tests.
pub struct TestsModule;

/// The part of the HTTP server that serves the user routes.
pub struct UserModule;

/// Where the account routes are nested.
pub const ACCOUNTS_PREFIX: &'static str = "/accounts";
/// `GET`: whether a username is available (under [`ACCOUNTS_PREFIX`]).
pub const USERNAME_AVAILABILITY_ROUTE: &'static str = "/username-availability";
/// `POST`: register an account (under [`ACCOUNTS_PREFIX`]).
pub const REGISTER_ROUTE: &'static str = "/register";
/// `POST`: log into an account (under [`ACCOUNTS_PREFIX`]).
pub const LOGIN_ROUTE: &'static str = "/login";
/// `DELETE`: end the current session (under [`ACCOUNTS_PREFIX`]).
pub const SIGN_OUT_ROUTE: &'static str = "/sign-out";
/// `GET`: who the client is.
pub const ME_ROUTE: &'static str = "/me";
/// Where the routes of a user's tests are nested.
pub const TESTS_PREFIX: &'static str = "/tests";
/// `GET`: the tests of the client's user (under [`TESTS_PREFIX`]).
pub const MY_TESTS_ROUTE: &'static str = "/my-tests";
/// `POST`: create a test (under [`TESTS_PREFIX`]).
pub const CREATE_TEST_ROUTE: &'static str = "/create";
/// `DELETE`: delete a test (under [`TESTS_PREFIX`]).
pub const DELETE_TEST_ROUTE: &'static str = "/delete";
/// `GET`: whether a username is available, as `{"available": ...}`.
pub const USERS_USERNAME_AVAILABILITY_ROUTE: &'static str = "/users/username-availability";

/// How often a route may be called by one client: one request is replenished
/// every `replenish_interval_ms` milliseconds, and at most `burst_size`
/// requests may be made at once. Requests over the limit are answered with
/// [`HttpServerError::TooManyRequests`].
#[derive(Debug, Clone, Copy, PartialEq, Eq, Structural)]
pub struct RateLimit {
    pub replenish_interval_ms: u64,
    pub burst_size: u32,
}

impl AccountsModule {
    /// The limit of `GET /accounts/username-availability`.
    pub fn username_availability_limit() -> (limit: RateLimit)
        ensures
            limit == (RateLimit { replenish_interval_ms: 200, burst_size: 20 }),
    {
        RateLimit { replenish_interval_ms: 200, burst_size: 20 }
    }

    /// The limit of `POST /accounts/register`: one a second, three at once.
    pub fn register_limit() -> (limit: RateLimit)
        ensures
            limit == (RateLimit { replenish_interval_ms: 1000, burst_size: 3 }),
    {
        RateLimit { replenish_interval_ms: 1000, burst_size: 3 }
    }

    /// The limit of `POST /accounts/login`.
    pub fn login_limit() -> (limit: RateLimit)
        ensures
            limit == (RateLimit { replenish_interval_ms: 600, burst_size: 5 }),
    {
        RateLimit { replenish_interval_ms: 600, burst_size: 5 }
    }

    /// The limit of `DELETE /accounts/sign-out`.
    pub fn sign_out_limit() -> (limit: RateLimit)
        ensures
            limit == (RateLimit { replenish_interval_ms: 100, burst_size: 20 }),
    {
        RateLimit { replenish_interval_ms: 100, burst_size: 20 }
    }
}

impl MeModule {
    /// The limit of `GET /me`.
    pub fn me_limit() -> (limit: RateLimit)
        ensures
            limit == (RateLimit { replenish_interval_ms: 150, burst_size: 20 }),
    {
        RateLimit { replenish_interval_ms: 150, burst_size: 20 }
    }
}

impl TestsModule {
    /// The limit of `GET /tests/my-tests`.
    pub fn my_tests_limit() -> (limit: RateLimit)
        ensures
            limit == (RateLimit { replenish_interval_ms: 200, burst_size: 10 }),
    {
        RateLimit { replenish_interval_ms: 200, burst_size: 10 }
    }

    /// The limit of `POST /tests/create` and of `DELETE /tests/delete`.
    pub fn change_limit() -> (limit: RateLimit)
        ensures
            limit == (RateLimit { replenish_interval_ms: 1000, burst_size: 10 }),
    {
        RateLimit { replenish_interval_ms: 1000, burst_size: 10 }
    }
}

/// The answer to a registration request.
pub enum RegisterResponse {
    Successful { user: FrontendUserDetails },
    UsernameAlreadyTaken,
    InvalidUsername,
}

/// The answer to a login request.
pub enum LoginResponse {
    Successful { user: FrontendUserDetails },
    IncorrectUsernameOrPassword,
}

impl RegisterResponse {
    /// The answer to a registration that did not create an account, or `None`
    /// for one that did (whose answer needs the new session and the user's details).
    pub fn rejection(result: AccountRegistrationResult) -> (response: Option<RegisterResponse>)
        ensures
            match result {
                AccountRegistrationResult::Successful(_) => response is None,
                AccountRegistrationResult::UsernameAlreadyTaken => response matches Some(
                    RegisterResponse::UsernameAlreadyTaken),
                AccountRegistrationResult::InvalidUsername => response matches Some(
                    RegisterResponse::InvalidUsername),
            },
    {
        match result {
            AccountRegistrationResult::Successful(_) => None,
            AccountRegistrationResult::UsernameAlreadyTaken => Some(RegisterResponse::UsernameAlreadyTaken),
            AccountRegistrationResult::InvalidUsername => Some(RegisterResponse::InvalidUsername),
        }
    }

    /// The HTTP status code of this answer: 200, 409 for a taken name, 400 for an invalid one.
    pub fn status_code(&self) -> (code: u16)
        ensures
            code == match *self {
                RegisterResponse::Successful { .. } => 200u16,
                RegisterResponse::UsernameAlreadyTaken => 409u16,
                RegisterResponse::InvalidUsername => 400u16,
            },
    {
        match self {
            RegisterResponse::Successful { .. } => 200,
            RegisterResponse::UsernameAlreadyTaken => 409,
            RegisterResponse::InvalidUsername => 400,
        }
    }
}

impl LoginResponse {
    /// The answer to a login that did not succeed, or `None` for one that did
    /// (whose answer needs the new session and the user's details).
    pub fn rejection(result: AccountLoginResult) -> (response: Option<LoginResponse>)
        ensures
            match result {
                AccountLoginResult::Successful(_) => response is None,
                AccountLoginResult::IncorrectUsernameOrPassword => response matches Some(
                    LoginResponse::IncorrectUsernameOrPassword),
            },
    {
        match result {
            AccountLoginResult::Successful(_) => None,
            AccountLoginResult::IncorrectUsernameOrPassword => Some(LoginResponse::IncorrectUsernameOrPassword),
        }
    }

    /// The HTTP status code of this answer: 200, or 401 for wrong credentials.
    pub fn status_code(&self) -> (code: u16)
        ensures
            code == match *self {
                LoginResponse::Successful { .. } => 200u16,
                LoginResponse::IncorrectUsernameOrPassword => 401u16,
            },
    {
        match self {
            LoginResponse::Successful { .. } => 200,
            LoginResponse::IncorrectUsernameOrPassword => 401,
        }
    }
}

/// The attributes the session cookie is set with.
pub open spec fn session_cookie_attributes() -> Seq<char> {
    "; HttpOnly; Path=/; SameSite=Lax"@
}

/// The value of the `Set-Cookie` header that tells the browser to keep the
/// session token: `session=<token>; HttpOnly; Path=/; SameSite=Lax`.
pub fn session_cookie(token: &str) -> (cookie: String)
    ensures
        cookie@ == "session="@ + token@ + session_cookie_attributes(),
{
    let mut cookie = String::from_str("session=");
    cookie.append(token);
    cookie.append("; HttpOnly; Path=/; SameSite=Lax");
    cookie
}

} // verus!
