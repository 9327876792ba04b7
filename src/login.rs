//! The login flow's decisions, shared by the structured entry and the
//! partial-page entry. The credential check itself is done by the caller.
use vstd::prelude::*;

verus! {

/// Response header that tells a partial-page client where to navigate next.
pub const CLIENT_REDIRECT_HEADER: &'static str = "hx-redirect";

/// Protected landing page a successful login leads to.
pub const LANDING_PAGE: &'static str = "/dashboard";

/// Template of the login form fragment.
pub const LOGIN_FORM_TEMPLATE: &'static str = "pages/login.html";

/// The one message shown for every refused login.
pub const LOGIN_ERROR_MESSAGE: &'static str = "Invalid username or password";

/// A login form as submitted; either field may be missing.
pub struct LoginPayload {
    pub username: Option<String>,
    pub pwd: Option<String>,
}

/// Why the credential resolver did not return an identity.
#[derive(Clone, Copy, Debug, PartialEq, Eq, Structural)]
pub enum VerifyFailure {
    UnknownUser,
    WrongSecret,
    ResolverUnavailable,
}

/// What a failed verification is reported as.
#[derive(Clone, Copy, Debug, PartialEq, Eq, Structural)]
pub enum LoginError {
    /// One uniform answer for any refused username or secret.
    InvalidCredentials,
    /// The resolver could not be reached: a server-side fault.
    ResolverUnavailable,
}

/// The first move of the partial-page entry.
pub enum LoginStep {
    /// The request already holds a valid session: redirect at once.
    Redirect,
    /// Hand these credentials to the verification routine.
    Verify { username: String, pwd: String },
    /// A field is missing: re-render the form with the generic error.
    RenderForm,
}

/// What the partial-page entry answers.
#[derive(Clone, Copy, Debug, PartialEq, Eq, Structural)]
pub enum LoginReply {
    /// Empty body with `CLIENT_REDIRECT_HEADER` set to `LANDING_PAGE`.
    ClientRedirect,
    /// The login form fragment rendered with `LOGIN_ERROR_MESSAGE`.
    FormWithError,
    /// A server error response.
    ServerError,
}

pub open spec fn login_error_spec(f: VerifyFailure) -> LoginError {
    match f {
        VerifyFailure::ResolverUnavailable => LoginError::ResolverUnavailable,
        _ => LoginError::InvalidCredentials,
    }
}

pub open spec fn step_spec(already_authenticated: bool, payload: LoginPayload) -> LoginStep {
    if already_authenticated {
        LoginStep::Redirect
    } else {
        match (payload.username, payload.pwd) {
            (Some(u), Some(p)) => LoginStep::Verify { username: u, pwd: p },
            _ => LoginStep::RenderForm,
        }
    }
}

pub open spec fn reply_spec(outcome: Result<(), VerifyFailure>) -> LoginReply {
    match outcome {
        Ok(()) => LoginReply::ClientRedirect,
        Err(f) => match login_error_spec(f) {
            LoginError::InvalidCredentials => LoginReply::FormWithError,
            LoginError::ResolverUnavailable => LoginReply::ServerError,
        },
    }
}

/// Maps a verification failure to what the client is told: an unknown user
/// and a wrong secret are not told apart.
pub fn login_error(f: VerifyFailure) -> (r: LoginError)
    ensures
        r == login_error_spec(f),
{
    match f {
        VerifyFailure::ResolverUnavailable => LoginError::ResolverUnavailable,
        _ => LoginError::InvalidCredentials,
    }
}

/// Structured entry: the result of the verification routine, with its
/// failures made uniform.
pub fn api_login_result(outcome: Result<(), VerifyFailure>) -> (r: Result<(), LoginError>)
    ensures
        match outcome {
            Ok(()) => r == Ok::<(), LoginError>(()),
            Err(f) => r == Err::<(), LoginError>(login_error_spec(f)),
        },
{
    match outcome {
        Ok(()) => Ok(()),
        Err(f) => Err(login_error(f)),
    }
}

/// Partial-page entry, first move: a request that already holds a valid
/// session is redirected without looking at the payload; otherwise both
/// fields must be present to reach the verification routine.
pub fn htmx_login_step(already_authenticated: bool, payload: LoginPayload) -> (r: LoginStep)
    ensures
        r == step_spec(already_authenticated, payload),
{
    if already_authenticated {
        return LoginStep::Redirect;
    }
    match (payload.username, payload.pwd) {
        (Some(username), Some(pwd)) => LoginStep::Verify { username, pwd },
        _ => LoginStep::RenderForm,
    }
}

/// Partial-page entry, answer after the verification routine ran.
pub fn htmx_login_reply(outcome: Result<(), VerifyFailure>) -> (r: LoginReply)
    ensures
        r == reply_spec(outcome),
{
    match api_login_result(outcome) {
        Ok(()) => LoginReply::ClientRedirect,
        Err(LoginError::InvalidCredentials) => LoginReply::FormWithError,
        Err(LoginError::ResolverUnavailable) => LoginReply::ServerError,
    }
}

/// An unknown user and a wrong secret lead to the same answer on both
/// entries.
pub proof fn lemma_no_user_enumeration()
    ensures
        login_error_spec(VerifyFailure::UnknownUser) == login_error_spec(
            VerifyFailure::WrongSecret,
        ),
        reply_spec(Err(VerifyFailure::UnknownUser)) == reply_spec(Err(VerifyFailure::WrongSecret)),
        reply_spec(Err(VerifyFailure::UnknownUser)) == LoginReply::FormWithError,
{
}

/// A request that already holds a valid session is redirected, whatever its
/// payload, and never reaches the verification routine.
pub proof fn lemma_relogin_is_idempotent(payload: LoginPayload)
    ensures
        step_spec(true, payload) is Redirect,
        !(step_spec(true, payload) is Verify),
{
}

/// A payload with a missing field never reaches the verification routine;
/// without a valid session it re-renders the form with the generic error.
pub proof fn lemma_missing_field_short_circuits(already_authenticated: bool, payload: LoginPayload)
    requires
        payload.username is None || payload.pwd is None,
    ensures
        !(step_spec(already_authenticated, payload) is Verify),
        !already_authenticated ==> step_spec(already_authenticated, payload) is RenderForm,
{
}

} // verus!
