//! The protected-route gate: from the session state and the client's fetch
//! mode, decide whether a request reaches its handler or is redirected.
use vstd::prelude::*;

verus! {

/// Name of the cookie that carries the session token.
pub const AUTH_TOKEN: &'static str = "auth-token";

/// Request header through which a client declares a background fetch.
pub const FETCH_MODE_HEADER: &'static str = "hx-request";

/// Value of `FETCH_MODE_HEADER` that marks a programmatic or partial fetch.
pub const PARTIAL_FETCH_VALUE: &'static str = "true";

/// Public entry page that unauthenticated navigations are sent to.
pub const PUBLIC_ENTRY: &'static str = "/";

/// What is known of the request's session.
#[derive(Clone, Copy, Debug, PartialEq, Eq, Structural)]
pub enum SessionState {
    /// A session cookie is present and the resolver accepted it.
    Valid,
    /// A session cookie is present and the resolver refused it.
    Invalid,
    /// No session cookie.
    Absent,
}

/// How the client fetches the page.
#[derive(Clone, Copy, Debug, PartialEq, Eq, Structural)]
pub enum FetchKind {
    FullNavigation,
    ProgrammaticOrPartial,
}

/// What happens to a request for a protected page.
#[derive(Clone, Copy, Debug, PartialEq, Eq, Structural)]
pub enum GateOutcome {
    /// Run the wrapped handler.
    PassThrough,
    /// Answer with an HTTP redirect to `PUBLIC_ENTRY`; no handler runs.
    RedirectToEntry,
}

pub open spec fn session_state_spec(has_token: bool, token_valid: bool) -> SessionState {
    if !has_token {
        SessionState::Absent
    } else if token_valid {
        SessionState::Valid
    } else {
        SessionState::Invalid
    }
}

/// The fetch-mode signal marks a partial fetch only when present with exactly
/// `PARTIAL_FETCH_VALUE`; absence or any other value is a full navigation.
pub open spec fn fetch_kind_spec(signal: Option<Seq<char>>) -> FetchKind {
    match signal {
        Some(v) if v == PARTIAL_FETCH_VALUE@ => FetchKind::ProgrammaticOrPartial,
        _ => FetchKind::FullNavigation,
    }
}

/// The protected-route table: a valid session always passes; an absent or invalid one
/// is redirected on a full navigation and passed on a partial fetch, whose
/// handler answers for itself.
pub open spec fn gate_spec(session: SessionState, fetch: FetchKind) -> GateOutcome {
    match (session, fetch) {
        (SessionState::Valid, _) => GateOutcome::PassThrough,
        (_, FetchKind::FullNavigation) => GateOutcome::RedirectToEntry,
        (_, FetchKind::ProgrammaticOrPartial) => GateOutcome::PassThrough,
    }
}

impl SessionState {
    /// Classifies a request's session from whether it carries the cookie and,
    /// if it does, whether the resolver accepted the token.
    pub fn classify(has_token: bool, token_valid: bool) -> (r: SessionState)
        ensures
            r == session_state_spec(has_token, token_valid),
    {
        if !has_token {
            SessionState::Absent
        } else if token_valid {
            SessionState::Valid
        } else {
            SessionState::Invalid
        }
    }
}

impl FetchKind {
    /// Classifies the fetch from the value of `FETCH_MODE_HEADER`, if any.
    pub fn classify(signal: Option<&str>) -> (r: FetchKind)
        ensures
            r == fetch_kind_spec(
                match signal {
                    Some(v) => Some(v@),
                    None => None,
                },
            ),
    {
        match signal {
            Some(v) => {
                let got = v.to_owned();
                let want = PARTIAL_FETCH_VALUE.to_owned();
                if got == want {
                    FetchKind::ProgrammaticOrPartial
                } else {
                    FetchKind::FullNavigation
                }
            },
            None => FetchKind::FullNavigation,
        }
    }
}

/// Decides the protected-route outcome for a session state and a fetch kind.
pub fn gate_decision(session: SessionState, fetch: FetchKind) -> (r: GateOutcome)
    ensures
        r == gate_spec(session, fetch),
{
    match session {
        SessionState::Valid => GateOutcome::PassThrough,
        _ => match fetch {
            FetchKind::FullNavigation => GateOutcome::RedirectToEntry,
            FetchKind::ProgrammaticOrPartial => GateOutcome::PassThrough,
        },
    }
}

/// Protected-page admission, from what the request carries: whether
/// the session cookie is there, whether its token resolved, and the value of
/// the fetch-mode header.
pub fn mw_protected_page(has_token: bool, token_valid: bool, fetch_signal: Option<&str>) -> (r:
    GateOutcome)
    ensures
        r == gate_spec(
            session_state_spec(has_token, token_valid),
            fetch_kind_spec(
                match fetch_signal {
                    Some(v) => Some(v@),
                    None => None,
                },
            ),
        ),
{
    let session = SessionState::classify(has_token, token_valid);
    let fetch = FetchKind::classify(fetch_signal);
    gate_decision(session, fetch)
}

/// Every session state and fetch kind meets the protected-route table: only an absent
/// or invalid session on a full navigation is redirected, and nothing else.
pub proof fn lemma_gate_table(session: SessionState, fetch: FetchKind)
    ensures
        (gate_spec(session, fetch) == GateOutcome::RedirectToEntry) <==> (session
            != SessionState::Valid && fetch == FetchKind::FullNavigation),
        session == SessionState::Valid ==> gate_spec(session, fetch) == GateOutcome::PassThrough,
        fetch == FetchKind::ProgrammaticOrPartial ==> gate_spec(session, fetch)
            == GateOutcome::PassThrough,
{
}

} // verus!
