//! The access guard.
//!
//! Each route is classified as public or protected by a static policy
//! table.  For a protected route the guard resolves the submitted session
//! token first, before any business logic runs, and rejects the request
//! outright when the token is anonymous: a downstream handler never
//! observes a protected request without a resolved principal.  Public
//! routes pass through unconditionally, with the resolved principal
//! attached only if one exists.

use vstd::prelude::*;

use crate::session::SessionStore;
use vstd::string::StringExecFns;

verus! {

/// An HTTP method, as far as the policy table cares.
#[derive(Clone, Copy, Debug, PartialEq, Eq, Structural)]
pub enum Method {
    Get,
    Post,
}

/// How the policy table classifies a route.
#[derive(Clone, Copy, Debug, PartialEq, Eq, Structural)]
pub enum RouteClass {
    Public,
    Protected,
    Unknown,
}

/// What the guard decides for one inbound request.
#[derive(Debug, PartialEq, Eq)]
pub enum GuardDecision {
    /// Let the request through, with the resolved principal if any.
    Proceed(Option<u64>),
    /// Protected route, anonymous token: reject before any handler runs.
    Reject,
    /// No route registered here.
    MissingRoute,
}

/// The static policy table: which method and path pairs are served, and
/// which of them demand an authenticated principal.
pub open spec fn classify_spec(method: Method, path: Seq<char>) -> RouteClass {
    if method == Method::Post && path == "/login"@ {
        RouteClass::Public
    } else if method == Method::Get && path == "/logout"@ {
        RouteClass::Protected
    } else if method == Method::Post && path == "/api/account"@ {
        RouteClass::Public
    } else if method == Method::Get && path == "/api/account"@ {
        RouteClass::Protected
    } else if method == Method::Get && path == "/health_check"@ {
        RouteClass::Public
    } else {
        RouteClass::Unknown
    }
}

/// The token a request carried, viewed as an optional character sequence.
pub open spec fn token_view(token: Option<&String>) -> Option<Seq<char>> {
    match token {
        Option::Some(t) => Option::Some(t@),
        Option::None => Option::None,
    }
}

/// The same view for a token held by value.
pub open spec fn stored_token_view(token: Option<String>) -> Option<Seq<char>> {
    match token {
        Option::Some(t) => Option::Some(t@),
        Option::None => Option::None,
    }
}

/// What resolving an optional token against the binding map yields.
pub open spec fn resolve_spec(bindings: Map<Seq<char>, u64>, token: Option<Seq<char>>) -> Option<
    u64,
> {
    match token {
        Option::Some(t) => if bindings.contains_key(t) {
            Option::Some(bindings[t])
        } else {
            Option::None
        },
        Option::None => Option::None,
    }
}

/// The guard's decision: public routes pass through with the optional
/// principal, protected routes demand one, unregistered routes are missing.
pub open spec fn guard_spec(
    bindings: Map<Seq<char>, u64>,
    method: Method,
    path: Seq<char>,
    token: Option<Seq<char>>,
) -> GuardDecision {
    match classify_spec(method, path) {
        RouteClass::Public => GuardDecision::Proceed(resolve_spec(bindings, token)),
        RouteClass::Protected => match resolve_spec(bindings, token) {
            Option::Some(uid) => GuardDecision::Proceed(Option::Some(uid)),
            Option::None => GuardDecision::Reject,
        },
        RouteClass::Unknown => GuardDecision::MissingRoute,
    }
}

/// Classifies one route against the policy table.
pub fn classify_route(method: Method, path: &String) -> (r: RouteClass)
    ensures
        r == classify_spec(method, path@),
{
    let login = String::from_str("/login");
    let logout = String::from_str("/logout");
    let api_account = String::from_str("/api/account");
    let health_check = String::from_str("/health_check");
    match method {
        Method::Post => {
            if *path == login {
                RouteClass::Public
            } else if *path == api_account {
                RouteClass::Public
            } else {
                RouteClass::Unknown
            }
        },
        Method::Get => {
            if *path == logout {
                RouteClass::Protected
            } else if *path == api_account {
                RouteClass::Protected
            } else if *path == health_check {
                RouteClass::Public
            } else {
                RouteClass::Unknown
            }
        },
    }
}

/// Runs the guard for one inbound request: classifies the route and, for a
/// protected one, resolves the token before anything else may execute.
/// Read-only: the guard itself never changes any state.
pub fn guard_check(
    sessions: &SessionStore,
    method: Method,
    path: &String,
    token: Option<&String>,
) -> (r: GuardDecision)
    requires
        sessions.wf(),
    ensures
        r == guard_spec(sessions.bindings(), method, path@, token_view(token)),
{
    let resolved: Option<u64> = match token {
        Some(t) => crate::session::resolve(sessions, t),
        None => None,
    };
    match classify_route(method, path) {
        RouteClass::Public => GuardDecision::Proceed(resolved),
        RouteClass::Protected => match resolved {
            Some(uid) => GuardDecision::Proceed(Some(uid)),
            None => GuardDecision::Reject,
        },
        RouteClass::Unknown => GuardDecision::MissingRoute,
    }
}

/// The four registered route paths are pairwise distinct.
pub proof fn lemma_route_paths_distinct()
    ensures
        "/login"@ != "/logout"@,
        "/login"@ != "/api/account"@,
        "/login"@ != "/health_check"@,
        "/logout"@ != "/api/account"@,
        "/logout"@ != "/health_check"@,
        "/api/account"@ != "/health_check"@,
{
    broadcast use vstd::string::group_string_axioms;

    reveal_strlit("/login");
    reveal_strlit("/logout");
    reveal_strlit("/api/account");
    reveal_strlit("/health_check");
    assert("/login"@.len() == 6);
    assert("/logout"@.len() == 7);
    assert("/api/account"@.len() == 12);
    assert("/health_check"@.len() == 13);
}

/// Access guard law: an unauthenticated request to the protected account
/// route is always rejected — whatever the session table holds, a token
/// with no binding (or no token at all) yields `Reject`, so no downstream
/// handler, and in particular no provisioning logic, can run.
pub proof fn lemma_guard_unauthenticated(bindings: Map<Seq<char>, u64>, token: Option<Seq<char>>)
    requires
        token matches Some(t) ==> !bindings.contains_key(t),
    ensures
        guard_spec(bindings, Method::Get, "/api/account"@, token) == GuardDecision::Reject,
{
    reveal_strlit("/api/account");
    reveal_strlit("/logout");
}

} // verus!
