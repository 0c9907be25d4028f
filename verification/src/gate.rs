//! Every request passes through here before it reaches a handler. The root
//! path and paths with a public segment go through unseen. Any other request must carry the cookie of a
//! session that the store knows, or it is sent to the login surface.

use crate::cookie::{opened, read_session, KeyMaterial, SESSION_COOKIE};
use crate::query::{session_lookup, session_lookup_view, Statement};
use crate::response::{Redirect, RedirectView};
use crate::store::{expect_single_row, single_row, QueryError, Reply};
use crate::text::{chars_of, matches_at, occurs_at, same_text};
use vstd::prelude::*;

verus! {

/// The path that is open to everyone, and where a denied request is sent.
pub const LOGIN_SURFACE: &'static str = "/";

/// The segment that marks a path as public, wherever it stands among the
/// segments of the path.
pub const PUBLIC_MARK: &'static str = "public";

/// Where a request stands on its way to a handler.
#[derive(Clone, Copy, Debug, PartialEq, Eq, Structural)]
pub enum GateState {
    /// The path is exempt: no session is looked for.
    Public,
    /// The request carries a token that the store has yet to confirm.
    Check,
    /// The store knows the session.
    Allowed,
    /// The request carries no session that the store knows.
    Denied,
}

/// What is done with a request once its state is final.
#[derive(Debug, PartialEq, Eq)]
pub enum Decision {
    /// The request goes on to its handler, unchanged.
    Forward,
    /// The client is sent elsewhere.
    Redirect(Redirect),
}

/// What is done on seeing a request.
#[derive(Debug, PartialEq, Eq)]
pub enum GateStep {
    /// The request needs no look at the store.
    Decided(Decision),
    /// The store must be asked for the session before anything is decided.
    Ask(Statement),
}

/// `word` is a whole segment of `path` that starts at `at`: it stands
/// there, and a `/` or an end of the path is on either side of it.
pub open spec fn segment_at(path: Seq<char>, word: Seq<char>, at: int) -> bool {
    &&& occurs_at(path, word, at)
    &&& (at == 0 || path[at - 1] == '/')
    &&& (at + word.len() == path.len() || path[at + word.len()] == '/')
}

/// `word` is one of the segments of `path`.
pub open spec fn has_segment(path: Seq<char>, word: Seq<char>) -> bool {
    exists|at: int| segment_at(path, word, at)
}

/// The paths that are open to everyone: the login surface, and every path
/// of which one segment is the public mark. A path that merely holds the
/// mark inside a longer segment is not among them.
pub open spec fn public_path(path: Seq<char>) -> bool {
    path == LOGIN_SURFACE@ || has_segment(path, PUBLIC_MARK@)
}

/// The state of a request for `path` that carries `token`, before the store
/// is asked.
pub open spec fn state_on_entry(path: Seq<char>, token: Option<Seq<char>>) -> GateState {
    if public_path(path) {
        GateState::Public
    } else if token is None {
        GateState::Denied
    } else {
        GateState::Check
    }
}

/// The state of a checked request once the store has replied: allowed when
/// the reply holds exactly one session, denied on anything else.
pub open spec fn state_after_check(reply: Reply) -> GateState {
    if single_row(reply) is Ok {
        GateState::Allowed
    } else {
        GateState::Denied
    }
}

/// The state in which a request for `path` with `token` ends, where `reply`
/// is what the store says to the lookup of the token.
pub open spec fn final_state(path: Seq<char>, token: Option<Seq<char>>, reply: Reply) -> GateState {
    match state_on_entry(path, token) {
        GateState::Check => state_after_check(reply),
        state => state,
    }
}

/// The redirect of a denied request: temporary, so that the client comes
/// back to the same address after logging in.
pub open spec fn denial() -> RedirectView {
    RedirectView { location: LOGIN_SURFACE@, permanent: false }
}

/// A decision is the one that belongs to the final state `state`.
pub open spec fn decides(decision: Decision, state: GateState) -> bool {
    match state {
        GateState::Public | GateState::Allowed => decision is Forward,
        GateState::Denied => decision matches Decision::Redirect(to) && to@ == denial(),
        GateState::Check => false,
    }
}

/// A step is the one that belongs to a request for `path` with `token`.
pub open spec fn steps(step: GateStep, path: Seq<char>, token: Option<Seq<char>>) -> bool {
    match state_on_entry(path, token) {
        GateState::Check => step matches GateStep::Ask(lookup) && lookup@ == session_lookup_view(
            token->0,
        ),
        state => step matches GateStep::Decided(decision) && decides(decision, state),
    }
}

/// Decides whether `word` is a whole segment of `path` that starts at `at`.
fn is_segment_at(path: &Vec<char>, word: &Vec<char>, at: usize) -> (r: bool)
    ensures
        r == segment_at(path@, word@, at as int),
{
    if !matches_at(path, word, at) {
        return false;
    }
    let len: usize = path.len();
    assert(at + word@.len() <= len);
    let end: usize = at + word.len();
    (at == 0 || path[at - 1] == '/') && (end == len || path[end] == '/')
}

/// Decides whether `word` is one of the segments of `path`.
pub fn holds_segment(path: &str, word: &str) -> (r: bool)
    ensures
        r == has_segment(path@, word@),
{
    let p = chars_of(path);
    let w = chars_of(word);
    if w.len() > p.len() {
        return false;
    }
    let last: usize = p.len() - w.len();
    let mut at: usize = 0;
    while at < last
        invariant
            at <= last,
            last == p.len() - w.len(),
            w.len() <= p.len(),
            p@ == path@,
            w@ == word@,
            forall|j: int| 0 <= j < at ==> !segment_at(p@, w@, j),
        decreases last - at,
    {
        if is_segment_at(&p, &w, at) {
            return true;
        }
        at += 1;
    }
    is_segment_at(&p, &w, last)
}

/// Decides whether `path` is open to everyone.
pub fn is_public(path: &str) -> (r: bool)
    ensures
        r == public_path(path@),
{
    same_text(path, LOGIN_SURFACE) || holds_segment(path, PUBLIC_MARK)
}

/// Sends the client to the login surface.
fn deny() -> (decision: Decision)
    ensures
        decides(decision, GateState::Denied),
{
    Decision::Redirect(Redirect::temporary(LOGIN_SURFACE))
}

/// The step for a request for `path` whose cookie opened to `token`.
pub fn route(path: &str, token: Option<String>) -> (step: GateStep)
    ensures
        steps(
            step,
            path@,
            match token {
                Some(t) => Some(t@),
                None => None,
            },
        ),
{
    if is_public(path) {
        return GateStep::Decided(Decision::Forward);
    }
    match token {
        None => GateStep::Decided(deny()),
        Some(t) => GateStep::Ask(session_lookup(t.as_str())),
    }
}

/// The step for a request for `path` that came with the `Cookie` header
/// `cookies` (empty where the request had none). The cookie is opened only
/// where the path is not exempt.
pub fn enter(path: &str, cookies: &str, key: &KeyMaterial) -> (step: GateStep)
    ensures
        steps(step, path@, opened(key@, cookies@, SESSION_COOKIE@)),
{
    if is_public(path) {
        return GateStep::Decided(Decision::Forward);
    }
    route(path, read_session(key, cookies))
}

/// Why the store's reply to the lookup of a session does not allow the
/// request, if it does not.
pub open spec fn cause_of_denial(reply: Reply) -> Option<QueryError> {
    match single_row(reply) {
        Ok(_) => None,
        Err(cause) => Some(cause),
    }
}

/// The decision on a checked request, from the store's reply to the lookup
/// of its session. The client is never told why it is turned away; the
/// cause comes back beside the decision, for the log.
pub fn conclude(reply: Reply) -> (out: (Decision, Option<QueryError>))
    ensures
        decides(out.0, state_after_check(reply)),
        out.1 == cause_of_denial(reply),
{
    match expect_single_row(reply) {
        Ok(_) => (Decision::Forward, None),
        Err(cause) => (deny(), Some(cause)),
    }
}

} // verus!
