//! The guard in front of the routes that need a session.

use crate::models::api::ApiError;
use crate::models::session::{is_expired, lookup, SessionManager, SessionView, SESSION_COOKIE};
use crate::trusted::clock::{is_clock_reading, now_millis};
use crate::trusted::cookie::{cookie_from_header, cookie_in_header};
use vstd::prelude::*;

verus! {

/// The value of the cookie called `name` in a request's `Cookie` headers,
/// taken in the order they were sent: the last header that holds the cookie
/// decides.
pub open spec fn cookie_in_headers(headers: Seq<Seq<char>>, name: Seq<char>) -> Option<Seq<char>>
    decreases headers.len(),
{
    if headers.len() == 0 {
        None
    } else {
        match cookie_in_header(headers.last(), name) {
            Some(value) => Some(value),
            None => cookie_in_headers(headers.drop_last(), name),
        }
    }
}

/// The text of a token, if there is one.
pub open spec fn text_of(token: Option<String>) -> Option<Seq<char>> {
    match token {
        Some(text) => Some(text@),
        None => None,
    }
}

/// The session token of a request: the value of its session cookie.
pub open spec fn token_in(cookie_headers: Seq<Seq<char>>) -> Option<Seq<char>> {
    cookie_in_headers(cookie_headers, SESSION_COOKIE@)
}

/// The answer of the guard to a request with the token `token`, against the
/// sessions `sessions` at `now`: the user of the session that the token
/// names, where that session is held and not expired.
pub open spec fn admitted_user(
    sessions: Map<Seq<char>, SessionView>,
    token: Option<Seq<char>>,
    now: int,
) -> Option<Seq<char>> {
    match token {
        Some(id) => match lookup(sessions, id, now) {
            Some(session) => Some(session.user_id),
            None => None,
        },
        None => None,
    }
}

/// Reads the session token from the texts of a request's `Cookie` headers.
pub fn session_token(cookie_headers: &Vec<String>) -> (token: Option<String>)
    ensures
        match token {
            Some(value) => token_in(cookie_headers.deep_view()) == Some(value@),
            None => token_in(cookie_headers.deep_view()).is_none(),
        },
{
    let ghost headers = cookie_headers.deep_view();
    let mut rest: usize = cookie_headers.len();
    proof {
        assert(headers.take(rest as int) =~= headers);
    }
    while rest > 0
        invariant
            rest <= cookie_headers.len(),
            headers == cookie_headers.deep_view(),
            token_in(headers) == token_in(headers.take(rest as int)),
        decreases rest,
    {
        let found = cookie_from_header(cookie_headers[rest - 1].as_str(), SESSION_COOKIE);
        proof {
            let seen = headers.take(rest as int);
            assert(seen.drop_last() =~= headers.take(rest - 1));
        }
        if found.is_some() {
            return found;
        }
        rest = rest - 1;
    }
    None
}

/// Whether `outcome` is the answer of the guard to a request with the token
/// `token`, against the sessions `sessions` at `now`: the admitted user, or
/// else the one refusal there is.
pub open spec fn is_guard_answer(
    outcome: Result<String, ApiError>,
    sessions: Map<Seq<char>, SessionView>,
    token: Option<Seq<char>>,
    now: int,
) -> bool {
    match outcome {
        Ok(user_id) => admitted_user(sessions, token, now) == Some(user_id@),
        Err(refusal) => refusal == ApiError::Unauthorized
            && admitted_user(sessions, token, now).is_none(),
    }
}

/// How the guard leaves the store: untouched by a request without a token,
/// and as a lookup of the token at `now` leaves it otherwise.
pub open spec fn is_left_by_guard(
    after: &SessionManager,
    before: &SessionManager,
    token: Option<Seq<char>>,
    now: int,
) -> bool {
    match token {
        Some(id) => after.holds_looked_up(before, id, now),
        None => *after == *before,
    }
}

/// Decides on a request at the instant `now`. A request without a token is
/// turned away before the store is touched. A request with a token is let
/// through as the user of the session that the token names, if the store
/// holds that session and it is not expired; the lookup evicts an expired
/// one. Every refusal is the same `Unauthorized`.
pub fn authorize_at(
    sessions: &mut SessionManager,
    token: Option<String>,
    now: i64,
) -> (outcome: Result<String, ApiError>)
    ensures
        is_guard_answer(outcome, old(sessions)@, text_of(token), now as int),
        is_left_by_guard(final(sessions), old(sessions), text_of(token), now as int),
{
    match token {
        Some(id) => match sessions.get_session_at(&id, now) {
            Some(session) => Ok(session.user_id),
            None => Err(ApiError::Unauthorized),
        },
        None => Err(ApiError::Unauthorized),
    }
}

/// The guard: reads the token from the request's `Cookie` headers and the
/// clock, and decides as `authorize_at` does for them.
pub fn session_middleware(
    sessions: &mut SessionManager,
    cookie_headers: &Vec<String>,
) -> (outcome: Result<String, ApiError>)
    ensures
        exists|now: int|
            {
                &&& is_clock_reading(now)
                &&& #[trigger] is_guard_answer(
                    outcome,
                    old(sessions)@,
                    token_in(cookie_headers.deep_view()),
                    now,
                )
                &&& is_left_by_guard(
                    final(sessions),
                    old(sessions),
                    token_in(cookie_headers.deep_view()),
                    now,
                )
            },
{
    let token = session_token(cookie_headers);
    let now = now_millis();
    authorize_at(sessions, token, now)
}

/// The guard turns away a request without a token, a request whose token
/// names no session that is held, and a request whose token names an expired
/// session; it lets through a request whose token names a session that is
/// held and not expired, as the user of that session.
pub proof fn lemma_guard_lets_in_live_sessions_only(
    sessions: Map<Seq<char>, SessionView>,
    id: Seq<char>,
    now: int,
)
    ensures
        admitted_user(sessions, None, now).is_none(),
        !sessions.contains_key(id) ==> admitted_user(sessions, Some(id), now).is_none(),
        sessions.contains_key(id) && is_expired(sessions[id], now)
            ==> admitted_user(sessions, Some(id), now).is_none(),
        sessions.contains_key(id) && !is_expired(sessions[id], now)
            ==> admitted_user(sessions, Some(id), now) == Some(sessions[id].user_id),
{
}

/// After a session was deleted, the guard turns its token away.
pub proof fn lemma_guard_turns_deleted_session_away(
    before: SessionManager,
    after: SessionManager,
    id: Seq<char>,
    now: int,
)
    requires
        after.holds_deleted(&before, id),
    ensures
        admitted_user(after@, Some(id), now).is_none(),
{
}

} // verus!
