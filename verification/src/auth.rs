//! Session-token parsing, context resolution, and the authorization guard.
//!
//! Resolution turns the raw auth cookie into a [`Resolution`]: either a
//! resolved [`Ctx`] or a recorded failure. It runs for every request and
//! never rejects one by itself; the guard enforces a resolved `Ctx` on
//! protected routes only.
//!
//! A session token has the shape `user-<id>.<sign>.<timestamp>`: exactly
//! three dot-separated segments, the first a literal `user-` prefix followed
//! by a decimal user id. The sign and timestamp segments are carried opaque
//! and are not verified here (placeholder scheme, not production-grade).

use vstd::prelude::*;

use crate::ctx::Ctx;
use crate::digits::parse_u64_in;
use crate::digits::spec_parse_u64;
use crate::error::Error;
use crate::http::opt_string_view;

verus! {

/// The fixed name of the auth cookie.
pub open spec fn spec_auth_cookie_name() -> Seq<char> {
    "auth-token"@
}

/// The fixed name of the auth cookie, for the transport layer to look up.
pub fn auth_token_cookie_name() -> (r: &'static str)
    ensures
        r@ == spec_auth_cookie_name(),
{
    "auth-token"
}

/// The index of the first `'.'` in `s` at or after `from`, or `s.len()` if
/// there is none.
pub open spec fn find_dot(s: Seq<char>, from: int) -> int
    decreases s.len() - from,
{
    if from < 0 || from >= s.len() {
        s.len() as int
    } else if s[from] == '.' {
        from
    } else {
        find_dot(s, from + 1)
    }
}

/// The user id carried by a well-formed session token, or nothing if the
/// token is malformed: a token must be exactly three dot-separated segments,
/// the first `user-` followed by a nonempty decimal id that fits in a `u64`.
pub open spec fn spec_token_user_id(s: Seq<char>) -> Option<u64> {
    let d1 = find_dot(s, 0);
    let d2 = find_dot(s, d1 + 1);
    let d3 = find_dot(s, d2 + 1);
    if d1 == s.len() || d2 == s.len() || d3 != s.len() {
        None
    } else if d1 > 5 && s.subrange(0, 5) == "user-"@ {
        spec_parse_u64(s.subrange(5, d1))
    } else {
        None
    }
}

/// Find the first dot at or after `from`.
fn find_dot_from(s: &str, from: usize) -> (r: usize)
    requires
        from <= s@.len(),
    ensures
        r as int == find_dot(s@, from as int),
        from <= r <= s@.len(),
{
    let n = s.unicode_len();
    let mut i = from;
    while i < n
        invariant
            from <= i <= n,
            n == s@.len(),
            find_dot(s@, from as int) == find_dot(s@, i as int),
        decreases n - i,
    {
        if s.get_char(i) == '.' {
            return i;
        }
        i = i + 1;
    }
    n
}

/// Parse a session token, returning the user id exactly when the token is
/// well formed.
pub fn parse_token_user_id(s: &str) -> (r: Option<u64>)
    ensures
        r == spec_token_user_id(s@),
{
    let n = s.unicode_len();
    let d1 = find_dot_from(s, 0);
    if d1 == n {
        return None;
    }
    let d2 = find_dot_from(s, d1 + 1);
    if d2 == n {
        return None;
    }
    let d3 = find_dot_from(s, d2 + 1);
    if d3 != n {
        return None;
    }
    if d1 <= 5 {
        return None;
    }
    proof {
        reveal_strlit("user-");
    }
    if s.get_char(0) != 'u' || s.get_char(1) != 's' || s.get_char(2) != 'e' || s.get_char(3)
        != 'r' || s.get_char(4) != '-' {
        proof {
            assert(s@.subrange(0, 5)[0] == s@[0]);
            assert(s@.subrange(0, 5)[1] == s@[1]);
            assert(s@.subrange(0, 5)[2] == s@[2]);
            assert(s@.subrange(0, 5)[3] == s@[3]);
            assert(s@.subrange(0, 5)[4] == s@[4]);
            assert(s@.subrange(0, 5) != "user-"@);
        }
        return None;
    }
    proof {
        assert(s@.subrange(0, 5) =~= "user-"@);
    }
    parse_u64_in(s, 5, d1)
}

/// The per-request resolution state machine: initially [`Unresolved`], moved
/// by the resolver to [`Resolved`] or [`Failed`], both terminal for the
/// resolution phase and neither fatal to the pipeline.
///
/// [`Unresolved`]: Resolution::Unresolved
/// [`Resolved`]: Resolution::Resolved
/// [`Failed`]: Resolution::Failed
#[derive(Clone, Copy, Debug, PartialEq, Eq, Structural)]
pub enum Resolution {
    Unresolved,
    Resolved(Ctx),
    Failed(Error),
}

/// What resolution yields for a given cookie (by value): a missing cookie is
/// recorded as [`Error::AuthFailNoAuthTokenCookie`], a malformed one as
/// [`Error::AuthFailTokenWrongFormat`], a well-formed one as its user id.
pub open spec fn spec_resolve(cookie: Option<Seq<char>>) -> Result<u64, Error> {
    match cookie {
        None => Err(Error::AuthFailNoAuthTokenCookie),
        Some(s) => match spec_token_user_id(s) {
            Some(u) => Ok(u),
            None => Err(Error::AuthFailTokenWrongFormat),
        },
    }
}

/// `r` is the [`Resolution`] that `spec_resolve` prescribes.
pub open spec fn resolution_matches(r: Resolution, outcome: Result<u64, Error>) -> bool {
    match outcome {
        Ok(u) => r matches Resolution::Resolved(c) && c.spec_user_id() == u,
        Err(e) => r == Resolution::Failed(e),
    }
}

/// Resolve the auth cookie into a [`Resolution`]. Runs for every request and
/// never leaves the state unresolved; failures are recorded, not thrown.
pub fn resolve_ctx(cookie: &Option<String>) -> (r: Resolution)
    ensures
        resolution_matches(r, spec_resolve(opt_string_view(*cookie))),
        !(r is Unresolved),
{
    match cookie {
        None => Resolution::Failed(Error::AuthFailNoAuthTokenCookie),
        Some(s) => match parse_token_user_id(s.as_str()) {
            Some(u) => Resolution::Resolved(Ctx::new(u)),
            None => Resolution::Failed(Error::AuthFailTokenWrongFormat),
        },
    }
}

/// The authorization guard: admit exactly the requests that carry a resolved
/// `Ctx`; otherwise short-circuit with the recorded resolution failure, or
/// with [`Error::AuthFailCtxNotInRequest`] if no resolution was recorded at
/// all (defensive: the assembled pipeline always resolves first).
pub fn require_auth(r: &Resolution) -> (out: Result<Ctx, Error>)
    ensures
        match *r {
            Resolution::Resolved(c) => out == Ok::<Ctx, Error>(c),
            Resolution::Failed(e) => out == Err::<Ctx, Error>(e),
            Resolution::Unresolved => out == Err::<Ctx, Error>(Error::AuthFailCtxNotInRequest),
        },
{
    match r {
        Resolution::Resolved(c) => Ok(*c),
        Resolution::Failed(e) => Err(*e),
        Resolution::Unresolved => Err(Error::AuthFailCtxNotInRequest),
    }
}

/// Resolution failures are only ever the two cookie kinds: a request that
/// went through resolution can never be short-circuited with
/// [`Error::AuthFailCtxNotInRequest`], and a missing cookie is always
/// recorded as [`Error::AuthFailNoAuthTokenCookie`].
pub proof fn lemma_resolution_error_kinds(cookie: Option<Seq<char>>)
    ensures
        cookie is None ==> spec_resolve(cookie) == Err::<u64, Error>(
            Error::AuthFailNoAuthTokenCookie,
        ),
        (cookie is Some && spec_token_user_id(cookie->Some_0) is None) ==> spec_resolve(cookie)
            == Err::<u64, Error>(Error::AuthFailTokenWrongFormat),
        (cookie is Some && spec_token_user_id(cookie->Some_0) is Some) ==> spec_resolve(cookie)
            == Ok::<u64, Error>(spec_token_user_id(cookie->Some_0)->Some_0),
        spec_resolve(cookie) != Err::<u64, Error>(Error::AuthFailCtxNotInRequest),
{
}

} // verus!
