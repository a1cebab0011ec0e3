//! Route classification. The ticket routes are protected (they sit behind
//! the authorization guard); the login route and everything else (the greeting
//! and static-file fallback, out of the pipeline's scope) are public.
//!
//! A `DELETE` under the ticket prefix whose trailing segment is not a decimal
//! id that fits in a `u64` is classified as fallback rather than as a ticket
//! route.

use vstd::prelude::*;

use crate::digits::parse_u64_in;
use crate::digits::spec_parse_u64;
use crate::http::Method;
use crate::text::str_eq;
use crate::text::str_starts_with;

verus! {

/// Where a request dispatches.
#[derive(Clone, Copy, Debug, PartialEq, Eq, Structural)]
pub enum Route {
    CreateTicket,
    ListTickets,
    DeleteTicket { id: u64 },
    Login,
    Fallback,
}

/// The ticket routes require a resolved `Ctx`; the rest do not.
pub open spec fn spec_is_protected(r: Route) -> bool {
    ||| r is CreateTicket
    ||| r is ListTickets
    ||| r is DeleteTicket
}

/// Route classification as a function of method and path.
pub open spec fn spec_route(m: Method, path: Seq<char>) -> Route {
    if m == Method::Post && path == "/api/tickets"@ {
        Route::CreateTicket
    } else if m == Method::Get && path == "/api/tickets"@ {
        Route::ListTickets
    } else if m == Method::Delete && path.len() >= 13 && path.subrange(0, 13)
        == "/api/tickets/"@ && spec_parse_u64(path.subrange(13, path.len() as int)) is Some {
        Route::DeleteTicket { id: spec_parse_u64(path.subrange(13, path.len() as int))->Some_0 }
    } else if m == Method::Post && path == "/api/login"@ {
        Route::Login
    } else {
        Route::Fallback
    }
}

/// Classify a request's method and path.
pub fn route_of(method: Method, path: &str) -> (r: Route)
    ensures
        r == spec_route(method, path@),
{
    match method {
        Method::Post => {
            if str_eq(path, "/api/tickets") {
                Route::CreateTicket
            } else if str_eq(path, "/api/login") {
                Route::Login
            } else {
                Route::Fallback
            }
        },
        Method::Get => {
            if str_eq(path, "/api/tickets") {
                Route::ListTickets
            } else {
                Route::Fallback
            }
        },
        Method::Delete => {
            if str_starts_with(path, "/api/tickets/") {
                proof {
                    reveal_strlit("/api/tickets/");
                }
                let n = path.unicode_len();
                match parse_u64_in(path, 13, n) {
                    Some(id) => Route::DeleteTicket { id },
                    None => Route::Fallback,
                }
            } else {
                proof {
                    reveal_strlit("/api/tickets/");
                }
                Route::Fallback
            }
        },
        Method::Other => Route::Fallback,
    }
}

} // verus!
