//! The assembled request pipeline: resolution, routing, the authorization
//! guard, the resource handlers, and the terminal response mapper.
//!
//! [`process_with_uuid`] is the whole pipeline as one deterministic function
//! of the store state, the request and a correlation id; its contract,
//! [`spec_pipeline_ok`], pins down the store transition, the response and
//! the log record exactly. [`process`] draws a fresh random correlation id
//! and runs the same pipeline.

use vstd::prelude::*;

use crate::auth::require_auth;
use crate::auth::resolve_ctx;
use crate::auth::spec_resolve;
use crate::auth::Resolution;
use crate::error::ClientError;
use crate::error::Error;
use crate::ext::fresh_req_uuid;
use crate::http::opt_string_view;
use crate::http::LogRecord;
use crate::http::Outcome;
use crate::http::Request;
use crate::http::RequestBody;
use crate::http::Response;
use crate::json::error_envelope;
use crate::json::login_success_json;
use crate::json::spec_error_envelope;
use crate::json::spec_login_success_json;
use crate::json::spec_ticket_json;
use crate::json::spec_tickets_json;
use crate::json::ticket_json;
use crate::json::tickets_json;
use crate::routes::route_of;
use crate::routes::spec_is_protected;
use crate::routes::spec_route;
use crate::routes::Route;
use crate::store::has_ticket;
use crate::store::ticket_index;
use crate::store::ModelController;
use crate::store::TicketView;
use crate::text::str_eq;

verus! {

/// The demo credentials the login route accepts.
pub open spec fn spec_login_good(body: RequestBody) -> bool {
    body matches RequestBody::Login { username, password } && username@ == "demo1"@
        && password@ == "welcome"@
}

/// The session token the login route issues on success (placeholder scheme:
/// the sign and timestamp segments are opaque stand-ins).
pub open spec fn spec_demo_token() -> Seq<char> {
    "user-1.exp.sign"@
}

/// The title a create request carries.
pub open spec fn spec_create_title(body: RequestBody) -> Seq<char> {
    match body {
        RequestBody::CreateTicket { title } => title@,
        _ => Seq::empty(),
    }
}

/// The error the pipeline attaches to the response, if any: the recorded
/// resolution failure on a guarded route, a failed delete's error, a failed
/// login's error — and nothing on success or on the fallback.
pub open spec fn spec_attached_error(
    pre: ModelController,
    route: Route,
    res: Result<u64, Error>,
    body: RequestBody,
) -> Option<Error> {
    if spec_is_protected(route) {
        match res {
            Err(e) => Some(e),
            Ok(_) => match route {
                Route::DeleteTicket { id } => if has_ticket(pre@, id) {
                    None
                } else {
                    Some(Error::TicketDeleteFailIdNotFound { id })
                },
                _ => None,
            },
        }
    } else if route is Login {
        if spec_login_good(body) {
            None
        } else {
            Some(Error::LoginFailed)
        }
    } else {
        None
    }
}

/// The successful response body of each route, as a function of the store
/// state the handler saw.
pub open spec fn spec_success_body(
    pre: ModelController,
    route: Route,
    body: RequestBody,
) -> Seq<char> {
    match route {
        Route::CreateTicket => spec_ticket_json(
            TicketView { id: pre.spec_next_id(), title: spec_create_title(body) },
        ),
        Route::ListTickets => spec_tickets_json(pre@),
        Route::DeleteTicket { id } => spec_ticket_json(pre@[ticket_index(pre@, id)]),
        Route::Login => spec_login_success_json(),
        Route::Fallback => Seq::empty(),
    }
}

/// The cookie the response carries out: the fresh session token on a
/// successful login, else the request's own token re-set (sliding
/// expiration, the value unchanged) when resolution succeeded, else nothing.
pub open spec fn spec_cookie_out(
    route: Route,
    body: RequestBody,
    res: Result<u64, Error>,
    cookie: Option<Seq<char>>,
) -> Option<Seq<char>> {
    if route is Login && spec_login_good(body) {
        Some(spec_demo_token())
    } else if res is Ok && cookie is Some {
        Some(cookie->Some_0)
    } else {
        None
    }
}

/// The store is untouched: same tickets, same counter, same issue record.
pub open spec fn spec_store_unchanged(pre: ModelController, post: ModelController) -> bool {
    &&& post@ == pre@
    &&& post.spec_next_id() == pre.spec_next_id()
    &&& post.issued_ids() == pre.issued_ids()
}

/// The store transition each request effects: a guarded, successful create
/// appends under the next id; a guarded, successful delete removes exactly the
/// named ticket; everything else leaves the store untouched.
pub open spec fn spec_store_after(
    pre: ModelController,
    post: ModelController,
    route: Route,
    res: Result<u64, Error>,
    body: RequestBody,
) -> bool {
    match route {
        Route::CreateTicket => if res is Ok {
            &&& post@ == pre@.push(
                TicketView { id: pre.spec_next_id(), title: spec_create_title(body) },
            )
            &&& post.spec_next_id() == pre.spec_next_id() + 1
            &&& post.issued_ids() == pre.issued_ids().push(pre.spec_next_id())
        } else {
            spec_store_unchanged(pre, post)
        },
        Route::DeleteTicket { id } => if res is Ok && has_ticket(pre@, id) {
            &&& post@ == pre@.remove(ticket_index(pre@, id))
            &&& post.spec_next_id() == pre.spec_next_id()
            &&& post.issued_ids() == pre.issued_ids()
        } else {
            spec_store_unchanged(pre, post)
        },
        _ => spec_store_unchanged(pre, post),
    }
}

/// The pipeline's whole contract: how `post`, the response and the log
/// record relate to `pre`, the request and the correlation id.
pub open spec fn spec_pipeline_ok(
    pre: ModelController,
    post: ModelController,
    req: Request,
    uuid: Seq<char>,
    o: Outcome,
) -> bool {
    let res = spec_resolve(opt_string_view(req.cookie));
    let route = spec_route(req.method, req.path@);
    let err = spec_attached_error(pre, route, res, req.body);
    &&& post.wf()
    &&& spec_store_after(pre, post, route, res, req.body)
    &&& o.response.status == (match err {
        Some(e) => e.spec_status(),
        None => 200u16,
    })
    &&& o.response.body@ == (match err {
        Some(e) => spec_error_envelope(e.spec_client_error().spec_code(), uuid),
        None => spec_success_body(pre, route, req.body),
    })
    &&& opt_string_view(o.response.set_cookie) == spec_cookie_out(
        route,
        req.body,
        res,
        opt_string_view(req.cookie),
    )
    &&& o.log.req_uuid@ == uuid
    &&& o.log.method == req.method
    &&& o.log.path@ == req.path@
    &&& o.log.user_id == (match res {
        Ok(u) => Some(u),
        Err(_) => None::<u64>,
    })
    &&& o.log.error == err
    &&& opt_string_view(o.log.client_error_code) == (match err {
        Some(e) => Some(e.spec_client_error().spec_code()),
        None => None::<Seq<char>>,
    })
}

/// Run the pipeline for one request under a given correlation id.
///
/// The two preconditions are the transport's side of the interface: a
/// request that routes to ticket creation carries a create payload (and the
/// id counter, a machine word, is not exhausted).
pub fn process_with_uuid(store: &mut ModelController, req: &Request, req_uuid: String) -> (o:
    Outcome)
    requires
        old(store).wf(),
        spec_route(req.method, req.path@) is CreateTicket ==> old(store).spec_next_id()
            < u64::MAX && req.body is CreateTicket,
    ensures
        final(store).wf(),
        spec_pipeline_ok(*old(store), *final(store), *req, req_uuid@, o),
{
    let resolution = resolve_ctx(&req.cookie);
    let route = route_of(req.method, req.path.as_str());
    let mut error: Option<Error> = None;
    let mut success_body: String = String::new();
    let mut set_cookie: Option<String> = None;
    match route {
        Route::CreateTicket => {
            match require_auth(&resolution) {
                Err(e) => {
                    error = Some(e);
                },
                Ok(_ctx) => {
                    match &req.body {
                        RequestBody::CreateTicket { title } => {
                            let t = store.create_ticket(title.clone());
                            success_body = ticket_json(&t);
                        },
                        _ => {
                            proof {
                                assert(false);
                            }
                        },
                    }
                },
            }
        },
        Route::ListTickets => {
            match require_auth(&resolution) {
                Err(e) => {
                    error = Some(e);
                },
                Ok(_ctx) => {
                    let v = store.list_tickets();
                    success_body = tickets_json(&v);
                },
            }
        },
        Route::DeleteTicket { id } => {
            match require_auth(&resolution) {
                Err(e) => {
                    error = Some(e);
                },
                Ok(_ctx) => {
                    match store.delete_ticket(id) {
                        Ok(t) => {
                            success_body = ticket_json(&t);
                        },
                        Err(e) => {
                            error = Some(e);
                        },
                    }
                },
            }
        },
        Route::Login => {
            match &req.body {
                RequestBody::Login { username, password } => {
                    let u_ok = str_eq(username.as_str(), "demo1");
                    let p_ok = str_eq(password.as_str(), "welcome");
                    if u_ok && p_ok {
                        success_body = login_success_json();
                        set_cookie = Some(String::from_str("user-1.exp.sign"));
                    } else {
                        error = Some(Error::LoginFailed);
                    }
                },
                _ => {
                    error = Some(Error::LoginFailed);
                },
            }
        },
        Route::Fallback => {},
    }
    if set_cookie.is_none() {
        match (&resolution, &req.cookie) {
            (Resolution::Resolved(_), Some(c)) => {
                set_cookie = Some(c.clone());
            },
            _ => {},
        }
    }
    let user_id: Option<u64> = match &resolution {
        Resolution::Resolved(c) => Some(c.user_id()),
        _ => None,
    };
    let (status, out_body, client_code): (u16, String, Option<String>) = match &error {
        Some(e) => {
            let (st, ce) = e.client_status_and_error();
            let code = ce.code();
            let env = error_envelope(code, req_uuid.as_str());
            (st, env, Some(String::from_str(code)))
        },
        None => (200, success_body, None),
    };
    let log = LogRecord {
        req_uuid,
        method: req.method,
        path: req.path.clone(),
        user_id,
        error,
        client_error_code: client_code,
    };
    Outcome { response: Response { status, body: out_body, set_cookie }, log }
}

/// Run the pipeline for one request, drawing a fresh random correlation id.
/// Whatever id was drawn, the outcome is the pipeline's for that id, and the
/// log record carries it.
pub fn process(store: &mut ModelController, req: &Request) -> (o: Outcome)
    requires
        old(store).wf(),
        spec_route(req.method, req.path@) is CreateTicket ==> old(store).spec_next_id()
            < u64::MAX && req.body is CreateTicket,
    ensures
        final(store).wf(),
        o.log.req_uuid@.len() == 36,
        exists|u: Seq<char>|
            u.len() == 36 && #[trigger] spec_pipeline_ok(
                *old(store),
                *final(store),
                *req,
                u,
                o,
            ),
{
    let req_uuid = fresh_req_uuid();
    let ghost u = req_uuid@;
    let o = process_with_uuid(store, req, req_uuid);
    proof {
        assert(spec_pipeline_ok(*old(store), *final(store), *req, u, o));
    }
    o
}

/// A request with no auth cookie to a protected route is short-circuited by
/// the guard: the store is untouched (the handler never ran), the error is
/// the missing-cookie kind, and the client sees the 401 envelope with the
/// no-auth code.
pub proof fn lemma_protected_without_cookie(
    pre: ModelController,
    post: ModelController,
    req: Request,
    uuid: Seq<char>,
    o: Outcome,
)
    requires
        spec_pipeline_ok(pre, post, req, uuid, o),
        req.cookie is None,
        spec_is_protected(spec_route(req.method, req.path@)),
    ensures
        spec_store_unchanged(pre, post),
        o.log.error == Some(Error::AuthFailNoAuthTokenCookie),
        o.response.status == 401,
        o.response.body@ == spec_error_envelope(ClientError::NoAuth.spec_code(), uuid),
        o.response.set_cookie is None,
{
}

/// A request with a malformed cookie to a protected route is recorded as the
/// wrong-format failure — never as the guard's defensive missing-resolution
/// kind — and the store is untouched.
pub proof fn lemma_protected_with_malformed_cookie(
    pre: ModelController,
    post: ModelController,
    req: Request,
    uuid: Seq<char>,
    o: Outcome,
)
    requires
        spec_pipeline_ok(pre, post, req, uuid, o),
        req.cookie is Some,
        crate::auth::spec_token_user_id(req.cookie->Some_0@) is None,
        spec_is_protected(spec_route(req.method, req.path@)),
    ensures
        spec_store_unchanged(pre, post),
        o.log.error == Some(Error::AuthFailTokenWrongFormat),
        o.log.error != Some(Error::AuthFailCtxNotInRequest),
        o.response.status == 401,
        o.response.body@ == spec_error_envelope(ClientError::NoAuth.spec_code(), uuid),
{
}

/// A request with a well-formed cookie to a public route still gets a
/// resolved `Ctx` attached (observable in the log record), even though the
/// route does not require one; on the fallback it passes through untouched
/// with a success status.
pub proof fn lemma_public_route_attaches_ctx(
    pre: ModelController,
    post: ModelController,
    req: Request,
    uuid: Seq<char>,
    o: Outcome,
)
    requires
        spec_pipeline_ok(pre, post, req, uuid, o),
        req.cookie is Some,
        crate::auth::spec_token_user_id(req.cookie->Some_0@) is Some,
        !spec_is_protected(spec_route(req.method, req.path@)),
    ensures
        o.log.user_id == Some(crate::auth::spec_token_user_id(req.cookie->Some_0@)->Some_0),
        spec_route(req.method, req.path@) is Fallback ==> {
            &&& o.response.status == 200
            &&& o.log.error is None
            &&& spec_store_unchanged(pre, post)
        },
{
}

} // verus!
