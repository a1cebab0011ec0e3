use ticket_pipeline::error::Error;
use ticket_pipeline::http::Method;
use ticket_pipeline::http::Outcome;
use ticket_pipeline::http::Request;
use ticket_pipeline::http::RequestBody;
use ticket_pipeline::pipeline::process;
use ticket_pipeline::pipeline::process_with_uuid;
use ticket_pipeline::routes::route_of;
use ticket_pipeline::routes::Route;
use ticket_pipeline::store::ModelController;

fn good_cookie() -> Option<String> {
    Some(String::from("user-1.exp.sign"))
}

fn create_req(title: &str, cookie: Option<String>) -> Request {
    Request {
        method: Method::Post,
        path: String::from("/api/tickets"),
        cookie,
        body: RequestBody::CreateTicket { title: String::from(title) },
    }
}

fn list_req(cookie: Option<String>) -> Request {
    Request {
        method: Method::Get,
        path: String::from("/api/tickets"),
        cookie,
        body: RequestBody::Empty,
    }
}

fn delete_req(id: u64, cookie: Option<String>) -> Request {
    Request {
        method: Method::Delete,
        path: format!("/api/tickets/{id}"),
        cookie,
        body: RequestBody::Empty,
    }
}

fn run(mc: &mut ModelController, req: &Request, uuid: &str) -> Outcome {
    process_with_uuid(mc, req, String::from(uuid))
}

#[test]
fn routing_classifies_methods_and_paths() {
    assert_eq!(route_of(Method::Post, "/api/tickets"), Route::CreateTicket);
    assert_eq!(route_of(Method::Get, "/api/tickets"), Route::ListTickets);
    assert_eq!(
        route_of(Method::Delete, "/api/tickets/1000"),
        Route::DeleteTicket { id: 1000 }
    );
    assert_eq!(route_of(Method::Post, "/api/login"), Route::Login);
    assert_eq!(route_of(Method::Get, "/hello"), Route::Fallback);
    assert_eq!(route_of(Method::Other, "/api/tickets"), Route::Fallback);
    assert_eq!(route_of(Method::Delete, "/api/tickets/abc"), Route::Fallback);
    assert_eq!(route_of(Method::Delete, "/api/tickets/"), Route::Fallback);
}

#[test]
fn crud_scenario_over_the_wire_shapes() {
    let mut mc = ModelController::new();

    let o = run(&mut mc, &create_req("t1", good_cookie()), "u-1");
    assert_eq!(o.response.status, 200);
    assert_eq!(o.response.body, "{\"id\":1000,\"title\":\"t1\"}");
    assert_eq!(o.log.error, None);

    let o = run(&mut mc, &create_req("t2", good_cookie()), "u-2");
    assert_eq!(o.response.status, 200);
    assert_eq!(o.response.body, "{\"id\":1001,\"title\":\"t2\"}");

    let o = run(&mut mc, &list_req(good_cookie()), "u-3");
    assert_eq!(o.response.status, 200);
    assert_eq!(
        o.response.body,
        "[{\"id\":1000,\"title\":\"t1\"},{\"id\":1001,\"title\":\"t2\"}]"
    );

    let o = run(&mut mc, &delete_req(1000, good_cookie()), "u-4");
    assert_eq!(o.response.status, 200);
    assert_eq!(o.response.body, "{\"id\":1000,\"title\":\"t1\"}");

    let o = run(&mut mc, &delete_req(1000, good_cookie()), "u-5");
    assert_eq!(o.response.status, 400);
    assert_eq!(
        o.response.body,
        "{\"error\":{\"type\":\"INVALID_PARAMS\",\"req_uuid\":\"u-5\"}}"
    );
    assert_eq!(o.log.error, Some(Error::TicketDeleteFailIdNotFound { id: 1000 }));
    assert_eq!(o.log.client_error_code.as_deref(), Some("INVALID_PARAMS"));

    let o = run(&mut mc, &list_req(good_cookie()), "u-6");
    assert_eq!(o.response.body, "[{\"id\":1001,\"title\":\"t2\"}]");
}

#[test]
fn protected_route_without_cookie_never_reaches_the_handler() {
    let mut mc = ModelController::new();
    let o = run(&mut mc, &create_req("sneaky", None), "u-7");
    assert_eq!(o.response.status, 401);
    assert_eq!(
        o.response.body,
        "{\"error\":{\"type\":\"NO_AUTH\",\"req_uuid\":\"u-7\"}}"
    );
    assert_eq!(o.log.error, Some(Error::AuthFailNoAuthTokenCookie));
    assert_eq!(o.log.user_id, None);
    assert_eq!(o.response.set_cookie, None);
    // zero handler side effects
    assert_eq!(mc.list_tickets().len(), 0);
}

#[test]
fn protected_route_with_malformed_cookie_is_wrong_format() {
    let mut mc = ModelController::new();
    for bad in ["user-1.two-segments", "user-xyz.e.s", "nonsense"] {
        let o = run(&mut mc, &list_req(Some(String::from(bad))), "u-8");
        assert_eq!(o.response.status, 401);
        assert_eq!(o.log.error, Some(Error::AuthFailTokenWrongFormat));
        assert_ne!(o.log.error, Some(Error::AuthFailCtxNotInRequest));
    }
    assert_eq!(mc.list_tickets().len(), 0);
}

#[test]
fn public_route_with_good_cookie_attaches_ctx_and_refreshes_cookie() {
    let mut mc = ModelController::new();
    let req = Request {
        method: Method::Get,
        path: String::from("/hello"),
        cookie: Some(String::from("user-42.exp.sign")),
        body: RequestBody::Empty,
    };
    let o = run(&mut mc, &req, "u-9");
    assert_eq!(o.response.status, 200);
    assert_eq!(o.log.user_id, Some(42));
    assert_eq!(o.log.error, None);
    assert_eq!(o.response.set_cookie.as_deref(), Some("user-42.exp.sign"));
}

#[test]
fn public_route_without_cookie_still_succeeds() {
    let mut mc = ModelController::new();
    let req = Request {
        method: Method::Get,
        path: String::from("/hello"),
        cookie: None,
        body: RequestBody::Empty,
    };
    let o = run(&mut mc, &req, "u-10");
    assert_eq!(o.response.status, 200);
    assert_eq!(o.log.user_id, None);
    assert_eq!(o.response.set_cookie, None);
}

#[test]
fn login_sets_the_session_cookie_on_good_credentials() {
    let mut mc = ModelController::new();
    let req = Request {
        method: Method::Post,
        path: String::from("/api/login"),
        cookie: None,
        body: RequestBody::Login {
            username: String::from("demo1"),
            password: String::from("welcome"),
        },
    };
    let o = run(&mut mc, &req, "u-11");
    assert_eq!(o.response.status, 200);
    assert_eq!(o.response.body, "{\"result\":{\"success\":true}}");
    assert_eq!(o.response.set_cookie.as_deref(), Some("user-1.exp.sign"));
    assert_eq!(o.log.error, None);
}

#[test]
fn login_fails_on_bad_credentials() {
    let mut mc = ModelController::new();
    let req = Request {
        method: Method::Post,
        path: String::from("/api/login"),
        cookie: None,
        body: RequestBody::Login {
            username: String::from("demo1"),
            password: String::from("wrong"),
        },
    };
    let o = run(&mut mc, &req, "u-12");
    assert_eq!(o.response.status, 401);
    assert_eq!(
        o.response.body,
        "{\"error\":{\"type\":\"LOGIN_FAIL\",\"req_uuid\":\"u-12\"}}"
    );
    assert_eq!(o.log.error, Some(Error::LoginFailed));
    assert_eq!(o.response.set_cookie, None);
}

#[test]
fn login_with_good_cookie_issues_the_fresh_token_not_a_refresh() {
    let mut mc = ModelController::new();
    let req = Request {
        method: Method::Post,
        path: String::from("/api/login"),
        cookie: Some(String::from("user-9.old.token")),
        body: RequestBody::Login {
            username: String::from("demo1"),
            password: String::from("welcome"),
        },
    };
    let o = run(&mut mc, &req, "u-13");
    assert_eq!(o.response.status, 200);
    // the freshly issued token wins over the sliding-expiration refresh
    assert_eq!(o.response.set_cookie.as_deref(), Some("user-1.exp.sign"));
    // resolution still ran and attached the old cookie's identity to the log
    assert_eq!(o.log.user_id, Some(9));
}

#[test]
fn delete_route_accepts_leading_zero_ids() {
    assert_eq!(
        route_of(Method::Delete, "/api/tickets/018"),
        Route::DeleteTicket { id: 18 }
    );
}

#[test]
fn every_outcome_carries_a_distinct_req_uuid_in_its_log() {
    let mut mc = ModelController::new();
    // a failure without a cookie and a success on a public route both log one
    let o1 = process(&mut mc, &create_req("x", None));
    let o2 = process(
        &mut mc,
        &Request {
            method: Method::Get,
            path: String::from("/hello"),
            cookie: None,
            body: RequestBody::Empty,
        },
    );
    assert_eq!(o1.log.req_uuid.len(), 36);
    assert_eq!(o2.log.req_uuid.len(), 36);
    assert_ne!(o1.log.req_uuid, o2.log.req_uuid);
    // the client-visible envelope carries the same id the log does
    assert!(o1.response.body.contains(&o1.log.req_uuid));
}
