use ticket_pipeline::auth::auth_token_cookie_name;
use ticket_pipeline::auth::parse_token_user_id;
use ticket_pipeline::auth::require_auth;
use ticket_pipeline::auth::resolve_ctx;
use ticket_pipeline::auth::Resolution;
use ticket_pipeline::ctx::Ctx;
use ticket_pipeline::error::Error;

#[test]
fn cookie_name_is_fixed() {
    assert_eq!(auth_token_cookie_name(), "auth-token");
}

#[test]
fn well_formed_tokens_parse() {
    assert_eq!(parse_token_user_id("user-1.exp.sign"), Some(1));
    assert_eq!(parse_token_user_id("user-42.anything.at-all"), Some(42));
    assert_eq!(
        parse_token_user_id("user-18446744073709551615.e.s"),
        Some(u64::MAX)
    );
}

#[test]
fn malformed_tokens_are_rejected() {
    // wrong number of segments
    assert_eq!(parse_token_user_id("user-1.exp"), None);
    assert_eq!(parse_token_user_id("user-1"), None);
    assert_eq!(parse_token_user_id("user-1.a.b.c"), None);
    assert_eq!(parse_token_user_id(""), None);
    // missing or broken prefix
    assert_eq!(parse_token_user_id("42.exp.sign"), None);
    assert_eq!(parse_token_user_id("usex-42.exp.sign"), None);
    // bad id digits
    assert_eq!(parse_token_user_id("user-.exp.sign"), None);
    assert_eq!(parse_token_user_id("user-abc.exp.sign"), None);
    assert_eq!(parse_token_user_id("user-4a2.exp.sign"), None);
    // id overflows a u64
    assert_eq!(parse_token_user_id("user-18446744073709551616.e.s"), None);
}

#[test]
fn resolution_of_missing_cookie_is_no_auth_token() {
    let r = resolve_ctx(&None);
    assert_eq!(r, Resolution::Failed(Error::AuthFailNoAuthTokenCookie));
}

#[test]
fn resolution_of_malformed_cookie_is_wrong_format() {
    let r = resolve_ctx(&Some(String::from("user-1.only-two")));
    assert_eq!(r, Resolution::Failed(Error::AuthFailTokenWrongFormat));
    let r = resolve_ctx(&Some(String::from("user-xyz.e.s")));
    assert_eq!(r, Resolution::Failed(Error::AuthFailTokenWrongFormat));
}

#[test]
fn resolution_of_good_cookie_is_resolved_ctx() {
    let r = resolve_ctx(&Some(String::from("user-7.exp.sign")));
    match r {
        Resolution::Resolved(c) => assert_eq!(c.user_id(), 7),
        other => panic!("expected a resolved ctx, got {:?}", other),
    }
}

#[test]
fn guard_admits_resolved_and_rejects_the_rest() {
    let ok = require_auth(&Resolution::Resolved(Ctx::new(9)));
    assert_eq!(ok.unwrap().user_id(), 9);
    let failed = require_auth(&Resolution::Failed(Error::AuthFailTokenWrongFormat));
    assert_eq!(failed.unwrap_err(), Error::AuthFailTokenWrongFormat);
    let unresolved = require_auth(&Resolution::Unresolved);
    assert_eq!(unresolved.unwrap_err(), Error::AuthFailCtxNotInRequest);
}
