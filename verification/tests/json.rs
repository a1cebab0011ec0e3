use ticket_pipeline::digits::parse_u64_in;
use ticket_pipeline::digits::u64_to_string;
use ticket_pipeline::error::ClientError;
use ticket_pipeline::error::Error;
use ticket_pipeline::json::error_envelope;
use ticket_pipeline::json::escape_json;
use ticket_pipeline::json::login_success_json;
use ticket_pipeline::json::ticket_json;
use ticket_pipeline::json::tickets_json;
use ticket_pipeline::store::Ticket;

#[test]
fn u64_rendering_is_plain_decimal() {
    assert_eq!(u64_to_string(0), "0");
    assert_eq!(u64_to_string(7), "7");
    assert_eq!(u64_to_string(1000), "1000");
    assert_eq!(u64_to_string(u64::MAX), "18446744073709551615");
}

#[test]
fn u64_parsing_in_range() {
    assert_eq!(parse_u64_in("abc123def", 3, 6), Some(123));
    assert_eq!(parse_u64_in("00123", 0, 5), Some(123));
    assert_eq!(parse_u64_in("x", 0, 0), None);
    assert_eq!(parse_u64_in("12a", 0, 3), None);
    assert_eq!(parse_u64_in("18446744073709551615", 0, 20), Some(u64::MAX));
    assert_eq!(parse_u64_in("18446744073709551616", 0, 20), None);
}

#[test]
fn escaping_covers_quotes_backslashes_and_controls() {
    assert_eq!(escape_json("plain"), "plain");
    assert_eq!(escape_json("a\"b"), "a\\\"b");
    assert_eq!(escape_json("a\\b"), "a\\\\b");
    assert_eq!(escape_json("a\nb\rc\td"), "a\\nb\\rc\\td");
    assert_eq!(escape_json("\u{1}"), "\\u0001");
    assert_eq!(escape_json("\u{1f}"), "\\u001f");
}

#[test]
fn ticket_json_is_the_stable_wire_shape() {
    let t = Ticket { id: 7, title: String::from("fix the guard") };
    assert_eq!(ticket_json(&t), "{\"id\":7,\"title\":\"fix the guard\"}");
    let tricky = Ticket { id: 1000, title: String::from("a\"b\\c\nd") };
    assert_eq!(ticket_json(&tricky), "{\"id\":1000,\"title\":\"a\\\"b\\\\c\\nd\"}");
}

#[test]
fn tickets_json_lists_in_order() {
    assert_eq!(tickets_json(&Vec::new()), "[]");
    let v = vec![
        Ticket { id: 1000, title: String::from("t1") },
        Ticket { id: 1001, title: String::from("t2") },
    ];
    assert_eq!(
        tickets_json(&v),
        "[{\"id\":1000,\"title\":\"t1\"},{\"id\":1001,\"title\":\"t2\"}]"
    );
}

#[test]
fn envelope_is_the_stable_wire_shape() {
    assert_eq!(
        error_envelope("NO_AUTH", "abc-123"),
        "{\"error\":{\"type\":\"NO_AUTH\",\"req_uuid\":\"abc-123\"}}"
    );
}

#[test]
fn login_success_body_is_fixed() {
    assert_eq!(login_success_json(), "{\"result\":{\"success\":true}}");
}

#[test]
fn every_error_kind_maps_to_a_failure_status_and_code() {
    let cases = [
        (Error::LoginFailed, 401, ClientError::LoginFail, "LOGIN_FAIL"),
        (Error::AuthFailNoAuthTokenCookie, 401, ClientError::NoAuth, "NO_AUTH"),
        (Error::AuthFailTokenWrongFormat, 401, ClientError::NoAuth, "NO_AUTH"),
        (Error::AuthFailCtxNotInRequest, 401, ClientError::NoAuth, "NO_AUTH"),
        (
            Error::TicketDeleteFailIdNotFound { id: 3 },
            400,
            ClientError::InvalidParams,
            "INVALID_PARAMS",
        ),
        (Error::StorePoisoned, 500, ClientError::ServiceError, "SERVICE_ERROR"),
    ];
    for (e, status, client, code) in cases {
        let (st, ce) = e.client_status_and_error();
        assert_eq!(st, status);
        assert_eq!(ce, client);
        assert_eq!(ce.code(), code);
        assert!((400..600).contains(&st));
    }
}
