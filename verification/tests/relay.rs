use hostbridge::envelope::{fetch_reply, make_err_to_resp, relay_envelope, Exchange, Resp};
use hostbridge::json::envelope_to_json;

#[test]
fn completed_ok_envelope() {
    let out = fetch_reply(Exchange::Completed { status: 200, body: "hello".to_string() });
    assert_eq!(out, "{\"status\":200,\"text\":\"hello\"}");
}

#[test]
fn non_2xx_status_passed_through() {
    let out = fetch_reply(Exchange::Completed { status: 404, body: "not found".to_string() });
    assert_eq!(out, "{\"status\":404,\"text\":\"not found\"}");
}

#[test]
fn transport_failure_without_status_falls_back_to_400() {
    let out = fetch_reply(Exchange::TransportFailed {
        status: None,
        message: "connection refused".to_string(),
    });
    assert_eq!(out, "{\"status\":400,\"text\":\"connection refused\"}");
}

#[test]
fn transport_failure_keeps_its_own_status() {
    let out = fetch_reply(Exchange::TransportFailed {
        status: Some(503),
        message: "service unavailable".to_string(),
    });
    assert_eq!(out, "{\"status\":503,\"text\":\"service unavailable\"}");
}

#[test]
fn unreadable_body_reports_the_read_failure() {
    let out = fetch_reply(Exchange::BodyUnreadable {
        status: None,
        message: "error decoding response body".to_string(),
    });
    assert_eq!(out, "{\"status\":400,\"text\":\"error decoding response body\"}");
}

#[test]
fn repeated_call_yields_identical_reply() {
    let a = fetch_reply(Exchange::Completed { status: 201, body: "made".to_string() });
    let b = fetch_reply(Exchange::Completed { status: 201, body: "made".to_string() });
    assert_eq!(a, b);
}

#[test]
fn make_err_to_resp_uses_fallback_without_status() {
    let r = make_err_to_resp(None, "boom".to_string());
    assert_eq!(r.status, 400);
    assert_eq!(r.text, "boom");
}

#[test]
fn make_err_to_resp_keeps_carried_status() {
    let r = make_err_to_resp(Some(418), "teapot".to_string());
    assert_eq!(r.status, 418);
    assert_eq!(r.text, "teapot");
}

#[test]
fn relay_envelope_completed_keeps_both_fields() {
    let r = relay_envelope(Exchange::Completed { status: 204, body: String::new() });
    assert_eq!(r.status, 204);
    assert_eq!(r.text, "");
}

#[test]
fn quotes_and_backslashes_are_escaped() {
    let out = envelope_to_json(200, "he said \"hi\" \\ bye");
    assert_eq!(out, "{\"status\":200,\"text\":\"he said \\\"hi\\\" \\\\ bye\"}");
}

#[test]
fn named_control_escapes() {
    let out = envelope_to_json(200, "a\u{8}b\tc\nd\u{c}e\rf");
    assert_eq!(out, "{\"status\":200,\"text\":\"a\\bb\\tc\\nd\\fe\\rf\"}");
}

#[test]
fn other_control_characters_use_hex_escapes() {
    let out = envelope_to_json(200, "x\u{1}y\u{1f}z\u{0}");
    assert_eq!(out, "{\"status\":200,\"text\":\"x\\u0001y\\u001fz\\u0000\"}");
}

#[test]
fn non_ascii_text_passes_through_unescaped() {
    let out = envelope_to_json(200, "café ☃");
    assert_eq!(out, "{\"status\":200,\"text\":\"café ☃\"}");
}

#[test]
fn empty_body_and_extreme_statuses() {
    assert_eq!(envelope_to_json(0, ""), "{\"status\":0,\"text\":\"\"}");
    assert_eq!(envelope_to_json(65535, ""), "{\"status\":65535,\"text\":\"\"}");
}

#[test]
fn matches_reference_json_encoder() {
    let bodies = [
        "hello",
        "",
        "he said \"hi\"",
        "back\\slash",
        "line\nbreak\ttab",
        "ctl\u{1}\u{1f}\u{7f}",
        "café ☃ 日本",
        "{\"nested\":\"json\"}",
    ];
    for (k, body) in bodies.iter().enumerate() {
        let status = (100 * k as u16) + 7;
        let r = Resp { status, text: body.to_string() };
        let mine = envelope_to_json(r.status, &r.text);
        let mut map = serde_json::Map::new();
        map.insert("status".to_string(), serde_json::Value::from(status));
        map.insert("text".to_string(), serde_json::Value::from(*body));
        let reference = serde_json::to_string(&serde_json::Value::Object(map)).unwrap();
        assert_eq!(mine, reference);
    }
}
