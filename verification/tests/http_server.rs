use mcp_sdk::json::Json;
use mcp_sdk::protocol::{status, DEFAULT_PROTOCOL_VERSION};
use mcp_sdk::string_map::StringMap;
use mcp_sdk::transport::streamable_http_server::{
    event_data, frame_written, Delivery, HttpEffect, HttpOutcome, SendRoute,
    StreamableHttpServerTransport,
};
use mcp_sdk::transport::{HttpReply, HttpRequest, RequestContext};
use mcp_sdk::{Message, Notification, RequestId, Response};

const VALID: &str = "test-session-12345-ABCDE";

fn json(text: &str) -> Json {
    Json::parse(text).unwrap()
}

fn transport(id: &str, json: bool, stateless: bool) -> StreamableHttpServerTransport {
    StreamableHttpServerTransport::new(id, json, stateless).unwrap()
}

fn headers(pairs: &[(&str, &str)]) -> StringMap<String> {
    let mut h = StringMap::new();
    for (k, v) in pairs {
        h.insert(k.to_string(), v.to_string());
    }
    h
}

fn init_json() -> String {
    format!(
        r#"{{"jsonrpc":"2.0","id":1,"method":"initialize","params":{{"protocolVersion":"{DEFAULT_PROTOCOL_VERSION}","capabilities":{{}},"clientInfo":{{"name":"TestClient","version":"1.0.0"}}}}}}"#
    )
}

fn tools_list_json() -> String {
    r#"{"jsonrpc":"2.0","id":2,"method":"tools/list","params":{}}"#.to_string()
}

fn post_headers() -> StringMap<String> {
    headers(&[
        ("accept", "application/json, text/event-stream"),
        ("content-type", "application/json"),
    ])
}

fn session_headers() -> StringMap<String> {
    let mut h = post_headers();
    h.insert("mcp-session-id".to_string(), VALID.to_string());
    h
}

fn handle(
    t: &mut StreamableHttpServerTransport,
    method: &str,
    h: StringMap<String>,
    body: &str,
) -> HttpOutcome {
    t.handle_request(&HttpRequest::new(method, h, body.to_string()), true, true)
}

fn status_of(outcome: &HttpOutcome) -> Option<u16> {
    outcome.reply.status()
}

fn delivered(outcome: HttpOutcome) -> Delivery {
    match outcome.effect {
        HttpEffect::Deliver(d) => d,
        _ => panic!("expected messages for the session"),
    }
}

fn delivers_nothing(outcome: &HttpOutcome) -> bool {
    matches!(outcome.effect, HttpEffect::Nothing)
}

fn error_body(outcome: &HttpOutcome, status_code: u16) -> Json {
    let full = outcome.reply.as_full().unwrap();
    assert_eq!(full.status, status_code);
    assert_eq!(full.content_type(), Some("application/json"));
    json(&full.body)
}

fn error_code(body: &Json) -> i64 {
    body.get("error").unwrap().get("code").unwrap().as_i64().unwrap()
}

fn error_message(body: &Json) -> &str {
    body.get("error").unwrap().get("message").unwrap().as_str().unwrap()
}

fn told(method: &str) -> Message {
    Message::Notification(Notification::new(method.to_string(), None))
}

fn answer(id: i64) -> Message {
    Message::Response(Response::success(RequestId::Number(id), json("{}")))
}

#[test]
fn constructor_validates_session_id() {
    assert!(StreamableHttpServerTransport::new(VALID, false, false).is_ok());
    assert!(StreamableHttpServerTransport::new("", false, false).is_ok());
    assert!(StreamableHttpServerTransport::new("test-session-\u{a9}", false, false).is_err());
    assert!(StreamableHttpServerTransport::new("with space", true, false).is_err());
}

#[test]
fn listen_and_terminate() {
    let mut t = transport(VALID, false, false);
    assert!(!t.is_terminated());
    t.terminate();
    assert!(t.is_terminated());
    assert_eq!(t.session_id(), "");
    transport("", false, false).terminate();
}

#[test]
fn terminated_session_returns_not_found() {
    let mut t = transport(VALID, false, false);
    t.terminate();
    let outcome = handle(&mut t, "POST", post_headers(), &init_json());
    let body = error_body(&outcome, status::NOT_FOUND);
    assert_eq!(error_code(&body), -32600);
    assert_eq!(body.get("id").unwrap().as_str(), Some("server-error"));
}

#[test]
fn post_without_callback_is_internal_error() {
    let mut t = transport(VALID, false, false);
    let request = HttpRequest::new("POST", post_headers(), init_json());
    let outcome = t.handle_request(&request, false, false);
    assert_eq!(status_of(&outcome), Some(status::INTERNAL_SERVER_ERROR));
}

#[test]
fn post_accept_and_content_type_validation() {
    let mut t = transport(VALID, false, false);
    let mut check = |h: &[(&str, &str)], expected: u16| {
        let outcome = handle(&mut t, "POST", headers(h), &init_json());
        assert_eq!(status_of(&outcome), Some(expected));
        assert!(delivers_nothing(&outcome));
    };
    check(
        &[("accept", "application/xml"), ("content-type", "application/json")],
        status::NOT_ACCEPTABLE,
    );
    // SSE mode rejects a JSON-only accept header.
    check(
        &[("accept", "application/json"), ("content-type", "application/json")],
        status::NOT_ACCEPTABLE,
    );
    check(&[("accept", "application/json, text/event-stream")], status::UNSUPPORTED_MEDIA_TYPE);
    check(
        &[
            ("accept", "application/json, text/event-stream"),
            ("content-type", "application/xml"),
        ],
        status::UNSUPPORTED_MEDIA_TYPE,
    );
}

#[test]
fn json_mode_accept_rules() {
    let mut t = transport(VALID, true, false);
    let h = headers(&[("accept", "application/json"), ("content-type", "application/json")]);
    let outcome = handle(&mut t, "POST", h, &init_json());
    assert!(matches!(outcome.reply, HttpReply::Deferred));
    assert_eq!(delivered(outcome).messages.len(), 1);

    let h = headers(&[("accept", "text/event-stream"), ("content-type", "application/json")]);
    let outcome = handle(&mut t, "POST", h, &init_json());
    assert_eq!(status_of(&outcome), Some(status::NOT_ACCEPTABLE));
    assert!(delivers_nothing(&outcome));
}

#[test]
fn stateless_rules() {
    let mut t = transport("", false, true);
    let outcome = handle(&mut t, "POST", post_headers(), &tools_list_json());
    assert_eq!(status_of(&outcome), Some(status::OK));
    assert_eq!(outcome.reply.header_value("content-type"), Some("text/event-stream"));
    assert_eq!(delivered(outcome).messages.len(), 1);

    let get = handle(&mut t, "GET", headers(&[("accept", "text/event-stream")]), "");
    assert_eq!(status_of(&get), Some(status::METHOD_NOT_ALLOWED));
    assert_eq!(get.reply.header_value("allow"), Some("POST"));
    let del = handle(&mut t, "DELETE", StringMap::new(), "");
    assert_eq!(status_of(&del), Some(status::METHOD_NOT_ALLOWED));

    // JSON stateless accepts a JSON-only accept header and skips session validation.
    let mut t = transport("", true, true);
    let h = headers(&[("accept", "application/json"), ("content-type", "application/json")]);
    let outcome = handle(&mut t, "POST", h, &tools_list_json());
    assert!(matches!(outcome.reply, HttpReply::Deferred));
    assert_eq!(delivered(outcome).messages.len(), 1);
    let h = headers(&[("accept", "text/event-stream"), ("content-type", "application/json")]);
    let outcome = handle(&mut t, "POST", h, &init_json());
    assert_eq!(status_of(&outcome), Some(status::NOT_ACCEPTABLE));
}

#[test]
fn invalid_json_and_wrong_version() {
    let mut t = transport(VALID, false, false);
    for body in ["invalid json", "", "   "] {
        let outcome = handle(&mut t, "POST", session_headers(), body);
        assert_eq!(error_code(&error_body(&outcome, status::BAD_REQUEST)), -32700);
        assert!(delivers_nothing(&outcome));
    }

    let wrong = r#"{"jsonrpc":"1.0","id":1,"method":"initialize","params":{}}"#;
    let outcome = handle(&mut t, "POST", post_headers(), wrong);
    let body = error_body(&outcome, status::BAD_REQUEST);
    assert_eq!(body.get("id").unwrap().as_i64(), Some(1));
    assert_eq!(error_code(&body), -32600);
    assert!(error_message(&body).contains("Deserialization Failed"));

    let mut t_json = transport("", true, false);
    let outcome = handle(&mut t_json, "POST", post_headers(), wrong);
    assert_eq!(error_code(&error_body(&outcome, status::OK)), -32600);
    assert!(delivers_nothing(&outcome));
}

#[test]
fn client_error_response_is_accepted_and_delivered() {
    let mut t = transport(VALID, false, false);
    let body = r#"{"jsonrpc":"2.0","id":1,"error":{"code":-32600,"message":"User rejected"}}"#;
    let outcome = handle(&mut t, "POST", session_headers(), body);
    assert_eq!(status_of(&outcome), Some(status::ACCEPTED));
    assert_eq!(outcome.reply.header_value("mcp-session-id"), Some(VALID));
    assert_eq!(delivered(outcome).messages.len(), 1);
}

#[test]
fn session_id_validation_for_post() {
    let mut t = transport(VALID, false, false);
    // Initialize passes without a session id and with one.
    for h in [post_headers(), session_headers()] {
        let outcome = handle(&mut t, "POST", h, &init_json());
        assert_eq!(status_of(&outcome), Some(status::OK));
        assert_eq!(delivered(outcome).messages.len(), 1);
    }

    // Non-initialize requests need the right id.
    let outcome = handle(&mut t, "POST", post_headers(), &tools_list_json());
    assert_eq!(status_of(&outcome), Some(status::BAD_REQUEST));
    let mut wrong = post_headers();
    wrong.insert("mcp-session-id".to_string(), "wrong-session-id".to_string());
    let outcome = handle(&mut t, "POST", wrong, &tools_list_json());
    assert_eq!(status_of(&outcome), Some(status::NOT_FOUND));
    assert!(delivers_nothing(&outcome));
    let outcome = handle(&mut t, "POST", session_headers(), &tools_list_json());
    assert_eq!(status_of(&outcome), Some(status::OK));
    assert_eq!(delivered(outcome).messages.len(), 1);

    // Protocol version.
    let mut h = session_headers();
    h.insert("mcp-protocol-version".to_string(), "unsupported-version".to_string());
    let outcome = handle(&mut t, "POST", h, &tools_list_json());
    let body = error_body(&outcome, status::BAD_REQUEST);
    assert!(error_message(&body).contains("Unsupported protocol version"));
    let mut h = session_headers();
    h.insert("mcp-protocol-version".to_string(), DEFAULT_PROTOCOL_VERSION.to_string());
    let outcome = handle(&mut t, "POST", h, &tools_list_json());
    assert_eq!(status_of(&outcome), Some(status::OK));
    assert_eq!(delivered(outcome).messages.len(), 1);

    // Upper case header names are not recognised.
    let upper = headers(&[
        ("Accept", "application/json, text/event-stream"),
        ("Content-Type", "application/json"),
        ("MCP-SESSION-ID", VALID),
    ]);
    let outcome = handle(&mut t, "POST", upper, &tools_list_json());
    assert_ne!(status_of(&outcome), Some(status::OK));
}

#[test]
fn get_stream_rules() {
    let mut t = transport(VALID, false, false);
    let mut check = |h: &[(&str, &str)], expected: u16| {
        let outcome = handle(&mut t, "GET", headers(h), "");
        assert_eq!(status_of(&outcome), Some(expected));
    };
    check(&[], status::NOT_ACCEPTABLE);
    check(&[("accept", "application/json")], status::NOT_ACCEPTABLE);
    check(&[("accept", "text/event-stream")], status::BAD_REQUEST);
    check(
        &[("accept", "text/event-stream"), ("mcp-session-id", "wrong-session-id")],
        status::BAD_REQUEST,
    );
    check(
        &[
            ("accept", "text/event-stream"),
            ("mcp-session-id", VALID),
            ("mcp-protocol-version", "unsupported-version"),
        ],
        status::BAD_REQUEST,
    );

    let good = headers(&[
        ("accept", "text/event-stream"),
        ("mcp-session-id", VALID),
        ("mcp-protocol-version", DEFAULT_PROTOCOL_VERSION),
    ]);
    let outcome = handle(&mut t, "GET", good.clone(), "");
    assert_eq!(status_of(&outcome), Some(status::OK));
    assert_eq!(outcome.reply.header_value("content-type"), Some("text/event-stream"));
    assert!(matches!(outcome.effect, HttpEffect::Attach));
    assert!(t.has_get_stream());
    let dup = handle(&mut t, "GET", good, "");
    assert_eq!(status_of(&dup), Some(status::CONFLICT));

    // Server initiated messages go to the GET stream.
    let method = "notifications/tools/list_changed";
    let ctx: RequestContext<()> = RequestContext::server_initiated(VALID, method);
    match t.send_message(&told(method), &ctx, false, false).unwrap() {
        SendRoute::OwnStream(text) => {
            assert!(text.starts_with("event: message\ndata: "));
            assert!(text.contains(method));
            assert_eq!(text, event_data(&told(method)));
        }
        _ => panic!("expected the client's own stream"),
    }

    // A stream that is gone makes room for another.
    t.forget_stream();
    assert!(!t.has_get_stream());
    let mut empty = transport("", false, false);
    let h = headers(&[
        ("accept", "text/event-stream"),
        ("mcp-protocol-version", DEFAULT_PROTOCOL_VERSION),
    ]);
    let outcome = handle(&mut empty, "GET", h, "");
    assert_eq!(status_of(&outcome), Some(status::OK));
}

#[test]
fn get_stream_missing_is_an_error() {
    // A terminated transport does not wait for a stream to attach.
    let mut t = transport(VALID, false, false);
    t.terminate();
    let method = "notifications/progress";
    let ctx: RequestContext<()> = RequestContext::server_initiated(VALID, method);
    let err = match t.send_message(&told(method), &ctx, false, false) {
        Err(e) => e.message(),
        Ok(_) => panic!("expected an error"),
    };
    assert_eq!(err, "SSE stream request context not set");

    // A stream attached while waiting is used.
    let mut t2 = transport(VALID, false, false);
    assert!(matches!(t2.send_message(&told("n"), &ctx, false, false), Ok(SendRoute::Wait)));
    assert!(t2.send_message(&told("n"), &ctx, false, true).is_err());
    let h = headers(&[("accept", "text/event-stream"), ("mcp-session-id", VALID)]);
    let outcome = handle(&mut t2, "GET", h, "");
    assert!(matches!(outcome.reply, HttpReply::Stream { .. }));
    let route = t2.send_message(&told("n"), &ctx, false, false);
    assert!(matches!(route, Ok(SendRoute::OwnStream(_))));
}

#[test]
fn delete_rules() {
    let mut t = transport("", false, false);
    let outcome = handle(&mut t, "DELETE", StringMap::new(), "");
    assert_eq!(status_of(&outcome), Some(status::METHOD_NOT_ALLOWED));

    let mut t = transport(VALID, false, false);
    let outcome = handle(&mut t, "DELETE", StringMap::new(), "");
    assert_eq!(status_of(&outcome), Some(status::BAD_REQUEST));
    let wrong = headers(&[("mcp-session-id", "wrong-session-id")]);
    let outcome = handle(&mut t, "DELETE", wrong, "");
    assert_eq!(status_of(&outcome), Some(status::BAD_REQUEST));
    assert!(!t.is_terminated());
    let outcome = handle(&mut t, "DELETE", headers(&[("mcp-session-id", VALID)]), "");
    assert_eq!(status_of(&outcome), Some(status::OK));
    assert_eq!(outcome.reply.header_value("mcp-session-id"), Some(VALID));
    assert!(t.is_terminated());
}

#[test]
fn unsupported_method() {
    let mut t = transport(VALID, false, false);
    let outcome = handle(&mut t, "PUT", StringMap::new(), "");
    assert_eq!(status_of(&outcome), Some(status::METHOD_NOT_ALLOWED));
    assert_eq!(outcome.reply.header_value("Allow"), Some("GET, POST, DELETE"));
}

#[test]
fn complete_workflow_and_response_streaming() {
    let mut t = transport(VALID, false, false);
    let outcome = handle(&mut t, "POST", post_headers(), &init_json());
    assert!(matches!(outcome.reply, HttpReply::Stream { .. }));
    assert_eq!(outcome.reply.header_value("mcp-session-id"), Some(VALID));
    let delivery = delivered(outcome);
    assert_eq!(delivery.messages.len(), 1);
    let (msg, method) = &delivery.messages[0];
    assert_eq!(msg.method(), Some("initialize"));
    assert_eq!(method, "initialize");
    assert!(delivery.connection_id > 0);

    // Notification on the request context is streamed, then the response ends the stream.
    let mut sink = delivery.sink.unwrap();
    let ctx = RequestContext {
        connection_id: delivery.connection_id,
        sink: Some(()),
        ..RequestContext::server_initiated(&delivery.session_id, method)
    };
    let progress = told("notifications/progress");
    match t.send_message(&progress, &ctx, sink.is_json(), false).unwrap() {
        SendRoute::Frame(text) => assert!(text.contains("notifications/progress")),
        _ => panic!("expected a frame"),
    }
    assert!(!frame_written(&mut sink, &progress, true).unwrap());
    match t.send_message(&answer(1), &ctx, sink.is_json(), false).unwrap() {
        SendRoute::Frame(text) => assert!(text.contains(r#""result":{}"#)),
        _ => panic!("expected a frame"),
    }
    assert!(frame_written(&mut sink, &answer(1), true).unwrap());

    let h = headers(&[
        ("accept", "text/event-stream"),
        ("mcp-session-id", VALID),
        ("mcp-protocol-version", DEFAULT_PROTOCOL_VERSION),
    ]);
    let get = handle(&mut t, "GET", h, "");
    assert_eq!(status_of(&get), Some(status::OK));
    let del = handle(&mut t, "DELETE", headers(&[("mcp-session-id", VALID)]), "");
    assert_eq!(status_of(&del), Some(status::OK));
    let after = handle(&mut t, "POST", post_headers(), &tools_list_json());
    assert_eq!(status_of(&after), Some(status::NOT_FOUND));
}

#[test]
fn json_mode_response_and_batch() {
    let mut t = transport(VALID, true, false);
    let h = headers(&[
        ("accept", "application/json"),
        ("content-type", "application/json"),
        ("mcp-session-id", VALID),
    ]);
    let batch = r#"[{"jsonrpc":"2.0","id":1,"method":"ping"},{"jsonrpc":"2.0","method":"notifications/initialized"},{"jsonrpc":"2.0","id":2,"method":"ping"}]"#;
    let outcome = handle(&mut t, "POST", h, batch);
    assert!(matches!(outcome.reply, HttpReply::Deferred));
    let delivery = delivered(outcome);
    assert_eq!(delivery.messages.len(), 3);
    let mut sink = delivery.sink.unwrap();
    let ctx = RequestContext {
        connection_id: delivery.connection_id,
        sink: Some(()),
        ..RequestContext::server_initiated(&delivery.session_id, "ping")
    };
    // Notifications are dropped in JSON mode; responses complete the HTTP response.
    let route = t.send_message(&told("n"), &ctx, sink.is_json(), false);
    assert!(matches!(route, Ok(SendRoute::Drop)));
    let mut response = None;
    for id in [1, 2] {
        match t.send_message(&answer(id), &ctx, sink.is_json(), false).unwrap() {
            SendRoute::Collect(j) => response = sink.deliver_json(j).unwrap(),
            _ => panic!("expected a response to be collected"),
        }
    }
    let response = response.unwrap();
    assert_eq!(response.status, status::OK);
    assert_eq!(response.header_value("mcp-session-id"), Some(VALID));
    match json(&response.body) {
        Json::Array(items) => assert_eq!(items.len(), 2),
        _ => panic!("expected an array"),
    }
}

#[test]
fn batch_of_notifications_is_accepted() {
    let mut t = transport(VALID, false, false);
    let batch = r#"[{"jsonrpc":"2.0","method":"notifications/initialized"},{"jsonrpc":"2.0","id":9,"result":{}}]"#;
    let outcome = handle(&mut t, "POST", session_headers(), batch);
    assert_eq!(status_of(&outcome), Some(status::ACCEPTED));
    let delivery = delivered(outcome);
    assert_eq!(delivery.messages.len(), 2);
    assert!(delivery.sink.is_none());
}
