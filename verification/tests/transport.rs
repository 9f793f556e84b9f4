use mcp_sdk::auth::BearerTokenProvider;
use mcp_sdk::error::{JsonRpcErrorCode, McpError};
use mcp_sdk::json::Json;
use mcp_sdk::protocol::serialize_message;
use mcp_sdk::string_map::StringMap;
use mcp_sdk::transport::http_message::{
    is_sendable, lowercase_headers, HttpRequest, HttpResponse,
};
use mcp_sdk::transport::sink::ResponseSink;
use mcp_sdk::transport::sse::{SseEvent, SseParser, WholeLines};
use mcp_sdk::transport::stdio::{
    contains_invalid_env_chars, extract_lines, frame_message, incoming_line, usable_env,
    IncomingLine,
};
use mcp_sdk::transport::streamable_http_client::{
    consume_end, consume_sse, read_body, report_error, stream_opened, BodyStep, PostReply,
    PostStep, StreamableHttpClientTransport, MAX_TIMEOUT_MS,
};
use mcp_sdk::transport::RequestContext;
use mcp_sdk::types::TlsConfig;
use mcp_sdk::{Message, Notification, Request, RequestId};

fn json(text: &str) -> Json {
    Json::parse(text).unwrap()
}

fn ping() -> Message {
    Message::Request(Request::new(RequestId::Number(1), "ping".to_string(), None))
}

fn told<T>(r: Result<T, McpError>) -> String {
    match r {
        Ok(_) => panic!("expected an error"),
        Err(e) => e.message(),
    }
}

fn make(url: &str, timeout: u64, sse: u64) -> Result<StreamableHttpClientTransport, McpError> {
    let tls = TlsConfig::default();
    StreamableHttpClientTransport::new(url.to_string(), StringMap::new(), timeout, sse, tls)
}

#[test]
fn json_sink_collects_single_and_batch() {
    let headers = vec![("x".to_string(), "y".to_string())];
    let mut sink = ResponseSink::json(1, false, headers);
    assert!(sink.is_json());
    assert_eq!(sink.remaining(), 1);
    let response = sink.deliver_json(json(r#"{"a": 1}"#)).unwrap().unwrap();
    assert_eq!(response.status, 200);
    assert_eq!(response.body, r#"{"a":1}"#);
    assert_eq!(response.header_value("X"), Some("y"));

    let mut sink = ResponseSink::json(2, true, vec![]);
    assert!(sink.deliver_json(json("1")).unwrap().is_none());
    let response = sink.deliver_json(json("2")).unwrap().unwrap();
    assert_eq!(response.body, "[1,2]");
    assert!(sink.send_frame(true).is_err());
}

#[test]
fn sse_sink_streams_and_finishes() {
    let mut sink = ResponseSink::sse(1);
    assert!(!sink.is_json());
    sink.send_frame(true).unwrap();
    assert!(sink.response_delivered());
    assert!(sink.deliver_json(json("1")).is_err());
    assert!(sink.send_frame(false).is_err());
}

#[test]
fn a_sink_answers_once() {
    let mut sink = ResponseSink::json(1, false, vec![]);
    assert!(sink.deliver_json(json("1")).unwrap().is_some());
    assert!(matches!(sink.deliver_json(json("2")), Ok(None) | Err(_)));
}

#[test]
fn http_helpers() {
    let mut headers = http::HeaderMap::new();
    headers.insert("Content-Type", "application/json".parse().unwrap());
    headers.append("X-Multi", "a".parse().unwrap());
    headers.append("X-Multi", "b".parse().unwrap());
    let lowered = lowercase_headers(&headers);
    assert_eq!(lowered.get("content-type").unwrap(), "application/json");
    assert_eq!(lowered.get("x-multi").unwrap(), "a");
    let resp = HttpResponse::new(200)
        .header("Content-Type", "text/plain")
        .body("b".to_string());
    assert_eq!(resp.content_type(), Some("text/plain"));
    let req = HttpRequest::new("GET", lowered, String::new());
    assert_eq!(req.header("content-type"), Some("application/json"));
    let ctx: RequestContext<()> = RequestContext::server_initiated("s", "m");
    assert_eq!(ctx.connection_id, 0);
}

#[test]
fn header_values_are_trimmed_and_unreadable_ones_left_out() {
    let mut headers = http::HeaderMap::new();
    headers.insert("X-Padded", "  v  ".parse().unwrap());
    headers.insert("X-Bytes", http::HeaderValue::from_bytes(&[0xff, 0x41]).unwrap());
    let lowered = lowercase_headers(&headers);
    assert_eq!(lowered.get("x-padded").unwrap(), "v");
    assert!(lowered.get("x-bytes").is_none());
}

#[test]
fn only_valid_headers_are_sent() {
    assert!(is_sendable("x-test", "value"));
    assert!(!is_sendable("x test", "value"));
    assert!(!is_sendable("", "value"));
    assert!(!is_sendable("x-test", "a\nb"));
    assert!(is_sendable("X!#$%&'*+-.^_`|~9", "a\tb\u{e9}"));
    for name in ["a:b", "a\"b", "a/b", "caf\u{e9}", "a(b)"] {
        assert!(!is_sendable(name, ""), "{name}");
    }
    assert!(is_sendable(&"n".repeat(65535), ""));
    assert!(!is_sendable(&"n".repeat(65536), ""));
    assert!(!is_sendable("x-test", "a\u{7f}"));
}

#[test]
fn line_extraction_and_framing() {
    let mut buffer = String::from("{\"a\":1}\r\n\n{\"b\":2}\n{\"partial\"");
    let lines = extract_lines(&mut buffer);
    assert_eq!(lines, vec!["{\"a\":1}".to_string(), "{\"b\":2}".to_string()]);
    assert_eq!(buffer, "{\"partial\"");
    buffer.push_str(":3}\n");
    assert_eq!(extract_lines(&mut buffer), vec!["{\"partial\":3}".to_string()]);
    assert!(buffer.is_empty());
    let framed = frame_message(&ping());
    assert!(framed.ends_with('\n'));
    assert_eq!(framed.matches('\n').count(), 1);
    assert!(contains_invalid_env_chars("a=b"));
    assert!(contains_invalid_env_chars("a\nb"));
    assert!(!contains_invalid_env_chars("ok"));
}

#[test]
fn lines_do_not_depend_on_how_they_arrive() {
    let whole = "one\ntwo\r\n\nthree\nrest";
    for cut in 0..=whole.len() {
        let mut buffer = String::from(&whole[..cut]);
        let mut lines = extract_lines(&mut buffer);
        buffer.push_str(&whole[cut..]);
        lines.extend(extract_lines(&mut buffer));
        assert_eq!(lines, ["one", "two", "three"], "cut at {cut}");
        assert_eq!(buffer, "rest");
    }
}

#[test]
fn a_framed_message_arrives() {
    let mut buffer = frame_message(&ping());
    buffer.push_str(&frame_message(&ping()));
    let lines = extract_lines(&mut buffer);
    assert_eq!(lines.len(), 2);
    match incoming_line(&lines[0]) {
        IncomingLine::Call(m) => assert_eq!(m, ping()),
        _ => panic!("expected a call"),
    }
    assert!(matches!(incoming_line(""), IncomingLine::Empty));
    assert!(matches!(
        incoming_line(r#"{"jsonrpc":"2.0","id":1,"result":{}}"#),
        IncomingLine::Response(_)
    ));
    assert!(matches!(incoming_line("nonsense"), IncomingLine::Invalid(_)));
}

#[test]
fn unusable_variables_are_left_out() {
    let mut env = StringMap::new();
    env.insert("GOOD".to_string(), "1".to_string());
    env.insert("BAD=NAME".to_string(), "2".to_string());
    let kept = usable_env(&env);
    assert_eq!(kept, vec![("GOOD".to_string(), "1".to_string())]);
}

#[test]
fn events_are_read_as_they_were_written() {
    let event = SseEvent::typed("message", r#"{"a":1}"#.to_string());
    let wire = event.to_wire();
    assert_eq!(wire, "event: message\ndata: {\"a\":1}\n\n");
    for cut in 0..=wire.len() {
        let mut parser = SseParser::new();
        let mut events = parser.feed(&wire[..cut]);
        events.extend(parser.feed(&wire[cut..]));
        assert_eq!(events.len(), 1, "cut at {cut}");
        assert_eq!(events[0].event.as_deref(), Some("message"));
        assert_eq!(events[0].data, r#"{"a":1}"#);
        assert!(parser.finish().is_none());
    }
}

#[test]
fn constructor_validates_timeouts() {
    assert!(make("http://localhost:99999", 1, 2).is_ok());
    assert!(make("", 1, 2).is_ok());
    assert!(make("https://example.com", 150, 150).is_ok());
    assert_eq!(told(make("http://x", 0, 2)), "Invalid timeout value");
    assert_eq!(told(make("http://x", 1, 0)), "Invalid SSE read timeout value");
    let too_long = MAX_TIMEOUT_MS + 1;
    assert!(make("http://x", too_long, 1).is_err());
    assert!(make("http://x", 1, too_long).is_err());
}

#[test]
fn headers_include_defaults_user_headers_and_session() {
    let mut user = StringMap::new();
    user.insert("Test-Header".to_string(), "Test-Value".to_string());
    let auth = BearerTokenProvider::new("tok".to_string());
    let mut t = StreamableHttpClientTransport::new(
        "http://localhost:1".to_string(),
        user,
        10,
        10,
        TlsConfig::default(),
    )
    .unwrap();
    let reply = PostReply::Response {
        status: 200,
        session_id: Some("sid".to_string()),
        content_type: Some("application/json".to_string()),
    };
    assert!(matches!(t.post_answered(&Some("initialize".to_string()), reply), PostStep::ReadJson));
    let opened = r#"{"jsonrpc":"2.0","id":1,"result":{"protocolVersion":"2025-06-18"}}"#;
    let message = match read_body(Ok(opened.to_string())) {
        BodyStep::Deliver(m) => m,
        _ => panic!("expected a message"),
    };
    t.message_received(&message, true);
    let h = t.prepare_headers(Some(&auth));
    assert_eq!(h.get("accept").unwrap(), "application/json, text/event-stream");
    assert_eq!(h.get("content-type").unwrap(), "application/json");
    assert_eq!(h.get("Test-Header").unwrap(), "Test-Value");
    assert_eq!(h.get("authorization").unwrap(), "Bearer tok");
    assert_eq!(h.get("mcp-session-id").unwrap(), "sid");
    assert_eq!(h.get("mcp-protocol-version").unwrap(), "2025-06-18");
}

#[test]
fn lifecycle_connect_terminate() {
    let mut t = make("http://localhost:99999", 1, 2).unwrap();
    assert!(t.is_running());
    t.terminate();
    t.terminate();
    assert!(!t.is_running());
    assert_eq!(
        told(t.send_message(&ping())),
        "transport error: HttpClientService is not running"
    );
}

#[test]
fn effective_url_uses_server_name() {
    let tls = TlsConfig { server_name: "sni.example".into(), ..Default::default() };
    let t = StreamableHttpClientTransport::new(
        "https://127.0.0.1:8443/mcp".to_string(),
        StringMap::new(),
        10,
        10,
        tls,
    )
    .unwrap();
    assert_eq!(t.effective_url(), "https://sni.example:8443/mcp");
    assert_eq!(t.connect(), Some(("127.0.0.1".to_string(), 8443)));
    let plain = make("http://127.0.0.1:8000/mcp", 10, 10).unwrap();
    assert_eq!(plain.effective_url(), "http://127.0.0.1:8000/mcp");
    assert_eq!(plain.connect(), None);
}

#[test]
fn event_streams_hand_on_their_messages() {
    let notification = Message::Notification(Notification::new("n".to_string(), None));
    let event = SseEvent::typed("message", serialize_message(&notification)).to_wire();
    let mut parser = SseParser::new();
    let first = consume_sse(&mut parser, &event[..10], false);
    assert!(first.messages.is_empty());
    let second = consume_sse(&mut parser, &event[10..], false);
    assert_eq!(second.messages, vec![notification]);
    assert!(!second.ended);
    assert!(consume_end(&mut parser).is_none());
}

#[test]
fn transport_errors_are_reported_to_the_asker() {
    let code = JsonRpcErrorCode::InternalError;
    let answer = report_error(&Some(RequestId::Number(4)), code, "gone".to_string()).unwrap();
    match answer {
        Message::Response(r) => {
            assert_eq!(r.id, Some(RequestId::Number(4)));
            let e = r.error.unwrap();
            assert_eq!((e.code, e.message.as_str()), (-32603, "gone"));
        }
        _ => panic!("expected a response"),
    }
    assert!(report_error(&None, code, "gone".to_string()).is_none());
    assert!(stream_opened(200));
    assert!(!stream_opened(405));
}

#[test]
fn invalid_lines_are_ignored() {
    let mut buffer = String::from("not json\n\r\n{\"jsonrpc\":\"2.0\",\"method\":\"n\"}\n");
    let lines = extract_lines(&mut buffer);
    let calls: Vec<&str> = lines
        .iter()
        .filter_map(|l| match incoming_line(l) {
            IncomingLine::Call(m) => Some(if m.method() == Some("n") { "n" } else { "other" }),
            _ => None,
        })
        .collect();
    assert_eq!(calls, ["n"]);
}

#[test]
fn no_character_is_torn() {
    let whole = "data: caf\u{e9}\ndata: na\u{ef}ve\nrest".as_bytes();
    for cut in 0..=whole.len() {
        let mut lines = WholeLines::new();
        let mut read = lines.feed(&whole[..cut]);
        assert!(String::from_utf8(read.clone()).is_ok());
        let more = lines.feed(&whole[cut..]);
        assert!(String::from_utf8(more.clone()).is_ok());
        read.extend(more);
        assert_eq!(read, "data: caf\u{e9}\ndata: na\u{ef}ve\n".as_bytes());
        assert_eq!(lines.finish(), b"rest");
    }
}

#[test]
fn methods_are_put_in_capitals() {
    let r = HttpRequest::received("pOst", "/mcp".into(), StringMap::new(), "b".into());
    assert_eq!((r.method.as_str(), r.url.as_str(), r.body.as_str()), ("POST", "/mcp", "b"));
}
