use mcp_sdk::client::session::{
    answer_elicit, answer_roots, answer_sampling, call_timeout, read_result, send_failed,
    Callbacks, ClientHandlers, ClientSession, ClientStep, Notice,
};
use mcp_sdk::client::{McpClient, McpClientFactory};
use mcp_sdk::error::{JsonRpcErrorCode, McpError};
use mcp_sdk::json::Json;
use mcp_sdk::protocol::LATEST_PROTOCOL_VERSION;
use mcp_sdk::session::WaitOutcome;
use mcp_sdk::types::{
    CallToolResult, ClientConfig, CompleteReference, CompletionArgument, CreateMessageResult,
    ElicitResult, EmptyResult, InitializeResult, ListPromptsResult, ListRootsResult,
    ListToolsResult, LoggingLevel, MetaMap, ProgressToken, PromptReference, Real, RoleType, Root,
    SamplingCapability, SamplingContent, StreamableHttpClientConfig,
};
use mcp_sdk::{Message, Notification, Request, RequestId, Response, RpcError};

struct Named;

impl ClientHandlers for Named {
    type ListRoots = &'static str;
    type Elicit = &'static str;
    type ElicitUrl = &'static str;
    type Logging = &'static str;
    type Sampling = &'static str;
}

type Session = ClientSession<Named, &'static str, &'static str>;
type Client = McpClient<Named, (), ()>;

fn json(text: &str) -> Json {
    Json::parse(text).unwrap()
}

fn double(x: f64) -> Real {
    Real { bits: x.to_bits() }
}

fn setup() -> Session {
    ClientSession::new(&ClientConfig::default(), Callbacks::new())
}

fn at<'a>(value: &'a Json, path: &[&str]) -> &'a Json {
    let mut v = value;
    for step in path {
        v = match (v, step.parse::<usize>()) {
            (Json::Array(items), Ok(i)) => &items[i],
            _ => v.get(step).unwrap(),
        };
    }
    v
}

fn request(id: i64, method: &str, params: Option<&str>) -> Request {
    Request::new(RequestId::Number(id), method.to_string(), params.map(json))
}

fn notification(method: &str, params: Option<&str>) -> Notification {
    Notification::new(method.to_string(), params.map(json))
}

fn asked(message: &Message) -> &Request {
    match message {
        Message::Request(r) => r,
        _ => panic!("expected a request"),
    }
}

fn replied(session: &Session, request: &Request) -> Json {
    match session.received_request(request) {
        ClientStep::Reply(m) => m.to_value(),
        _ => panic!("expected a reply"),
    }
}

fn answered(session: &mut Session, id: &RequestId, result: &str) -> Result<Json, McpError> {
    let response = Response::success(id.clone(), json(result));
    let (_, outcome) = session.handle_response(response, 0).unwrap();
    session.settle(id, WaitOutcome::Answered(outcome), 50, 0)
}

fn not_initialized<T>(r: Result<T, McpError>) -> bool {
    matches!(r, Err(McpError::NotInitialized))
}

const SAMPLING: &str =
    r#"{"maxTokens": 1, "messages": [{"role": "user", "content": {"type": "text", "text": "hello"}}]}"#;

#[test]
fn factory_validates_endpoint() {
    let config = ClientConfig::default();
    let ok = StreamableHttpClientConfig {
        endpoint: "http://127.0.0.1:8001/mcp".into(),
        timeout: 1000,
        sse_timeout: 1000,
        ..Default::default()
    };
    let made = McpClientFactory::create_streamable_http_client::<Named, (), ()>(config.clone(), ok);
    assert!(made.is_ok());
    for endpoint in [
        "",
        "not-a-url",
        "http://local#host:8080",
        "http://localhost:8080/path#frag",
        "ftp://localhost:8080",
        "http://localhost:99999",
        "http://localhost:8080 ",
    ] {
        let cfg =
            StreamableHttpClientConfig { endpoint: endpoint.into(), ..Default::default() };
        let made =
            McpClientFactory::create_streamable_http_client::<Named, (), ()>(config.clone(), cfg);
        assert!(matches!(made, Err(McpError::InvalidArgument(_))), "{endpoint}");
    }
    let bad_timeout = StreamableHttpClientConfig {
        endpoint: "http://localhost:1".into(),
        timeout: 0,
        ..Default::default()
    };
    let made = McpClientFactory::create_streamable_http_client::<Named, (), ()>(config, bad_timeout);
    assert!(made.is_err());
}

#[test]
fn methods_before_initialize_fail_and_close_is_noop() {
    let mut client: Client = McpClientFactory::create_stdio_client(ClientConfig::default());
    assert!(not_initialized(client.list_tools(None, ())));
    assert!(not_initialized(client.call_tool("t", &None, (), None)));
    assert!(not_initialized(client.send_ping(())));
    assert!(not_initialized(client.get_server_capabilities()));
    assert!(not_initialized(client.send_roots_list_changed()));
    assert!(not_initialized(client.list_resources(None, ())));
    assert!(not_initialized(client.read_resource("u", ())));
    assert!(not_initialized(client.subscribe_resource("u", ())));
    assert!(not_initialized(client.unsubscribe_resource("u", ())));
    assert!(not_initialized(client.list_resources_templates(())));
    assert!(not_initialized(client.list_prompts(())));
    assert!(not_initialized(client.get_prompt("p", &None, ())));
    assert!(not_initialized(client.set_logging_level(LoggingLevel::Info, ())));
    let token = ProgressToken::String(String::new());
    assert!(not_initialized(client.send_progress_notification(token, double(0.0), None, None)));
    let reference = CompleteReference::Prompt(PromptReference { name: String::new() });
    assert!(not_initialized(client.complete(
        reference,
        CompletionArgument::default(),
        None,
        ()
    )));
    assert!(!client.close_gracefully());
    assert!(!client.is_initialized());
    // Callbacks may be registered before initialize.
    client.set_logging_callback("log");
    client.set_list_roots_callback("roots");
    client.set_elicit_callback("form");
    client.set_elicit_url_callback("page");
    client.set_sampling_create_message_callback("sample", SamplingCapability::default());
    client.initialize().unwrap();
    let offered = client.session().unwrap().build_client_capabilities();
    assert!(offered.roots.is_some() && offered.elicitation.is_some() && offered.sampling.is_some());
}

#[test]
fn double_initialize_is_rejected_until_closed() {
    let mut client: Client = McpClientFactory::create_stdio_client(ClientConfig::default());
    client.initialize().unwrap();
    assert!(client.is_initialized());
    assert!(matches!(client.initialize(), Err(McpError::AlreadyInitialized)));
    let (id, sent) = client.list_tools(None, ()).unwrap();
    assert_eq!(id, RequestId::Number(1));
    assert_eq!(asked(&sent).method, "tools/list");
    assert!(client.close_gracefully());
    assert!(not_initialized(client.list_tools(None, ())));
}

#[test]
fn call_tool_with_progress_injects_token_and_dispatches_progress() {
    let mut session = setup();
    let (id, sent) = session.call_tool("test_tool", &None, "caller", Some("listener"));
    let req = asked(&sent);
    assert_eq!(req.method, "tools/call");
    let params = req.params.as_ref().unwrap();
    assert_eq!(*at(params, &["_meta", "progressToken"]), json("1"));
    assert_eq!(at(params, &["name"]).as_str(), Some("test_tool"));

    let told = notification(
        "notifications/progress",
        Some(r#"{"progressToken": 1, "progress": 0.5, "total": 1.0, "message": "half done"}"#),
    );
    match session.received_notification(&told, 0) {
        Notice::Progress { listener, progress, total, message } => {
            assert_eq!(*listener, "listener");
            assert_eq!((progress, total), (double(0.5), Some(double(1.0))));
            assert_eq!(message.as_deref(), Some("half done"));
        }
        _ => panic!("expected progress"),
    }

    let done = r#"{"content": [{"type": "text", "text": "done"}], "isError": false}"#;
    let response = Response::success(req.id.clone(), json(done));
    let (waiter, outcome) = session.handle_response(response, 0).unwrap();
    assert_eq!(waiter, "caller");
    let outcome = session.settle(&id, WaitOutcome::Answered(outcome), 50, 0);
    let result: CallToolResult = read_result("tools/call", outcome).unwrap();
    let result = session.call_tool_answered("test_tool", result).unwrap();
    assert_eq!(result.content[0].as_text(), Some("done"));
    assert_eq!(session.pending_count(), 0);
}

#[test]
fn send_progress_notification_wire_shape() {
    let session = setup();
    let sent = session.send_progress_notification(
        ProgressToken::String("my-token".into()),
        double(0.5),
        Some(double(1.0)),
        Some("50%".into()),
    );
    let v = sent.to_value();
    assert_eq!(at(&v, &["method"]).as_str(), Some("notifications/progress"));
    assert_eq!(at(&v, &["params", "progressToken"]).as_str(), Some("my-token"));
    assert_eq!(*at(&v, &["params", "progress"]), json("0.5"));
    assert_eq!(*at(&v, &["params", "total"]), json("1.0"));
    assert_eq!(at(&v, &["params", "message"]).as_str(), Some("50%"));
    let sent = session.send_progress_notification(ProgressToken::Number(42), double(1.0), None, None);
    let v = sent.to_value();
    assert_eq!(*at(&v, &["params", "progressToken"]), json("42"));
    assert!(at(&v, &["params"]).get("total").is_none());
    assert!(at(&v, &["params"]).get("message").is_none());
}

#[test]
fn roots_list_request_and_roots_changed_notification() {
    let mut session = setup();
    session.set_list_roots_callback("roots");
    match session.received_request(&request(1, "roots/list", None)) {
        ClientStep::ListRoots(handler) => assert_eq!(*handler, "roots"),
        _ => panic!("expected a look at the roots"),
    }
    let roots = ListRootsResult {
        roots: vec![Root { uri: "file:///tmp".into(), name: Some("tmp".into()) }],
        meta: None,
    };
    let reply = answer_roots(&RequestId::Number(1), Ok(roots)).to_value();
    assert_eq!(*at(&reply, &["id"]), json("1"));
    assert_eq!(at(&reply, &["result", "roots", "0", "uri"]).as_str(), Some("file:///tmp"));
    let failed = McpError::state("no disk".to_string());
    let reply = answer_roots(&RequestId::Number(1), Err(failed)).to_value();
    assert_eq!(at(&reply, &["error", "message"]).as_str(), Some("no disk"));

    let v = session.send_roots_list_changed().to_value();
    assert_eq!(at(&v, &["method"]).as_str(), Some("notifications/roots/list_changed"));
    assert!(at(&v, &["params"]).is_object());

    let caps = session.build_client_capabilities();
    assert!(caps.roots.unwrap().list_changed);
    assert!(caps.sampling.is_none());
    assert!(caps.elicitation.is_none());
}

#[test]
fn unknown_request_and_missing_callbacks_reply_method_not_found() {
    let session = setup();
    let v = replied(&session, &request(1, "roots/list", None));
    assert_eq!(*at(&v, &["error", "code"]), json("-32601"));
    let v = replied(&session, &request(2, "sampling/createMessage", Some(SAMPLING)));
    assert_eq!(*at(&v, &["error", "code"]), json("-32601"));
    let form = r#"{"mode": "form", "message": "m", "requestedSchema": {}}"#;
    let v = replied(&session, &request(3, "elicitation/create", Some(form)));
    assert_eq!(*at(&v, &["error", "code"]), json("-32601"));
    let v = replied(&session, &request(4, "whatever", None));
    assert_eq!(*at(&v, &["error", "code"]), json("-32601"));
    assert_eq!(at(&v, &["error", "message"]).as_str(), Some("Method not found: whatever"));
    assert_eq!(session.pending_count(), 0);
}

#[test]
fn sampling_capability_gating_and_validation() {
    let mut session = setup();
    let method = "sampling/createMessage";
    session.set_sampling_create_message_callback(
        "sample",
        SamplingCapability { context: true, tools: false },
    );
    let with_tools = r#"{"maxTokens": 1, "messages": [{"role": "user",
        "content": {"type": "text", "text": "hello"}}], "tools": []}"#;
    let v = replied(&session, &request(1, method, Some(with_tools)));
    assert_eq!(*at(&v, &["id"]), json("1"));
    assert_eq!(*at(&v, &["error", "code"]), json("-32602"));

    session.set_sampling_create_message_callback(
        "sample",
        SamplingCapability { context: false, tools: true },
    );
    let with_context = r#"{"maxTokens": 1, "messages": [{"role": "user",
        "content": {"type": "text", "text": "hello"}}], "includeContext": "thisServer"}"#;
    let v = replied(&session, &request(2, method, Some(with_context)));
    assert_eq!(*at(&v, &["error", "code"]), json("-32602"));

    session.set_sampling_create_message_callback(
        "sample",
        SamplingCapability { context: true, tools: true },
    );
    let invalid = r#"{"maxTokens": 1, "messages": [{"role": "user",
        "content": {"type": "tool_result", "toolUseId": "missing"}}]}"#;
    let v = replied(&session, &request(3, method, Some(invalid)));
    assert_eq!(*at(&v, &["error", "code"]), json("-32602"));

    match session.received_request(&request(4, method, Some(SAMPLING))) {
        ClientStep::Sample { handler, params } => {
            assert_eq!(*handler, "sample");
            assert_eq!(params.max_tokens, 1);
        }
        _ => panic!("expected a sample"),
    }
    let v = answer_sampling(&RequestId::Number(4), Ok(None)).to_value();
    assert_eq!(*at(&v, &["error", "code"]), json("-1"));
    assert_eq!(at(&v, &["error", "message"]).as_str(), Some("User rejected sampling request"));

    let v = replied(&session, &request(5, method, Some("5")));
    assert_eq!(
        at(&v, &["error", "message"]).as_str(),
        Some("Invalid params for sampling/createMessage")
    );

    session.set_sampling_create_message_callback("sample", SamplingCapability::default());
    let made = CreateMessageResult {
        model: "ut-model".into(),
        role: RoleType::Assistant,
        content: SamplingContent::text("ok".to_string()),
        stop_reason: None,
        meta: None,
    };
    let v = answer_sampling(&RequestId::Number(6), Ok(Some(made))).to_value();
    assert_eq!(at(&v, &["result", "model"]).as_str(), Some("ut-model"));
    assert_eq!(at(&v, &["result", "role"]).as_str(), Some("assistant"));
    let caps = session.build_client_capabilities();
    assert_eq!(caps.sampling, Some(SamplingCapability::default()));
}

#[test]
fn elicitation_form_and_url() {
    let mut session = setup();
    session.set_elicit_callback("form");
    session.set_elicit_url_callback("page");
    let e = session.build_client_capabilities().elicitation.unwrap();
    assert!(e.form.is_some() && e.url.is_some());

    let form = r#"{"mode": "form", "message": "name?", "requestedSchema": {"type": "object"}}"#;
    match session.received_request(&request(1, "elicitation/create", Some(form))) {
        ClientStep::Elicit { handler, message, requested_schema } => {
            assert_eq!(*handler, "form");
            let mut content = MetaMap::new();
            content.insert("message", Json::String(message));
            content.insert("schema", requested_schema.get("type").unwrap().clone());
            let result = ElicitResult { action: "accept".into(), content, meta: None };
            let v = answer_elicit(&RequestId::Number(1), Ok(result)).to_value();
            assert_eq!(at(&v, &["result", "action"]).as_str(), Some("accept"));
            assert_eq!(at(&v, &["result", "content", "message"]).as_str(), Some("name?"));
            assert_eq!(at(&v, &["result", "content", "schema"]).as_str(), Some("object"));
        }
        _ => panic!("expected a form"),
    }
    let page =
        r#"{"mode": "url", "message": "go", "url": "https://x", "elicitationId": "e1"}"#;
    match session.received_request(&request(2, "elicitation/create", Some(page))) {
        ClientStep::ElicitUrl { handler, message, url, elicitation_id } => {
            assert_eq!(*handler, "page");
            assert_eq!((message.as_str(), url.as_str()), ("go", "https://x"));
            assert_eq!(elicitation_id, "e1");
        }
        _ => panic!("expected a page"),
    }
    let v = replied(&session, &request(3, "elicitation/create", Some(r#"{"mode": "other"}"#)));
    assert_eq!(*at(&v, &["error", "code"]), json("-32602"));
}

#[test]
fn initialize_handshake_and_notifications() {
    let mut session = setup();
    let (id, sent) = session.initialize("opener");
    let req = asked(&sent);
    assert_eq!(req.method, "initialize");
    let params = req.params.as_ref().unwrap();
    assert_eq!(at(params, &["protocolVersion"]).as_str(), Some(LATEST_PROTOCOL_VERSION));
    assert_eq!(at(params, &["clientInfo", "name"]).as_str(), Some("MCP Client"));
    assert_eq!(*at(params, &["capabilities"]), json("{}"));
    let outcome = answered(
        &mut session,
        &id,
        r#"{"protocolVersion": "2025-03-26", "capabilities": {"tools": {"listChanged": true}},
            "serverInfo": {"name": "S", "version": "1"}}"#,
    );
    let result: InitializeResult = read_result("initialize", outcome).unwrap();
    let result = session.initialize_answered(result).unwrap();
    assert_eq!(result.server_info.name, "S");
    let v = session.send_initialized_notification().to_value();
    assert_eq!(at(&v, &["method"]).as_str(), Some("notifications/initialized"));
    assert!(at(&v, &["params"]).is_object());
    assert!(!session.is_initialized());
    session.initialized_sent();
    assert!(session.is_initialized());
    assert!(session.server_capabilities().tools.is_some());

    // Logging notification with and without callback.
    let line = notification(
        "notifications/message",
        Some(r#"{"level": "info", "data": "hello", "logger": "srv"}"#),
    );
    assert!(matches!(
        session.received_notification(&line, 0),
        Notice::Log { handler: None, .. }
    ));
    session.set_logging_callback("log");
    match session.received_notification(&line, 0) {
        Notice::Log { handler, level, data, logger } => {
            assert_eq!(handler, Some(&"log"));
            assert_eq!((level.as_str(), logger.as_str()), ("info", "srv"));
            assert_eq!(data, json(r#""hello""#));
        }
        _ => panic!("expected a line of the log"),
    }
    for method in ["notifications/tools/list_changed", "notifications/unknown"] {
        let told = notification(method, None);
        assert!(matches!(session.received_notification(&told, 0), Notice::Nothing));
    }
}

#[test]
fn unsupported_server_version_fails_initialize() {
    let mut session = setup();
    let (id, _) = session.initialize("opener");
    let outcome = answered(&mut session, &id, r#"{"protocolVersion": "1999-01-01"}"#);
    let result: InitializeResult = read_result("initialize", outcome).unwrap();
    let err = session.initialize_answered(result).unwrap_err();
    assert!(err
        .message()
        .contains("Unsupported protocol version from the server: 1999-01-01"));
    assert!(!session.is_initialized());
}

#[test]
fn transport_failure_and_rpc_errors_surface() {
    let mut session = setup();
    let (id, _) = session.send_ping("pinger");
    let err = send_failed(&McpError::Transport("boom".into()));
    session.forget(&id, 0);
    assert_eq!(err.code(), Some(-32603));
    assert!(err.message().starts_with("Transport error:"));
    assert_eq!(session.pending_count(), 0);

    let (id, sent) = session.list_prompts("lister");
    assert!(asked(&sent).params.as_ref().unwrap().is_null());
    let refused = RpcError::invalid_params("bad".to_string());
    let response = Response::error(Some(id.clone()), refused);
    let (_, outcome) = session.handle_response(response, 0).unwrap();
    let outcome = session.settle(&id, WaitOutcome::Answered(outcome), 50, 0);
    let err = read_result::<ListPromptsResult>("prompts/list", outcome).unwrap_err();
    assert_eq!(err.code_enum(), Some(JsonRpcErrorCode::InvalidParams));
    assert_eq!(err.message(), "bad");
}

#[test]
fn output_schema_validation_after_list_tools() {
    let mut session = setup();
    let (id, sent) = session.list_tools(Some("10".into()), "lister");
    let params = asked(&sent).params.as_ref().unwrap();
    assert_eq!(at(params, &["cursor"]).as_str(), Some("10"));
    let outcome = answered(
        &mut session,
        &id,
        r#"{"tools": [{"name": "echo", "outputSchema": {"type": "object", "required": ["result"]}}],
            "nextCursor": "20"}"#,
    );
    let list: ListToolsResult = read_result("tools/list", outcome).unwrap();
    session.cache_tool_schemas(&list);
    assert_eq!(list.next_cursor.as_deref(), Some("20"));

    let (id, _) = session.call_tool("echo", &Some(json(r#"{"x": 1}"#)), "caller", None);
    let body = r#"{"content": [], "structuredContent": {"other": 1}, "isError": false}"#;
    let outcome = answered(&mut session, &id, body);
    let result: CallToolResult = read_result("tools/call", outcome).unwrap();
    let err = session.call_tool_answered("echo", result).unwrap_err();
    assert!(err.message().starts_with("Invalid structured content for tool echo"));

    let (id, _) = session.call_tool("echo", &None, "caller", None);
    let body = r#"{"content": [], "structuredContent": {"other": 1}, "isError": true}"#;
    let outcome = answered(&mut session, &id, body);
    let result: CallToolResult = read_result("tools/call", outcome).unwrap();
    assert!(session.call_tool_answered("echo", result).unwrap().is_error);
}

#[test]
fn request_timeout_is_reported() {
    let mut session = setup();
    let (id, _) = session.call_tool("slow", &None, "caller", None);
    let timeout = call_timeout(5);
    let err = session.settle(&id, WaitOutcome::TimedOut, timeout, 5).unwrap_err();
    assert!(matches!(err, McpError::Timeout(5)));
    assert_eq!(session.pending_count(), 0);
    assert_eq!(call_timeout(0), 30_000);
}

#[test]
fn disconnection_fails_what_waits() {
    let mut session = setup();
    let _ = session.send_ping("first");
    let _ = session.list_prompts("second");
    let (waiting, error) = session.on_disconnected("eof");
    assert_eq!(waiting.len(), 2);
    assert_eq!(waiting.get(&1), Some(&"first"));
    assert_eq!(error.message, "Transport disconnected: eof");
    assert_eq!(session.pending_count(), 0);
    let late = Response::success(RequestId::Number(1), json("{}"));
    assert!(session.handle_response(late, 0).is_none());
}

#[test]
fn answers_that_do_not_fit_are_errors() {
    let err = read_result::<EmptyResult>("ping", Ok(json("5"))).unwrap_err();
    assert_eq!(
        err.message(),
        "Result type mismatch for ping: the value does not have the expected form"
    );
    let err = read_result::<EmptyResult>("ping", Err(McpError::Closed)).unwrap_err();
    assert!(matches!(err, McpError::Closed));
}
