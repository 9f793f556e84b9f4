use mcp_sdk::error::McpError;
use mcp_sdk::json::Json;
use mcp_sdk::protocol::LATEST_PROTOCOL_VERSION;
use mcp_sdk::server::session::{read_answer, Outgoing, Reaction, ServerSession};
use mcp_sdk::session::WaitOutcome;
use mcp_sdk::transport::RequestContext;
use mcp_sdk::types::{
    ClientCapabilities, CreateMessageParams, CreateMessageResult, ElicitResult, Implementation,
    InitializeRequestParams, ListRootsResult, MetaMap, ProgressToken, Real, ResourcesCapabilities,
    RoleType, RootsCapability, SamplingCapability, SamplingContent, SamplingMessage,
    SamplingMessageContentBlock, ServerCapabilities, ToolResultContent, ToolUseContent,
};
use mcp_sdk::wire::Wire;
use mcp_sdk::{Message, Notification, Request, RequestId, Response, RpcError};

type Session = ServerSession<(), &'static str>;

fn json(text: &str) -> Json {
    Json::parse(text).unwrap()
}

fn double(x: f64) -> Real {
    Real { bits: x.to_bits() }
}

fn ctx() -> RequestContext<()> {
    RequestContext { connection_id: 1, ..RequestContext::server_initiated("ut", "") }
}

fn at<'a>(value: &'a Json, path: &[&str]) -> &'a Json {
    let mut v = value;
    for step in path {
        v = match (v, step.parse::<usize>()) {
            (Json::Array(items), Ok(i)) => &items[i],
            _ => v.get(step).unwrap(),
        };
    }
    v
}

fn setup() -> Session {
    ServerSession::new(true, "MCP Server".into(), "1.0.0".into(), "ut".into(), false)
}

fn request(id: i64, method: &str, params: Option<Json>) -> Request {
    Request::new(RequestId::Number(id), method.to_string(), params)
}

fn notification(method: &str, params: Option<&str>) -> Notification {
    Notification::new(method.to_string(), params.map(json))
}

fn replied(session: &mut Session, request: Request) -> Json {
    match session.received_request(request, ctx(), false) {
        Reaction::Reply(m) => m.to_value(),
        _ => panic!("expected a reply"),
    }
}

fn initialize(session: &mut Session, capabilities: ClientCapabilities) {
    let params = InitializeRequestParams {
        capabilities,
        client_info: Implementation::new("ut-client".into(), "0.0.0".into()),
        ..Default::default()
    };
    let _ = replied(session, request(1, "initialize", Some(params.to_json())));
    let told = notification("notifications/initialized", None);
    assert!(matches!(session.received_notification(told, false), Reaction::Nothing));
}

fn send(session: &mut Session, outgoing: Outgoing) -> (RequestId, Json) {
    let (id, m) = session.send_request(outgoing.method, outgoing.params, "waiter").unwrap();
    (id, m.to_value())
}

fn settled(session: &mut Session, id: &RequestId, response: Response) -> Result<Json, McpError> {
    let (_, outcome) = session.handle_response(response, 0).unwrap();
    session.settle(id, WaitOutcome::Answered(outcome), 50, 0)
}

fn told<T>(r: Result<T, McpError>) -> String {
    match r {
        Ok(_) => panic!("expected an error"),
        Err(e) => e.message(),
    }
}

fn minimal() -> CreateMessageParams {
    CreateMessageParams {
        messages: vec![SamplingMessage::text(RoleType::User, "hello".into())],
        max_tokens: 3,
        ..Default::default()
    }
}

fn samples(tools: bool, context: bool) -> ClientCapabilities {
    ClientCapabilities {
        sampling: Some(SamplingCapability { tools, context }),
        ..Default::default()
    }
}

#[test]
fn initialize_negotiates_version_and_stores_client_caps() {
    let mut session = setup();
    let params = json(
        r#"{"protocolVersion": "1999-01-01", "capabilities": {"roots": {"listChanged": true}},
            "clientInfo": {"name": "c", "version": "1"}}"#,
    );
    let v = replied(&mut session, request(1, "initialize", Some(params)));
    assert_eq!(at(&v, &["result", "protocolVersion"]).as_str(), Some(LATEST_PROTOCOL_VERSION));
    assert_eq!(at(&v, &["result", "serverInfo", "name"]).as_str(), Some("MCP Server"));
    assert!(session.is_initialized());
    assert!(session.get_client_capabilities().roots.unwrap().list_changed);

    let mut session = setup();
    let params = json(r#"{"protocolVersion": "2025-03-26"}"#);
    let v = replied(&mut session, request(1, "initialize", Some(params)));
    assert_eq!(at(&v, &["result", "protocolVersion"]).as_str(), Some("2025-03-26"));
}

#[test]
fn the_offer_of_the_client_is_kept() {
    let mut session = setup();
    assert_eq!(session.get_client_capabilities(), Default::default());
    let params = json(
        r#"{"capabilities": {"elicitation": {"form": {}, "url": {}}, "sampling": {"tools": {}}}}"#,
    );
    let _ = replied(&mut session, request(1, "initialize", Some(params)));
    let offer = session.get_client_capabilities();
    let modes = offer.elicitation.unwrap();
    assert!(modes.form.is_some() && modes.url.is_some());
    assert!(offer.sampling.unwrap().tools && offer.roots.is_none());
    assert_eq!(offer.clone(), offer);
    // What cannot be read offers nothing.
    let params = json(r#"{"protocolVersion": 3, "capabilities": {"roots": {}}}"#);
    let _ = replied(&mut session, request(2, "initialize", Some(params)));
    assert_eq!(session.get_client_capabilities(), Default::default());
}

#[test]
fn capabilities_force_subscribe_false() {
    let mut session = setup();
    session.set_server_capabilities(ServerCapabilities {
        resources: Some(ResourcesCapabilities { subscribe: Some(true), list_changed: Some(true) }),
        ..Default::default()
    });
    let v = replied(&mut session, request(1, "initialize", Some(json("{}"))));
    let said = at(&v, &["result", "capabilities", "resources"]);
    assert_eq!(at(said, &["subscribe"]).as_bool(), Some(false));
    assert_eq!(at(said, &["listChanged"]).as_bool(), Some(true));
}

#[test]
fn request_before_initialize_is_rejected() {
    let mut session = setup();
    let v = replied(&mut session, request(5, "tools/list", None));
    assert_eq!(*at(&v, &["id"]), json("5"));
    assert_eq!(*at(&v, &["error", "code"]), json("-32600"));
}

#[test]
fn list_roots_round_trip_and_capability_check() {
    let mut session = setup();
    initialize(&mut session, ClientCapabilities::default());
    assert_eq!(told(session.list_roots()), "Client does not support roots/list");

    let mut session = setup();
    initialize(
        &mut session,
        ClientCapabilities {
            roots: Some(RootsCapability { list_changed: false }),
            ..Default::default()
        },
    );
    let outgoing = session.list_roots().unwrap();
    let op_name = outgoing.op_name.clone();
    let (id, v) = send(&mut session, outgoing);
    assert_eq!(at(&v, &["method"]).as_str(), Some("roots/list"));
    assert!(at(&v, &["params"]).is_null());
    assert!(at(&v, &["id"]).as_i64().unwrap() > 0);
    let answer = json(r#"{"roots": [{"uri": "file:///tmp", "name": "tmp"}]}"#);
    let outcome = settled(&mut session, &id, Response::success(id.clone(), answer));
    let roots: ListRootsResult = read_answer(&op_name, outcome).unwrap();
    assert_eq!(roots.roots[0].uri, "file:///tmp");
    assert_eq!(session.pending_count(), 0);
}

#[test]
fn sampling_preconditions() {
    let detached: Session = ServerSession::detached();
    assert!(detached.sampling_create_message(&minimal()).is_err());

    let mut session = setup();
    assert_eq!(told(session.sampling_create_message(&minimal())), "Session is not initialized");
    initialize(&mut session, ClientCapabilities::default());
    assert_eq!(
        told(session.sampling_create_message(&minimal())),
        "Client does not support sampling/createMessage"
    );

    let mut session = setup();
    initialize(&mut session, samples(false, true));
    let mut p = minimal();
    p.tools = Some(vec![]);
    assert!(session.sampling_create_message(&p).is_err());

    let mut session = setup();
    initialize(&mut session, samples(true, false));
    let mut p = minimal();
    p.include_context = Some("thisServer".into());
    assert_eq!(
        told(session.sampling_create_message(&p)),
        "includeContext requires sampling.context capability"
    );

    // tool_use / tool_result validation failures.
    let mut session = setup();
    initialize(
        &mut session,
        ClientCapabilities {
            sampling: Some(SamplingCapability::default()),
            ..Default::default()
        },
    );
    let tool_result = SamplingMessage {
        role: RoleType::User,
        content: SamplingContent::Single(SamplingMessageContentBlock::ToolResult(
            ToolResultContent { tool_use_id: "id-1".into(), ..Default::default() },
        )),
        meta: None,
    };
    let only_result =
        CreateMessageParams { messages: vec![tool_result.clone()], ..Default::default() };
    assert!(session.sampling_create_message(&only_result).is_err());
    let mismatch = CreateMessageParams {
        messages: vec![
            SamplingMessage {
                role: RoleType::Assistant,
                content: SamplingContent::Single(SamplingMessageContentBlock::ToolUse(
                    ToolUseContent {
                        id: "use-1".into(),
                        name: "t".into(),
                        ..Default::default()
                    },
                )),
                meta: None,
            },
            tool_result,
        ],
        ..Default::default()
    };
    assert!(session.sampling_create_message(&mismatch).is_err());
}

#[test]
fn sampling_round_trip_and_error_paths() {
    let mut session = setup();
    initialize(
        &mut session,
        ClientCapabilities {
            sampling: Some(SamplingCapability::default()),
            ..Default::default()
        },
    );
    let op = "SamplingCreateMessage";
    let outgoing = session.sampling_create_message(&minimal()).unwrap();
    assert_eq!(outgoing.op_name, op);
    let (id, v) = send(&mut session, outgoing);
    assert_eq!(at(&v, &["method"]).as_str(), Some("sampling/createMessage"));
    assert_eq!(*at(&v, &["params", "maxTokens"]), json("3"));
    assert!(matches!(at(&v, &["params", "messages"]), Json::Array(_)));
    let answer = json(
        r#"{"model": "ut-model", "role": "assistant", "content": {"type": "text", "text": "ok"}}"#,
    );
    let outcome = settled(&mut session, &id, Response::success(id.clone(), answer));
    let result: CreateMessageResult = read_answer(op, outcome).unwrap();
    assert_eq!(result.model, "ut-model");
    assert_eq!(result.role, RoleType::Assistant);

    // Error response.
    let outgoing = session.sampling_create_message(&minimal()).unwrap();
    let (id, _) = send(&mut session, outgoing);
    let refused = RpcError::internal_error("err".into());
    let outcome = settled(&mut session, &id, Response::error(Some(id.clone()), refused));
    let err = told(read_answer::<CreateMessageResult>(op, outcome));
    assert!(err.contains("SamplingCreateMessage"));

    // Null result and type mismatch.
    let outgoing = session.sampling_create_message(&minimal()).unwrap();
    let (id, _) = send(&mut session, outgoing);
    let outcome = settled(&mut session, &id, Response::success(id.clone(), Json::Null));
    assert!(read_answer::<CreateMessageResult>(op, outcome).is_err());
    let outgoing = session.sampling_create_message(&minimal()).unwrap();
    let (id, _) = send(&mut session, outgoing);
    let outcome = settled(&mut session, &id, Response::success(id.clone(), json("[1, 2]")));
    let err = told(read_answer::<CreateMessageResult>(op, outcome));
    assert!(err.contains("result type mismatch"));
}

#[test]
fn progress_and_list_changed_notifications() {
    let session = setup();
    let sent = session
        .send_progress_notification(
            ProgressToken::String("my-task-123".into()),
            double(0.5),
            Some(double(1.0)),
            Some("50% complete".into()),
        )
        .unwrap();
    let v = sent.message.to_value();
    assert_eq!(at(&v, &["method"]).as_str(), Some("notifications/progress"));
    assert_eq!(at(&v, &["params", "progressToken"]).as_str(), Some("my-task-123"));
    assert_eq!(*at(&v, &["params", "progress"]), json("0.5"));
    assert_eq!(*at(&v, &["params", "total"]), json("1.0"));
    assert_eq!(at(&v, &["params", "message"]).as_str(), Some("50% complete"));
    assert!(sent.ctx.is_get_stream);
    assert_eq!(sent.ctx.connection_id, 0);

    let sent = session
        .send_progress_notification(ProgressToken::Number(12345), double(0.75), None, None)
        .unwrap();
    let v = sent.message.to_value();
    assert_eq!(*at(&v, &["params", "progressToken"]), json("12345"));
    assert!(at(&v, &["params"]).get("total").is_none());
    assert!(at(&v, &["params"]).get("message").is_none());

    let v = session.send_tool_list_changed_notification().unwrap().message.to_value();
    assert_eq!(at(&v, &["method"]).as_str(), Some("notifications/tools/list_changed"));
    assert!(at(&v, &["params"]).is_object());
    let v = session.send_prompt_list_changed_notification().unwrap().message.to_value();
    assert_eq!(at(&v, &["method"]).as_str(), Some("notifications/prompts/list_changed"));
    let v = session.send_resource_list_changed_notification().unwrap().message.to_value();
    assert_eq!(at(&v, &["method"]).as_str(), Some("notifications/resources/list_changed"));
    let v = session.send_resource_updated_notification("u").unwrap().message.to_value();
    assert_eq!(at(&v, &["params", "uri"]).as_str(), Some("u"));
    let v = session.send_log_message("info", json(r#""hello""#), "srv").unwrap();
    let v = v.message.to_value();
    assert_eq!(at(&v, &["method"]).as_str(), Some("notifications/message"));
    assert_eq!(at(&v, &["params", "level"]).as_str(), Some("info"));
    assert_eq!(at(&v, &["params", "logger"]).as_str(), Some("srv"));

    // No transport: notifications are silently dropped.
    let detached: Session = ServerSession::detached();
    let token = ProgressToken::String("test".into());
    assert!(detached
        .send_progress_notification(token, double(0.5), Some(double(1.0)), Some("test".into()))
        .is_none());
}

#[test]
fn elicitation_requests() {
    let mut session = setup();
    initialize(&mut session, ClientCapabilities::default());
    let outgoing = session.elicit("name?", MetaMap::new()).unwrap();
    let (id, v) = send(&mut session, outgoing);
    assert_eq!(at(&v, &["method"]).as_str(), Some("elicitation/create"));
    assert_eq!(at(&v, &["params", "mode"]).as_str(), Some("form"));
    let answer = json(r#"{"action": "accept", "content": {"name": "x"}}"#);
    let outcome = settled(&mut session, &id, Response::success(id.clone(), answer));
    let r: ElicitResult = read_answer("Elicit", outcome).unwrap();
    assert_eq!(r.action, "accept");

    let outgoing = session.elicit_url("go", "https://x", "e1").unwrap();
    let (id, v) = send(&mut session, outgoing);
    assert_eq!(at(&v, &["params", "mode"]).as_str(), Some("url"));
    assert_eq!(at(&v, &["params", "elicitationId"]).as_str(), Some("e1"));
    let answer = json(r#"{"action": "cancel"}"#);
    let outcome = settled(&mut session, &id, Response::success(id.clone(), answer));
    let r: ElicitResult = read_answer("ElicitUrl", outcome).unwrap();
    assert_eq!(r.action, "cancel");

    let stateless: Session =
        ServerSession::new(true, "MCP Server".into(), "1.0.0".into(), String::new(), true);
    assert!(told(stateless.elicit("x", MetaMap::new())).contains("stateless"));
}

#[test]
fn dispatch_to_handler_and_cancellation() {
    let mut session = setup();
    initialize(&mut session, ClientCapabilities::default());
    match session.received_request(request(7, "tools/list", None), ctx(), true) {
        Reaction::Handle(r) => {
            assert_eq!(r.method, "tools/list");
            let result = json(r#"{"echo": "tools/list"}"#);
            let v = session.send_response(r.id, result, false).unwrap().to_value();
            assert_eq!(at(&v, &["result", "echo"]).as_str(), Some("tools/list"));
        }
        _ => panic!("expected the request to be handled"),
    }
    match session.received_notification(notification("notifications/custom", None), true) {
        Reaction::Notify(n) => assert_eq!(n.method, "notifications/custom"),
        _ => panic!("expected the notification to be handed on"),
    }

    // Cancellation: the pending context is marked and an error with code 0 is sent.
    let started = session.received_request(request(9, "tools/call", None), ctx(), true);
    assert!(matches!(started, Reaction::Handle(_)));
    let cancel = notification(
        "notifications/cancelled",
        Some(r#"{"requestId": 9, "reason": "user"}"#),
    );
    match session.received_notification(cancel, true) {
        Reaction::ReplyTo { id, message } => {
            assert_eq!(id, RequestId::Number(9));
            let v = message.to_value();
            assert_eq!(*at(&v, &["id"]), json("9"));
            assert_eq!(*at(&v, &["error", "code"]), json("0"));
            assert_eq!(at(&v, &["error", "message"]).as_str(), Some("Request cancelled"));
        }
        _ => panic!("expected an error for the cancelled request"),
    }
    assert!(session.send_response(RequestId::Number(9), json("{}"), false).is_none());
    assert!(session.context(&RequestId::Number(9)).is_none());
}

#[test]
fn an_error_response_ends_a_request() {
    let mut session = setup();
    initialize(&mut session, ClientCapabilities::default());
    let _ = session.received_request(request(3, "tools/call", None), ctx(), true);
    assert_eq!(session.context(&RequestId::Number(3)).unwrap().connection_id, 1);
    let failed = RpcError::invalid_params("bad".into());
    let m = session.send_error_response(RequestId::Number(3), failed);
    assert!(matches!(m, Message::Response(ref r) if r.error.as_ref().unwrap().code == -32602));
    assert!(session.context(&RequestId::Number(3)).is_none());
}

#[test]
fn without_a_transport_nothing_is_asked() {
    let mut detached: Session = ServerSession::detached();
    let asked = detached.send_request("ping".into(), None, "waiter");
    assert_eq!(told(asked), "Transport not set");
    assert_eq!(detached.pending_count(), 0);
}
