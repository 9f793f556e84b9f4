use mcp_sdk::auth::{NoAuthAuthenticator, ScopeBasedAuthorizer};
use mcp_sdk::json::Json;
use mcp_sdk::protocol::DEFAULT_PROTOCOL_VERSION;
use mcp_sdk::types::{
    AudioContent, BlobResourceContents, CallToolResult, ClientCapabilities, ClientConfig,
    ClientTasksCapability, CompleteReference, CompleteResult, ContentBlock, CreateMessageResult,
    ElicitResult, ElicitationCapability, EmbeddedResource, EmptyResult, FormElicitationCapability,
    ImageContent, InitializeResult, ListRootsResult, LoggingCapabilities, LoggingLevel, MetaMap,
    ProgressToken, PromptInfo, PromptMessage, PromptReference, PromptsCapabilities,
    ResourceContents, ResourceLink, ResourceTemplateReference, ResourcesCapabilities, RoleType,
    Root, RootsCapability, SamplingCapability, SamplingContent, SamplingMessage,
    SamplingMessageContentBlock, ServerCapabilities, ServerConfig, StreamableHttpClientConfig,
    StreamableHttpServerConfig, TextResourceContents, TlsConfig, Tool, ToolsCapabilities,
};
use mcp_sdk::wire::Wire;
use mcp_sdk::RequestId;

type HttpServerConfig = StreamableHttpServerConfig<NoAuthAuthenticator, ScopeBasedAuthorizer>;

fn json(text: &str) -> Json {
    Json::parse(text).unwrap()
}

fn read<T: Wire>(text: &str) -> T {
    T::from_json(&json(text)).unwrap()
}

fn at<'a>(value: &'a Json, path: &[&str]) -> &'a Json {
    let mut v = value;
    for step in path {
        v = match (v, step.parse::<usize>()) {
            (Json::Array(items), Ok(i)) => &items[i],
            _ => v.get(step).unwrap(),
        };
    }
    v
}

#[test]
fn client_capabilities_wire_shape() {
    let caps = ClientCapabilities {
        sampling: Some(SamplingCapability { context: true, tools: true }),
        elicitation: Some(ElicitationCapability {
            form: Some(FormElicitationCapability {}),
            url: None,
        }),
        roots: Some(RootsCapability { list_changed: true }),
        tasks: Some(ClientTasksCapability {
            sampling_create_message: true,
            ..Default::default()
        }),
        experimental: None,
    };
    let v = caps.to_json();
    assert_eq!(*at(&v, &["sampling"]), json(r#"{"context": {}, "tools": {}}"#));
    assert_eq!(*at(&v, &["elicitation"]), json("{}"));
    assert_eq!(*at(&v, &["roots"]), json(r#"{"listChanged": true}"#));
    assert_eq!(
        *at(&v, &["tasks"]),
        json(r#"{"requests": {"sampling": {"createMessage": {}}}}"#)
    );
    let back = ClientCapabilities::from_json(&v).unwrap();
    assert!(back.sampling.unwrap().context);
    assert!(back.elicitation.is_some());
    assert!(back.roots.unwrap().list_changed);
    assert!(back.tasks.unwrap().sampling_create_message);

    let empty: ClientCapabilities = read("{}");
    assert_eq!(empty, ClientCapabilities::default());
    assert_eq!(empty.to_json(), json("{}"));
    let roots_false = RootsCapability { list_changed: false }.to_json();
    assert_eq!(roots_false, json("{}"));
}

#[test]
fn server_capabilities_wire_shape() {
    let caps = ServerCapabilities {
        logging: Some(LoggingCapabilities {}),
        prompts: Some(PromptsCapabilities { list_changed: Some(true) }),
        resources: Some(ResourcesCapabilities {
            subscribe: Some(false),
            list_changed: Some(false),
        }),
        tools: Some(ToolsCapabilities { list_changed: Some(true) }),
        experimental: None,
    };
    let v = caps.to_json();
    assert_eq!(*at(&v, &["logging"]), json("{}"));
    assert_eq!(*at(&v, &["prompts", "listChanged"]), json("true"));
    assert_eq!(*at(&v, &["resources", "subscribe"]), json("false"));
    assert_eq!(*at(&v, &["tools", "listChanged"]), json("true"));
    let back = ServerCapabilities::from_json(&v).unwrap();
    assert_eq!(back, caps);
}

#[test]
fn content_block_roundtrip_and_fallback() {
    let blocks = vec![
        ContentBlock::text("hi".to_string()),
        ContentBlock::Image(ImageContent {
            data: "abc".into(),
            mime_type: "image/png".into(),
            annotations: None,
        }),
        ContentBlock::Audio(AudioContent {
            data: "abc".into(),
            mime_type: "audio/wav".into(),
            annotations: None,
        }),
        ContentBlock::ResourceLink(ResourceLink {
            uri: "test".into(),
            name: "test".into(),
            size: Some(1024),
            ..Default::default()
        }),
        ContentBlock::EmbeddedResource(EmbeddedResource {
            resource: ResourceContents::Blob(BlobResourceContents {
                uri: "u".into(),
                blob: "AQID".into(),
                mime_type: Some("application/octet-stream".into()),
            }),
            annotations: None,
        }),
    ];
    let v = blocks.to_json();
    assert_eq!(*at(&v, &["0"]), json(r#"{"type": "text", "text": "hi"}"#));
    assert_eq!(*at(&v, &["3", "type"]), json(r#""resource_link""#));
    assert_eq!(*at(&v, &["4", "type"]), json(r#""resource""#));
    assert_eq!(*at(&v, &["4", "resource", "blob"]), json(r#""AQID""#));
    let back: Vec<ContentBlock> = Wire::from_json(&v).unwrap();
    assert_eq!(back, blocks);
    let names: Vec<&str> = back.iter().map(|b| b.kind_name()).collect();
    assert_eq!(names, ["text", "image", "audio", "resource_link", "resource"]);

    let unknown: ContentBlock = read(r#"{"type": "video", "x": 1}"#);
    assert_eq!(unknown.as_text().unwrap(), r#"{"type":"video","x":1}"#);
    let embedded: EmbeddedResource =
        read(r#"{"resource": {"uri": "u", "text": "t"}, "annotations": null}"#);
    assert_eq!(
        embedded.resource,
        ResourceContents::Text(TextResourceContents {
            uri: "u".into(),
            text: "t".into(),
            mime_type: None
        })
    );
}

#[test]
fn call_tool_result_content_string_compat() {
    let r: CallToolResult = read(r#"{"content": "plain"}"#);
    assert_eq!(r.content[0].as_text(), Some("plain"));
    assert!(!r.is_error);
    let r: CallToolResult = read(
        r#"{"content": [{"type": "text", "text": "a"}], "structuredContent": {"k": 1},
            "isError": true, "_meta": {"trace": "x"}}"#,
    );
    assert!(r.is_error);
    assert_eq!(r.structured_content, Some(json(r#"{"k": 1}"#)));
    assert_eq!(r.meta.unwrap().get("trace"), Some(&json(r#""x""#)));
    let v = CallToolResult::text("x".to_string()).to_json();
    assert_eq!(*at(&v, &["isError"]), json("false"));
    let structured = CallToolResult::from_structured(json(r#"{"status": "ok"}"#));
    assert_eq!(structured.content[0].as_text(), Some(r#"{"status":"ok"}"#));
}

#[test]
fn sampling_message_single_or_multiple() {
    let single: SamplingMessage =
        read(r#"{"role": "user", "content": {"type": "text", "text": "hi"}}"#);
    assert!(matches!(single.content, SamplingContent::Single(_)));
    assert_eq!(single.content.first_text().unwrap(), "hi");
    let multiple: SamplingMessage = read(
        r#"{"role": "assistant", "content": [
            {"type": "tool_use", "id": "1", "name": "t", "input": {"a": 1}},
            {"type": "weird"}
        ]}"#,
    );
    assert_eq!(multiple.role, RoleType::Assistant);
    let list = multiple.content.as_list();
    assert!(matches!(list[0], SamplingMessageContentBlock::ToolUse(_)));
    assert!(matches!(list[1], SamplingMessageContentBlock::Text(_)));
    let missing: SamplingMessage = read(r#"{"role": "user"}"#);
    assert_eq!(missing.content, SamplingContent::Multiple(vec![]));
    let wrong: SamplingMessage = read(r#"{"role": "user", "content": 5}"#);
    assert_eq!(wrong.content, SamplingContent::Multiple(vec![]));
    let unknown_role: SamplingMessage = read(r#"{"role": "system"}"#);
    assert_eq!(unknown_role.role, RoleType::User);

    let out = SamplingMessage::text(RoleType::User, "x".to_string()).to_json();
    assert_eq!(out, json(r#"{"role": "user", "content": {"type": "text", "text": "x"}}"#));
}

#[test]
fn create_message_result_defaults() {
    let r: CreateMessageResult = read(r#"{"model": "m"}"#);
    assert_eq!(r.role, RoleType::Assistant);
    assert_eq!(r.content, SamplingContent::Multiple(vec![]));
    let v = CreateMessageResult {
        model: "m".into(),
        role: RoleType::Assistant,
        content: SamplingContent::text("ok".to_string()),
        stop_reason: Some("stop".into()),
        meta: None,
    }
    .to_json();
    assert_eq!(*at(&v, &["role"]), json(r#""assistant""#));
    assert_eq!(*at(&v, &["stopReason"]), json(r#""stop""#));
    assert_eq!(*at(&v, &["content", "text"]), json(r#""ok""#));
}

#[test]
fn tool_schemas_are_json_values() {
    let tool: Tool = read(
        r#"{"name": "echo", "inputSchema": {"type": "object"},
            "outputSchema": {"type": "object"}, "annotations": {"readOnlyHint": true}}"#,
    );
    assert_eq!(tool.input_schema, Some(json(r#"{"type": "object"}"#)));
    assert_eq!(tool.annotations.as_ref().unwrap().read_only_hint, Some(true));
    let v = tool.to_json();
    assert_eq!(*at(&v, &["outputSchema"]), json(r#"{"type": "object"}"#));
    assert!(v.get("title").is_none());
}

#[test]
fn prompt_message_content_object_or_array() {
    let obj: PromptMessage = read(r#"{"role": "user", "content": {"type": "text", "text": "a"}}"#);
    assert_eq!(obj.content.as_text(), Some("a"));
    let arr: PromptMessage =
        read(r#"{"role": "user", "content": [{"type": "text", "text": "b"}]}"#);
    assert_eq!(arr.content.as_text(), Some("b"));
    let v = obj.to_json();
    assert_eq!(*at(&v, &["content", "type"]), json(r#""text""#));
    let prompt: PromptInfo = read(
        r#"{"name": "p", "description": null,
            "arguments": [{"name": "a", "required": true}, {"name": "b", "title": null}]}"#,
    );
    assert!(prompt.description.is_none());
    let args = prompt.arguments.unwrap();
    assert_eq!(args[0].required, Some(true));
    assert!(args[1].title.is_none());
}

#[test]
fn initialize_result_defaults_and_meta() {
    let r: InitializeResult = read("{}");
    assert_eq!(r.protocol_version, DEFAULT_PROTOCOL_VERSION);
    let r: InitializeResult = read(
        r#"{"protocolVersion": "2025-06-18",
            "capabilities": {"tools": {}}, "serverInfo": {"name": "s", "version": "1.0"},
            "instructions": "Welcome!", "_meta": {"traceId": "abc"}}"#,
    );
    assert_eq!(r.server_info.name, "s");
    assert_eq!(r.instructions.as_deref(), Some("Welcome!"));
    assert_eq!(r.meta.unwrap().get("traceId"), Some(&json(r#""abc""#)));
    assert!(r.capabilities.tools.is_some());
}

#[test]
fn roots_and_elicit_results() {
    let mut meta = MetaMap::new();
    meta.insert("traceId", json(r#""abc""#));
    let v = ListRootsResult {
        roots: vec![
            Root { uri: "file:///tmp".into(), name: Some("tmp".into()) },
            Root { uri: "file:///home".into(), name: None },
        ],
        meta: Some(meta),
    }
    .to_json();
    assert_eq!(*at(&v, &["roots", "0", "name"]), json(r#""tmp""#));
    assert!(at(&v, &["roots", "1"]).get("name").is_none());
    assert_eq!(*at(&v, &["_meta", "traceId"]), json(r#""abc""#));
    let e: ElicitResult = read(r#"{"action": "accept", "content": {"a": 1}}"#);
    assert_eq!(e.action, "accept");
    assert_eq!(e.content.get("a"), Some(&json("1")));
    assert_eq!(EmptyResult::default().to_json(), json("{}"));
}

#[test]
fn completion_reference_tagging() {
    let prompt = CompleteReference::Prompt(PromptReference { name: "p".into() });
    assert_eq!(prompt.to_json(), json(r#"{"type": "ref/prompt", "name": "p"}"#));
    let back: CompleteReference = read(r#"{"type": "ref/resource", "uri": "u"}"#);
    assert_eq!(back, CompleteReference::Resource(ResourceTemplateReference { uri: "u".into() }));
    let c: CompleteResult =
        read(r#"{"completion": {"values": ["a"], "total": 1, "hasMore": false}}"#);
    assert_eq!(c.completion.total, Some(1));
}

#[test]
fn resource_contents_selection() {
    let list: Vec<ResourceContents> = read(
        r#"[
            {"uri": "a", "text": "hello", "mimeType": "text/plain"},
            {"uri": "b", "blob": "AQIDBA=="},
            {"uri": "c"}
        ]"#,
    );
    assert!(matches!(&list[0], ResourceContents::Text(t) if t.text == "hello"));
    assert!(matches!(
        &list[1],
        ResourceContents::Blob(b) if b.blob == "AQIDBA==" && b.mime_type.is_none()
    ));
    assert!(matches!(&list[2], ResourceContents::Text(t) if t.uri == "c"));
}

#[test]
fn progress_token_and_logging_level() {
    let n: ProgressToken = read("42");
    assert_eq!(n, ProgressToken::Number(42));
    let s: ProgressToken = read(r#""7""#);
    assert_eq!(s.to_request_id(), RequestId::Number(7));
    assert_eq!(
        ProgressToken::String("abc".into()).to_request_id(),
        RequestId::String("abc".into())
    );
    assert_eq!(LoggingLevel::Warning.to_json(), json(r#""warning""#));
    assert_eq!(LoggingLevel::parse("emergency"), Some(LoggingLevel::Emergency));
    assert_eq!(LoggingLevel::parse("nope"), None);
    assert_eq!(LoggingLevel::Debug.as_str(), "debug");
}

#[test]
fn config_defaults() {
    let server = ServerConfig::default();
    assert_eq!(server.name, "MCP Server");
    assert_eq!(server.version, "1.0.0");
    assert_eq!(server.worker_threads, 1);
    assert_eq!(server.tools_page_size, 50);
    let client = ClientConfig::default();
    assert_eq!(client.name, "MCP Client");
    let http = HttpServerConfig::default();
    assert!(http.endpoint.is_empty());
    assert_eq!(http.io_threads, 0);
    assert!(!http.is_json_response_enabled);
    assert!(!http.tls_config.enabled);
    assert_eq!(HttpServerConfig::new("http://x:1".to_string()).io_threads, 1);
    let c = StreamableHttpClientConfig::default();
    assert_eq!(c.timeout, 30_000);
    assert!(TlsConfig::default().verify_peer);
}

#[test]
fn levels_are_read_back() {
    for name in
        ["debug", "info", "notice", "warning", "error", "critical", "alert", "emergency"]
    {
        let level = LoggingLevel::parse(name).unwrap();
        assert_eq!(level.as_str(), name);
        assert_eq!(LoggingLevel::from_json(&level.to_json()).unwrap(), level);
    }
    assert_eq!(read::<LoggingLevel>(r#"{"alert": null}"#), LoggingLevel::Alert);
    assert!(LoggingLevel::from_json(&json(r#"{"alert": 1}"#)).is_err());
    assert!(LoggingLevel::from_json(&json(r#""loud""#)).is_err());
}

#[test]
fn malformed_json_is_refused() {
    let refused = Tool::from_json(&json(r#"{"title": "no name"}"#)).unwrap_err();
    assert_eq!(refused.message(), "the value does not have the expected form");
    assert!(ProgressToken::from_json(&json("true")).is_err());
    assert!(CallToolResult::from_json(&json("3")).is_err());
}

#[test]
fn what_is_written_reads_back() {
    let tool: Tool = read(
        r#"{"name": "echo", "title": "Echo", "inputSchema": {"type": "object", "minimum": 1.5},
            "annotations": {"title": "t", "destructiveHint": false}}"#,
    );
    assert_eq!(Tool::from_json(&tool.to_json()).unwrap(), tool);
    assert_eq!(tool.clone(), tool);
    let result = CallToolResult::error("broken".to_string());
    assert_eq!(CallToolResult::from_json(&result.to_json()).unwrap(), result);
}

#[test]
fn a_member_is_set_once() {
    let mut map = MetaMap::new();
    map.insert("a", json("1"));
    map.insert("b", json("2"));
    map.insert("a", json("3"));
    assert_eq!(map.members.len(), 2);
    assert_eq!(map.get("a"), Some(&json("3")));
    assert_eq!(map.to_json().to_text(), r#"{"a":3,"b":2}"#);
}

#[test]
fn levels_are_in_order() {
    assert!(LoggingLevel::Debug < LoggingLevel::Info);
    assert!(LoggingLevel::Alert < LoggingLevel::Emergency);
    let mut roles = std::collections::HashSet::new();
    assert!(roles.insert(RoleType::User) && !roles.insert(RoleType::User));
    let mut tokens = std::collections::HashSet::new();
    assert!(tokens.insert(ProgressToken::Number(1)) && !tokens.insert(ProgressToken::Number(1)));
}

#[test]
fn tokens_are_made_of_numbers_and_texts() {
    assert_eq!(ProgressToken::from(4), ProgressToken::Number(4));
    assert_eq!(ProgressToken::from("t"), ProgressToken::String("t".into()));
    assert_eq!(ProgressToken::from("t".to_string()), ProgressToken::String("t".into()));
    assert_eq!(ProgressToken::from(RequestId::Number(7)), ProgressToken::Number(7));
    let id = RequestId::String("x".into());
    assert_eq!(ProgressToken::from(id), ProgressToken::String("x".into()));
}
