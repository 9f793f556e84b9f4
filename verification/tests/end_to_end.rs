//! Clients and a server that talk as over HTTP, without a network in between.
use std::cell::RefCell;
use std::rc::Rc;

use mcp_sdk::auth::{
    AuthProvider, Authenticator, Authorizer, BearerTokenAuthenticator, BearerTokenProvider,
    NoAuthAuthenticator, ScopeBasedAuthorizer, SimpleTokenVerifier,
};
use mcp_sdk::client::session::{
    answer_roots, answer_sampling, read_result, ClientHandlers, ClientStep, Notice,
};
use mcp_sdk::client::{McpClient, McpClientFactory};
use mcp_sdk::error::{JsonRpcErrorCode, McpError};
use mcp_sdk::json::Json;
use mcp_sdk::protocol::LATEST_PROTOCOL_VERSION;
use mcp_sdk::server::dispatch::{
    answer_completion, answer_level, answer_prompt, answer_resource, answer_tool, Dispatched,
    Handlers,
};
use mcp_sdk::server::manager::{Routed, ServerManager};
use mcp_sdk::server::session::{read_answer, Outbound, Outgoing, Reaction, ServerSession};
use mcp_sdk::server::{
    AddPromptOptionalParams, AddResourceOptionalParams, AddResourceTemplateOptionalParams,
    AddToolOptionalParams, FilesFound, McpServer, McpServerFactory, ServerContext,
};
use mcp_sdk::session::WaitOutcome;
use mcp_sdk::string_map::StringMap;
use mcp_sdk::transport::http_message::lowercase_fields;
use mcp_sdk::transport::sse::SseParser;
use mcp_sdk::transport::streamable_http_client::{
    apply_headers, consume_sse, read_body, report_error, stream_opened, BodyStep, PostReply,
    PostStep, StreamableHttpClientTransport,
};
use mcp_sdk::transport::streamable_http_server::{
    frame_written, HttpEffect, SendRoute, StreamableHttpServerTransport,
};
use mcp_sdk::transport::{HttpReply, HttpRequest, HttpResponse, RequestContext, ResponseSink};
use mcp_sdk::types::{
    Annotations, AudioContent, BlobResourceContents, CallToolResult, ClientConfig,
    CompleteReference, CompleteResult, Completion, CompletionArgument, CompletionContext,
    ContentBlock, CreateMessageParams, CreateMessageResult, EmbeddedResource, EmptyResult,
    GetPromptResult, Icon, ImageContent, InitializeResult, ListPromptsResult,
    ListResourceTemplatesResult, ListResourcesResult, ListRootsResult, ListToolsResult,
    LoggingCapabilities, LoggingLevel, ProgressToken, PromptArgument, PromptMessage,
    PromptReference, PromptsCapabilities, ReadResourceResult, Real, RequestParamsMeta,
    ResourceContents, ResourceLink, ResourceTemplateReference, ResourcesCapabilities, RoleType,
    Root, SamplingCapability, SamplingContent, SamplingMessage, ServerCapabilities, ServerConfig,
    StreamableHttpClientConfig, StreamableHttpServerConfig, TextResourceContents,
    ToolsCapabilities, DEFAULT_TOOLS_PAGE_SIZE,
};
use mcp_sdk::wire::Wire;
use mcp_sdk::{Message, Request, RequestId, RpcError};

const ECHO_TOOL_NAME: &str = "echo";
const ECHO_TOOL_DESCRIPTION: &str = "Echoes back the input message";
const RESOURCE_URI: &str = "http://example.com/resource";
const BULK_COUNT: usize = 120;
const ENDPOINT: &str = "http://127.0.0.1:38124/mcp";

/// What a tool of the test server does.
#[derive(Clone, Copy)]
enum Work {
    Echo,
    AsyncEcho,
    Progress,
    Sampling,
    Roots,
    Log,
}

struct Fixture;

type Recorded<T> = Rc<RefCell<Vec<T>>>;
type LogEntry = (String, Json, String);
type ProgressEvent = (f64, Option<f64>, Option<String>);

impl Handlers for Fixture {
    type Tool = Work;
    type Prompt = fn(&Option<Json>) -> GetPromptResult;
    type Resource = fn(&str) -> ReadResourceResult;
    type Level = Recorded<String>;
    type Complete = fn(&CompleteReference, &Option<CompletionContext>) -> CompleteResult;
}

impl ClientHandlers for Fixture {
    type ListRoots = Root;
    type Elicit = ();
    type ElicitUrl = ();
    type Logging = Recorded<LogEntry>;
    type Sampling = Recorded<CreateMessageParams>;
}

type Session = ServerSession<(), ()>;
type Entry = Rc<RefCell<(StreamableHttpServerTransport, Session)>>;
type Client = McpClient<Fixture, (), Recorded<ProgressEvent>>;

/// What the client does with a message that comes on its own stream.
type Peer<'a> = &'a mut dyn FnMut(Message) -> Option<Message>;

fn json(text: &str) -> Json {
    Json::parse(text).unwrap()
}

fn double(x: f64) -> Real {
    Real { bits: x.to_bits() }
}

fn number(x: Real) -> f64 {
    f64::from_bits(x.bits)
}

fn at<'a>(value: &'a Json, path: &[&str]) -> &'a Json {
    path.iter().fold(value, |v, k| v.get(k).unwrap())
}

fn argument<'a>(arguments: &'a Json, name: &str, missing: &'a str) -> &'a str {
    arguments.get(name).and_then(|q| q.as_str()).unwrap_or(missing)
}

fn echo(arguments: &Json) -> CallToolResult {
    let user_query = argument(arguments, "user_query", "");
    CallToolResult {
        content: vec![
            ContentBlock::text(format!("Echo: {user_query}")),
            ContentBlock::Image(ImageContent {
                data: "test".into(),
                mime_type: "image".into(),
                annotations: None,
            }),
            ContentBlock::ResourceLink(ResourceLink {
                uri: "test".into(),
                name: "test".into(),
                title: Some("test".into()),
                description: Some("test".into()),
                mime_type: Some("resource_link".into()),
                size: Some(1024),
                ..Default::default()
            }),
            ContentBlock::Audio(AudioContent {
                data: "test".into(),
                mime_type: "audio".into(),
                annotations: None,
            }),
            ContentBlock::EmbeddedResource(EmbeddedResource {
                resource: ResourceContents::Blob(BlobResourceContents {
                    uri: "test".into(),
                    blob: "test".into(),
                    mime_type: Some("blob".into()),
                }),
                annotations: None,
            }),
        ],
        structured_content: Some(json(&format!(r#"{{"result": "{user_query}"}}"#))),
        is_error: false,
        meta: None,
    }
}

fn greeting(arguments: &Option<Json>) -> GetPromptResult {
    let nothing = json("{}");
    let given = arguments.as_ref().unwrap_or(&nothing);
    let who = argument(given, "name", "friend");
    let language = argument(given, "language", "English");
    GetPromptResult {
        description: Some("example_prompt".into()),
        messages: vec![PromptMessage {
            role: RoleType::Assistant,
            content: ContentBlock::text(format!("Hello, {who}! (language={language})")),
        }],
        meta: None,
    }
}

fn hello(uri: &str) -> ReadResourceResult {
    ReadResourceResult {
        contents: vec![ResourceContents::Text(TextResourceContents {
            text: format!("hello, {uri}"),
            uri: uri.to_string(),
            mime_type: Some("text/plain".into()),
        })],
        meta: None,
    }
}

fn complete(reference: &CompleteReference, context: &Option<CompletionContext>) -> CompleteResult {
    let mut values: Vec<String> = match reference {
        CompleteReference::Prompt(_) => vec!["python".into(), "pytorch".into(), "pydantic".into()],
        CompleteReference::Resource(_) => vec!["json".into(), "yaml".into(), "txt".into()],
    };
    let given = context.as_ref().and_then(|c| c.arguments.as_ref());
    if let Some(framework) = given.and_then(|a| a.get("framework")) {
        values.push(framework.to_string());
    }
    let total = values.len() as i64;
    CompleteResult {
        completion: Completion { values, total: Some(total), has_more: Some(false) },
        meta: None,
    }
}

/// The two ends of a session on the server, and the client at the other end.
struct Line<'a> {
    transport: &'a mut StreamableHttpServerTransport,
    session: &'a mut Session,
    peer: Peer<'a>,
}

impl Line<'_> {
    fn hand_over(
        &mut self,
        message: &Message,
        ctx: &RequestContext<()>,
    ) -> Result<Option<Message>, McpError> {
        match self.transport.send_message(message, ctx, false, true)? {
            SendRoute::OwnStream(text) => {
                let mut messages = consume_sse(&mut SseParser::new(), &text, false).messages;
                assert_eq!(messages.len(), 1);
                Ok((self.peer)(messages.remove(0)))
            }
            _ => panic!("a message of the server goes to the client's own stream"),
        }
    }

    fn tell(&mut self, told: Option<Outbound<()>>) -> Result<(), McpError> {
        if let Some(told) = told {
            let reply = self.hand_over(&told.message, &told.ctx)?;
            assert!(reply.is_none());
        }
        Ok(())
    }

    fn ask<T: Wire>(&mut self, asked: Result<Outgoing, McpError>) -> Result<T, McpError> {
        let asked = asked?;
        let ctx = RequestContext::server_initiated(self.session.session_id(), &asked.method);
        let (id, message) = self.session.send_request(asked.method, asked.params, ())?;
        let reply = self.hand_over(&message, &ctx)?.unwrap();
        // The reply is posted as any other message of the client.
        let named = self.session.session_id().to_string();
        let headers = [
            ("accept", "application/json, text/event-stream"),
            ("content-type", "application/json"),
            ("mcp-session-id", named.as_str()),
        ];
        let posted = request("POST", &headers, &mcp_sdk::protocol::serialize_message(&reply));
        let outcome = self.transport.handle_request(&posted, true, true);
        assert_eq!(outcome.reply.status(), Some(202));
        let response = match outcome.effect {
            HttpEffect::Deliver(mut delivery) => match delivery.messages.remove(0).0 {
                Message::Response(r) => r,
                _ => panic!("expected a response"),
            },
            _ => panic!("expected a delivery"),
        };
        let (_, answer) = self.session.handle_response(response, 0).unwrap();
        let outcome = self.session.settle(&id, WaitOutcome::Answered(answer), 5000, 0);
        read_answer(&asked.op_name, outcome)
    }

    fn work(
        &mut self,
        work: Work,
        arguments: &Json,
        meta: Option<RequestParamsMeta>,
    ) -> Result<CallToolResult, McpError> {
        match work {
            Work::Echo => Ok(echo(arguments)),
            Work::AsyncEcho => {
                let q = argument(arguments, "user_query", "");
                Ok(CallToolResult::text(format!("Async Echo: {q}")))
            }
            Work::Progress => {
                let task_name = argument(arguments, "task_name", "Unknown Task");
                let steps = arguments.get("steps").and_then(|s| s.as_i64()).unwrap_or(5);
                let token = ServerContext::new((), meta)
                    .progress_token()
                    .unwrap_or_else(|| ProgressToken::String(format!("progress-{task_name}")));
                for i in 0..=steps {
                    let told = self.session.send_progress_notification(
                        token.clone(),
                        double(i as f64 / steps as f64),
                        Some(double(steps as f64)),
                        Some(format!("Processing {task_name}: step {i} of {steps}")),
                    );
                    self.tell(told)?;
                }
                Ok(CallToolResult::text(format!("Task '{task_name}' completed successfully")))
            }
            Work::Sampling => {
                let prompt = argument(arguments, "prompt", "Hello").to_string();
                let params = CreateMessageParams {
                    messages: vec![SamplingMessage::text(RoleType::User, prompt)],
                    max_tokens: 100,
                    ..Default::default()
                };
                let asked = self.session.sampling_create_message(&params);
                match self.ask::<CreateMessageResult>(asked) {
                    Ok(result) => {
                        let text = result.content.first_text();
                        let text = text.unwrap_or_else(|| "<no text content>".into());
                        Ok(CallToolResult::text(format!("Sampling response: {text}")))
                    }
                    Err(e) => Ok(CallToolResult::error(format!("Sampling error: {}", e.message()))),
                }
            }
            Work::Roots => {
                let asked = self.session.list_roots();
                match self.ask::<ListRootsResult>(asked) {
                    Ok(result) => {
                        let uris: Vec<String> = result.roots.iter().map(|r| r.uri.clone()).collect();
                        Ok(CallToolResult::text(uris.join(",")))
                    }
                    Err(e) => Ok(CallToolResult::error(format!("Roots error: {}", e.message()))),
                }
            }
            Work::Log => {
                let told = self.session.send_log_message("info", json(r#""tool ran""#), "test-server");
                self.tell(told)?;
                let told = self.session.send_tool_list_changed_notification();
                self.tell(told)?;
                Ok(CallToolResult::text("logged".to_string()))
            }
        }
    }
}

struct Server<A, Z> {
    server: McpServer<Fixture, A, Z>,
    manager: ServerManager<A, Z, Entry>,
}

fn test_config() -> ServerConfig {
    ServerConfig {
        name: "TestMCPServer".into(),
        version: "1.0.0".into(),
        worker_threads: 1,
        capabilities: ServerCapabilities {
            logging: Some(LoggingCapabilities {}),
            tools: Some(ToolsCapabilities { list_changed: Some(true) }),
            prompts: Some(PromptsCapabilities { list_changed: Some(true) }),
            resources: Some(ResourcesCapabilities {
                subscribe: Some(true),
                list_changed: Some(true),
            }),
            experimental: None,
        },
        ..Default::default()
    }
}

impl<A: Authenticator, Z: Authorizer> Server<A, Z> {
    /// A server on which nothing is registered.
    fn bare(
        config: fn() -> ServerConfig,
        transport: impl Fn() -> StreamableHttpServerConfig<A, Z>,
    ) -> Self {
        let found = FilesFound { cert: false, key: false, ca: false };
        let mut server =
            McpServerFactory::create_streamable_http_server(config(), transport(), found).unwrap();
        server.run(Ok(())).unwrap();
        Server { server, manager: ServerManager::new(config(), Some(transport())) }
    }

    /// Registers the tools, prompts and resources of the test server.
    fn configure(&mut self) -> Recorded<String> {
        let server = &mut self.server;
        let echo_input = r#"{"type": "object", "properties": {"user_query": {"type": "string",
            "description": "The user query."}}, "required": ["user_query"]}"#;
        let echo_output = r#"{"type": "object", "properties": {"result": {"type": "string",
            "description": "The echoed message"}}}"#;
        let params = AddToolOptionalParams {
            title: Some("Echo Tool".into()),
            description: Some(ECHO_TOOL_DESCRIPTION.into()),
            input_schema: Some(json(echo_input)),
            output_schema: Some(json(echo_output)),
            ..Default::default()
        };
        server.add_tool_handler(ECHO_TOOL_NAME, Work::Echo, params).unwrap();
        let anything = r#"{"type": "object", "properties": {}, "additionalProperties": true}"#;
        for i in 0..BULK_COUNT {
            let params = AddToolOptionalParams {
                input_schema: Some(json(anything)),
                ..Default::default()
            };
            server.add_tool_handler(&format!("echo_{i}"), Work::Echo, params).unwrap();
        }
        for (name, work) in [
            ("async_echo", Work::AsyncEcho),
            ("progress_tool", Work::Progress),
            ("sampling_echo", Work::Sampling),
            ("roots_tool", Work::Roots),
        ] {
            server.add_tool_handler(name, work, AddToolOptionalParams::default()).unwrap();
        }

        let params = AddPromptOptionalParams {
            description: Some("Generate a personalized greeting message".into()),
            arguments: Some(vec![
                PromptArgument::new("name".into(), "The name of the person to greet".into(), true),
                PromptArgument::new(
                    "language".into(),
                    "Language for the greeting (default: English)".into(),
                    false,
                ),
            ]),
            ..Default::default()
        };
        server.add_prompt_handler("example_prompt", greeting, params).unwrap();

        let params = AddResourceOptionalParams {
            description: Some("A test resource for demonstration".into()),
            mime_type: Some("text/plain".into()),
            icons: Some(vec![Icon {
                src: "https://example.com/icons/document.png".into(),
                mime_type: Some("image/png".into()),
                sizes: Some(vec!["16x16".into(), "32x32".into()]),
                theme: Some("light".into()),
            }]),
            annotations: Some(Annotations {
                audience: Some(vec![RoleType::User, RoleType::Assistant]),
                last_modified: Some("2025-01-15T10:30:00Z".into()),
                priority: Some(double(1.0)),
            }),
            ..Default::default()
        };
        server.add_resource_handler(RESOURCE_URI, "Test Resource", hello, params).unwrap();
        for i in 0..BULK_COUNT {
            let uri = format!("http://example.com/resource/{i}");
            let params = AddResourceOptionalParams::default();
            server.add_resource_handler(&uri, &format!("res_{i}"), hello, params).unwrap();
        }
        let params = AddResourceTemplateOptionalParams {
            description: Some("A test resource template for demonstration".into()),
            mime_type: Some("text/plain".into()),
            ..Default::default()
        };
        let template = "http://example.com/resourceTemplate/{id}";
        server.add_resource_template(template, "Test Resource Template", params).unwrap();
        server.add_completion(complete);
        let levels: Recorded<String> = Rc::default();
        server.register_set_logging_level_handler(levels.clone());
        levels
    }

    fn answer(&self, request: &Request, line: &mut Line<'_>) -> Result<Json, RpcError> {
        match self.server.inner().dispatch(request) {
            Dispatched::Answer(j) => Ok(j),
            Dispatched::Fail(e) => Err(e),
            Dispatched::CallTool { tool, arguments, meta } => {
                let outcome = line.work(tool.handler, &arguments, meta);
                answer_tool(&tool.output_schema, &tool.name, outcome)
            }
            Dispatched::GetPrompt { handler, arguments, .. } => {
                answer_prompt(Ok(handler(&arguments)))
            }
            Dispatched::ReadResource { handler, uri, .. } => answer_resource(Ok(handler(&uri))),
            Dispatched::SetLevel { handler, level } => {
                handler.borrow_mut().push(level);
                answer_level(Ok(()))
            }
            Dispatched::Complete { handler, reference, context, .. } => {
                answer_completion(Ok(handler(&reference, &context)))
            }
        }
    }

    fn react(
        &self,
        line: &mut Line<'_>,
        message: Message,
        ctx: RequestContext<()>,
    ) -> Option<Message> {
        match message {
            Message::Request(r) => match line.session.received_request(r, ctx, true) {
                Reaction::Reply(m) => Some(m),
                Reaction::Handle(r) => match self.answer(&r, line) {
                    Ok(j) => line.session.send_response(r.id, j, false),
                    Err(e) => Some(line.session.send_error_response(r.id, e)),
                },
                _ => None,
            },
            Message::Notification(n) => {
                let _ = line.session.received_notification(n, true);
                None
            }
            Message::Response(r) => {
                let _ = line.session.handle_response(r, 0);
                None
            }
        }
    }

    fn serve(&mut self, request: &HttpRequest, peer: Peer<'_>) -> HttpResponse {
        let (id, created, stateless) = match self.manager.handle_request(request) {
            Routed::Answer(HttpReply::Full(a)) => return a,
            Routed::Answer(_) => panic!("an answer of the server itself is complete"),
            Routed::Stateless { session_id } => (session_id, false, true),
            Routed::Create { session_id } => (session_id, true, false),
            Routed::Existing { session_id } => (session_id, false, false),
        };
        let entry: Entry = if created || stateless {
            let made = self.manager.new_http_session(&id, stateless).unwrap();
            let entry = Rc::new(RefCell::new(made));
            if created {
                self.manager.insert_session(id.clone(), entry.clone());
            }
            entry
        } else {
            self.manager.get_session(&id).unwrap().clone()
        };
        let (transport, session) = &mut *entry.borrow_mut();
        let mut line = Line { transport, session, peer };
        let outcome = line.transport.handle_request(request, true, true);
        let mut collected: Option<HttpResponse> = None;
        let mut frames = String::new();
        if let HttpEffect::Deliver(delivery) = outcome.effect {
            let mut sink = delivery.sink;
            for (message, method) in delivery.messages {
                let context = |method: &str| RequestContext {
                    connection_id: delivery.connection_id,
                    sink: Some(()),
                    ..RequestContext::server_initiated(&delivery.session_id, method)
                };
                if let Some(m) = self.react(&mut line, message, context(&method)) {
                    let sink: &mut ResponseSink = sink.as_mut().unwrap();
                    let ctx = context(&method);
                    match line.transport.send_message(&m, &ctx, sink.is_json(), true) {
                        Ok(SendRoute::Collect(j)) => collected = sink.deliver_json(j).unwrap(),
                        Ok(SendRoute::Frame(text)) => {
                            frames.push_str(&text);
                            let _ = frame_written(sink, &m, true).unwrap();
                        }
                        _ => panic!("a response has a place to go"),
                    }
                }
            }
        }
        let terminated = line.transport.is_terminated();
        let reply = outcome.reply;
        self.manager.request_handled(&id, created, terminated, &reply);
        match reply {
            HttpReply::Full(a) => a,
            HttpReply::Deferred => collected.unwrap(),
            HttpReply::Stream { status, headers } => {
                let mut a = HttpResponse::new(status);
                for (k, v) in &headers {
                    a = a.header(k, v);
                }
                a.body(frames)
            }
        }
    }

    /// Serves a request to which nothing but the response comes back.
    fn serve_raw(&mut self, request: &HttpRequest) -> HttpResponse {
        self.serve(request, &mut |_| panic!("nobody listens"))
    }
}

type OpenServer = Server<NoAuthAuthenticator, ScopeBasedAuthorizer>;

fn start_http_server(is_json: bool, stateless: bool) -> (OpenServer, Recorded<String>) {
    let mut server = Server::bare(test_config, || {
        let mut config = StreamableHttpServerConfig::new(ENDPOINT.to_string());
        config.is_json_response_enabled = is_json;
        config.stateless = stateless;
        config.io_threads = 1;
        config
    });
    let levels = server.configure();
    (server, levels)
}

fn request(method: &str, headers: &[(&str, &str)], body: &str) -> HttpRequest {
    let mut h = StringMap::new();
    for (k, v) in headers {
        h.insert(k.to_string(), v.to_string());
    }
    HttpRequest::new(method, h, body.to_string())
}

fn post(headers: &[(&str, &str)], body: &str) -> HttpRequest {
    let mut all = vec![("accept", "application/json"), ("content-type", "application/json")];
    all.extend_from_slice(headers);
    request("POST", &all, body)
}

/// What a client does with a message that it did not wait for.
fn take_message(client: &Client, message: Message) -> Option<Message> {
    let session = client.session().unwrap();
    match message {
        Message::Request(r) => match session.received_request(&r) {
            ClientStep::Reply(m) => Some(m),
            ClientStep::ListRoots(root) => {
                let roots = vec![Root { uri: root.uri.clone(), name: root.name.clone() }];
                Some(answer_roots(&r.id, Ok(ListRootsResult { roots, meta: None })))
            }
            ClientStep::Sample { handler, params } => {
                handler.borrow_mut().push(params);
                let made = CreateMessageResult {
                    model: "demo-client-model".into(),
                    role: RoleType::Assistant,
                    content: SamplingContent::text("This is a simulated LLM response.".to_string()),
                    stop_reason: Some("stop".into()),
                    meta: None,
                };
                Some(answer_sampling(&r.id, Ok(Some(made))))
            }
            _ => panic!("nothing was elicited"),
        },
        Message::Notification(n) => {
            match session.received_notification(&n, 0) {
                Notice::Progress { listener, progress, total, message } => {
                    listener.borrow_mut().push((number(progress), total.map(number), message));
                }
                Notice::Log { handler: Some(log), level, data, logger } => {
                    log.borrow_mut().push((level, data, logger));
                }
                _ => {}
            }
            None
        }
        Message::Response(_) => panic!("a response answers a post"),
    }
}

type Sent = Result<(RequestId, Message), McpError>;

/// A client, and how it reaches a server.
struct Asker<P> {
    client: Client,
    transport: StreamableHttpClientTransport,
    auth: Option<P>,
}

fn http_client<P: AuthProvider>(auth: Option<P>) -> Asker<P> {
    let config = ClientConfig { name: "TestClient".into(), version: "1.0.0".into() };
    let http = StreamableHttpClientConfig {
        endpoint: ENDPOINT.to_string(),
        timeout: 5000,
        sse_timeout: 5000,
        ..Default::default()
    };
    let (client, transport) =
        McpClientFactory::create_streamable_http_client(config, http).unwrap();
    Asker { client, transport, auth }
}

impl<P: AuthProvider> Asker<P> {
    fn http<A: Authenticator, Z: Authorizer>(
        &self,
        server: &mut Server<A, Z>,
        method: &str,
        body: &str,
    ) -> HttpResponse {
        let fields = apply_headers(&self.transport.prepare_headers(self.auth.as_ref()));
        let fields = fields.into_iter().map(|(k, v)| (k, Some(v))).collect();
        let request = HttpRequest::new(method, lowercase_fields(&fields), body.to_string());
        server.serve(&request, &mut |m| take_message(&self.client, m))
    }

    /// Sends a message. The response is what it brings back.
    fn send<A: Authenticator, Z: Authorizer>(
        &mut self,
        server: &mut Server<A, Z>,
        message: &Message,
    ) -> Result<Option<Message>, McpError> {
        let posting = self.transport.send_message(message)?;
        if posting.start_stream {
            let opened = self.http(server, "GET", "");
            // Where nothing is kept between requests there is no such stream.
            assert!(stream_opened(opened.status) || opened.status == 405);
        }
        let response = self.http(server, "POST", &posting.body);
        let reply = PostReply::Response {
            status: response.status,
            session_id: response.header_value("mcp-session-id").map(|s| s.to_string()),
            content_type: response.content_type().map(|s| s.to_string()),
        };
        let initialization = posting.method.as_deref() == Some("initialize");
        let received = match self.transport.post_answered(&posting.method, reply) {
            PostStep::Done => None,
            PostStep::Report { code, message } => {
                report_error(&posting.request_id, code, message)
            }
            PostStep::ReadJson => match read_body(Ok(response.body)) {
                BodyStep::Deliver(m) => Some(m),
                BodyStep::Report { code, message } => {
                    report_error(&posting.request_id, code, message)
                }
            },
            PostStep::ReadEvents => {
                let received = consume_sse(&mut SseParser::new(), &response.body, true);
                assert!(received.ended);
                received.messages.into_iter().last()
            }
        };
        if let Some(m) = &received {
            self.transport.message_received(m, initialization);
        }
        Ok(received)
    }

    fn ask<T: Wire, A: Authenticator, Z: Authorizer>(
        &mut self,
        server: &mut Server<A, Z>,
        method: &str,
        sent: impl FnOnce(&mut Client) -> Sent,
    ) -> Result<T, McpError> {
        let (id, message) = sent(&mut self.client)?;
        let response = match self.send(server, &message)? {
            Some(Message::Response(r)) => r,
            _ => panic!("expected a response"),
        };
        let session = self.client.session_mut()?;
        let (_, outcome) = session.handle_response(response, 0).unwrap();
        let outcome = session.settle(&id, WaitOutcome::Answered(outcome), 5000, 0);
        read_result(method, outcome)
    }

    fn initialize<A: Authenticator, Z: Authorizer>(
        &mut self,
        server: &mut Server<A, Z>,
    ) -> Result<InitializeResult, McpError> {
        self.client.check_initialize()?;
        assert!(self.transport.connect().is_none());
        self.client.initialize()?;
        let answer = self.ask(server, "initialize", |c| Ok(c.session_mut()?.initialize(())))?;
        let result = self.client.session_mut()?.initialize_answered(answer)?;
        let told = self.client.session()?.send_initialized_notification();
        assert!(self.send(server, &told)?.is_none());
        self.client.session_mut()?.initialized_sent();
        Ok(result)
    }

    fn list_tools<A: Authenticator, Z: Authorizer>(
        &mut self,
        server: &mut Server<A, Z>,
        cursor: Option<String>,
    ) -> Result<ListToolsResult, McpError> {
        let result = self.ask(server, "tools/list", |c| c.list_tools(cursor, ()))?;
        self.client.session_mut()?.cache_tool_schemas(&result);
        Ok(result)
    }

    fn call_tool<A: Authenticator, Z: Authorizer>(
        &mut self,
        server: &mut Server<A, Z>,
        name: &str,
        arguments: Option<&str>,
        listener: Option<Recorded<ProgressEvent>>,
    ) -> Result<CallToolResult, McpError> {
        let arguments = arguments.map(json);
        let result =
            self.ask(server, "tools/call", |c| c.call_tool(name, &arguments, (), listener))?;
        self.client.session()?.call_tool_answered(name, result)
    }

    fn close_gracefully<A: Authenticator, Z: Authorizer>(&mut self, server: &mut Server<A, Z>) {
        if self.transport.start_get_stream() {
            let ended = self.http(server, "DELETE", "");
            assert_eq!(ended.status, 200);
        }
        assert!(self.client.close_gracefully());
        self.transport.terminate();
    }
}

fn plain_client() -> Asker<BearerTokenProvider> {
    http_client(None)
}

fn init_client<A: Authenticator, Z: Authorizer>(
    server: &mut Server<A, Z>,
) -> Asker<BearerTokenProvider> {
    let mut client = plain_client();
    client.initialize(server).unwrap();
    client
}

#[test]
fn initialize_ping_and_capabilities() {
    for json_mode in [true, false] {
        let (mut server, _) = start_http_server(json_mode, false);
        let mut client = plain_client();
        let init = client.initialize(&mut server).unwrap();
        assert_eq!(init.server_info.name, "TestMCPServer");
        assert_eq!(init.protocol_version, LATEST_PROTOCOL_VERSION);
        assert_eq!(client.transport.protocol_version(), LATEST_PROTOCOL_VERSION);
        let caps = client.client.get_server_capabilities().unwrap();
        assert!(caps.tools.is_some());
        assert_eq!(caps.resources.unwrap().subscribe, Some(false));
        assert!(matches!(client.initialize(&mut server), Err(McpError::AlreadyInitialized)));
        let pinged: Result<EmptyResult, _> = client.ask(&mut server, "ping", |c| c.send_ping(()));
        assert!(pinged.is_ok());
        assert_eq!(server.manager.session_count(), 1);
        client.close_gracefully(&mut server);
        assert_eq!(server.manager.session_count(), 0);
        let pinged: Result<EmptyResult, _> = client.ask(&mut server, "ping", |c| c.send_ping(()));
        assert!(matches!(pinged, Err(McpError::NotInitialized)));
        assert!(server.server.stop());
    }
}

#[test]
fn list_and_call_tools() {
    let (mut server, _) = start_http_server(true, false);
    let server = &mut server;
    let mut client = init_client(server);

    let mut cursor: Option<String> = None;
    let mut total = 0;
    let mut pages = 0;
    let mut found_echo = false;
    loop {
        let page = client.list_tools(server, cursor.clone()).unwrap();
        pages += 1;
        total += page.tools.len();
        assert!(page.tools.len() <= DEFAULT_TOOLS_PAGE_SIZE);
        if let Some(tool) = page.tools.iter().find(|t| t.name == ECHO_TOOL_NAME) {
            found_echo = true;
            assert_eq!(tool.description.as_deref(), Some(ECHO_TOOL_DESCRIPTION));
            assert!(tool.input_schema.is_some());
        }
        cursor = page.next_cursor;
        if cursor.is_none() {
            break;
        }
    }
    assert!(found_echo);
    assert_eq!(total, BULK_COUNT + 5);
    assert!(pages >= 3);

    let query = r#"{"user_query": "Shenzhen weather"}"#;
    let result = client.call_tool(server, ECHO_TOOL_NAME, Some(query), None).unwrap();
    assert!(!result.is_error);
    assert_eq!(result.content.len(), 5);
    assert_eq!(result.content[0].as_text(), Some("Echo: Shenzhen weather"));
    assert!(matches!(&result.content[1], ContentBlock::Image(i) if i.mime_type == "image"));
    assert!(matches!(&result.content[2], ContentBlock::ResourceLink(l) if l.size == Some(1024)));
    assert!(matches!(&result.content[3], ContentBlock::Audio(_)));
    assert!(matches!(&result.content[4], ContentBlock::EmbeddedResource(_)));
    assert_eq!(result.structured_content, Some(json(r#"{"result": "Shenzhen weather"}"#)));

    // Missing required argument: input schema validation fails on the server.
    let err = client.call_tool(server, ECHO_TOOL_NAME, Some("{}"), None).unwrap_err();
    assert_eq!(err.code_enum(), Some(JsonRpcErrorCode::InvalidParams));
    assert!(err.message().contains("Input validation failed"));

    let query = r#"{"user_query": "x"}"#;
    let err = client.call_tool(server, "__not_exist_tool__", Some(query), None).unwrap_err();
    assert_eq!(err.code_enum(), Some(JsonRpcErrorCode::InvalidParams));
    assert_eq!(err.message(), "Tool not found: __not_exist_tool__");

    let query = r#"{"user_query": "Hello from async echo"}"#;
    let async_result = client.call_tool(server, "async_echo", Some(query), None).unwrap();
    assert_eq!(async_result.content[0].as_text(), Some("Async Echo: Hello from async echo"));

    client.close_gracefully(server);
}

#[test]
fn prompts_resources_templates_and_completion() {
    let (mut server, _) = start_http_server(true, false);
    let server = &mut server;
    let mut client = init_client(server);

    let prompts: ListPromptsResult =
        client.ask(server, "prompts/list", |c| c.list_prompts(())).unwrap();
    assert_eq!(prompts.prompts.len(), 1);
    assert_eq!(prompts.prompts[0].name, "example_prompt");
    assert_eq!(prompts.prompts[0].arguments.as_ref().unwrap().len(), 2);

    let prompt: GetPromptResult =
        client.ask(server, "prompts/get", |c| c.get_prompt("example_prompt", &None, ())).unwrap();
    assert_eq!(prompt.messages.len(), 1);
    assert_eq!(prompt.messages[0].role, RoleType::Assistant);
    assert_eq!(prompt.messages[0].content.as_text(), Some("Hello, friend! (language=English)"));
    let arguments = Some(json(r#"{"name": "Alice", "language": "French"}"#));
    let prompt: GetPromptResult = client
        .ask(server, "prompts/get", |c| c.get_prompt("example_prompt", &arguments, ()))
        .unwrap();
    assert_eq!(prompt.messages[0].content.as_text(), Some("Hello, Alice! (language=French)"));
    let err = client
        .ask::<GetPromptResult, _, _>(server, "prompts/get", |c| {
            c.get_prompt("__not_exist_prompt__", &None, ())
        })
        .unwrap_err();
    assert_eq!(err.code_enum(), Some(JsonRpcErrorCode::InvalidParams));
    assert_eq!(err.message(), "Prompt not found: __not_exist_prompt__");

    let mut cursor: Option<String> = None;
    let mut total = 0;
    let mut first_uri = None;
    loop {
        let page: ListResourcesResult = client
            .ask(server, "resources/list", |c| c.list_resources(cursor.clone(), ()))
            .unwrap();
        if first_uri.is_none() {
            first_uri = page.resources.first().map(|r| r.uri.clone());
        }
        total += page.resources.len();
        cursor = page.next_cursor;
        if cursor.is_none() {
            break;
        }
    }
    assert_eq!(total, BULK_COUNT + 1);
    let first_uri = first_uri.unwrap();
    let detailed: ListResourcesResult =
        client.ask(server, "resources/list", |c| c.list_resources(None, ())).unwrap();
    let info = detailed.resources.iter().find(|r| r.uri == RESOURCE_URI).unwrap();
    assert_eq!(
        info.icons.as_ref().unwrap()[0].src,
        "https://example.com/icons/document.png"
    );
    assert_eq!(info.annotations.as_ref().unwrap().priority, Some(double(1.0)));

    let read: ReadResourceResult =
        client.ask(server, "resources/read", |c| c.read_resource(RESOURCE_URI, ())).unwrap();
    assert!(
        matches!(&read.contents[0], ResourceContents::Text(t) if t.text == format!("hello, {RESOURCE_URI}"))
    );
    let missing = "http://example.com/__not_exist_resource__";
    let err = client
        .ask::<ReadResourceResult, _, _>(server, "resources/read", |c| c.read_resource(missing, ()))
        .unwrap_err();
    assert_eq!(err.code_enum(), Some(JsonRpcErrorCode::InvalidParams));

    let _: EmptyResult = client
        .ask(server, "resources/subscribe", |c| c.subscribe_resource(&first_uri, ()))
        .unwrap();
    let _: EmptyResult = client
        .ask(server, "resources/unsubscribe", |c| c.unsubscribe_resource(&first_uri, ()))
        .unwrap();
    let err = client
        .ask::<EmptyResult, _, _>(server, "resources/subscribe", |c| {
            c.subscribe_resource("nope://x", ())
        })
        .unwrap_err();
    assert_eq!(err.code_enum(), Some(JsonRpcErrorCode::ServerError));

    let templates: ListResourceTemplatesResult = client
        .ask(server, "resources/templates/list", |c| c.list_resources_templates(()))
        .unwrap();
    assert_eq!(templates.resource_templates.len(), 1);
    assert_eq!(
        templates.resource_templates[0].uri_template,
        "http://example.com/resourceTemplate/{id}"
    );
    assert_eq!(templates.resource_templates[0].mime_type.as_deref(), Some("text/plain"));

    let context = CompletionContext::from_json(&json(r#"{"arguments": {"framework": "django"}}"#));
    let result: CompleteResult = client
        .ask(server, "completion/complete", |c| {
            c.complete(
                CompleteReference::Prompt(PromptReference { name: "code_generator".into() }),
                CompletionArgument { name: "language".into(), value: "py".into() },
                Some(context.unwrap()),
                (),
            )
        })
        .unwrap();
    assert_eq!(result.completion.values, vec!["python", "pytorch", "pydantic", "django"]);
    assert_eq!(result.completion.total, Some(4));
    let result: CompleteResult = client
        .ask(server, "completion/complete", |c| {
            c.complete(
                CompleteReference::Resource(ResourceTemplateReference {
                    uri: "file:///path/to/template".into(),
                }),
                CompletionArgument { name: "format".into(), value: "j".into() },
                None,
                (),
            )
        })
        .unwrap();
    assert_eq!(result.completion.values, vec!["json", "yaml", "txt"]);

    client.close_gracefully(server);
}

#[test]
fn set_logging_level_reaches_handler() {
    let (mut server, levels) = start_http_server(true, false);
    let mut client = init_client(&mut server);
    let _: EmptyResult = client
        .ask(&mut server, "logging/setLevel", |c| c.set_logging_level(LoggingLevel::Debug, ()))
        .unwrap();
    assert_eq!(*levels.borrow(), vec!["debug"]);
    client.close_gracefully(&mut server);

    // Without a handler the server answers INVALID_PARAMS.
    let mut bare: OpenServer = Server::bare(ServerConfig::default, || {
        StreamableHttpServerConfig::new(ENDPOINT.to_string())
    });
    let mut client = init_client(&mut bare);
    let err = client
        .ask::<EmptyResult, _, _>(&mut bare, "logging/setLevel", |c| {
            c.set_logging_level(LoggingLevel::Info, ())
        })
        .unwrap_err();
    assert_eq!(err.code_enum(), Some(JsonRpcErrorCode::InvalidParams));
    assert_eq!(err.message(), "not set LoggingLevelHandler");
    let listed = client.list_tools(&mut bare, None).unwrap();
    assert!(listed.tools.is_empty());
    let err = client
        .ask::<CompleteResult, _, _>(&mut bare, "completion/complete", |c| {
            let reference = CompleteReference::Prompt(PromptReference { name: "p".into() });
            c.complete(reference, CompletionArgument::default(), None, ())
        })
        .unwrap_err();
    assert_eq!(err.code_enum(), Some(JsonRpcErrorCode::ServerError));
    assert_eq!(err.message(), "Completion handler not registered");
    client.close_gracefully(&mut bare);
}

#[test]
fn progress_notifications_over_get_stream() {
    for json_mode in [false, true] {
        let (mut server, _) = start_http_server(json_mode, false);
        let mut client = init_client(&mut server);
        let seen: Recorded<ProgressEvent> = Rc::default();
        let task = r#"{"task_name": "Data Processing", "steps": 4}"#;
        let result = client
            .call_tool(&mut server, "progress_tool", Some(task), Some(seen.clone()))
            .unwrap();
        assert!(!result.is_error, "{:?}", result.content);
        assert_eq!(
            result.content[0].as_text(),
            Some("Task 'Data Processing' completed successfully")
        );
        let events = seen.borrow();
        assert_eq!(events.len(), 5);
        assert_eq!(events[0].0, 0.0);
        assert_eq!(events[4].0, 1.0);
        assert_eq!(events[4].1, Some(4.0));
        assert_eq!(
            events[2].2.as_deref(),
            Some("Processing Data Processing: step 2 of 4")
        );
        client.close_gracefully(&mut server);
    }
}

#[test]
fn server_initiated_sampling_and_roots() {
    for json_mode in [true, false] {
        let (mut server, _) = start_http_server(json_mode, false);
        let server = &mut server;
        let mut client = plain_client();
        let sampled: Recorded<CreateMessageParams> = Rc::default();
        client
            .client
            .set_sampling_create_message_callback(sampled.clone(), SamplingCapability::default());
        client
            .client
            .set_list_roots_callback(Root { uri: "file:///tmp".into(), name: Some("tmp".into()) });
        client.initialize(server).unwrap();

        let prompt = r#"{"prompt": "Tell me a joke"}"#;
        let result = client.call_tool(server, "sampling_echo", Some(prompt), None).unwrap();
        assert!(!result.is_error, "{:?}", result.content);
        assert_eq!(
            result.content[0].as_text(),
            Some("Sampling response: This is a simulated LLM response.")
        );
        {
            let params = sampled.borrow();
            assert_eq!(params.len(), 1);
            assert_eq!(params[0].max_tokens, 100);
            assert_eq!(
                params[0].messages[0].content.first_text().as_deref(),
                Some("Tell me a joke")
            );
        }

        let roots = client.call_tool(server, "roots_tool", None, None).unwrap();
        assert!(!roots.is_error);
        assert_eq!(roots.content[0].as_text(), Some("file:///tmp"));

        let told = client.client.send_roots_list_changed().unwrap();
        assert!(client.send(server, &told).unwrap().is_none());
        client.close_gracefully(server);
    }

    // Without the callbacks the server reports the missing capability as a tool error.
    let (mut server, _) = start_http_server(true, false);
    let server = &mut server;
    let mut client = init_client(server);
    let result =
        client.call_tool(server, "sampling_echo", Some(r#"{"prompt": "x"}"#), None).unwrap();
    assert!(result.is_error);
    assert!(result.content[0]
        .as_text()
        .unwrap()
        .contains("Client does not support sampling/createMessage"));
    let roots = client.call_tool(server, "roots_tool", None, None).unwrap();
    assert!(roots.is_error);
    client.close_gracefully(server);
}

#[test]
fn server_logging_notification_reaches_client() {
    let (mut server, _) = start_http_server(false, false);
    let params = AddToolOptionalParams::default();
    server.server.add_tool_handler("log_tool", Work::Log, params).unwrap();
    let mut client = plain_client();
    let logs: Recorded<LogEntry> = Rc::default();
    client.client.set_logging_callback(logs.clone());
    client.initialize(&mut server).unwrap();
    let result = client.call_tool(&mut server, "log_tool", None, None).unwrap();
    assert!(!result.is_error, "{:?}", result.content);
    let (level, data, logger) = &logs.borrow()[0];
    assert_eq!((level.as_str(), data, logger.as_str()), ("info", &json(r#""tool ran""#), "test-server"));
    client.close_gracefully(&mut server);
}

#[test]
fn stateless_mode() {
    let (mut server, _) = start_http_server(true, true);
    let server = &mut server;
    let mut client = init_client(server);
    let query = r#"{"user_query": "stateless"}"#;
    let result = client.call_tool(server, ECHO_TOOL_NAME, Some(query), None).unwrap();
    assert_eq!(result.content[0].as_text(), Some("Echo: stateless"));
    assert_eq!(server.manager.session_count(), 0);
    // Server initiated requests are refused in stateless mode.
    let sampling =
        client.call_tool(server, "sampling_echo", Some(r#"{"prompt": "x"}"#), None).unwrap();
    assert!(sampling.is_error);
    assert!(sampling.content[0].as_text().unwrap().contains("stateless"));
    client.close_gracefully(server);

    // Raw requests: no session header needed, GET and DELETE are 405.
    let response = server.serve_raw(&post(&[], r#"{"jsonrpc":"2.0","id":1,"method":"ping"}"#));
    assert_eq!(response.status, 200);
    assert_eq!(*at(&json(&response.body), &["result"]), json("{}"));
    let get = server.serve_raw(&request("GET", &[("accept", "text/event-stream")], ""));
    assert_eq!(get.status, 405);
    assert_eq!(get.header_value("allow"), Some("POST"));
}

#[test]
fn raw_http_status_codes() {
    let mut server = start_http_server(true, false).0;
    let put = server.serve_raw(&request("PUT", &[], ""));
    assert_eq!(put.status, 405);
    assert_eq!(put.header_value("allow"), Some("GET, POST, DELETE"));

    let initialize = r#"{"jsonrpc":"2.0","id":1,"method":"initialize"}"#;
    let wrong_accept = server.serve_raw(&request(
        "POST",
        &[("accept", "text/plain"), ("content-type", "application/json")],
        initialize,
    ));
    assert_eq!(wrong_accept.status, 406);
    let body = json(&wrong_accept.body);
    assert_eq!(at(&body, &["id"]).as_str(), Some("server-error"));
    assert_eq!(*at(&body, &["error", "code"]), json("-32600"));

    let bad_type = server.serve_raw(&request(
        "POST",
        &[("accept", "application/json"), ("content-type", "text/plain")],
        "{}",
    ));
    assert_eq!(bad_type.status, 415);

    let bad_json = server.serve_raw(&post(&[], "not json"));
    assert_eq!(bad_json.status, 400);
    assert_eq!(*at(&json(&bad_json.body), &["error", "code"]), json("-32700"));
    // A session whose first request is refused is forgotten.
    assert_eq!(server.manager.session_count(), 0);

    let init = server.serve_raw(&post(&[], r#"{"jsonrpc":"2.0","id":1,"method":"initialize","params":{"protocolVersion":"2025-03-26","capabilities":{},"clientInfo":{"name":"raw","version":"1"}}}"#));
    assert_eq!(init.status, 200);
    let session_id = init.header_value("mcp-session-id").unwrap().to_string();
    assert!(!session_id.is_empty());
    let body = json(&init.body);
    assert_eq!(at(&body, &["result", "serverInfo", "name"]).as_str(), Some("TestMCPServer"));
    assert_eq!(server.manager.session_count(), 1);

    let ping = r#"{"jsonrpc":"2.0","id":2,"method":"ping"}"#;
    let unknown_session = server.serve_raw(&post(&[("mcp-session-id", "does-not-exist")], ping));
    assert_eq!(unknown_session.status, 404);

    let named = ("mcp-session-id", session_id.as_str());
    let bad_version = server.serve_raw(&post(&[named, ("mcp-protocol-version", "1999-01-01")], ping));
    assert_eq!(bad_version.status, 400);

    let notification = server
        .serve_raw(&post(&[named], r#"{"jsonrpc":"2.0","method":"notifications/initialized"}"#));
    assert_eq!(notification.status, 202);

    let batch = server.serve_raw(&post(
        &[named],
        r#"[{"jsonrpc":"2.0","id":3,"method":"ping"},{"jsonrpc":"2.0","id":4,"method":"nope"}]"#,
    ));
    assert_eq!(batch.status, 200);
    let items = match json(&batch.body) {
        Json::Array(items) => items,
        _ => panic!("expected an array"),
    };
    assert_eq!(items.len(), 2);
    assert!(items
        .iter()
        .any(|i| *at(i, &["id"]) == json("3") && *at(i, &["result"]) == json("{}")));
    assert!(items.iter().any(|i| {
        *at(i, &["id"]) == json("4") && *at(i, &["error", "code"]) == json("-32601")
    }));

    let delete_wrong = server.serve_raw(&request("DELETE", &[("mcp-session-id", "other")], ""));
    assert_eq!(delete_wrong.status, 404);
    let delete = server.serve_raw(&request("DELETE", &[named], ""));
    assert_eq!(delete.status, 200);
    assert_eq!(server.manager.session_count(), 0);
}

#[test]
fn sse_mode_raw_stream() {
    let mut server = start_http_server(false, false).0;
    let both = "application/json, text/event-stream";
    let init = server.serve_raw(&request(
        "POST",
        &[("accept", both), ("content-type", "application/json")],
        r#"{"jsonrpc":"2.0","id":1,"method":"initialize","params":{"protocolVersion":"2025-06-18"}}"#,
    ));
    assert_eq!(init.status, 200);
    assert_eq!(init.header_value("content-type"), Some("text/event-stream"));
    let session_id = init.header_value("mcp-session-id").unwrap().to_string();
    let mut parser = SseParser::new();
    let events = parser.feed(&init.body);
    assert_eq!(events.len(), 1);
    assert_eq!(events[0].event.as_deref(), Some("message"));
    let message = json(&events[0].data);
    assert_eq!(at(&message, &["result", "protocolVersion"]).as_str(), Some("2025-06-18"));

    // JSON-only accept is rejected in SSE mode.
    let named = ("mcp-session-id", session_id.as_str());
    let json_only = server.serve_raw(&post(&[named], r#"{"jsonrpc":"2.0","id":2,"method":"ping"}"#));
    assert_eq!(json_only.status, 406);

    // Only one GET stream per session.
    let own = request("GET", &[("accept", "text/event-stream"), named], "");
    assert_eq!(server.serve_raw(&own).status, 200);
    assert_eq!(server.serve_raw(&own).status, 409);
}

#[test]
fn authentication_and_authorization() {
    let mut server = Server::bare(ServerConfig::default, || {
        let mut tokens = StringMap::new();
        tokens.insert("valid-token-12345".to_string(), "read write".to_string());
        tokens.insert("read-only".to_string(), "read".to_string());
        let mut config = StreamableHttpServerConfig::new(ENDPOINT.to_string());
        config.is_json_response_enabled = true;
        config.authenticator =
            Some(BearerTokenAuthenticator::new(Some(SimpleTokenVerifier::new(tokens))));
        config.authorizer = Some(ScopeBasedAuthorizer::new("read write").unwrap());
        config
    });
    server.configure();

    let anonymous = server.serve_raw(&request("POST", &[], ""));
    assert_eq!(anonymous.status, 401);
    let body = json(&anonymous.body);
    assert_eq!(at(&body, &["error"]).as_str(), Some("Missing Authorization header"));
    let read_only = [("authorization", "Bearer read-only")];
    let forbidden = server.serve_raw(&request("POST", &read_only, ""));
    assert_eq!(forbidden.status, 403);
    let body = json(&forbidden.body);
    assert_eq!(at(&body, &["error"]).as_str(), Some("Insufficient permissions"));

    let mut no_auth = plain_client();
    let err = no_auth.initialize(&mut server).unwrap_err();
    assert_eq!(err.code_enum(), Some(JsonRpcErrorCode::InvalidRequest));
    assert_eq!(err.message(), "HTTP error: 401");

    let provider = BearerTokenProvider::new("valid-token-12345".to_string());
    let mut client = http_client(Some(provider));
    client.initialize(&mut server).unwrap();
    let query = r#"{"user_query": "Hello from echo tool!"}"#;
    let result = client.call_tool(&mut server, ECHO_TOOL_NAME, Some(query), None).unwrap();
    assert_eq!(result.content[0].as_text(), Some("Echo: Hello from echo tool!"));
    client.close_gracefully(&mut server);
}

#[test]
fn many_clients_of_one_server() {
    let (mut server, _) = start_http_server(true, false);
    let mut clients: Vec<Asker<BearerTokenProvider>> = Vec::new();
    for _ in 0..4 {
        clients.push(init_client(&mut server));
    }
    assert_eq!(server.manager.session_count(), 4);
    for (i, client) in clients.iter_mut().enumerate() {
        for j in 0..3 {
            let query = format!(r#"{{"user_query": "{i}-{j}"}}"#);
            let result = client.call_tool(&mut server, ECHO_TOOL_NAME, Some(&query), None).unwrap();
            assert_eq!(result.content[0].as_text(), Some(format!("Echo: {i}-{j}").as_str()));
        }
    }
    for client in &mut clients {
        client.close_gracefully(&mut server);
    }
    assert_eq!(server.manager.session_count(), 0);
}

#[test]
fn an_ended_session_is_not_found() {
    let (mut server, _) = start_http_server(true, false);
    let mut client = init_client(&mut server);
    assert_eq!(client.http(&mut server, "DELETE", "").status, 200);
    let err = client
        .ask::<EmptyResult, _, _>(&mut server, "ping", |c| c.send_ping(()))
        .unwrap_err();
    assert_eq!(err.code_enum(), Some(JsonRpcErrorCode::InvalidRequest));
    assert_eq!(err.message(), "Session terminated");
}
