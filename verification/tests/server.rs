use std::path::Path;

use mcp_sdk::auth::{NoAuthAuthenticator, ScopeBasedAuthorizer};
use mcp_sdk::error::McpError;
use mcp_sdk::json::Json;
use mcp_sdk::server::dispatch::Handlers;
use mcp_sdk::server::manager::{generate_session_id, Routed, ServerManager};
use mcp_sdk::server::{
    validate_tls_config, AddPromptOptionalParams, AddResourceOptionalParams,
    AddResourceTemplateOptionalParams, AddToolOptionalParams, FilesFound, McpServer,
    McpServerFactory, ServerContext, ServerState,
};
use mcp_sdk::string_map::StringMap;
use mcp_sdk::transport::{HttpReply, HttpRequest, HttpResponse};
use mcp_sdk::types::{
    ProgressToken, PromptArgument, RequestParamsMeta, ServerConfig, StreamableHttpServerConfig,
    TlsConfig,
};

struct Named;

impl Handlers for Named {
    type Tool = &'static str;
    type Prompt = &'static str;
    type Resource = &'static str;
    type Level = &'static str;
    type Complete = &'static str;
}

type HttpConfig = StreamableHttpServerConfig<NoAuthAuthenticator, ScopeBasedAuthorizer>;
type Server = McpServer<Named, NoAuthAuthenticator, ScopeBasedAuthorizer>;

fn stdio_config() -> ServerConfig {
    ServerConfig {
        name: "TestServer".into(),
        version: "1.0.0".into(),
        worker_threads: 1,
        ..Default::default()
    }
}

fn http_config() -> ServerConfig {
    ServerConfig { worker_threads: 4, ..stdio_config() }
}

fn transport_config() -> HttpConfig {
    HttpConfig::new("http://127.0.0.1:38123/mcp".to_string())
}

fn found(tls: &TlsConfig) -> FilesFound {
    FilesFound {
        cert: Path::new(&tls.cert_file).exists(),
        key: Path::new(&tls.key_file).exists(),
        ca: Path::new(&tls.ca_file).exists(),
    }
}

fn http_server(config: ServerConfig, transport: HttpConfig) -> Result<Server, McpError> {
    let files = found(&transport.tls_config);
    Server::new_streamable_http(config, transport, files)
}

fn told<T>(r: Result<T, McpError>) -> String {
    match r {
        Ok(_) => panic!("expected an error"),
        Err(e) => e.message(),
    }
}

#[test]
fn constructor_validation() {
    assert!(Server::new_stdio(stdio_config()).is_ok());
    let mut bad = stdio_config();
    bad.name = String::new();
    assert!(matches!(Server::new_stdio(bad), Err(McpError::InvalidArgument(_))));
    let mut blank = stdio_config();
    blank.name = "   ".into();
    assert!(Server::new_stdio(blank).is_err());
    let mut no_version = stdio_config();
    no_version.version = String::new();
    assert!(Server::new_stdio(no_version).is_err());
    let mut no_dot = stdio_config();
    no_dot.version = "123".into();
    assert!(Server::new_stdio(no_dot).is_err());
    let mut spaces = stdio_config();
    spaces.name = "Test Server".into();
    assert!(Server::new_stdio(spaces).is_ok());
    let mut ok = stdio_config();
    ok.version = "1.2.3".into();
    assert!(Server::new_stdio(ok).is_ok());

    assert!(http_server(http_config(), HttpConfig::new(String::new())).is_err());
    for endpoint in [
        "not-a-url",
        "http://local#host:8080",
        "http://localhost:8080/path#frag",
        "ftp://localhost:8080",
        "http://localhost:99999",
        "http://localhost:0",
        "http://localhost:8080 ",
    ] {
        let cfg = HttpConfig::new(endpoint.to_string());
        assert!(http_server(http_config(), cfg).is_err(), "{endpoint}");
    }
    for endpoint in [
        "http://localhost:8080",
        "https://127.0.0.1:8001/mcp",
        "http://example.com:443/path?x=1",
        "http://localhost",
        "https://example.com/mcp",
    ] {
        let cfg = HttpConfig::new(endpoint.to_string());
        assert!(http_server(http_config(), cfg).is_ok(), "{endpoint}");
    }
    let mut threads = http_config();
    threads.worker_threads = 65;
    assert!(http_server(threads, transport_config()).is_err());
    let mut io = transport_config();
    io.io_threads = 65;
    assert!(http_server(http_config(), io).is_err());
    let mut zero_io = transport_config();
    zero_io.io_threads = 0;
    assert!(http_server(http_config(), zero_io).is_err());
}

#[test]
fn tls_validation() {
    let validate = |tls: &TlsConfig| validate_tls_config(tls, found(tls));
    assert!(validate(&TlsConfig::default()).is_ok());
    let long_name =
        TlsConfig { enabled: true, server_name: "a".repeat(254), ..Default::default() };
    assert!(validate(&long_name).is_err());
    let spaces = TlsConfig { enabled: true, server_name: "bad name".into(), ..Default::default() };
    assert!(validate(&spaces).is_err());
    let traversal = TlsConfig { enabled: true, server_name: "..evil".into(), ..Default::default() };
    assert!(validate(&traversal).is_err());
    let missing = TlsConfig {
        enabled: true,
        cert_file: "/nonexistent/cert.pem".into(),
        ..Default::default()
    };
    assert!(validate(&missing).is_err());
    let tmp = tempfile::NamedTempFile::new().unwrap();
    let present = TlsConfig {
        enabled: true,
        server_name: "example.com".into(),
        cert_file: tmp.path().to_string_lossy().to_string(),
        key_file: tmp.path().to_string_lossy().to_string(),
        ca_file: tmp.path().to_string_lossy().to_string(),
        ..Default::default()
    };
    assert!(validate(&present).is_ok());
}

#[test]
fn lifecycle_and_registration() {
    let mut server = http_server(http_config(), transport_config()).unwrap();
    assert!(!server.is_running());
    assert_eq!(server.state(), ServerState::Init);
    assert!(!server.stop());
    assert!(!server.is_running());
    server.run(Ok(())).unwrap();
    assert!(server.is_running());
    assert!(server.run(Ok(())).is_err());
    assert!(server.stop());
    assert!(!server.is_running());
    assert_eq!(
        told(server.run(Ok(()))),
        "run failed. Server is not in init state, current state: STOPPED"
    );
    let err = told(server.add_tool_handler("echo", "echo", AddToolOptionalParams::default()));
    assert_eq!(err, "Cannot perform operation: server has been stopped");
    assert!(server.remove_tool("echo").is_err());
    let template = AddResourceTemplateOptionalParams::default();
    assert!(server.add_resource_template("t", "n", template).is_err());
}

#[test]
fn a_failed_start_can_be_tried_again() {
    let mut server = Server::new_stdio(stdio_config()).unwrap();
    let failed = server.run(Err(McpError::Transport("port taken".into())));
    assert_eq!(told(failed), "transport error: port taken");
    assert_eq!(server.state(), ServerState::Init);
    server.run(Ok(())).unwrap();
    assert_eq!(server.state().name(), "RUNNING");
}

#[test]
fn registration_api() {
    let mut server = Server::new_stdio(stdio_config()).unwrap();
    assert_eq!(
        told(server.add_tool_handler("", "echo", AddToolOptionalParams::default())),
        "Tool name cannot be empty"
    );
    server
        .add_tool_handler(
            "echo",
            "echo",
            AddToolOptionalParams {
                description: Some("Echoes back the input message".into()),
                input_schema: Some(Json::parse(r#"{"type": "object"}"#).unwrap()),
                ..Default::default()
            },
        )
        .unwrap();
    server.add_tool_handler("echo", "echo", AddToolOptionalParams::default()).unwrap();
    for i in 0..3 {
        let name = format!("tool_{i}");
        server.add_tool_handler(&name, "echo", AddToolOptionalParams::default()).unwrap();
    }
    assert_eq!(server.tools().len(), 4);
    server.remove_tool("echo").unwrap();
    assert!(server.remove_tool("echo").is_err());

    server
        .add_prompt_handler(
            "test_prompt",
            "prompt",
            AddPromptOptionalParams {
                description: Some("d".into()),
                arguments: Some(vec![PromptArgument::new(
                    "name".into(),
                    "The name".into(),
                    true,
                )]),
                ..Default::default()
            },
        )
        .unwrap();
    let unnamed = AddPromptOptionalParams::default();
    assert!(server.add_prompt_handler("", "prompt", unnamed).is_err());
    server.remove_prompt("test_prompt").unwrap();
    server.remove_prompt("missing").unwrap();

    for _ in 0..2 {
        server
            .add_resource_handler(
                "test://resource",
                "Test Resource",
                "read",
                AddResourceOptionalParams::default(),
            )
            .unwrap();
    }
    let nowhere = AddResourceOptionalParams::default();
    assert!(server.add_resource_handler("", "n", "read", nowhere).is_err());
    server.remove_resource("test://resource").unwrap();
    server
        .add_resource_template(
            "test://resource/{id}",
            "Test Template",
            AddResourceTemplateOptionalParams::default(),
        )
        .unwrap();
    server.remove_resource_template("test://resource/{id}").unwrap();
    server.register_set_logging_level_handler("level");
    server.add_completion("complete");
    assert!(server.transport_config().is_none());
    assert_eq!(server.config().name, "TestServer");
}

#[test]
fn factories_make_what_constructors_make() {
    let over_stdio: Server = McpServerFactory::create_stdio_server(stdio_config()).unwrap();
    assert!(over_stdio.transport_config().is_none());
    let transport = transport_config();
    let files = found(&transport.tls_config);
    let over_http: Server =
        McpServerFactory::create_streamable_http_server(http_config(), transport, files).unwrap();
    assert_eq!(over_http.transport_config().unwrap().endpoint, "http://127.0.0.1:38123/mcp");
}

#[test]
fn session_ids_are_uuids() {
    let id = generate_session_id();
    assert_eq!(id.len(), 36);
    assert_ne!(id, generate_session_id());
}

#[test]
fn a_context_tells_the_progress_token() {
    let meta = RequestParamsMeta { progress_token: Some(ProgressToken::Number(3)) };
    let context = ServerContext::new((), Some(meta));
    assert_eq!(context.progress_token(), Some(ProgressToken::Number(3)));
    assert_eq!(ServerContext::new((), None).progress_token(), None);
}

fn to_session(id: &str) -> HttpRequest {
    let mut headers = StringMap::new();
    if !id.is_empty() {
        headers.insert("mcp-session-id".to_string(), id.to_string());
    }
    HttpRequest::new("POST", headers, String::new())
}

#[test]
fn a_request_leaves_the_sessions_that_last() {
    let mut manager: ServerManager<NoAuthAuthenticator, ScopeBasedAuthorizer, u8> =
        ServerManager::new(http_config(), Some(transport_config()));
    let answered = |code: u16| HttpReply::Full(HttpResponse::new(code));

    assert!(matches!(manager.route(&to_session("nobody")), Routed::Answer(_)));
    assert_eq!(manager.session_count(), 0);

    let mut ids = Vec::new();
    for (entry, reply, stays) in [
        (1u8, HttpReply::Deferred, true),
        (2, answered(399), true),
        (3, answered(400), false),
        (4, answered(500), false),
    ] {
        let Routed::Create { session_id } = manager.route(&to_session("")) else {
            panic!("a request without a name makes a session");
        };
        let before = manager.session_count();
        manager.insert_session(session_id.clone(), entry);
        assert_eq!(manager.session_count(), before + 1);
        let gone = manager.request_handled(&session_id, true, false, &reply);
        assert_eq!(gone, if stays { None } else { Some(entry) });
        assert_eq!(manager.get_session(&session_id).is_some(), stays);
        if stays {
            ids.push(session_id);
        }
    }
    assert_eq!(manager.session_count(), 2);

    let Routed::Existing { session_id } = manager.route(&to_session(&ids[0])) else {
        panic!("the session is there");
    };
    assert_eq!(manager.request_handled(&session_id, false, false, &answered(400)), None);
    assert_eq!(manager.session_count(), 2);
    assert_eq!(manager.request_handled(&session_id, false, true, &answered(200)), Some(1));
    assert!(manager.get_session(&ids[0]).is_none());
    assert_eq!(manager.get_session(&ids[1]), Some(&2));
    assert!(matches!(manager.route(&to_session(&ids[0])), Routed::Answer(_)));
}
