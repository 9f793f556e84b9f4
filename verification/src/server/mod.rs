//! The side of a server.
pub mod dispatch;
pub mod manager;
pub mod paging;
pub mod prompt_manager;
pub mod request_table;
pub mod resource_manager;
pub mod session;
pub mod tool_manager;

pub use crate::server::dispatch::{Dispatched, Handlers, ServerInner};
pub use crate::server::manager::ServerManager;
pub use crate::server::prompt_manager::PromptManager;
pub use crate::server::resource_manager::ResourceManager;
pub use crate::server::session::ServerSession;
pub use crate::server::tool_manager::{ServerTool, ToolManager};

use vstd::prelude::*;

use crate::error::McpError;
use crate::json::Json;
use crate::protocol::endpoint;
use crate::protocol::{is_valid_streamable_http_endpoint, MAX_THREAD_NUM};
use crate::server::prompt_manager::PromptEntry;
use crate::server::resource_manager::ResourceEntry;
use crate::text;
use crate::types::config::{ServerConfig, StreamableHttpServerConfig, TlsConfig};
use crate::types::content::{Annotations, Icon};
use crate::types::meta::{ProgressToken, RequestParamsMeta};
use crate::types::prompts::{PromptArgument, PromptInfo};
use crate::types::resources::{ResourceInfo, ResourceTemplate};
use crate::types::tools::ToolAnnotations;
use crate::wire;
use crate::wire::Wire;

verus! {

/// What is handed to that which runs for a request. `S` is the session that received
/// it.
#[derive(Debug, Clone)]
pub struct ServerContext<S> {
    pub session: S,
    /// What the parameters of the request say about it.
    pub meta: Option<RequestParamsMeta>,
}

impl<S> ServerContext<S> {
    /// The circumstances of a request.
    pub fn new(session: S, meta: Option<RequestParamsMeta>) -> (r: Self)
        ensures
            r.session == session,
            r.meta == meta,
    {
        ServerContext { session, meta }
    }

    /// The token by which the client asks to hear of progress.
    pub fn progress_token(&self) -> (r: Option<ProgressToken>)
        ensures
            wire::opt(r) == match self.meta {
                Some(m) => wire::opt(m.progress_token),
                None => None,
            },
    {
        match &self.meta {
            Some(m) => wire::duplicate_opt(&m.progress_token),
            None => None,
        }
    }
}

/// What else is said of a tool.
#[derive(Debug, Clone)]
pub struct AddToolOptionalParams {
    pub title: Option<String>,
    pub description: Option<String>,
    /// What arguments must meet.
    pub input_schema: Option<Json>,
    /// What the structured content of a result must meet.
    pub output_schema: Option<Json>,
    /// Not looked at.
    pub structured_output: bool,
    pub annotations: Option<ToolAnnotations>,
    pub icons: Option<Vec<Icon>>,
}

impl Default for AddToolOptionalParams {
    fn default() -> (r: Self)
        ensures
            r.title is None,
            r.description is None,
            r.input_schema is None,
            r.output_schema is None,
            !r.structured_output,
            r.annotations is None,
            r.icons is None,
    {
        AddToolOptionalParams {
            title: None,
            description: None,
            input_schema: None,
            output_schema: None,
            structured_output: false,
            annotations: None,
            icons: None,
        }
    }
}

/// What else is said of a prompt.
#[derive(Debug, Clone)]
pub struct AddPromptOptionalParams {
    pub description: Option<String>,
    pub title: Option<String>,
    pub icons: Option<Vec<Icon>>,
    pub arguments: Option<Vec<PromptArgument>>,
}

impl Default for AddPromptOptionalParams {
    fn default() -> (r: Self)
        ensures
            r.description is None,
            r.title is None,
            r.icons is None,
            r.arguments is None,
    {
        AddPromptOptionalParams { description: None, title: None, icons: None, arguments: None }
    }
}

/// What else is said of a resource.
#[derive(Debug, Clone)]
pub struct AddResourceOptionalParams {
    pub title: Option<String>,
    pub description: Option<String>,
    pub mime_type: Option<String>,
    /// The size in bytes.
    pub size: Option<i64>,
    pub icons: Option<Vec<Icon>>,
    pub annotations: Option<Annotations>,
}

impl Default for AddResourceOptionalParams {
    fn default() -> (r: Self)
        ensures
            r.title is None,
            r.description is None,
            r.mime_type is None,
            r.size is None,
            r.icons is None,
            r.annotations is None,
    {
        AddResourceOptionalParams {
            title: None,
            description: None,
            mime_type: None,
            size: None,
            icons: None,
            annotations: None,
        }
    }
}

/// What else is said of a template of resources.
#[derive(Debug, Clone)]
pub struct AddResourceTemplateOptionalParams {
    pub title: Option<String>,
    pub description: Option<String>,
    pub mime_type: Option<String>,
    pub icons: Option<Vec<Icon>>,
    pub annotations: Option<Annotations>,
}

impl Default for AddResourceTemplateOptionalParams {
    fn default() -> (r: Self)
        ensures
            r.title is None,
            r.description is None,
            r.mime_type is None,
            r.icons is None,
            r.annotations is None,
    {
        AddResourceTemplateOptionalParams {
            title: None,
            description: None,
            mime_type: None,
            icons: None,
            annotations: None,
        }
    }
}

/// Where a server is in its life.
#[derive(Clone, Copy, Debug, PartialEq, Eq, Structural)]
pub enum ServerState {
    /// It was made, and not started.
    Init,
    Running,
    /// It was stopped, and cannot be started again.
    Stopped,
}

impl ServerState {
    /// The name of the state.
    pub open spec fn named(self) -> Seq<char> {
        match self {
            ServerState::Init => "INIT"@,
            ServerState::Running => "RUNNING"@,
            ServerState::Stopped => "STOPPED"@,
        }
    }

    /// The name of the state.
    pub fn name(self) -> (r: &'static str)
        ensures
            r@ == self.named(),
    {
        match self {
            ServerState::Init => "INIT",
            ServerState::Running => "RUNNING",
            ServerState::Stopped => "STOPPED",
        }
    }

    /// The state after the transport of a server was to be started.
    pub open spec fn after_run(self, started: bool) -> ServerState {
        if self == ServerState::Init && started {
            ServerState::Running
        } else {
            self
        }
    }

    /// The state after a server was to be stopped.
    pub open spec fn after_stop(self) -> ServerState {
        if self == ServerState::Running {
            ServerState::Stopped
        } else {
            self
        }
    }
}

/// A server runs at most once: once it was stopped nothing brings it back, and only one
/// that was started can be stopped.
pub proof fn life_goes_one_way(s: ServerState, started: bool)
    ensures
        s == ServerState::Stopped ==> s.after_run(started) == s && s.after_stop() == s,
        s == ServerState::Running ==> s.after_run(started) == s,
        s.after_run(started) == ServerState::Running <==> s == ServerState::Running || (s
            == ServerState::Init && started),
        s.after_stop() == ServerState::Stopped <==> s != ServerState::Init,
        s.after_stop() != ServerState::Running,
{
}

/// The name and the version of a server will do, and so does the number of its threads
/// where it has any.
pub open spec fn config_valid(config: ServerConfig, is_stdio: bool) -> bool {
    &&& text::trimmed(config.name@).len() > 0
    &&& config.version@.contains('.')
    &&& is_stdio || 0 < config.worker_threads <= MAX_THREAD_NUM
}

fn validate_config(config: &ServerConfig, is_stdio: bool) -> (r: Result<(), McpError>)
    ensures
        r is Ok <==> config_valid(*config, is_stdio),
        r is Err ==> r->Err_0.faults_argument("Invalid server configuration"@),
{
    let name = text::trim(config.name.as_str());
    if name.as_str().is_empty() || !text::contains_char(config.version.as_str(), '.') {
        return Err(McpError::argument("Invalid server configuration".to_owned()));
    }
    if !is_stdio && (config.worker_threads == 0 || config.worker_threads > MAX_THREAD_NUM) {
        return Err(McpError::argument("Invalid server configuration".to_owned()));
    }
    Ok(())
}

/// The longest name of a host, in bytes.
pub const MAX_HOSTNAME_LENGTH: usize = 253;

/// Which of the files of an encrypted connection there are.
#[derive(Clone, Copy, Debug, PartialEq, Eq, Structural)]
pub struct FilesFound {
    pub cert: bool,
    pub key: bool,
    pub ca: bool,
}

/// The name of a host will do.
pub open spec fn host_valid(name: Seq<char>) -> bool {
    &&& vstd::utf8::encode_utf8(name).len() <= MAX_HOSTNAME_LENGTH
    &&& !name.contains(' ') && !name.contains('\t') && !name.contains('\r') && !name.contains('\n')
    &&& !text::occurs(name, ".."@)
}

/// The configuration of an encrypted connection will do: the name of the server is that
/// of a host, and the files that it names are there.
pub open spec fn tls_valid(config: TlsConfig, found: FilesFound) -> bool {
    config.enabled ==> {
        &&& config.server_name@.len() == 0 || host_valid(config.server_name@)
        &&& config.cert_file@.len() == 0 || found.cert
        &&& config.key_file@.len() == 0 || found.key
        &&& config.ca_file@.len() == 0 || found.ca
    }
}

fn http_fault() -> (r: McpError)
    ensures
        r.faults_argument("Invalid Streamable HTTP transport configuration"@),
{
    McpError::argument("Invalid Streamable HTTP transport configuration".to_owned())
}

/// Tells whether the configuration of an encrypted connection will do, given which of
/// its files there are.
pub fn validate_tls_config(config: &TlsConfig, found: FilesFound) -> (r: Result<(), McpError>)
    ensures
        r is Ok <==> tls_valid(*config, found),
        r is Err ==> r->Err_0.faults_argument("Invalid Streamable HTTP transport configuration"@),
{
    if !config.enabled {
        return Ok(());
    }
    let name = config.server_name.as_str();
    if !name.is_empty() {
        if name.as_bytes().len() > MAX_HOSTNAME_LENGTH {
            return Err(http_fault());
        }
        if text::contains_char(name, ' ') || text::contains_char(name, '\t')
            || text::contains_char(name, '\r') || text::contains_char(name, '\n') {
            return Err(http_fault());
        }
        if text::contains(name, "..") {
            return Err(http_fault());
        }
    }
    if !config.cert_file.as_str().is_empty() && !found.cert {
        return Err(http_fault());
    }
    if !config.key_file.as_str().is_empty() && !found.key {
        return Err(http_fault());
    }
    if !config.ca_file.as_str().is_empty() && !found.ca {
        return Err(http_fault());
    }
    Ok(())
}

/// How a server is reached over HTTP will do.
pub open spec fn http_valid<A, Z>(
    config: StreamableHttpServerConfig<A, Z>,
    found: FilesFound,
) -> bool {
    &&& endpoint::endpoint_fault(config.endpoint@) is None
    &&& 0 < config.io_threads <= MAX_THREAD_NUM
    &&& tls_valid(config.tls_config, found)
}

fn validate_streamable_http_config<A, Z>(
    config: &StreamableHttpServerConfig<A, Z>,
    found: FilesFound,
) -> (r: Result<(), McpError>)
    ensures
        r is Ok <==> http_valid(*config, found),
        r is Err ==> r->Err_0.faults_argument("Invalid Streamable HTTP transport configuration"@),
{
    match is_valid_streamable_http_endpoint(config.endpoint.as_str()) {
        Ok(()) => {},
        Err(_) => {
            return Err(http_fault());
        },
    }
    if config.io_threads == 0 || config.io_threads > MAX_THREAD_NUM {
        return Err(http_fault());
    }
    validate_tls_config(&config.tls_config, found)
}

/// A server. `A` authenticates those who call over HTTP, and `Z` decides whether they
/// may go on.
pub struct McpServer<H: Handlers, A, Z> {
    config: ServerConfig,
    transport_config: Option<StreamableHttpServerConfig<A, Z>>,
    inner: ServerInner<H>,
    state: ServerState,
}

/// Nothing is offered yet.
pub open spec fn offers_nothing<H: Handlers>(s: ServerInner<H>) -> bool {
    &&& s.tools@.dom() == Set::<Seq<char>>::empty()
    &&& s.prompts@.dom() == Set::<Seq<char>>::empty()
    &&& s.resources@.dom() == Set::<Seq<char>>::empty()
    &&& s.resources.forms().dom() == Set::<Seq<char>>::empty()
    &&& s.set_level_handler is None
    &&& s.complete_handler is None
}

/// The error of an operation on a server that was stopped.
pub open spec fn stopped_fault(e: McpError) -> bool {
    e.faults_state("Cannot perform operation: server has been stopped"@)
}

/// The tool that is added.
pub open spec fn tool_added<T>(
    name: Seq<char>,
    handler: T,
    params: AddToolOptionalParams,
    t: ServerTool<T>,
) -> bool {
    &&& t.name@ == name
    &&& t.handler == handler
    &&& t.title == params.title
    &&& t.description == params.description
    &&& t.input_schema == params.input_schema
    &&& t.output_schema == params.output_schema
    &&& t.structured_output == params.structured_output
    &&& t.annotations == params.annotations
    &&& t.icons == params.icons
}

/// The prompt that is added.
pub open spec fn prompt_added<T>(
    name: Seq<char>,
    handler: T,
    params: AddPromptOptionalParams,
    p: PromptEntry<T>,
) -> bool {
    &&& p.handler == handler
    &&& p.info.name@ == name
    &&& p.info.description == params.description
    &&& p.info.title == params.title
    &&& p.info.icons == params.icons
    &&& p.info.arguments == params.arguments
}

/// The resource that is added.
pub open spec fn resource_added<T>(
    uri: Seq<char>,
    name: Seq<char>,
    handler: T,
    params: AddResourceOptionalParams,
    p: ResourceEntry<T>,
) -> bool {
    &&& p.handler == handler
    &&& p.info.uri@ == uri
    &&& p.info.name@ == name
    &&& p.info.title == params.title
    &&& p.info.description == params.description
    &&& p.info.mime_type == params.mime_type
    &&& p.info.size == params.size
    &&& p.info.icons == params.icons
    &&& p.info.annotations == params.annotations
}

/// The template that is added.
pub open spec fn template_added(
    uri_template: Seq<char>,
    name: Seq<char>,
    params: AddResourceTemplateOptionalParams,
    t: ResourceTemplate,
) -> bool {
    &&& t.uri_template@ == uri_template
    &&& t.name@ == name
    &&& t.title == params.title
    &&& t.description == params.description
    &&& t.mime_type == params.mime_type
    &&& t.icons == params.icons
    &&& t.annotations == params.annotations
}

impl<H: Handlers, A, Z> McpServer<H, A, Z> {
    /// What the server offers.
    pub closed spec fn offers(&self) -> ServerInner<H> {
        self.inner
    }

    /// Where the server is in its life.
    pub closed spec fn stage(&self) -> ServerState {
        self.state
    }

    /// The configuration of the server.
    pub closed spec fn configured(&self) -> ServerConfig {
        self.config
    }

    /// How the server is reached over HTTP, if it is.
    pub closed spec fn reached(&self) -> Option<StreamableHttpServerConfig<A, Z>> {
        self.transport_config
    }

    /// The same but for what is offered.
    pub open spec fn same_server(&self, other: &Self) -> bool {
        self.stage() == other.stage() && self.configured() == other.configured() && self.reached()
            == other.reached()
    }

    /// All that is offered but the tools is the same.
    pub open spec fn keeps_but_tools(&self, other: &Self) -> bool {
        let a = self.offers();
        let b = other.offers();
        &&& a.prompts == b.prompts && a.resources == b.resources
        &&& a.set_level_handler == b.set_level_handler && a.complete_handler == b.complete_handler
        &&& a.tools.may_overwrite() == b.tools.may_overwrite() && a.tools.size() == b.tools.size()
    }

    /// All that is offered but the prompts is the same.
    pub open spec fn keeps_but_prompts(&self, other: &Self) -> bool {
        let a = self.offers();
        let b = other.offers();
        &&& a.tools == b.tools && a.resources == b.resources
        &&& a.set_level_handler == b.set_level_handler && a.complete_handler == b.complete_handler
        &&& a.prompts.may_overwrite() == b.prompts.may_overwrite()
    }

    /// All that is offered but the resources is the same.
    pub open spec fn keeps_but_resources(&self, other: &Self) -> bool {
        let a = self.offers();
        let b = other.offers();
        &&& a.tools == b.tools && a.prompts == b.prompts
        &&& a.set_level_handler == b.set_level_handler && a.complete_handler == b.complete_handler
        &&& a.resources.may_overwrite() == b.resources.may_overwrite() && a.resources.size()
            == b.resources.size()
    }

    fn build(
        config: ServerConfig,
        transport_config: Option<StreamableHttpServerConfig<A, Z>>,
    ) -> (r: Self)
        ensures
            offers_nothing(r.offers()),
            r.offers().tools.may_overwrite() && r.offers().tools.size() == config.tools_page_size,
            r.offers().prompts.may_overwrite(),
            r.offers().resources.may_overwrite() && r.offers().resources.size()
                == config.resources_page_size,
            r.stage() == ServerState::Init,
            r.configured() == config,
            r.reached() == transport_config,
    {
        let inner: ServerInner<H> = ServerInner::new(
            config.tools_page_size,
            config.resources_page_size,
        );
        assert(inner.tools@.dom() =~= Set::<Seq<char>>::empty());
        McpServer { config, transport_config, inner, state: ServerState::Init }
    }

    /// A server on a pair of text streams.
    pub fn new_stdio(config: ServerConfig) -> (r: Result<Self, McpError>)
        ensures
            r is Ok <==> config_valid(config, true),
            match r {
                Ok(s) => {
                    &&& offers_nothing(s.offers())
                    &&& s.offers().tools.may_overwrite() && s.offers().tools.size()
                        == config.tools_page_size
                    &&& s.offers().prompts.may_overwrite()
                    &&& s.offers().resources.may_overwrite() && s.offers().resources.size()
                        == config.resources_page_size
                    &&& s.stage() == ServerState::Init
                    &&& s.configured() == config
                    &&& s.reached() is None
                },
                Err(e) => e.faults_argument("Invalid server configuration"@),
            },
    {
        match validate_config(&config, true) {
            Ok(()) => Ok(Self::build(config, None)),
            Err(e) => Err(e),
        }
    }

    /// A server over HTTP, given which of the files that it needs there are.
    pub fn new_streamable_http(
        config: ServerConfig,
        transport_config: StreamableHttpServerConfig<A, Z>,
        found: FilesFound,
    ) -> (r: Result<Self, McpError>)
        ensures
            r is Ok <==> config_valid(config, false) && http_valid(transport_config, found),
            match r {
                Ok(s) => {
                    &&& offers_nothing(s.offers())
                    &&& s.offers().tools.may_overwrite() && s.offers().tools.size()
                        == config.tools_page_size
                    &&& s.offers().prompts.may_overwrite()
                    &&& s.offers().resources.may_overwrite() && s.offers().resources.size()
                        == config.resources_page_size
                    &&& s.stage() == ServerState::Init
                    &&& s.configured() == config
                    &&& s.reached() == Some(transport_config)
                },
                Err(e) => e.faults_argument(
                    if !config_valid(config, false) {
                        "Invalid server configuration"@
                    } else {
                        "Invalid Streamable HTTP transport configuration"@
                    },
                ),
            },
    {
        match validate_config(&config, false) {
            Ok(()) => {},
            Err(e) => {
                return Err(e);
            },
        }
        match validate_streamable_http_config(&transport_config, found) {
            Ok(()) => Ok(Self::build(config, Some(transport_config))),
            Err(e) => Err(e),
        }
    }

    /// The configuration of the server.
    pub fn config(&self) -> (r: &ServerConfig)
        ensures
            *r == self.configured(),
    {
        &self.config
    }

    /// How the server is reached over HTTP, if it is.
    pub fn transport_config(&self) -> (r: Option<&StreamableHttpServerConfig<A, Z>>)
        ensures
            match r {
                Some(c) => self.reached() == Some(*c),
                None => self.reached() is None,
            },
    {
        match &self.transport_config {
            Some(c) => Some(c),
            None => None,
        }
    }

    /// Where the server is in its life.
    pub fn state(&self) -> (r: ServerState)
        ensures
            r == self.stage(),
    {
        self.state
    }

    /// Tells whether the server runs.
    pub fn is_running(&self) -> (r: bool)
        ensures
            r == (self.stage() == ServerState::Running),
    {
        self.state == ServerState::Running
    }

    /// What the server offers.
    pub fn inner(&self) -> (r: &ServerInner<H>)
        ensures
            *r == self.offers(),
    {
        &self.inner
    }

    /// Tells whether the server can be started: only once, and not after it was
    /// stopped.
    pub fn check_run(&self) -> (r: Result<(), McpError>)
        ensures
            r is Ok <==> self.stage() == ServerState::Init,
            r is Err ==> r->Err_0.faults_state(
                "run failed. Server is not in init state, current state: "@ + self.stage().named(),
            ),
    {
        if self.state == ServerState::Init {
            Ok(())
        } else {
            Err(
                McpError::state(
                    text::cat2(
                        "run failed. Server is not in init state, current state: ",
                        self.state.name(),
                    ),
                ),
            )
        }
    }

    /// Starts the server, by what came of starting its transport.
    pub fn run(&mut self, started: Result<(), McpError>) -> (r: Result<(), McpError>)
        ensures
            r is Ok <==> old(self).stage() == ServerState::Init && started is Ok,
            r is Err ==> if old(self).stage() == ServerState::Init {
                r == started
            } else {
                r->Err_0.faults_state(
                    "run failed. Server is not in init state, current state: "@ + old(
                        self,
                    ).stage().named(),
                )
            },
            final(self).stage() == old(self).stage().after_run(started is Ok),
            final(self).offers() == old(self).offers(),
            final(self).configured() == old(self).configured(),
            final(self).reached() == old(self).reached(),
    {
        match self.check_run() {
            Ok(()) => {},
            Err(e) => {
                return Err(e);
            },
        }
        match started {
            Ok(()) => {
                self.state = ServerState::Running;
                Ok(())
            },
            Err(e) => Err(e),
        }
    }

    /// Stops the server. Tells whether it ran, so that its transport is to be stopped.
    pub fn stop(&mut self) -> (r: bool)
        ensures
            r == (old(self).stage() == ServerState::Running),
            final(self).stage() == old(self).stage().after_stop(),
            final(self).offers() == old(self).offers(),
            final(self).configured() == old(self).configured(),
            final(self).reached() == old(self).reached(),
    {
        if self.state != ServerState::Running {
            return false;
        }
        self.state = ServerState::Stopped;
        true
    }

    fn check_state(&self) -> (r: Result<(), McpError>)
        ensures
            r is Ok <==> self.stage() != ServerState::Stopped,
            r is Err ==> stopped_fault(r->Err_0),
    {
        if self.state == ServerState::Stopped {
            return Err(
                McpError::state("Cannot perform operation: server has been stopped".to_owned()),
            );
        }
        Ok(())
    }

    /// Adds a tool.
    pub fn add_tool_handler(
        &mut self,
        name: &str,
        handler: H::Tool,
        params: AddToolOptionalParams,
    ) -> (r: Result<(), McpError>)
        ensures
            final(self).same_server(&*old(self)),
            final(self).keeps_but_tools(&*old(self)),
            ({
                let before = old(self).offers().tools;
                let after = final(self).offers().tools;
                match r {
                    Ok(()) => {
                        &&& old(self).stage() != ServerState::Stopped && name@.len() > 0
                        &&& !before@.dom().contains(name@) || before.may_overwrite()
                        &&& after@.dom() == before@.dom().insert(name@)
                        &&& tool_added(name@, handler, params, after@[name@])
                        &&& forall|k: Seq<char>| k != name@ && before@.dom().contains(k) ==> #[trigger]
                            after@[k] == before@[k]
                    },
                    Err(e) => after@ == before@ && if old(self).stage() == ServerState::Stopped {
                        stopped_fault(e)
                    } else if name@.len() == 0 {
                        e.faults_argument("Tool name cannot be empty"@)
                    } else {
                        before@.dom().contains(name@) && !before.may_overwrite() && e.faults_state(
                            "Tool '"@ + name@ + "' already exists"@,
                        )
                    },
                }
            }),
    {
        match self.check_state() {
            Ok(()) => {},
            Err(e) => {
                return Err(e);
            },
        }
        if name.is_empty() {
            return Err(McpError::argument("Tool name cannot be empty".to_owned()));
        }
        let tool = ServerTool {
            name: name.to_owned(),
            handler,
            title: params.title,
            description: params.description,
            input_schema: params.input_schema,
            output_schema: params.output_schema,
            structured_output: params.structured_output,
            annotations: params.annotations,
            icons: params.icons,
        };
        let r = self.inner.tools.add_tool(tool);
        assert(r is Ok ==> self.inner.tools@.dom() =~= old(self).inner.tools@.dom().insert(name@));
        r
    }

    /// Takes out a tool.
    pub fn remove_tool(&mut self, name: &str) -> (r: Result<(), McpError>)
        ensures
            final(self).same_server(&*old(self)),
            final(self).keeps_but_tools(&*old(self)),
            ({
                let before = old(self).offers().tools@;
                let after = final(self).offers().tools@;
                match r {
                    Ok(()) => old(self).stage() != ServerState::Stopped && name@.len() > 0
                        && before.dom().contains(name@) && after == before.remove(name@),
                    Err(e) => after == before && if old(self).stage() == ServerState::Stopped {
                        stopped_fault(e)
                    } else if name@.len() == 0 {
                        e.faults_argument("Tool name cannot be empty"@)
                    } else {
                        !before.dom().contains(name@) && e.faults_state(
                            "Tool '"@ + name@ + "' not found"@,
                        )
                    },
                }
            }),
    {
        match self.check_state() {
            Ok(()) => {},
            Err(e) => {
                return Err(e);
            },
        }
        self.inner.tools.remove_tool(name)
    }

    /// Adds a prompt.
    pub fn add_prompt_handler(
        &mut self,
        name: &str,
        handler: H::Prompt,
        params: AddPromptOptionalParams,
    ) -> (r: Result<(), McpError>)
        ensures
            final(self).same_server(&*old(self)),
            final(self).keeps_but_prompts(&*old(self)),
            ({
                let before = old(self).offers().prompts;
                let after = final(self).offers().prompts;
                match r {
                    Ok(()) => {
                        &&& old(self).stage() != ServerState::Stopped && name@.len() > 0
                        &&& !before@.dom().contains(name@) || before.may_overwrite()
                        &&& after@.dom() == before@.dom().insert(name@)
                        &&& prompt_added(name@, handler, params, after@[name@])
                        &&& forall|k: Seq<char>| k != name@ && before@.dom().contains(k) ==> #[trigger]
                            after@[k] == before@[k]
                    },
                    Err(e) => after@ == before@ && if old(self).stage() == ServerState::Stopped {
                        stopped_fault(e)
                    } else if name@.len() == 0 {
                        e.faults_argument("Prompt name cannot be empty"@)
                    } else {
                        before@.dom().contains(name@) && !before.may_overwrite() && e.faults_state(
                            "Prompt already exists: "@ + name@,
                        )
                    },
                }
            }),
    {
        match self.check_state() {
            Ok(()) => {},
            Err(e) => {
                return Err(e);
            },
        }
        let info = PromptInfo {
            name: name.to_owned(),
            description: params.description,
            title: params.title,
            icons: params.icons,
            arguments: params.arguments,
        };
        let r = self.inner.prompts.add_prompt(info, handler);
        assert(r is Ok ==> self.inner.prompts@.dom() =~= old(self).inner.prompts@.dom().insert(
            name@,
        ));
        r
    }

    /// Takes out a prompt, if it is there.
    pub fn remove_prompt(&mut self, name: &str) -> (r: Result<(), McpError>)
        ensures
            final(self).same_server(&*old(self)),
            final(self).keeps_but_prompts(&*old(self)),
            r is Ok <==> old(self).stage() != ServerState::Stopped,
            match r {
                Ok(()) => final(self).offers().prompts@ == old(self).offers().prompts@.remove(name@),
                Err(e) => stopped_fault(e) && final(self).offers().prompts@ == old(
                    self,
                ).offers().prompts@,
            },
    {
        match self.check_state() {
            Ok(()) => {},
            Err(e) => {
                return Err(e);
            },
        }
        self.inner.prompts.remove_prompt(name);
        Ok(())
    }

    /// Adds a resource.
    pub fn add_resource_handler(
        &mut self,
        uri: &str,
        name: &str,
        handler: H::Resource,
        params: AddResourceOptionalParams,
    ) -> (r: Result<(), McpError>)
        ensures
            final(self).same_server(&*old(self)),
            final(self).keeps_but_resources(&*old(self)),
            final(self).offers().resources.forms() == old(self).offers().resources.forms(),
            ({
                let before = old(self).offers().resources;
                let after = final(self).offers().resources;
                match r {
                    Ok(()) => {
                        &&& old(self).stage() != ServerState::Stopped
                        &&& uri@.len() > 0 && name@.len() > 0
                        &&& !before@.dom().contains(uri@) || before.may_overwrite()
                        &&& after@.dom() == before@.dom().insert(uri@)
                        &&& resource_added(uri@, name@, handler, params, after@[uri@])
                        &&& forall|k: Seq<char>| k != uri@ && before@.dom().contains(k) ==> #[trigger]
                            after@[k] == before@[k]
                    },
                    Err(e) => after@ == before@ && if old(self).stage() == ServerState::Stopped {
                        stopped_fault(e)
                    } else if uri@.len() == 0 {
                        e.faults_argument("Resource URI cannot be empty"@)
                    } else if name@.len() == 0 {
                        e.faults_argument("Resource name cannot be empty"@)
                    } else {
                        before@.dom().contains(uri@) && !before.may_overwrite() && e.faults_state(
                            "Resource '"@ + uri@ + "' already exists"@,
                        )
                    },
                }
            }),
    {
        match self.check_state() {
            Ok(()) => {},
            Err(e) => {
                return Err(e);
            },
        }
        let info = ResourceInfo {
            uri: uri.to_owned(),
            name: name.to_owned(),
            title: params.title,
            description: params.description,
            mime_type: params.mime_type,
            size: params.size,
            icons: params.icons,
            annotations: params.annotations,
        };
        let r = self.inner.resources.add_resource(info, handler);
        assert(r is Ok ==> self.inner.resources@.dom() =~= old(self).inner.resources@.dom().insert(
            uri@,
        ));
        r
    }

    /// Takes out a resource.
    pub fn remove_resource(&mut self, uri: &str) -> (r: Result<(), McpError>)
        ensures
            final(self).same_server(&*old(self)),
            final(self).keeps_but_resources(&*old(self)),
            final(self).offers().resources.forms() == old(self).offers().resources.forms(),
            ({
                let before = old(self).offers().resources@;
                let after = final(self).offers().resources@;
                match r {
                    Ok(()) => old(self).stage() != ServerState::Stopped && uri@.len() > 0
                        && before.dom().contains(uri@) && after == before.remove(uri@),
                    Err(e) => after == before && if old(self).stage() == ServerState::Stopped {
                        stopped_fault(e)
                    } else if uri@.len() == 0 {
                        e.faults_argument("Resource URI cannot be empty"@)
                    } else {
                        !before.dom().contains(uri@) && e.faults_state(
                            "Resource '"@ + uri@ + "' not found"@,
                        )
                    },
                }
            }),
    {
        match self.check_state() {
            Ok(()) => {},
            Err(e) => {
                return Err(e);
            },
        }
        self.inner.resources.remove_resource(uri)
    }

    /// Adds a template of resources.
    pub fn add_resource_template(
        &mut self,
        uri_template: &str,
        name: &str,
        params: AddResourceTemplateOptionalParams,
    ) -> (r: Result<(), McpError>)
        ensures
            final(self).same_server(&*old(self)),
            final(self).keeps_but_resources(&*old(self)),
            final(self).offers().resources@ == old(self).offers().resources@,
            ({
                let before = old(self).offers().resources;
                let after = final(self).offers().resources;
                match r {
                    Ok(()) => {
                        &&& old(self).stage() != ServerState::Stopped
                        &&& uri_template@.len() > 0 && name@.len() > 0
                        &&& !before.forms().dom().contains(uri_template@) || before.may_overwrite()
                        &&& after.forms().dom() == before.forms().dom().insert(uri_template@)
                        &&& template_added(
                            uri_template@,
                            name@,
                            params,
                            after.forms()[uri_template@],
                        )
                        &&& forall|k: Seq<char>|
                            k != uri_template@ && before.forms().dom().contains(k) ==> #[trigger]
                            after.forms()[k] == before.forms()[k]
                    },
                    Err(e) => after.forms() == before.forms() && if old(self).stage()
                        == ServerState::Stopped {
                        stopped_fault(e)
                    } else if uri_template@.len() == 0 {
                        e.faults_argument("Resource template URI cannot be empty"@)
                    } else if name@.len() == 0 {
                        e.faults_argument("Resource template name cannot be empty"@)
                    } else {
                        before.forms().dom().contains(uri_template@) && !before.may_overwrite()
                            && e.faults_state(
                            "Resource template '"@ + uri_template@ + "' already exists"@,
                        )
                    },
                }
            }),
    {
        match self.check_state() {
            Ok(()) => {},
            Err(e) => {
                return Err(e);
            },
        }
        let template = ResourceTemplate {
            uri_template: uri_template.to_owned(),
            name: name.to_owned(),
            title: params.title,
            description: params.description,
            mime_type: params.mime_type,
            icons: params.icons,
            annotations: params.annotations,
        };
        let r = self.inner.resources.add_resource_template(template);
        assert(r is Ok ==> self.inner.resources.forms().dom() =~= old(
            self,
        ).inner.resources.forms().dom().insert(uri_template@));
        r
    }

    /// Takes out a template of resources.
    pub fn remove_resource_template(&mut self, uri_template: &str) -> (r: Result<(), McpError>)
        ensures
            final(self).same_server(&*old(self)),
            final(self).keeps_but_resources(&*old(self)),
            final(self).offers().resources@ == old(self).offers().resources@,
            ({
                let before = old(self).offers().resources.forms();
                let after = final(self).offers().resources.forms();
                match r {
                    Ok(()) => old(self).stage() != ServerState::Stopped && uri_template@.len() > 0
                        && before.dom().contains(uri_template@) && after == before.remove(
                        uri_template@,
                    ),
                    Err(e) => after == before && if old(self).stage() == ServerState::Stopped {
                        stopped_fault(e)
                    } else if uri_template@.len() == 0 {
                        e.faults_argument("Resource template URI cannot be empty"@)
                    } else {
                        !before.dom().contains(uri_template@) && e.faults_state(
                            "Resource template '"@ + uri_template@ + "' not found"@,
                        )
                    },
                }
            }),
    {
        match self.check_state() {
            Ok(()) => {},
            Err(e) => {
                return Err(e);
            },
        }
        self.inner.resources.remove_resource_template(uri_template)
    }

    /// Sets what runs when the level of the log is set.
    pub fn register_set_logging_level_handler(&mut self, handler: H::Level)
        ensures
            final(self).same_server(&*old(self)),
            final(self).offers() == (ServerInner {
                set_level_handler: Some(handler),
                ..old(self).offers()
            }),
    {
        self.inner.set_level_handler = Some(handler);
    }

    /// Sets what runs when a completion is asked for.
    pub fn add_completion(&mut self, handler: H::Complete)
        ensures
            final(self).same_server(&*old(self)),
            final(self).offers() == (ServerInner {
                complete_handler: Some(handler),
                ..old(self).offers()
            }),
    {
        self.inner.complete_handler = Some(handler);
    }

    /// The tools.
    pub fn tools(&self) -> (r: &ToolManager<H::Tool>)
        ensures
            *r == self.offers().tools,
    {
        &self.inner.tools
    }

    /// The prompts.
    pub fn prompts(&self) -> (r: &PromptManager<H::Prompt>)
        ensures
            *r == self.offers().prompts,
    {
        &self.inner.prompts
    }

    /// The resources.
    pub fn resources(&self) -> (r: &ResourceManager<H::Resource>)
        ensures
            *r == self.offers().resources,
    {
        &self.inner.resources
    }
}

/// Makes servers.
pub struct McpServerFactory;

impl McpServerFactory {
    /// A server over HTTP, given which of the files that it needs there are.
    pub fn create_streamable_http_server<H: Handlers, A, Z>(
        config: ServerConfig,
        transport_config: StreamableHttpServerConfig<A, Z>,
        found: FilesFound,
    ) -> (r: Result<McpServer<H, A, Z>, McpError>)
        ensures
            r is Ok <==> config_valid(config, false) && http_valid(transport_config, found),
            match r {
                Ok(s) => {
                    &&& offers_nothing(s.offers())
                    &&& s.offers().tools.may_overwrite() && s.offers().tools.size()
                        == config.tools_page_size
                    &&& s.offers().prompts.may_overwrite()
                    &&& s.offers().resources.may_overwrite() && s.offers().resources.size()
                        == config.resources_page_size
                    &&& s.stage() == ServerState::Init
                    &&& s.configured() == config
                    &&& s.reached() == Some(transport_config)
                },
                Err(e) => e.faults_argument(
                    if !config_valid(config, false) {
                        "Invalid server configuration"@
                    } else {
                        "Invalid Streamable HTTP transport configuration"@
                    },
                ),
            },
    {
        McpServer::new_streamable_http(config, transport_config, found)
    }

    /// A server on a pair of text streams.
    pub fn create_stdio_server<H: Handlers, A, Z>(config: ServerConfig) -> (r: Result<
        McpServer<H, A, Z>,
        McpError,
    >)
        ensures
            r is Ok <==> config_valid(config, true),
            match r {
                Ok(s) => {
                    &&& offers_nothing(s.offers())
                    &&& s.offers().tools.may_overwrite() && s.offers().tools.size()
                        == config.tools_page_size
                    &&& s.offers().prompts.may_overwrite()
                    &&& s.offers().resources.may_overwrite() && s.offers().resources.size()
                        == config.resources_page_size
                    &&& s.stage() == ServerState::Init
                    &&& s.configured() == config
                    &&& s.reached() is None
                },
                Err(e) => e.faults_argument("Invalid server configuration"@),
            },
    {
        McpServer::new_stdio(config)
    }
}

} // verus!
