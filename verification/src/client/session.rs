//! A session on the side of a client: what is asked of the server, what its answers
//! mean, and what is done with what it sends on its own account.
use vstd::prelude::*;

use crate::error::{JsonRpcErrorCode, McpError};
use crate::json::{Json, JsonView};
use crate::jsonrpc::{Message, Notification, Request, RequestId, Response, RpcError};
use crate::protocol;
use crate::protocol::message::{ErrorView, MessageView};
use crate::protocol::params::{
    CompleteRequestParams, ElicitParams, LoggingMessageNotificationParams,
    ProgressNotificationParams,
};
use crate::protocol::progress;
use crate::protocol::{
    inject_progress_token, is_supported_protocol_version, methods, LATEST_PROTOCOL_VERSION,
};
use crate::sampling_validation;
use crate::sampling_validation::validate_tool_use_result_messages;
use crate::schema;
use crate::session::{PendingRequests, WaitOutcome};
use crate::string_map::StringMap;
use crate::text;
use crate::text::str_eq;
use crate::types::capabilities::{
    ClientCapabilities, ElicitationCapability, FormElicitationCapability, RootsCapability,
    SamplingCapability, ServerCapabilities, UrlElicitationCapability,
};
use crate::types::completion::{CompleteReference, CompletionArgument, CompletionContext};
use crate::types::config::{ClientConfig, DEFAULT_CLIENT_NAME, DEFAULT_VERSION};
use crate::types::logging::LoggingLevel;
use crate::types::meta::ProgressToken;
use crate::types::sampling::{CreateMessageParams, CreateMessageResult};
use crate::types::session::{
    ElicitResult, Implementation, InitializeRequestParams, InitializeResult, ListRootsResult,
};
use crate::types::tools::{CallToolResult, ListToolsResult, Tool};
use crate::wire;
use crate::wire::{MetaMap, Real, Wire, MALFORMED};

verus! {

/// What runs when the server asks for the roots, asks the user for something, sends a
/// line of its log, or asks for a message of a model.
pub trait ClientHandlers {
    type ListRoots;

    type Elicit;

    type ElicitUrl;

    type Logging;

    type Sampling;
}

/// What the client has for requests of the server.
pub struct Callbacks<H: ClientHandlers> {
    pub list_roots: Option<H::ListRoots>,
    pub logging: Option<H::Logging>,
    pub elicit: Option<H::Elicit>,
    pub elicit_url: Option<H::ElicitUrl>,
    pub sampling: Option<(H::Sampling, SamplingCapability)>,
}

impl<H: ClientHandlers> Callbacks<H> {
    /// There is nothing.
    pub open spec fn is_empty(&self) -> bool {
        &&& self.list_roots is None
        &&& self.logging is None
        &&& self.elicit is None
        &&& self.elicit_url is None
        &&& self.sampling is None
    }

    /// Nothing.
    pub fn new() -> (r: Self)
        ensures
            r.is_empty(),
    {
        Callbacks { list_roots: None, logging: None, elicit: None, elicit_url: None, sampling: None }
    }
}

/// What a client says it can do: that for which it has something.
pub open spec fn offered<H: ClientHandlers>(c: Callbacks<H>) -> ClientCapabilities {
    ClientCapabilities {
        experimental: None,
        sampling: match c.sampling {
            Some((_, capability)) => Some(capability),
            None => None,
        },
        elicitation: if c.elicit is Some || c.elicit_url is Some {
            Some(
                ElicitationCapability {
                    form: if c.elicit is Some {
                        Some(FormElicitationCapability {  })
                    } else {
                        None
                    },
                    url: if c.elicit_url is Some {
                        Some(UrlElicitationCapability {  })
                    } else {
                        None
                    },
                },
            )
        } else {
            None
        },
        roots: if c.list_roots is Some {
            Some(RootsCapability { list_changed: true })
        } else {
            None
        },
        tasks: None,
    }
}

/// A session on the side of a client. `T` is what is told of the answer to a request,
/// and `P` what is told of its progress.
pub struct ClientSession<H: ClientHandlers, T, P> {
    name: String,
    version: String,
    initialized: bool,
    server_capabilities: Option<ServerCapabilities>,
    callbacks: Callbacks<H>,
    tool_output_schemas: StringMap<Json>,
    pending: PendingRequests<T, P>,
}

/// What a session holds, but for the requests that wait.
pub struct ClientView<H: ClientHandlers> {
    /// The name of the client.
    pub name: Seq<char>,
    /// The version of the client.
    pub version: Seq<char>,
    pub initialized: bool,
    /// What the server said it can do.
    pub server: Option<ServerCapabilities>,
    pub callbacks: Callbacks<H>,
    /// What the results of tools must meet, by the names of the tools.
    pub schemas: Map<Seq<char>, Json>,
}

/// The name, or the default where it is empty.
pub open spec fn or_default(s: Seq<char>, d: Seq<char>) -> Seq<char> {
    if s.len() == 0 {
        d
    } else {
        s
    }
}

/// What a client says that opens a session.
pub open spec fn opening<H: ClientHandlers>(s: ClientView<H>) -> JsonView {
    let info = wire::with(
        wire::none(),
        "name"@,
        JsonView::String(or_default(s.name, DEFAULT_CLIENT_NAME@)),
    );
    let info = wire::with(
        info,
        "version"@,
        JsonView::String(or_default(s.version, DEFAULT_VERSION@)),
    );
    let o = wire::with(
        wire::none(),
        "protocolVersion"@,
        JsonView::String(LATEST_PROTOCOL_VERSION@),
    );
    let o = wire::with(o, "capabilities"@, offered(s.callbacks).wire());
    JsonView::Object(wire::with(o, "clientInfo"@, JsonView::Object(info)))
}

/// The schemas, with those of tools that were listed, up to place `n`.
pub open spec fn schemas_after(m: Map<Seq<char>, JsonView>, tools: Seq<Tool>, n: int) -> Map<
    Seq<char>,
    JsonView,
>
    decreases n,
{
    if n <= 0 {
        m
    } else {
        let before = schemas_after(m, tools, n - 1);
        match tools[n - 1].output_schema {
            Some(s) => before.insert(tools[n - 1].name@, s@),
            None => before,
        }
    }
}

/// The views of schemas.
pub open spec fn schema_views(m: Map<Seq<char>, Json>) -> Map<Seq<char>, JsonView> {
    m.map_values(|j: Json| j@)
}

/// What is wrong with the result of a tool, if anything is: where its schema is known,
/// structured content of a success must be an object that meets it.
pub open spec fn result_fault(
    schemas: Map<Seq<char>, Json>,
    name: Seq<char>,
    result: CallToolResult,
) -> Option<Seq<char>> {
    let head = "Invalid structured content for tool "@ + name + ": "@;
    if result.is_error || !schemas.dom().contains(name) {
        None
    } else {
        match result.structured_content {
            Some(c) => if !(c@ is Object) {
                Some(head + "structuredContent must be a JSON object"@)
            } else {
                match schema::fault(schemas[name]@, c@, ""@) {
                    Some(f) => Some(head + f),
                    None => None,
                }
            },
            None => None,
        }
    }
}

/// A response that succeeds.
pub open spec fn success(id: JsonView, result: JsonView) -> MessageView {
    MessageView::Response { to: Some(id), result: Some(result), error: None }
}

/// A response that fails.
pub open spec fn failure(id: JsonView, code: int, message: Seq<char>) -> MessageView {
    MessageView::Response {
        to: Some(id),
        result: None,
        error: Some(ErrorView { code, message, data: None }),
    }
}

/// The response to a request for a method that the client does not have.
pub open spec fn not_found(id: JsonView, method: Seq<char>) -> MessageView {
    failure(id, JsonRpcErrorCode::MethodNotFound.number(), "Method not found: "@ + method)
}

/// What is done with a request of the server.
pub enum ClientStep<'a, H: ClientHandlers> {
    /// It is answered.
    Reply(Message),
    /// The roots are looked up.
    ListRoots(&'a H::ListRoots),
    /// The user is asked to fill in a form.
    Elicit { handler: &'a H::Elicit, message: String, requested_schema: MetaMap },
    /// The user is asked to visit a page.
    ElicitUrl { handler: &'a H::ElicitUrl, message: String, url: String, elicitation_id: String },
    /// A message of a model is made.
    Sample { handler: &'a H::Sampling, params: CreateMessageParams },
}

/// What is done with a request of the server.
pub enum StepView {
    Reply(MessageView),
    ListRoots,
    /// The parameters, as they are read.
    Elicit(JsonView),
    ElicitUrl(JsonView),
    Sample(JsonView),
}

/// What a step says, and that it runs what the client has for it.
pub open spec fn step<H: ClientHandlers>(c: Callbacks<H>, d: ClientStep<'_, H>, v: StepView) -> bool {
    match d {
        ClientStep::Reply(m) => v == StepView::Reply(m@),
        ClientStep::ListRoots(h) => v == StepView::ListRoots && c.list_roots == Some(*h),
        ClientStep::Elicit { handler, message, requested_schema } => c.elicit == Some(*handler) && v
            == StepView::Elicit(ElicitParams::Form { message, requested_schema }.wire()),
        ClientStep::ElicitUrl { handler, message, url, elicitation_id } => c.elicit_url == Some(
            *handler,
        ) && v == StepView::ElicitUrl(ElicitParams::Url { message, url, elicitation_id }.wire()),
        ClientStep::Sample { handler, params } => match c.sampling {
            Some((h, _)) => h == *handler && v == StepView::Sample(params.wire()),
            None => false,
        },
    }
}

/// What is done when the server asks the user for something.
pub open spec fn elicited<H: ClientHandlers>(
    c: Callbacks<H>,
    id: JsonView,
    method: Seq<char>,
    params: Option<JsonView>,
) -> StepView {
    let j = match params {
        Some(j) => j,
        None => JsonView::Null,
    };
    match ElicitParams::canon(j) {
        None => StepView::Reply(
            failure(
                id,
                JsonRpcErrorCode::InvalidParams.number(),
                "Invalid params for elicitation/create: "@ + MALFORMED@,
            ),
        ),
        Some(p) => if wire::tag(j, "mode"@) == Some("form"@) {
            if c.elicit is Some {
                StepView::Elicit(p)
            } else {
                StepView::Reply(not_found(id, method))
            }
        } else {
            if c.elicit_url is Some {
                StepView::ElicitUrl(p)
            } else {
                StepView::Reply(not_found(id, method))
            }
        },
    }
}

/// A text that may be missing.
pub open spec fn text_of(s: Option<String>) -> Option<Seq<char>> {
    match s {
        Some(s) => Some(s@),
        None => None,
    }
}

/// Why a request for a message of a model is refused.
pub open spec fn sampling_refused(capability: SamplingCapability, params: CreateMessageParams) -> Option<
    Seq<char>,
> {
    let context = text_of(params.include_context);
    if params.tools is Some && !capability.tools {
        Some(
            "Tool-enabled sampling request received but client did not advertise sampling.tools capability"@,
        )
    } else if (context == Some("thisServer"@) || context == Some("allServers"@))
        && !capability.context {
        Some("includeContext requires sampling.context capability"@)
    } else {
        sampling_validation::fault_from(params.messages@, 0)
    }
}

/// What is done when the server asks for a message of a model: where the client has
/// something for it, the parameters must be an object that can be read, and ask only for
/// what the client said it can do.
pub open spec fn sampled<H: ClientHandlers>(
    c: Callbacks<H>,
    id: JsonView,
    method: Seq<char>,
    params: Option<JsonView>,
    d: ClientStep<'_, H>,
) -> bool {
    match c.sampling {
        None => d matches ClientStep::Reply(m) && m@ == not_found(id, method),
        Some((h, capability)) => {
            let readable = params is Some && params->0 is Object && CreateMessageParams::canon(
                params->0,
            ) is Some;
            if !readable {
                d matches ClientStep::Reply(m) && m@ == failure(
                    id,
                    JsonRpcErrorCode::InvalidParams.number(),
                    "Invalid params for sampling/createMessage"@,
                )
            } else {
                match d {
                    ClientStep::Sample { handler, params: p } => h == *handler
                        && CreateMessageParams::canon(params->0) == Some(p.wire())
                        && sampling_refused(capability, p) is None,
                    ClientStep::Reply(m) => exists|p: CreateMessageParams|
                        CreateMessageParams::canon(params->0) == Some(#[trigger] p.wire())
                            && sampling_refused(capability, p) is Some && m@ == failure(
                            id,
                            JsonRpcErrorCode::InvalidParams.number(),
                            sampling_refused(capability, p)->0,
                        ),
                    _ => false,
                }
            }
        },
    }
}

/// What is done with a notification of the server.
pub enum Notice<'a, H: ClientHandlers, P> {
    Nothing,
    /// One who waits is told of progress.
    Progress { listener: &'a P, progress: Real, total: Option<Real>, message: Option<String> },
    /// A line of the log of the server. There may be nothing for it.
    Log { handler: Option<&'a H::Logging>, level: String, data: Json, logger: String },
}

/// An object with one text in it.
pub open spec fn one_text(k: Seq<char>, v: Seq<char>) -> JsonView {
    JsonView::Object(wire::with(wire::none(), k, JsonView::String(v)))
}

/// The parameters that name something, with arguments where there are any.
pub open spec fn named(name: Seq<char>, arguments: Option<JsonView>) -> JsonView {
    let o = wire::with(wire::none(), "name"@, JsonView::String(name));
    JsonView::Object(wire::with_opt(o, "arguments"@, arguments))
}

fn text_object(k: &str, v: &str) -> (r: Json)
    ensures
        r@ == one_text(k@, v@),
{
    let mut o = wire::start();
    wire::put_json(&mut o, k, Json::string(v));
    Json::object(o)
}

fn named_object(name: &str, arguments: &Option<Json>) -> (r: Json)
    ensures
        r@ == named(name@, wire::opt(*arguments)),
{
    let mut o = wire::start();
    wire::put_json(&mut o, "name", Json::string(name));
    wire::put_opt(&mut o, "arguments", arguments);
    Json::object(o)
}

/// The parameters of a request for a page of a list.
pub open spec fn paged(cursor: Option<String>) -> JsonView {
    match cursor {
        Some(c) => one_text("cursor"@, c@),
        None => JsonView::Null,
    }
}

fn page_params(cursor: Option<String>) -> (r: Json)
    ensures
        r@ == paged(cursor),
{
    match cursor {
        Some(c) => text_object("cursor", c.as_str()),
        None => Json::Null,
    }
}

/// How long the answer to the call of a tool is waited for: the given time, and the
/// default for zero.
pub fn call_timeout(timeout_ms: u64) -> (r: u64)
    ensures
        r == if timeout_ms > 0 {
            timeout_ms
        } else {
            crate::types::config::DEFAULT_TIMEOUT
        },
{
    if timeout_ms > 0 {
        timeout_ms
    } else {
        crate::types::config::DEFAULT_TIMEOUT
    }
}

/// A notification without parameters of its own.
pub open spec fn bare_notification(method: Seq<char>) -> MessageView {
    MessageView::Notification { method, params: Some(JsonView::Object(wire::none())) }
}

/// Reads the answer to a request as a `T`.
pub fn read_result<T: Wire>(method: &str, outcome: Result<Json, McpError>) -> (r: Result<T, McpError>)
    ensures
        match outcome {
            Ok(j) => match r {
                Ok(x) => T::canon(j@) == Some(x.wire()),
                Err(e) => T::canon(j@) is None && e.faults_state(
                    "Result type mismatch for "@ + method@ + ": "@ + MALFORMED@,
                ),
            },
            Err(e) => r == Err::<T, McpError>(e),
        },
{
    match outcome {
        Ok(j) => match T::from_json(&j) {
            Ok(x) => Ok(x),
            Err(e) => Err(
                McpError::state(
                    text::cat4("Result type mismatch for ", method, ": ", e.message()),
                ),
            ),
        },
        Err(e) => Err(e),
    }
}

/// The error of a request that could not be sent.
pub fn send_failed(e: &McpError) -> (r: McpError)
    ensures
        r matches McpError::Rpc(x) && x.code == JsonRpcErrorCode::InternalError.number()
            && x.message@ == "Transport error: "@ + e.told() && x.data is None,
{
    let why = e.message();
    McpError::Rpc(RpcError::internal_error(text::cat2("Transport error: ", why.as_str())))
}

fn reply_error(id: &RequestId, code: i64, message: String) -> (r: Message)
    ensures
        r@ == failure(id.wire(), code as int, message@),
{
    Message::Response(Response::error(Some(id.duplicate()), RpcError::new(code, message)))
}

fn reply_not_found(id: &RequestId, method: &str) -> (r: Message)
    ensures
        r@ == not_found(id.wire(), method@),
{
    reply_error(
        id,
        JsonRpcErrorCode::MethodNotFound.code(),
        text::cat2("Method not found: ", method),
    )
}

/// The answer to a request of the server, by what came of it.
pub fn answer_request<T: Wire>(id: &RequestId, outcome: Result<T, McpError>) -> (r: Message)
    ensures
        r@ == match outcome {
            Ok(x) => success(id.wire(), x.wire()),
            Err(e) => failure(id.wire(), JsonRpcErrorCode::InternalError.number(), e.told()),
        },
{
    match outcome {
        Ok(x) => Message::Response(Response::success(id.duplicate(), x.to_json())),
        Err(e) => reply_error(id, JsonRpcErrorCode::InternalError.code(), e.message()),
    }
}

/// The answer to the server that asked for the roots, by what came of looking them up.
pub fn answer_roots(id: &RequestId, outcome: Result<ListRootsResult, McpError>) -> (r: Message)
    ensures
        r@ == match outcome {
            Ok(x) => success(id.wire(), x.wire()),
            Err(e) => failure(id.wire(), JsonRpcErrorCode::InternalError.number(), e.told()),
        },
{
    answer_request(id, outcome)
}

/// The answer to the server that asked the user for something, by what came of it.
pub fn answer_elicit(id: &RequestId, outcome: Result<ElicitResult, McpError>) -> (r: Message)
    ensures
        r@ == match outcome {
            Ok(x) => success(id.wire(), x.wire()),
            Err(e) => failure(id.wire(), JsonRpcErrorCode::InternalError.number(), e.told()),
        },
{
    answer_request(id, outcome)
}

/// The answer to the server that asked for a message of a model, by what came of it:
/// there is none where the user would not have it.
pub fn answer_sampling(id: &RequestId, outcome: Result<Option<CreateMessageResult>, McpError>) -> (r:
    Message)
    ensures
        r@ == match outcome {
            Ok(Some(x)) => success(id.wire(), x.wire()),
            Ok(None) => failure(id.wire(), -1, "User rejected sampling request"@),
            Err(e) => failure(id.wire(), JsonRpcErrorCode::InternalError.number(), e.told()),
        },
{
    match outcome {
        Ok(Some(x)) => answer_request(id, Ok(x)),
        Ok(None) => reply_error(id, -1, "User rejected sampling request".to_owned()),
        Err(e) => reply_error(id, JsonRpcErrorCode::InternalError.code(), e.message()),
    }
}

impl<H: ClientHandlers, T, P> ClientSession<H, T, P> {
    /// What the session holds.
    pub closed spec fn view(&self) -> ClientView<H> {
        ClientView {
            name: self.name@,
            version: self.version@,
            initialized: self.initialized,
            server: self.server_capabilities,
            callbacks: self.callbacks,
            schemas: self.tool_output_schemas@,
        }
    }

    /// The requests that wait for their answers.
    pub closed spec fn awaited(&self) -> PendingRequests<T, P> {
        self.pending
    }

    /// A new session, with what the client has for requests of the server.
    pub fn new(config: &ClientConfig, callbacks: Callbacks<H>) -> (r: Self)
        ensures
            r@.name == config.name@,
            r@.version == config.version@,
            !r@.initialized,
            r@.server is None,
            r@.callbacks == callbacks,
            r@.schemas == Map::<Seq<char>, Json>::empty(),
            r.awaited().next_number() == 1,
            r.awaited().waiting() == Map::<i64, T>::empty(),
            r.awaited().listening() == Map::<i64, P>::empty(),
    {
        ClientSession {
            name: config.name.clone(),
            version: config.version.clone(),
            initialized: false,
            server_capabilities: None,
            callbacks,
            tool_output_schemas: StringMap::new(),
            pending: PendingRequests::new(),
        }
    }

    /// Tells whether the session was opened.
    pub fn is_initialized(&self) -> (r: bool)
        ensures
            r == self@.initialized,
    {
        self.initialized
    }

    /// What the server said it can do; nothing before the session is opened.
    pub fn server_capabilities(&self) -> (r: ServerCapabilities)
        ensures
            match self@.server {
                Some(c) => r.wire() == c.wire(),
                None => r.is_default(),
            },
    {
        match &self.server_capabilities {
            Some(c) => c.duplicate(),
            None => ServerCapabilities::default(),
        }
    }

    /// How many requests wait for their answers.
    pub fn pending_count(&self) -> (r: usize)
        ensures
            r == self.awaited().count(),
            self.awaited().waiting().dom().finite(),
    {
        self.pending.len()
    }

    /// Sets what runs when the server asks for the roots.
    pub fn set_list_roots_callback(&mut self, cb: H::ListRoots)
        ensures
            final(self)@ == (ClientView {
                callbacks: Callbacks { list_roots: Some(cb), ..old(self)@.callbacks },
                ..old(self)@
            }),
            final(self).awaited() == old(self).awaited(),
    {
        self.callbacks.list_roots = Some(cb);
    }

    /// Sets what runs when the server sends a line of its log.
    pub fn set_logging_callback(&mut self, cb: H::Logging)
        ensures
            final(self)@ == (ClientView {
                callbacks: Callbacks { logging: Some(cb), ..old(self)@.callbacks },
                ..old(self)@
            }),
            final(self).awaited() == old(self).awaited(),
    {
        self.callbacks.logging = Some(cb);
    }

    /// Sets what runs when the server asks the user to fill in a form.
    pub fn set_elicit_callback(&mut self, cb: H::Elicit)
        ensures
            final(self)@ == (ClientView {
                callbacks: Callbacks { elicit: Some(cb), ..old(self)@.callbacks },
                ..old(self)@
            }),
            final(self).awaited() == old(self).awaited(),
    {
        self.callbacks.elicit = Some(cb);
    }

    /// Sets what runs when the server asks the user to visit a page.
    pub fn set_elicit_url_callback(&mut self, cb: H::ElicitUrl)
        ensures
            final(self)@ == (ClientView {
                callbacks: Callbacks { elicit_url: Some(cb), ..old(self)@.callbacks },
                ..old(self)@
            }),
            final(self).awaited() == old(self).awaited(),
    {
        self.callbacks.elicit_url = Some(cb);
    }

    /// Sets what runs when the server asks for a message of a model, and what it can do.
    pub fn set_sampling_create_message_callback(
        &mut self,
        cb: H::Sampling,
        capability: SamplingCapability,
    )
        ensures
            final(self)@ == (ClientView {
                callbacks: Callbacks { sampling: Some((cb, capability)), ..old(self)@.callbacks },
                ..old(self)@
            }),
            final(self).awaited() == old(self).awaited(),
    {
        self.callbacks.sampling = Some((cb, capability));
    }

    /// What the client says it can do: that for which it has something.
    pub fn build_client_capabilities(&self) -> (r: ClientCapabilities)
        ensures
            r == offered(self@.callbacks),
    {
        let form = self.callbacks.elicit.is_some();
        let url = self.callbacks.elicit_url.is_some();
        ClientCapabilities {
            experimental: None,
            sampling: match &self.callbacks.sampling {
                Some((_, capability)) => Some(*capability),
                None => None,
            },
            elicitation: if form || url {
                Some(
                    ElicitationCapability {
                        form: if form {
                            Some(FormElicitationCapability {  })
                        } else {
                            None
                        },
                        url: if url {
                            Some(UrlElicitationCapability {  })
                        } else {
                            None
                        },
                    },
                )
            } else {
                None
            },
            roots: if self.callbacks.list_roots.is_some() {
                Some(RootsCapability { list_changed: true })
            } else {
                None
            },
            tasks: None,
        }
    }

    /// The session sends a request and, from then on, waits for its answer. With one who
    /// is told of progress, the request asks to hear of it.
    pub open spec fn asks(
        &self,
        before: &Self,
        method: Seq<char>,
        params: Option<JsonView>,
        waiter: T,
        progress: Option<P>,
        sent: (RequestId, Message),
    ) -> bool {
        &&& self@ == before@
        &&& self.awaited().registers(&before.awaited(), waiter, progress)
        &&& sent.0 == RequestId::Number(before.awaited().next_number())
        &&& sent.1@ == (MessageView::Request {
            id: sent.0.wire(),
            method,
            params: match progress {
                Some(_) => Some(progress::with_token(params, sent.0.wire())),
                None => params,
            },
        })
    }

    /// The message of a request, which waits for its answer from then on.
    pub fn send_request_raw(
        &mut self,
        method: &str,
        params: Option<Json>,
        waiter: T,
        progress: Option<P>,
    ) -> (r: (RequestId, Message))
        ensures
            final(self).asks(&*old(self), method@, wire::opt(params), waiter, progress, r),
    {
        let has_progress = progress.is_some();
        let id = self.pending.register(waiter, progress);
        let mut params = params;
        if has_progress {
            let token = ProgressToken::from_request_id(&id);
            inject_progress_token(&mut params, &token);
        }
        let q = Request::new(id.duplicate(), method.to_owned(), params);
        (id, Message::Request(q))
    }

    /// Asks whether the server is there.
    pub fn send_ping(&mut self, waiter: T) -> (r: (RequestId, Message))
        ensures
            final(self).asks(
                &*old(self),
                methods::PING@,
                None,
                waiter,
                None,
                r,
            ),
    {
        let params: Option<Json> = None;
        self.send_request_raw(methods::PING, params, waiter, None)
    }

    /// Asks for a page of the tools.
    pub fn list_tools(&mut self, cursor: Option<String>, waiter: T) -> (r: (RequestId, Message))
        ensures
            final(self).asks(
                &*old(self),
                methods::TOOLS_LIST@,
                Some(paged(cursor)),
                waiter,
                None,
                r,
            ),
    {
        let params = Some(page_params(cursor));
        self.send_request_raw(methods::TOOLS_LIST, params, waiter, None)
    }

    /// Calls a tool.
    pub fn call_tool(
        &mut self,
        name: &str,
        arguments: &Option<Json>,
        waiter: T,
        progress: Option<P>,
    ) -> (r: (RequestId, Message))
        ensures
            final(self).asks(
                &*old(self),
                methods::TOOLS_CALL@,
                Some(named(name@, wire::opt(*arguments))),
                waiter,
                progress,
                r,
            ),
    {
        let params = Some(named_object(name, arguments));
        self.send_request_raw(methods::TOOLS_CALL, params, waiter, progress)
    }

    /// Asks for the prompts.
    pub fn list_prompts(&mut self, waiter: T) -> (r: (RequestId, Message))
        ensures
            final(self).asks(
                &*old(self),
                methods::PROMPTS_LIST@,
                Some(JsonView::Null),
                waiter,
                None,
                r,
            ),
    {
        let params = Some(Json::Null);
        self.send_request_raw(methods::PROMPTS_LIST, params, waiter, None)
    }

    /// Asks for a prompt.
    pub fn get_prompt(
        &mut self,
        name: &str,
        arguments: &Option<Json>,
        waiter: T,
    ) -> (r: (RequestId, Message))
        ensures
            final(self).asks(
                &*old(self),
                methods::PROMPTS_GET@,
                Some(named(name@, wire::opt(*arguments))),
                waiter,
                None,
                r,
            ),
    {
        let params = Some(named_object(name, arguments));
        self.send_request_raw(methods::PROMPTS_GET, params, waiter, None)
    }

    /// Asks for a page of the resources.
    pub fn list_resources(
        &mut self,
        cursor: Option<String>,
        waiter: T,
    ) -> (r: (RequestId, Message))
        ensures
            final(self).asks(
                &*old(self),
                methods::RESOURCES_LIST@,
                Some(paged(cursor)),
                waiter,
                None,
                r,
            ),
    {
        let params = Some(page_params(cursor));
        self.send_request_raw(methods::RESOURCES_LIST, params, waiter, None)
    }

    /// Asks for the templates of resources.
    pub fn list_resource_templates(&mut self, waiter: T) -> (r: (RequestId, Message))
        ensures
            final(self).asks(
                &*old(self),
                methods::RESOURCES_TEMPLATES_LIST@,
                Some(JsonView::Null),
                waiter,
                None,
                r,
            ),
    {
        let params = Some(Json::Null);
        self.send_request_raw(methods::RESOURCES_TEMPLATES_LIST, params, waiter, None)
    }

    /// Asks for a resource.
    pub fn read_resource(&mut self, uri: &str, waiter: T) -> (r: (RequestId, Message))
        ensures
            final(self).asks(
                &*old(self),
                methods::RESOURCES_READ@,
                Some(one_text("uri"@, uri@)),
                waiter,
                None,
                r,
            ),
    {
        let params = Some(text_object("uri", uri));
        self.send_request_raw(methods::RESOURCES_READ, params, waiter, None)
    }

    /// Asks to hear of changes to a resource.
    pub fn subscribe_resource(&mut self, uri: &str, waiter: T) -> (r: (RequestId, Message))
        ensures
            final(self).asks(
                &*old(self),
                methods::RESOURCES_SUBSCRIBE@,
                Some(one_text("uri"@, uri@)),
                waiter,
                None,
                r,
            ),
    {
        let params = Some(text_object("uri", uri));
        self.send_request_raw(methods::RESOURCES_SUBSCRIBE, params, waiter, None)
    }

    /// Asks to hear no more of changes to a resource.
    pub fn unsubscribe_resource(&mut self, uri: &str, waiter: T) -> (r: (RequestId, Message))
        ensures
            final(self).asks(
                &*old(self),
                methods::RESOURCES_UNSUBSCRIBE@,
                Some(one_text("uri"@, uri@)),
                waiter,
                None,
                r,
            ),
    {
        let params = Some(text_object("uri", uri));
        self.send_request_raw(methods::RESOURCES_UNSUBSCRIBE, params, waiter, None)
    }

    /// Asks for a completion.
    pub fn complete(
        &mut self,
        reference: CompleteReference,
        argument: CompletionArgument,
        context: Option<CompletionContext>,
        waiter: T,
    ) -> (r: (RequestId, Message))
        ensures
            final(self).asks(
                &*old(self),
                methods::COMPLETION_COMPLETE@,
                Some(CompleteRequestParams { reference, argument, context }.wire()),
                waiter,
                None,
                r,
            ),
    {
        let p = CompleteRequestParams { reference, argument, context };
        let params = Some(p.to_json());
        self.send_request_raw(methods::COMPLETION_COMPLETE, params, waiter, None)
    }

    /// Sets the level of the log of the server.
    pub fn set_logging_level(
        &mut self,
        level: LoggingLevel,
        waiter: T,
    ) -> (r: (RequestId, Message))
        ensures
            final(self).asks(
                &*old(self),
                methods::LOGGING_SET_LEVEL@,
                Some(one_text("level"@, level.name())),
                waiter,
                None,
                r,
            ),
    {
        let params = Some(text_object("level", level.as_str()));
        self.send_request_raw(methods::LOGGING_SET_LEVEL, params, waiter, None)
    }

    /// A notification to the server.
    pub fn send_notification(&self, method: &str, params: Option<Json>) -> (r: Message)
        ensures
            r@ == (MessageView::Notification { method: method@, params: wire::opt(params) }),
    {
        Message::Notification(Notification::new(method.to_owned(), params))
    }

    /// Tells the server that the session is open.
    pub fn send_initialized_notification(&self) -> (r: Message)
        ensures
            r@ == bare_notification(methods::NOTIFICATION_INITIALIZED@),
    {
        self.send_notification(methods::NOTIFICATION_INITIALIZED, Some(Json::empty_object()))
    }

    /// Tells the server that the roots changed.
    pub fn send_roots_list_changed(&self) -> (r: Message)
        ensures
            r@ == bare_notification(methods::NOTIFICATION_ROOTS_LIST_CHANGED@),
    {
        self.send_notification(methods::NOTIFICATION_ROOTS_LIST_CHANGED, Some(Json::empty_object()))
    }

    /// Tells the server of the progress of its request.
    pub fn send_progress_notification(
        &self,
        progress_token: ProgressToken,
        progress: Real,
        total: Option<Real>,
        message: Option<String>,
    ) -> (r: Message)
        ensures
            r@ == (MessageView::Notification {
                method: methods::NOTIFICATION_PROGRESS@,
                params: Some(
                    ProgressNotificationParams { progress_token, progress, total, message }.wire(),
                ),
            }),
    {
        let p = ProgressNotificationParams { progress_token, progress, total, message };
        self.send_notification(methods::NOTIFICATION_PROGRESS, Some(p.to_json()))
    }

    /// Forgets a request that could not be sent.
    pub fn forget(&mut self, id: &RequestId, now: u64)
        ensures
            final(self)@ == old(self)@,
            final(self).awaited().retires(&old(self).awaited(), id.wire(), now),
    {
        self.pending.remove(id, now);
    }

    /// The result of a request, by what came of waiting for its answer.
    pub fn settle(&mut self, id: &RequestId, outcome: WaitOutcome, timeout_ms: u64, now: u64) -> (r:
        Result<Json, McpError>)
        ensures
            final(self)@ == old(self)@,
            match outcome {
                WaitOutcome::Answered(Ok(v)) => r == Ok::<Json, McpError>(v),
                WaitOutcome::Answered(Err(e)) => r == Err::<Json, McpError>(McpError::Rpc(e)),
                WaitOutcome::Dropped => r == Err::<Json, McpError>(McpError::Closed),
                WaitOutcome::TimedOut => r == Err::<Json, McpError>(McpError::Timeout(timeout_ms)),
            },
            outcome is Answered ==> final(self).awaited() == old(self).awaited(),
            !(outcome is Answered) ==> final(self).awaited().retires(
                &old(self).awaited(),
                id.wire(),
                now,
            ),
    {
        self.pending.settle(id, outcome, timeout_ms, now)
    }

    /// Asks to open the session.
    pub fn initialize(&mut self, waiter: T) -> (r: (RequestId, Message))
        ensures
            final(self).asks(
                &*old(self),
                methods::INITIALIZE@,
                Some(opening(old(self)@)),
                waiter,
                None,
                r,
            ),
    {
        let name = if self.name.as_str().is_empty() {
            DEFAULT_CLIENT_NAME.to_owned()
        } else {
            self.name.clone()
        };
        let version = if self.version.as_str().is_empty() {
            DEFAULT_VERSION.to_owned()
        } else {
            self.version.clone()
        };
        let p = InitializeRequestParams {
            protocol_version: LATEST_PROTOCOL_VERSION.to_owned(),
            capabilities: self.build_client_capabilities(),
            client_info: Implementation::new(name, version),
            meta: None,
        };
        self.send_request_raw(methods::INITIALIZE, Some(p.to_json()), waiter, None)
    }

    /// Takes the answer to the opening of the session. Its protocol version must be one
    /// of ours.
    pub fn initialize_answered(&mut self, answer: InitializeResult) -> (r: Result<
        InitializeResult,
        McpError,
    >)
        ensures
            final(self).awaited() == old(self).awaited(),
            match r {
                Ok(x) => {
                    &&& protocol::supported_versions().contains(answer.protocol_version@)
                    &&& x == answer
                    &&& final(self)@.server is Some
                    &&& final(self)@.server->0.wire() == answer.capabilities.wire()
                    &&& final(self)@ == (ClientView { server: final(self)@.server, ..old(self)@ })
                },
                Err(e) => {
                    &&& !protocol::supported_versions().contains(answer.protocol_version@)
                    &&& e.faults_state(
                        "Unsupported protocol version from the server: "@
                            + answer.protocol_version@,
                    )
                    &&& final(self)@ == old(self)@
                },
            },
    {
        if !is_supported_protocol_version(answer.protocol_version.as_str()) {
            return Err(
                McpError::state(
                    text::cat2(
                        "Unsupported protocol version from the server: ",
                        answer.protocol_version.as_str(),
                    ),
                ),
            );
        }
        self.server_capabilities = Some(answer.capabilities.duplicate());
        Ok(answer)
    }

    /// Takes note that the server was told that the session is open.
    pub fn initialized_sent(&mut self)
        ensures
            final(self)@ == (ClientView { initialized: true, ..old(self)@ }),
            final(self).awaited() == old(self).awaited(),
    {
        self.initialized = true;
    }

    /// Takes note of what the results of listed tools must meet.
    pub fn cache_tool_schemas(&mut self, result: &ListToolsResult)
        ensures
            schema_views(final(self)@.schemas) == schemas_after(
                schema_views(old(self)@.schemas),
                result.tools@,
                result.tools@.len() as int,
            ),
            final(self)@ == (ClientView { schemas: final(self)@.schemas, ..old(self)@ }),
            final(self).awaited() == old(self).awaited(),
    {
        let ghost tools = result.tools@;
        let mut i: usize = 0;
        while i < result.tools.len()
            invariant
                i <= result.tools.len(),
                tools == result.tools@,
                schema_views(self@.schemas) == schemas_after(
                    schema_views(old(self)@.schemas),
                    tools,
                    i as int,
                ),
                self@ == (ClientView { schemas: self@.schemas, ..old(self)@ }),
                self.awaited() == old(self).awaited(),
            decreases result.tools.len() - i,
        {
            let ghost before = self@.schemas;
            match &result.tools[i].output_schema {
                Some(s) => {
                    let copy = s.duplicate();
                    let _ = self.tool_output_schemas.insert(result.tools[i].name.clone(), copy);
                    assert(schema_views(self@.schemas) =~= schema_views(before).insert(
                        tools[i as int].name@,
                        s@,
                    ));
                },
                None => {},
            }
            i = i + 1;
        }
    }

    /// Holds the result of a tool against what it must meet, where that is known.
    pub fn call_tool_answered(&self, name: &str, result: CallToolResult) -> (r: Result<
        CallToolResult,
        McpError,
    >)
        ensures
            match result_fault(self@.schemas, name@, result) {
                None => r == Ok::<CallToolResult, McpError>(result),
                Some(f) => r matches Err(McpError::Validation(m)) && m@ == f,
            },
    {
        if !result.is_error {
            if let Some(c) = &result.structured_content {
                if let Some(s) = self.tool_output_schemas.get(name) {
                    let head = text::cat3("Invalid structured content for tool ", name, ": ");
                    if !c.is_object() {
                        return Err(
                            McpError::Validation(
                                text::cat2(
                                    head.as_str(),
                                    "structuredContent must be a JSON object",
                                ),
                            ),
                        );
                    }
                    match schema::validate(s, c) {
                        Ok(()) => {},
                        Err(f) => {
                            return Err(
                                McpError::Validation(text::cat2(head.as_str(), f.as_str())),
                            );
                        },
                    }
                }
            }
        }
        Ok(result)
    }

    fn handle_elicit(&self, request: &Request) -> (r: ClientStep<'_, H>)
        ensures
            step(
                self@.callbacks,
                r,
                elicited(
                    self@.callbacks,
                    request.id.wire(),
                    request.method@,
                    wire::opt(request.params),
                ),
            ),
    {
        proof {
            reveal_strlit("form");
            reveal_strlit("url");
            assert("form"@.len() == 4 && "url"@.len() == 3);
        }
        let null = Json::Null;
        let j = match &request.params {
            Some(j) => j,
            None => &null,
        };
        match ElicitParams::from_json(j) {
            Err(e) => ClientStep::Reply(
                reply_error(
                    &request.id,
                    JsonRpcErrorCode::InvalidParams.code(),
                    text::cat2("Invalid params for elicitation/create: ", e.message()),
                ),
            ),
            Ok(ElicitParams::Form { message, requested_schema }) => match &self.callbacks.elicit {
                Some(handler) => ClientStep::Elicit { handler, message, requested_schema },
                None => ClientStep::Reply(
                    reply_not_found(&request.id, request.method.as_str()),
                ),
            },
            Ok(ElicitParams::Url { message, url, elicitation_id }) => match &self.callbacks.elicit_url {
                Some(handler) => ClientStep::ElicitUrl { handler, message, url, elicitation_id },
                None => ClientStep::Reply(
                    reply_not_found(&request.id, request.method.as_str()),
                ),
            },
        }
    }

    fn handle_sampling_create_message(&self, request: &Request) -> (r: ClientStep<'_, H>)
        ensures
            sampled(
                self@.callbacks,
                request.id.wire(),
                request.method@,
                wire::opt(request.params),
                r,
            ),
    {
        let (handler, capability) = match &self.callbacks.sampling {
            Some((h, c)) => (h, *c),
            None => {
                return ClientStep::Reply(reply_not_found(&request.id, request.method.as_str()));
            },
        };
        let code: i64 = JsonRpcErrorCode::InvalidParams.code();
        let readable = match &request.params {
            Some(j) => if j.is_object() {
                CreateMessageParams::from_json(j).ok()
            } else {
                None
            },
            None => None,
        };
        let params = match readable {
            Some(p) => p,
            None => {
                return ClientStep::Reply(
                    reply_error(
                        &request.id,
                        code,
                        "Invalid params for sampling/createMessage".to_owned(),
                    ),
                );
            },
        };
        assert(CreateMessageParams::canon(wire::opt(request.params)->0) == Some(params.wire()));
        if params.tools.is_some() && !capability.tools {
            return ClientStep::Reply(
                reply_error(
                    &request.id,
                    code,
                    "Tool-enabled sampling request received but client did not advertise sampling.tools capability".to_owned(),
                ),
            );
        }
        if let Some(v) = &params.include_context {
            if (str_eq(v.as_str(), "thisServer") || str_eq(v.as_str(), "allServers"))
                && !capability.context {
                return ClientStep::Reply(
                    reply_error(
                        &request.id,
                        code,
                        "includeContext requires sampling.context capability".to_owned(),
                    ),
                );
            }
        }
        match validate_tool_use_result_messages(&params.messages) {
            Ok(()) => {},
            Err(e) => {
                return ClientStep::Reply(reply_error(&request.id, code, e.message()));
            },
        }
        ClientStep::Sample { handler, params }
    }

    /// Tells what is done with a request of the server.
    pub fn received_request(&self, request: &Request) -> (r: ClientStep<'_, H>)
        ensures
            ({
                let c = self@.callbacks;
                let id = request.id.wire();
                let method = request.method@;
                if method == methods::ROOTS_LIST@ {
                    match c.list_roots {
                        Some(h) => r matches ClientStep::ListRoots(x) && *x == h,
                        None => r matches ClientStep::Reply(m) && m@ == not_found(id, method),
                    }
                } else if method == methods::ELICITATION_CREATE@ {
                    step(c, r, elicited(c, id, method, wire::opt(request.params)))
                } else if method == methods::SAMPLING_CREATE_MESSAGE@ {
                    sampled(c, id, method, wire::opt(request.params), r)
                } else {
                    r matches ClientStep::Reply(m) && m@ == not_found(id, method)
                }
            }),
    {
        let method = request.method.as_str();
        if str_eq(method, methods::ROOTS_LIST) {
            match &self.callbacks.list_roots {
                Some(h) => ClientStep::ListRoots(h),
                None => ClientStep::Reply(reply_not_found(&request.id, method)),
            }
        } else if str_eq(method, methods::ELICITATION_CREATE) {
            self.handle_elicit(request)
        } else if str_eq(method, methods::SAMPLING_CREATE_MESSAGE) {
            self.handle_sampling_create_message(request)
        } else {
            ClientStep::Reply(reply_not_found(&request.id, method))
        }
    }

    /// Tells what is done with a notification of the server.
    pub fn received_notification(&self, notification: &Notification, now: u64) -> (r: Notice<'_, H, P>)
        ensures
            ({
                let method = notification.method@;
                let j = match notification.params {
                    Some(j) => j@,
                    None => JsonView::Null,
                };
                if method == methods::NOTIFICATION_PROGRESS@ {
                    match r {
                        Notice::Progress { listener, progress, total, message } => exists|
                            t: ProgressToken,
                        |
                            self.awaited().told_of(#[trigger] t.request(), now) == Some(*listener)
                                && ProgressNotificationParams::canon(j) == Some(
                                ProgressNotificationParams {
                                    progress_token: t,
                                    progress,
                                    total,
                                    message,
                                }.wire(),
                            ),
                        Notice::Nothing => ProgressNotificationParams::canon(j) is None || exists|
                            t: ProgressToken,
                        |
                            wire::get::<ProgressToken>(j, "progressToken"@, 0) == Some(t.wire())
                                && self.awaited().told_of(#[trigger] t.request(), now) is None,
                        _ => false,
                    }
                } else if method == methods::NOTIFICATION_MESSAGE@ {
                    match r {
                        Notice::Log { handler, level, data, logger } => {
                            &&& LoggingMessageNotificationParams::canon(j) == Some(
                                LoggingMessageNotificationParams { level, logger, data }.wire(),
                            )
                            &&& match handler {
                                Some(h) => self@.callbacks.logging == Some(*h),
                                None => self@.callbacks.logging is None,
                            }
                        },
                        Notice::Nothing => LoggingMessageNotificationParams::canon(j) is None,
                        _ => false,
                    }
                } else {
                    r is Nothing
                }
            }),
    {
        let null = Json::Null;
        let j = match &notification.params {
            Some(j) => j,
            None => &null,
        };
        let method = notification.method.as_str();
        if str_eq(method, methods::NOTIFICATION_PROGRESS) {
            let p = match ProgressNotificationParams::from_json(j) {
                Ok(p) => p,
                Err(_) => {
                    return Notice::Nothing;
                },
            };
            match self.pending.progress_callback(&p.progress_token, now) {
                Some(listener) => {
                    let ghost t = p.progress_token;
                    assert(self.awaited().told_of(t.request(), now) == Some(*listener));
                    Notice::Progress {
                        listener,
                        progress: p.progress,
                        total: p.total,
                        message: p.message,
                    }
                },
                None => {
                    assert(self.awaited().told_of(p.progress_token.request(), now) is None);
                    Notice::Nothing
                },
            }
        } else if str_eq(method, methods::NOTIFICATION_MESSAGE) {
            match LoggingMessageNotificationParams::from_json(j) {
                Ok(p) => {
                    let handler = match &self.callbacks.logging {
                        Some(h) => Some(h),
                        None => None,
                    };
                    Notice::Log { handler, level: p.level, data: p.data, logger: p.logger }
                },
                Err(_) => Notice::Nothing,
            }
        } else {
            Notice::Nothing
        }
    }

    /// Takes a response of the server. Gives what is told of it, and what it is told.
    pub fn handle_response(&mut self, response: Response, now: u64) -> (r: Option<
        (T, Result<Json, RpcError>),
    >)
        ensures
            final(self)@ == old(self)@,
            match response.id {
                Some(id) => {
                    &&& final(self).awaited().retires(&old(self).awaited(), id.wire(), now)
                    &&& match r {
                        Some((t, outcome)) => old(self).awaited().waiter_of(id.wire()) == Some(t)
                            && crate::session::told(response, outcome),
                        None => old(self).awaited().waiter_of(id.wire()) is None,
                    }
                },
                None => r is None && final(self).awaited() == old(self).awaited(),
            },
    {
        let id = match response.id {
            Some(id) => id,
            None => {
                return None;
            },
        };
        let outcome = match response.error {
            Some(e) => Err(e),
            None => Ok(
                match response.result {
                    Some(j) => j,
                    None => Json::Null,
                },
            ),
        };
        match self.pending.complete(&id, now) {
            Some(t) => Some((t, outcome)),
            None => None,
        }
    }

    /// Fails every request that waits, as the transport is gone. Gives those to be
    /// told, and what they are told.
    pub fn on_disconnected(&mut self, reason: &str) -> (r: (
        std::collections::HashMap<i64, T>,
        RpcError,
    ))
        ensures
            final(self)@ == old(self)@,
            r.0@ == old(self).awaited().waiting(),
            final(self).awaited().is_cleared(&old(self).awaited()),
            r.1.code == JsonRpcErrorCode::InternalError.number(),
            r.1.message@ == "Transport disconnected: "@ + reason@,
            r.1.data is None,
    {
        let all = self.pending.fail_all();
        (all, RpcError::internal_error(text::cat2("Transport disconnected: ", reason)))
    }
}

/// Whatever version a client asks for, it takes the one that a server of ours answers
/// with.
pub proof fn negotiated_version_is_taken(asked: Seq<char>)
    ensures
        protocol::supported_versions().contains(crate::server::session::negotiated(asked)),
{
    crate::server::session::negotiation_ends_supported(asked);
}

} // verus!
