//! A session on the side of a server: what is done with each message of the client, and
//! what the server may send on its own account.
use vstd::prelude::*;

use crate::error::{JsonRpcErrorCode, McpError};
use crate::json::{Json, JsonView};
use crate::jsonrpc::{Message, Notification, Request, RequestId, Response, RpcError};
use crate::protocol;
use crate::protocol::message;
use crate::protocol::message::{ErrorView, MessageView};
use crate::protocol::params::{
    CancelledNotificationParams, ElicitParams, LoggingMessageNotificationParams,
    ProgressNotificationParams, ResourceUpdatedNotificationParams,
};
use crate::protocol::{is_supported_protocol_version, methods, LATEST_PROTOCOL_VERSION};
use crate::sampling_validation;
use crate::sampling_validation::validate_tool_use_result_messages;
use crate::server::request_table::RequestTable;
use crate::session::{PendingRequests, WaitOutcome};
use crate::text;
use crate::text::str_eq;
use crate::transport::RequestContext;
use crate::types::capabilities::{ClientCapabilities, ResourcesCapabilities, ServerCapabilities};
use crate::types::config::{DEFAULT_SERVER_NAME, DEFAULT_VERSION};
use crate::types::meta::ProgressToken;
use crate::types::sampling::CreateMessageParams;
use crate::types::session::{Implementation, InitializeRequestParams, InitializeResult};
use crate::wire;
use crate::wire::{MetaMap, Real, Wire, MALFORMED};

verus! {

/// A session on the side of a server. `S` is where responses are written, and `T` is
/// what is told of the answer to a request of the server.
pub struct ServerSession<S, T> {
    session_id: String,
    name: String,
    version: String,
    has_transport: bool,
    stateless: bool,
    capabilities: ServerCapabilities,
    client_capabilities: Option<ClientCapabilities>,
    initialized: bool,
    requests: RequestTable<RequestContext<S>>,
    /// The requests of the server that wait for their answers.
    pending: PendingRequests<T, ()>,
}

/// What a session holds, but for the requests of the server.
pub struct SessionView<S> {
    pub id: Seq<char>,
    /// The name of the server.
    pub name: Seq<char>,
    /// The version of the server.
    pub version: Seq<char>,
    /// There is a transport to send on.
    pub transport: bool,
    pub stateless: bool,
    /// What the server says it can do.
    pub capabilities: ServerCapabilities,
    /// What the client said it can do.
    pub client: Option<ClientCapabilities>,
    pub initialized: bool,
    /// The requests of the client that are being handled, with their circumstances.
    pub requests: Map<JsonView, RequestContext<S>>,
}

/// What is done with a message.
pub enum Reaction {
    Nothing,
    /// Answer it with this.
    Reply(Message),
    /// Send this to where the earlier request with this identity came from.
    ReplyTo { id: RequestId, message: Message },
    /// Handle this request.
    Handle(Request),
    /// Hand on this notification.
    Notify(Notification),
}

/// The capabilities, without that of telling of changes to a resource.
pub open spec fn unsubscribed(c: ServerCapabilities) -> ServerCapabilities {
    ServerCapabilities {
        resources: match c.resources {
            Some(r) => Some(ResourcesCapabilities { subscribe: Some(false), ..r }),
            None => None,
        },
        ..c
    }
}

/// A server never says that it tells of changes to a resource.
pub proof fn never_subscribes(c: ServerCapabilities)
    ensures
        unsubscribed(c).resources matches Some(r) ==> r.subscribe == Some(false),
        unsubscribed(c).resources is Some <==> c.resources is Some,
{
}

/// What a client says that opens a session and gives nothing.
pub open spec fn opening_default() -> JsonView {
    let o = wire::with(
        wire::none(),
        "protocolVersion"@,
        JsonView::String(protocol::DEFAULT_PROTOCOL_VERSION@),
    );
    let o = wire::with(o, "capabilities"@, JsonView::Object(wire::none()));
    JsonView::Object(
        wire::with(o, "clientInfo"@, crate::types::session::empty_implementation()),
    )
}

/// What a client says that opens a session, by the parameters of its request.
pub open spec fn opening(params: Option<JsonView>) -> JsonView {
    match params {
        Some(j) => if j is Object && InitializeRequestParams::canon(j) is Some {
            InitializeRequestParams::canon(j)->0
        } else {
            opening_default()
        },
        None => opening_default(),
    }
}

/// What a client offers that opens a session, by the parameters of its request.
pub open spec fn opening_offer(params: Option<JsonView>, c: ClientCapabilities) -> bool {
    match params {
        Some(j) => if j is Object && InitializeRequestParams::canon(j) is Some {
            InitializeRequestParams::offers(j, c)
        } else {
            c.is_default()
        },
        None => c.is_default(),
    }
}

/// The protocol version of the session: the one that the client asks for, where it is
/// one of ours, and the latest otherwise.
pub open spec fn negotiated(asked: Seq<char>) -> Seq<char> {
    if protocol::supported_versions().contains(asked) {
        asked
    } else {
        LATEST_PROTOCOL_VERSION@
    }
}

/// Whatever the client asks for, the session has a version that the server knows; and
/// a client that asks for such a version gets it.
pub proof fn negotiation_ends_supported(asked: Seq<char>)
    ensures
        protocol::supported_versions().contains(negotiated(asked)),
        protocol::supported_versions().contains(asked) ==> negotiated(asked) == asked,
{
}

/// The protocol version that the client asks for.
pub open spec fn version_asked(params: Option<JsonView>) -> Seq<char> {
    match opening(params).get("protocolVersion"@) {
        Some(JsonView::String(v)) => v,
        _ => seq![],
    }
}

/// The answer to the opening of a session.
pub open spec fn opened(
    version: Seq<char>,
    capabilities: JsonView,
    name: Seq<char>,
    server_version: Seq<char>,
) -> JsonView {
    let info = wire::with(wire::none(), "name"@, JsonView::String(name));
    let info = wire::with(info, "version"@, JsonView::String(server_version));
    let o = wire::with(wire::none(), "protocolVersion"@, JsonView::String(version));
    let o = wire::with(o, "capabilities"@, capabilities);
    JsonView::Object(wire::with(o, "serverInfo"@, JsonView::Object(info)))
}

/// The request was cancelled.
pub open spec fn cancelled<S>(s: SessionView<S>, id: JsonView) -> bool {
    s.requests.dom().contains(id) && s.requests[id].is_cancelled
}

/// A response.
pub open spec fn success(id: JsonView, result: JsonView) -> MessageView {
    MessageView::Response { to: Some(id), result: Some(result), error: None }
}

/// The response that tells of an error.
pub open spec fn failure(id: JsonView, code: int, message: Seq<char>) -> MessageView {
    MessageView::Response {
        to: Some(id),
        result: None,
        error: Some(ErrorView { code, message, data: None }),
    }
}

/// The response to a request that succeeded, if it was not cancelled.
pub open spec fn response_to<S>(
    s: SessionView<S>,
    id: JsonView,
    result: JsonView,
    ctx_cancelled: bool,
) -> Option<MessageView> {
    if cancelled(s, id) || ctx_cancelled {
        None
    } else {
        Some(success(id, result))
    }
}

/// A message that may be missing.
pub open spec fn message_view(m: Option<Message>) -> Option<MessageView> {
    match m {
        Some(m) => Some(m@),
        None => None,
    }
}

/// The request that a notification cancels.
pub open spec fn cancels(params: Option<JsonView>) -> Option<JsonView> {
    match params {
        Some(j) => if CancelledNotificationParams::canon(j) is Some {
            wire::get::<RequestId>(j, "requestId"@, 0)
        } else {
            None
        },
        None => None,
    }
}

/// The circumstances of a request, after it was cancelled.
pub open spec fn with_cancelled<S>(c: RequestContext<S>) -> RequestContext<S> {
    RequestContext { is_cancelled: true, ..c }
}

/// The session after a request was cancelled.
pub open spec fn after_cancel<S>(s: SessionView<S>, id: JsonView) -> SessionView<S> {
    SessionView { requests: s.requests.insert(id, with_cancelled(s.requests[id])), ..s }
}

/// Why the server may not send a request of this kind.
pub open spec fn request_barred<S>(s: SessionView<S>, what: Seq<char>) -> Option<Seq<char>> {
    if s.stateless {
        Some(what + " is not supported in stateless server mode"@)
    } else if !s.initialized {
        Some("Session is not initialized"@)
    } else {
        None
    }
}

/// Why the server may not ask for the roots of the client.
pub open spec fn roots_barred<S>(s: SessionView<S>) -> Option<Seq<char>> {
    match request_barred(s, methods::ROOTS_LIST@) {
        Some(m) => Some(m),
        None => if s.client is None || s.client->0.roots is None {
            Some("Client does not support roots/list"@)
        } else {
            None
        },
    }
}

/// The text of a member that may be missing.
pub open spec fn text_of(s: Option<String>) -> Option<Seq<char>> {
    match s {
        Some(s) => Some(s@),
        None => None,
    }
}

/// Why the server may not ask the client for a message of a model.
pub open spec fn sampling_barred<S>(s: SessionView<S>, params: CreateMessageParams) -> Option<
    Seq<char>,
> {
    let context = text_of(params.include_context);
    match request_barred(s, methods::SAMPLING_CREATE_MESSAGE@) {
        Some(m) => Some(m),
        None => if s.client is None || s.client->0.sampling is None {
            Some("Client does not support sampling/createMessage"@)
        } else if params.tools is Some && !s.client->0.sampling->0.tools {
            Some(
                "Tool-enabled sampling requested but client did not advertise sampling.tools capability"@,
            )
        } else if (context == Some("thisServer"@) || context == Some("allServers"@))
            && !s.client->0.sampling->0.context {
            Some("includeContext requires sampling.context capability"@)
        } else {
            sampling_validation::fault_from(params.messages@, 0)
        },
    }
}

/// A request that the server sends on its own account.
#[derive(Debug)]
pub struct Outgoing {
    pub method: String,
    pub params: Option<Json>,
    /// The name under which a failure is told.
    pub op_name: String,
}

impl Outgoing {
    /// What the request says.
    pub open spec fn says(&self, method: Seq<char>, params: JsonView, op_name: Seq<char>) -> bool {
        self.method@ == method && wire::opt(self.params) == Some(params) && self.op_name@ == op_name
    }
}

/// A message that the server sends on its own account, and its circumstances.
#[derive(Debug)]
pub struct Outbound<S> {
    pub message: Message,
    pub ctx: RequestContext<S>,
}

impl<S> Outbound<S> {
    /// A notification on the stream that the client opened of its own.
    pub open spec fn notifies(
        &self,
        session_id: Seq<char>,
        method: Seq<char>,
        params: Option<JsonView>,
    ) -> bool {
        &&& self.message@ == (MessageView::Notification { method, params })
        &&& self.ctx.connection_id == 0
        &&& self.ctx.session_id@ == session_id
        &&& self.ctx.method@ == method
        &&& self.ctx.is_get_stream
        &&& !self.ctx.is_cancelled
        &&& self.ctx.sink is None
    }
}

impl<S, T> ServerSession<S, T> {
    /// What the session holds.
    pub closed spec fn view(&self) -> SessionView<S> {
        SessionView {
            id: self.session_id@,
            name: self.name@,
            version: self.version@,
            transport: self.has_transport,
            stateless: self.stateless,
            capabilities: self.capabilities,
            client: self.client_capabilities,
            initialized: self.initialized,
            requests: self.requests@,
        }
    }

    /// The requests of the server that wait for their answers.
    pub closed spec fn awaited(&self) -> PendingRequests<T, ()> {
        self.pending
    }

    /// A new session of a server with this name and version.
    pub fn new(
        has_transport: bool,
        name: String,
        version: String,
        session_id: String,
        stateless: bool,
    ) -> (r: Self)
        ensures
            r@.id == session_id@,
            r@.name == name@,
            r@.version == version@,
            r@.transport == has_transport,
            r@.stateless == stateless,
            r@.capabilities.is_default(),
            r@.client is None,
            !r@.initialized,
            r@.requests == Map::<JsonView, RequestContext<S>>::empty(),
            r.awaited().next_number() == 1,
            r.awaited().waiting() == Map::<i64, T>::empty(),
    {
        ServerSession {
            session_id,
            name,
            version,
            has_transport,
            stateless,
            capabilities: ServerCapabilities::default(),
            client_capabilities: None,
            initialized: false,
            requests: RequestTable::new(),
            pending: PendingRequests::new(),
        }
    }

    /// A session without a transport.
    pub fn detached() -> (r: Self)
        ensures
            r@.id == Seq::<char>::empty(),
            r@.name == DEFAULT_SERVER_NAME@,
            r@.version == DEFAULT_VERSION@,
            !r@.transport,
            !r@.stateless,
            r@.capabilities.is_default(),
            !r@.initialized,
            r@.client is None,
            r@.requests == Map::<JsonView, RequestContext<S>>::empty(),
            r.awaited().next_number() == 1,
            r.awaited().waiting() == Map::<i64, T>::empty(),
    {
        let id = String::new();
        assert(id@ =~= seq![]);
        ServerSession::new(
            false,
            DEFAULT_SERVER_NAME.to_owned(),
            DEFAULT_VERSION.to_owned(),
            id,
            false,
        )
    }

    /// The identity of the session.
    pub fn session_id(&self) -> (r: &str)
        ensures
            r@ == self@.id,
    {
        self.session_id.as_str()
    }

    /// Tells whether every request stands for itself.
    pub fn is_stateless(&self) -> (r: bool)
        ensures
            r == self@.stateless,
    {
        self.stateless
    }

    /// Tells whether the session was opened.
    pub fn is_initialized(&self) -> (r: bool)
        ensures
            r == self@.initialized,
    {
        self.initialized
    }

    /// Sets what the server says it can do. It does not tell of changes to a resource,
    /// and so never says that it does.
    pub fn set_server_capabilities(&mut self, capabilities: ServerCapabilities)
        ensures
            final(self)@ == (SessionView {
                capabilities: unsubscribed(capabilities),
                ..old(self)@
            }),
            final(self).awaited() == old(self).awaited(),
    {
        let mut caps = capabilities;
        caps.resources = match caps.resources {
            Some(r) => Some(
                ResourcesCapabilities { subscribe: Some(false), list_changed: r.list_changed },
            ),
            None => None,
        };
        self.capabilities = caps;
    }

    /// What the client said it can do; nothing before the session is opened.
    pub fn get_client_capabilities(&self) -> (r: ClientCapabilities)
        ensures
            match self@.client {
                Some(c) => r.same_offer(&c) && r.wire() == c.wire(),
                None => r.is_default(),
            },
    {
        match &self.client_capabilities {
            Some(c) => c.duplicate(),
            None => ClientCapabilities::default(),
        }
    }

    /// How many requests of the server wait for their answers.
    pub fn pending_count(&self) -> (r: usize)
        ensures
            r == self.awaited().count(),
            self.awaited().waiting().dom().finite(),
    {
        self.pending.len()
    }

    /// The circumstances of a request that is being handled.
    pub fn context(&self, id: &RequestId) -> (r: Option<&RequestContext<S>>)
        ensures
            match r {
                Some(c) => self@.requests.dom().contains(id.wire()) && *c
                    == self@.requests[id.wire()],
                None => !self@.requests.dom().contains(id.wire()),
            },
    {
        self.requests.get(id)
    }

    /// The response to a request that succeeded. There is none if the request was
    /// cancelled.
    pub fn send_response(&mut self, id: RequestId, result: Json, ctx_cancelled: bool) -> (r: Option<
        Message,
    >)
        ensures
            message_view(r) == response_to(old(self)@, id.wire(), result@, ctx_cancelled),
            final(self)@ == (SessionView {
                requests: old(self)@.requests.remove(id.wire()),
                ..old(self)@
            }),
            final(self).awaited() == old(self).awaited(),
    {
        let was_cancelled = match self.requests.remove(&id) {
            Some(c) => c.is_cancelled,
            None => false,
        };
        if was_cancelled || ctx_cancelled {
            return None;
        }
        Some(Message::Response(Response::success(id, result)))
    }

    /// The response to a request that failed.
    pub fn send_error_response(&mut self, id: RequestId, error: RpcError) -> (r: Message)
        ensures
            r@ == (MessageView::Response {
                to: Some(id.wire()),
                result: None,
                error: message::error_view(Some(error)),
            }),
            final(self)@ == (SessionView {
                requests: old(self)@.requests.remove(id.wire()),
                ..old(self)@
            }),
            final(self).awaited() == old(self).awaited(),
    {
        let _ = self.requests.remove(&id);
        Message::Response(Response::error(Some(id), error))
    }

    /// Opens the session: takes note of what the client can do, and answers with the
    /// protocol version and what the server can do.
    fn handle_initialize(&mut self, id: RequestId, params: &Option<Json>, ctx_cancelled: bool) -> (r:
        Option<Message>)
        ensures
            message_view(r) == response_to(
                old(self)@,
                id.wire(),
                opened(
                    negotiated(version_asked(wire::opt(*params))),
                    old(self)@.capabilities.wire(),
                    old(self)@.name,
                    old(self)@.version,
                ),
                ctx_cancelled,
            ),
            final(self)@.client is Some,
            opening_offer(wire::opt(*params), final(self)@.client->0),
            opening(wire::opt(*params)).get("capabilities"@) == Some(final(self)@.client->0.wire()),
            final(self)@ == (SessionView {
                client: final(self)@.client,
                initialized: true,
                requests: old(self)@.requests.remove(id.wire()),
                ..old(self)@
            }),
            final(self).awaited() == old(self).awaited(),
    {
        broadcast use crate::wire::group_lookup;

        let p = match params {
            Some(j) => if j.is_object() {
                match InitializeRequestParams::from_json(j) {
                    Ok(p) => p,
                    Err(_) => InitializeRequestParams::default(),
                }
            } else {
                InitializeRequestParams::default()
            },
            None => InitializeRequestParams::default(),
        };
        proof {
            reveal_strlit("protocolVersion");
            reveal_strlit("capabilities");
            reveal_strlit("clientInfo");
            reveal_strlit("_meta");
            assert("protocolVersion"@.len() == 15 && "capabilities"@.len() == 12
                && "clientInfo"@.len() == 10 && "_meta"@.len() == 5);
            assert(p.wire() == opening(wire::opt(*params))) by {
                if p.is_default() {
                    assert(p.capabilities.wire() == JsonView::Object(wire::none()));
                    assert(p.client_info.name@ =~= seq![] && p.client_info.version@ =~= seq![]);
                }
            }
            assert(p.wire().get("protocolVersion"@) == Some(JsonView::String(p.protocol_version@)));
            assert(p.wire().get("capabilities"@) == Some(p.capabilities.wire()));
        }
        let version = if is_supported_protocol_version(p.protocol_version.as_str()) {
            p.protocol_version
        } else {
            LATEST_PROTOCOL_VERSION.to_owned()
        };
        self.client_capabilities = Some(p.capabilities);
        let result = InitializeResult::new(
            version,
            self.capabilities.duplicate(),
            Implementation::new(self.name.clone(), self.version.clone()),
            None,
        );
        let r = self.send_response(id, result.to_json(), ctx_cancelled);
        self.initialized = true;
        r
    }

    /// Tells what is done with a request of the client. Before the session is opened,
    /// any but the one that opens it is refused.
    pub fn received_request(
        &mut self,
        request: Request,
        ctx: RequestContext<S>,
        has_handler: bool,
    ) -> (r: Reaction)
        ensures
            final(self).awaited() == old(self).awaited(),
            ({
                let s = old(self)@;
                let id = request.id.wire();
                if request.method@ == methods::INITIALIZE@ {
                    &&& match r {
                        Reaction::Nothing => cancelled(s, id) || ctx.is_cancelled,
                        Reaction::Reply(m) => !(cancelled(s, id) || ctx.is_cancelled) && m@
                            == success(
                            id,
                            opened(
                                negotiated(version_asked(wire::opt(request.params))),
                                s.capabilities.wire(),
                                s.name,
                                s.version,
                            ),
                        ),
                        _ => false,
                    }
                    &&& final(self)@.client is Some
                    &&& opening_offer(wire::opt(request.params), final(self)@.client->0)
                    &&& opening(wire::opt(request.params)).get("capabilities"@) == Some(
                        final(self)@.client->0.wire(),
                    )
                    &&& final(self)@ == (SessionView {
                        client: final(self)@.client,
                        initialized: true,
                        requests: s.requests.remove(id),
                        ..s
                    })
                } else if !s.stateless && !s.initialized {
                    &&& r matches Reaction::Reply(m) && m@ == failure(
                        id,
                        JsonRpcErrorCode::InvalidRequest.number(),
                        "Received request before initialization: "@ + request.method@,
                    )
                    &&& final(self)@ == (SessionView { requests: s.requests.remove(id), ..s })
                } else if !has_handler {
                    r is Nothing && final(self)@ == s
                } else {
                    &&& r == Reaction::Handle(request)
                    &&& final(self)@.requests.dom() == s.requests.dom().insert(id)
                    &&& final(self)@.requests[id].method@ == request.method@
                    &&& final(self)@.requests[id] == (RequestContext {
                        method: final(self)@.requests[id].method,
                        ..ctx
                    })
                    &&& final(self)@ == (SessionView {
                        requests: s.requests.insert(id, final(self)@.requests[id]),
                        ..s
                    })
                }
            }),
    {
        if str_eq(request.method.as_str(), methods::INITIALIZE) {
            return match self.handle_initialize(request.id, &request.params, ctx.is_cancelled) {
                Some(m) => Reaction::Reply(m),
                None => Reaction::Nothing,
            };
        }
        if !self.stateless && !self.initialized {
            let error = RpcError::new(
                JsonRpcErrorCode::InvalidRequest.code(),
                text::cat2("Received request before initialization: ", request.method.as_str()),
            );
            return Reaction::Reply(self.send_error_response(request.id, error));
        }
        if !has_handler {
            return Reaction::Nothing;
        }
        let stored = RequestContext {
            connection_id: ctx.connection_id,
            session_id: ctx.session_id,
            method: request.method.clone(),
            is_get_stream: ctx.is_get_stream,
            is_cancelled: ctx.is_cancelled,
            sink: ctx.sink,
        };
        self.requests.insert(request.id.duplicate(), stored);
        assert(self@.requests.dom() =~= old(self)@.requests.dom().insert(request.id.wire()));
        Reaction::Handle(request)
    }

    /// Cancels a request that is being handled, and tells the client so.
    fn handle_cancelled(&mut self, params: &Option<Json>) -> (r: Reaction)
        ensures
            final(self).awaited() == old(self).awaited(),
            ({
                let s = old(self)@;
                match cancels(wire::opt(*params)) {
                    Some(k) => if s.requests.dom().contains(k) {
                        &&& r matches Reaction::ReplyTo { id, message } && id.wire() == k
                            && message@ == failure(k, 0, "Request cancelled"@)
                        &&& final(self)@ == after_cancel(s, k)
                    } else {
                        r is Nothing && final(self)@ == s
                    },
                    None => r is Nothing && final(self)@ == s,
                }
            }),
    {
        let j = match params {
            Some(j) => j,
            None => {
                return Reaction::Nothing;
            },
        };
        let p = match CancelledNotificationParams::from_json(j) {
            Ok(p) => p,
            Err(_) => {
                return Reaction::Nothing;
            },
        };
        let ghost s = self@;
        match self.requests.remove(&p.request_id) {
            Some(c) => {
                let ghost k = p.request_id.wire();
                let marked = RequestContext {
                    connection_id: c.connection_id,
                    session_id: c.session_id,
                    method: c.method,
                    is_get_stream: c.is_get_stream,
                    is_cancelled: true,
                    sink: c.sink,
                };
                self.requests.insert(p.request_id.duplicate(), marked);
                assert(self@.requests =~= s.requests.insert(k, with_cancelled(s.requests[k])));
                let error = RpcError::new(0, "Request cancelled".to_owned());
                let id = p.request_id.duplicate();
                let message = Message::Response(Response::error(Some(p.request_id), error));
                Reaction::ReplyTo { id, message }
            },
            None => {
                assert(self@.requests =~= s.requests);
                Reaction::Nothing
            },
        }
    }

    /// Tells what is done with a notification of the client.
    pub fn received_notification(&mut self, notification: Notification, has_handler: bool) -> (r:
        Reaction)
        ensures
            final(self).awaited() == old(self).awaited(),
            ({
                let s = old(self)@;
                let method = notification.method@;
                if method == methods::NOTIFICATION_INITIALIZED@ {
                    r is Nothing && final(self)@ == (SessionView { initialized: true, ..s })
                } else if method == methods::NOTIFICATION_CANCELLED@ {
                    match cancels(wire::opt(notification.params)) {
                        Some(k) => if s.requests.dom().contains(k) {
                            &&& r matches Reaction::ReplyTo { id, message } && id.wire() == k
                                && message@ == failure(k, 0, "Request cancelled"@)
                            &&& final(self)@ == after_cancel(s, k)
                        } else {
                            r is Nothing && final(self)@ == s
                        },
                        None => r is Nothing && final(self)@ == s,
                    }
                } else if method == methods::NOTIFICATION_ROOTS_LIST_CHANGED@ || !has_handler {
                    r is Nothing && final(self)@ == s
                } else {
                    r == Reaction::Notify(notification) && final(self)@ == s
                }
            }),
    {
        let method = notification.method.as_str();
        if str_eq(method, methods::NOTIFICATION_INITIALIZED) {
            self.initialized = true;
            Reaction::Nothing
        } else if str_eq(method, methods::NOTIFICATION_CANCELLED) {
            self.handle_cancelled(&notification.params)
        } else if str_eq(method, methods::NOTIFICATION_ROOTS_LIST_CHANGED) || !has_handler {
            Reaction::Nothing
        } else {
            Reaction::Notify(notification)
        }
    }

    /// Takes a response of the client. Gives what is told of it, and what it is told.
    pub fn handle_response(&mut self, response: Response, now: u64) -> (r: Option<
        (T, Result<Json, RpcError>),
    >)
        ensures
            final(self)@ == old(self)@,
            match response.id {
                Some(id) => {
                    &&& final(self).awaited().retires(&old(self).awaited(), id.wire(), now)
                    &&& match r {
                        Some((t, outcome)) => old(self).awaited().waiter_of(id.wire()) == Some(t)
                            && crate::session::told(response, outcome),
                        None => old(self).awaited().waiter_of(id.wire()) is None,
                    }
                },
                None => r is None && final(self).awaited() == old(self).awaited(),
            },
    {
        let id = match response.id {
            Some(id) => id,
            None => {
                return None;
            },
        };
        let outcome = match response.error {
            Some(e) => Err(e),
            None => Ok(
                match response.result {
                    Some(j) => j,
                    None => Json::Null,
                },
            ),
        };
        match self.pending.complete(&id, now) {
            Some(t) => Some((t, outcome)),
            None => None,
        }
    }

    /// Fails every request that waits, as the transport is gone. Gives those to be
    /// told, and what they are told.
    pub fn on_disconnected(&mut self, reason: &str) -> (r: (
        std::collections::HashMap<i64, T>,
        RpcError,
    ))
        ensures
            final(self)@ == old(self)@,
            r.0@ == old(self).awaited().waiting(),
            final(self).awaited().is_cleared(&old(self).awaited()),
            r.1.code == JsonRpcErrorCode::InternalError.number(),
            r.1.message@ == "Transport disconnected: "@ + reason@,
            r.1.data is None,
    {
        let all = self.pending.fail_all();
        (all, RpcError::internal_error(text::cat2("Transport disconnected: ", reason)))
    }

    /// The message of a request that the server sends, which waits for its answer from
    /// then on.
    pub fn send_request(&mut self, method: String, params: Option<Json>, waiter: T) -> (r: Result<
        (RequestId, Message),
        McpError,
    >)
        ensures
            final(self)@ == old(self)@,
            r is Ok <==> old(self)@.transport,
            match r {
                Ok((id, m)) => {
                    &&& id == RequestId::Number(old(self).awaited().next_number())
                    &&& m@ == (MessageView::Request {
                        id: id.wire(),
                        method: method@,
                        params: wire::opt(params),
                    })
                    &&& final(self).awaited().registers(&old(self).awaited(), waiter, None)
                },
                Err(e) => e.faults_state("Transport not set"@) && final(self).awaited() == old(
                    self,
                ).awaited(),
            },
    {
        if !self.has_transport {
            return Err(McpError::state("Transport not set".to_owned()));
        }
        let id = self.pending.register(waiter, None);
        let q = Request::new(id.duplicate(), method, params);
        Ok((id, Message::Request(q)))
    }

    /// Forgets a request of the server, which could not be sent.
    pub fn forget(&mut self, id: &RequestId, now: u64)
        ensures
            final(self)@ == old(self)@,
            final(self).awaited().retires(&old(self).awaited(), id.wire(), now),
    {
        self.pending.remove(id, now);
    }

    /// The result of a request of the server, by what came of waiting for its answer.
    pub fn settle(&mut self, id: &RequestId, outcome: WaitOutcome, timeout_ms: u64, now: u64) -> (r:
        Result<Json, McpError>)
        ensures
            final(self)@ == old(self)@,
            match outcome {
                WaitOutcome::Answered(Ok(v)) => r == Ok::<Json, McpError>(v),
                WaitOutcome::Answered(Err(e)) => r == Err::<Json, McpError>(McpError::Rpc(e)),
                WaitOutcome::Dropped => r == Err::<Json, McpError>(McpError::Closed),
                WaitOutcome::TimedOut => r == Err::<Json, McpError>(McpError::Timeout(timeout_ms)),
            },
            outcome is Answered ==> final(self).awaited() == old(self).awaited(),
            !(outcome is Answered) ==> final(self).awaited().retires(
                &old(self).awaited(),
                id.wire(),
                now,
            ),
    {
        self.pending.settle(id, outcome, timeout_ms, now)
    }

    /// A notification on the stream that the client opened of its own. There is none
    /// without a transport.
    pub fn send_notification(&self, method: &str, params: Option<Json>) -> (r: Option<Outbound<S>>)
        ensures
            match r {
                Some(o) => self@.transport && o.notifies(self@.id, method@, wire::opt(params)),
                None => !self@.transport,
            },
    {
        if !self.has_transport {
            return None;
        }
        let mut ctx = RequestContext::server_initiated(self.session_id.as_str(), method);
        ctx.is_get_stream = true;
        let n = Notification::new(method.to_owned(), params);
        Some(Outbound { message: Message::Notification(n), ctx })
    }

    /// Tells the client that the list of tools changed.
    pub fn send_tool_list_changed_notification(&self) -> (r: Option<Outbound<S>>)
        ensures
            match r {
                Some(o) => self@.transport && o.notifies(
                    self@.id,
                    methods::NOTIFICATION_TOOLS_LIST_CHANGED@,
                    Some(JsonView::Object(wire::none())),
                ),
                None => !self@.transport,
            },
    {
        self.send_notification(
            methods::NOTIFICATION_TOOLS_LIST_CHANGED,
            Some(Json::empty_object()),
        )
    }

    /// Tells the client that the list of prompts changed.
    pub fn send_prompt_list_changed_notification(&self) -> (r: Option<Outbound<S>>)
        ensures
            match r {
                Some(o) => self@.transport && o.notifies(
                    self@.id,
                    methods::NOTIFICATION_PROMPTS_LIST_CHANGED@,
                    Some(JsonView::Object(wire::none())),
                ),
                None => !self@.transport,
            },
    {
        self.send_notification(
            methods::NOTIFICATION_PROMPTS_LIST_CHANGED,
            Some(Json::empty_object()),
        )
    }

    /// Tells the client that the list of resources changed.
    pub fn send_resource_list_changed_notification(&self) -> (r: Option<Outbound<S>>)
        ensures
            match r {
                Some(o) => self@.transport && o.notifies(
                    self@.id,
                    methods::NOTIFICATION_RESOURCES_LIST_CHANGED@,
                    Some(JsonView::Object(wire::none())),
                ),
                None => !self@.transport,
            },
    {
        self.send_notification(
            methods::NOTIFICATION_RESOURCES_LIST_CHANGED,
            Some(Json::empty_object()),
        )
    }

    /// Tells the client that a resource changed.
    pub fn send_resource_updated_notification(&self, uri: &str) -> (r: Option<Outbound<S>>)
        ensures
            match r {
                Some(o) => self@.transport && o.notifies(
                    self@.id,
                    methods::NOTIFICATION_RESOURCES_UPDATED@,
                    Some(
                        JsonView::Object(
                            wire::with(wire::none(), "uri"@, JsonView::String(uri@)),
                        ),
                    ),
                ),
                None => !self@.transport,
            },
    {
        let p = ResourceUpdatedNotificationParams { uri: uri.to_owned() };
        self.send_notification(methods::NOTIFICATION_RESOURCES_UPDATED, Some(p.to_json()))
    }

    /// Sends the client a line of the log.
    pub fn send_log_message(&self, level: &str, data: Json, logger: &str) -> (r: Option<Outbound<S>>)
        ensures
            ({
                let o = wire::with(wire::none(), "level"@, JsonView::String(level@));
                let o = wire::with(o, "logger"@, JsonView::String(logger@));
                let params = JsonView::Object(wire::with(o, "data"@, data@));
                match r {
                    Some(o) => self@.transport && o.notifies(
                        self@.id,
                        methods::NOTIFICATION_MESSAGE@,
                        Some(params),
                    ),
                    None => !self@.transport,
                }
            }),
    {
        let p = LoggingMessageNotificationParams {
            level: level.to_owned(),
            logger: logger.to_owned(),
            data,
        };
        self.send_notification(methods::NOTIFICATION_MESSAGE, Some(p.to_json()))
    }

    /// Tells the client of the progress of its request.
    pub fn send_progress_notification(
        &self,
        progress_token: ProgressToken,
        progress: Real,
        total: Option<Real>,
        message: Option<String>,
    ) -> (r: Option<Outbound<S>>)
        ensures
            ({
                let p = ProgressNotificationParams { progress_token, progress, total, message };
                match r {
                    Some(o) => self@.transport && o.notifies(
                        self@.id,
                        methods::NOTIFICATION_PROGRESS@,
                        Some(p.wire()),
                    ),
                    None => !self@.transport,
                }
            }),
    {
        let p = ProgressNotificationParams { progress_token, progress, total, message };
        self.send_notification(methods::NOTIFICATION_PROGRESS, Some(p.to_json()))
    }

    fn check_can_request(&self, what: &str) -> (r: Result<(), McpError>)
        ensures
            match r {
                Ok(()) => request_barred(self@, what@) is None,
                Err(McpError::InvalidState(m)) => request_barred(self@, what@) == Some(m@),
                Err(_) => false,
            },
    {
        if self.stateless {
            return Err(
                McpError::state(text::cat2(what, " is not supported in stateless server mode")),
            );
        }
        if !self.initialized {
            return Err(McpError::state("Session is not initialized".to_owned()));
        }
        Ok(())
    }

    /// The request for the roots of the client, which must have said that it has some.
    pub fn list_roots(&self) -> (r: Result<Outgoing, McpError>)
        ensures
            match r {
                Ok(o) => roots_barred(self@) is None && o.says(
                    methods::ROOTS_LIST@,
                    JsonView::Null,
                    "ListRoots"@,
                ),
                Err(McpError::InvalidState(m)) => roots_barred(self@) == Some(m@),
                Err(_) => false,
            },
    {
        match self.check_can_request(methods::ROOTS_LIST) {
            Ok(()) => {},
            Err(e) => {
                return Err(e);
            },
        }
        let has_roots = match &self.client_capabilities {
            Some(c) => c.roots.is_some(),
            None => false,
        };
        if !has_roots {
            return Err(McpError::state("Client does not support roots/list".to_owned()));
        }
        Ok(
            Outgoing {
                method: methods::ROOTS_LIST.to_owned(),
                params: Some(Json::Null),
                op_name: "ListRoots".to_owned(),
            },
        )
    }

    /// The request for a message of a model, which the client must have said it can
    /// make, with what is asked for.
    pub fn sampling_create_message(&self, params: &CreateMessageParams) -> (r: Result<
        Outgoing,
        McpError,
    >)
        ensures
            match r {
                Ok(o) => sampling_barred(self@, *params) is None && o.says(
                    methods::SAMPLING_CREATE_MESSAGE@,
                    params.wire(),
                    "SamplingCreateMessage"@,
                ),
                Err(McpError::InvalidState(m)) => sampling_barred(self@, *params) == Some(m@),
                Err(_) => false,
            },
    {
        match self.check_can_request(methods::SAMPLING_CREATE_MESSAGE) {
            Ok(()) => {},
            Err(e) => {
                return Err(e);
            },
        }
        let (tools, context) = match &self.client_capabilities {
            Some(c) => match &c.sampling {
                Some(s) => (s.tools, s.context),
                None => {
                    return Err(
                        McpError::state(
                            "Client does not support sampling/createMessage".to_owned(),
                        ),
                    );
                },
            },
            None => {
                return Err(
                    McpError::state("Client does not support sampling/createMessage".to_owned()),
                );
            },
        };
        if params.tools.is_some() && !tools {
            return Err(
                McpError::state(
                    "Tool-enabled sampling requested but client did not advertise sampling.tools capability".to_owned(),
                ),
            );
        }
        if let Some(v) = &params.include_context {
            if (str_eq(v.as_str(), "thisServer") || str_eq(v.as_str(), "allServers")) && !context {
                return Err(
                    McpError::state(
                        "includeContext requires sampling.context capability".to_owned(),
                    ),
                );
            }
        }
        match validate_tool_use_result_messages(&params.messages) {
            Ok(()) => {},
            Err(e) => {
                return Err(McpError::state(e.message()));
            },
        }
        Ok(
            Outgoing {
                method: methods::SAMPLING_CREATE_MESSAGE.to_owned(),
                params: Some(params.to_json()),
                op_name: "SamplingCreateMessage".to_owned(),
            },
        )
    }

    /// The request that the user of the client fills in a form.
    pub fn elicit(&self, message: &str, requested_schema: MetaMap) -> (r: Result<Outgoing, McpError>)
        ensures
            ({
                let o = wire::with(wire::none(), "mode"@, JsonView::String("form"@));
                let o = wire::with(o, "message"@, JsonView::String(message@));
                let params = JsonView::Object(
                    wire::with(o, "requestedSchema"@, requested_schema.wire()),
                );
                match r {
                    Ok(o) => request_barred(self@, methods::ELICITATION_CREATE@) is None && o.says(
                        methods::ELICITATION_CREATE@,
                        params,
                        "Elicit"@,
                    ),
                    Err(McpError::InvalidState(m)) => request_barred(
                        self@,
                        methods::ELICITATION_CREATE@,
                    ) == Some(m@),
                    Err(_) => false,
                }
            }),
    {
        match self.check_can_request(methods::ELICITATION_CREATE) {
            Ok(()) => {},
            Err(e) => {
                return Err(e);
            },
        }
        let p = ElicitParams::Form { message: message.to_owned(), requested_schema };
        Ok(
            Outgoing {
                method: methods::ELICITATION_CREATE.to_owned(),
                params: Some(p.to_json()),
                op_name: "Elicit".to_owned(),
            },
        )
    }

    /// The request that the user of the client visits a page.
    pub fn elicit_url(&self, message: &str, url: &str, elicitation_id: &str) -> (r: Result<
        Outgoing,
        McpError,
    >)
        ensures
            ({
                let o = wire::with(wire::none(), "mode"@, JsonView::String("url"@));
                let o = wire::with(o, "message"@, JsonView::String(message@));
                let o = wire::with(o, "url"@, JsonView::String(url@));
                let params = JsonView::Object(
                    wire::with(o, "elicitationId"@, JsonView::String(elicitation_id@)),
                );
                match r {
                    Ok(o) => request_barred(self@, methods::ELICITATION_CREATE@) is None && o.says(
                        methods::ELICITATION_CREATE@,
                        params,
                        "ElicitUrl"@,
                    ),
                    Err(McpError::InvalidState(m)) => request_barred(
                        self@,
                        methods::ELICITATION_CREATE@,
                    ) == Some(m@),
                    Err(_) => false,
                }
            }),
    {
        match self.check_can_request(methods::ELICITATION_CREATE) {
            Ok(()) => {},
            Err(e) => {
                return Err(e);
            },
        }
        let p = ElicitParams::Url {
            message: message.to_owned(),
            url: url.to_owned(),
            elicitation_id: elicitation_id.to_owned(),
        };
        Ok(
            Outgoing {
                method: methods::ELICITATION_CREATE.to_owned(),
                params: Some(p.to_json()),
                op_name: "ElicitUrl".to_owned(),
            },
        )
    }
}

/// Reads the answer to a request of the server as a `T`.
pub fn read_answer<T: Wire>(op_name: &str, outcome: Result<Json, McpError>) -> (r: Result<
    T,
    McpError,
>)
    ensures
        match outcome {
            Ok(j) => match r {
                Ok(x) => !(j@ is Null) && T::canon(j@) == Some(x.wire()),
                Err(e) => if j@ is Null {
                    e.faults_state(op_name@ + " failed: null result"@)
                } else {
                    T::canon(j@) is None && e.faults_state(
                        op_name@ + " failed: result type mismatch ("@ + MALFORMED@ + ")"@,
                    )
                },
            },
            Err(McpError::Rpc(x)) => r is Err && r->Err_0.faults_state(
                op_name@ + " failed: "@ + x.message@,
            ),
            Err(e) => r == Err::<T, McpError>(e),
        },
{
    let j = match outcome {
        Ok(j) => j,
        Err(McpError::Rpc(x)) => {
            return Err(McpError::state(text::cat3(op_name, " failed: ", x.message.as_str())));
        },
        Err(e) => {
            return Err(e);
        },
    };
    if j.is_null() {
        return Err(McpError::state(text::cat2(op_name, " failed: null result")));
    }
    match T::from_json(&j) {
        Ok(x) => Ok(x),
        Err(e) => Err(
            McpError::state(
                text::cat4(op_name, " failed: result type mismatch (", e.message(), ")"),
            ),
        ),
    }
}

/// A request that was cancelled while it was handled gets no result, whatever comes of
/// handling it; the other requests are not touched.
pub proof fn cancelled_gets_no_result<S>(
    s: SessionView<S>,
    id: JsonView,
    other: JsonView,
    result: JsonView,
    ctx_cancelled: bool,
)
    requires
        s.requests.dom().contains(id),
        other != id,
    ensures
        response_to(after_cancel(s, id), id, result, ctx_cancelled) is None,
        response_to(after_cancel(s, id), other, result, ctx_cancelled) == response_to(
            s,
            other,
            result,
            ctx_cancelled,
        ),
{
}

} // verus!
