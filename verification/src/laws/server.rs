//! What a server does in a session: how it is opened, which requests are handled, how they are
//! answered and cancelled, and what the server asks and tells on its own account.
use vstd::prelude::*;

use crate::error::McpError;
use crate::json::{Json, JsonView};
use crate::jsonrpc::{Message, Notification, Request, RequestId, Response, RpcError};
use crate::laws::forms;
use crate::laws::forms::{params as params_forms, session as session_forms};
use crate::laws::names;
use crate::protocol::message::{ErrorView, MessageView};
use crate::protocol::params::{CancelledNotificationParams, ProgressNotificationParams};
use crate::server::session::{
    Outbound, Outgoing, Reaction, ServerSession, SessionView,
};
use crate::server::session as server;
use crate::session::WaitOutcome;
use crate::transport::RequestContext;
use crate::types::capabilities::{ClientCapabilities, ServerCapabilities};
use crate::types::meta::ProgressToken;
use crate::types::sampling::CreateMessageParams;
use crate::types::session::InitializeRequestParams;
use crate::wire;
use crate::wire::{MetaMap, Real, Wire};

verus! {

/// The message answers the request with this result.
pub open spec fn answers(m: Message, id: JsonView, result: JsonView) -> bool {
    m@ == MessageView::Response { to: Some(id), result: Some(result), error: None }
}

/// The message tells that the request failed, with this number and in these words.
pub open spec fn refuses(m: Message, id: JsonView, code: int, message: Seq<char>) -> bool {
    m@ == MessageView::Response {
        to: Some(id),
        result: None,
        error: Some(ErrorView { code, message, data: None }),
    }
}

/// Until the session is open, every request but the one that opens it is refused, unless every
/// request stands for itself. After that it is handled where there is something to handle it,
/// and its circumstances are kept until it is answered.
pub proof fn request_is_handled_once_open<S, T>(
    s: &mut ServerSession<S, T>,
    q: Request,
    ctx: RequestContext<S>,
    has_handler: bool,
    r: Reaction,
)
    requires
        call_ensures(ServerSession::<S, T>::received_request, (s, q, ctx, has_handler), r),
        q.method@ != "initialize"@,
    ensures
        ({
            let id = q.id.wire();
            let open = old(s)@.stateless || old(s)@.initialized;
            &&& !open ==> r is Reply && refuses(
                r->Reply_0,
                id,
                -32600,
                "Received request before initialization: "@ + q.method@,
            ) && !final(s)@.requests.dom().contains(id)
            &&& open && has_handler ==> r == Reaction::Handle(q) && final(s)@.requests.dom().contains(id) && final(s)@.requests[id].is_cancelled
                == ctx.is_cancelled && final(s)@.requests[id].sink == ctx.sink && final(s)@.requests[id].connection_id == ctx.connection_id && final(s)@.requests[id].method@ == q.method@
            &&& open && !has_handler ==> r is Nothing && final(s)@ == old(s)@
            &&& final(s)@.initialized == old(s)@.initialized
            &&& final(s)@.client == old(s)@.client
            &&& final(s)@.capabilities == old(s)@.capabilities
            &&& final(s).awaited() == old(s).awaited()
        }),
{
    names::method_names();
}

/// The request that opens a session is answered with a version that is supported, the one that
/// the client asks for where it is one, with what the server can do, its name and its version.
/// The session is open from then on, and it is kept what the client offers.
pub proof fn session_is_opened<S, T>(
    s: &mut ServerSession<S, T>,
    q: Request,
    ctx: RequestContext<S>,
    has_handler: bool,
    r: Reaction,
)
    requires
        call_ensures(ServerSession::<S, T>::received_request, (s, q, ctx, has_handler), r),
        q.method@ == "initialize"@,
    ensures
        final(s)@.initialized,
        final(s)@.client is Some,
        final(s)@.capabilities == old(s)@.capabilities,
        final(s)@.name == old(s)@.name,
        final(s)@.stateless == old(s)@.stateless,
        !final(s)@.requests.dom().contains(q.id.wire()),
        ({
            let asked = server::version_asked(wire::opt(q.params));
            let gone = ctx.is_cancelled || (old(s)@.requests.dom().contains(q.id.wire()) && old(s)@.requests[q.id.wire()].is_cancelled);
            &&& gone ==> r is Nothing
            &&& !gone ==> {
                &&& r is Reply
                &&& r->Reply_0@ is Response
                &&& r->Reply_0@->to == Some(q.id.wire())
                &&& r->Reply_0@->error is None
                &&& r->Reply_0@->result matches Some(j) && {
                    &&& j.get("protocolVersion"@) == Some(
                        JsonView::String(
                            if asked == "2025-03-26"@ || asked == "2025-06-18"@ {
                                asked
                            } else {
                                "2025-06-18"@
                            },
                        ),
                    )
                    &&& j.get("capabilities"@) == Some(old(s)@.capabilities.wire())
                    &&& j.get("serverInfo"@) matches Some(i) && i.get("name"@) == Some(
                        JsonView::String(old(s)@.name),
                    ) && i.get("version"@) == Some(JsonView::String(old(s)@.version))
                }
            }
        }),
{
    broadcast use crate::wire::group_lookup;

    names::method_names();
    names::versions();
    let asked = server::version_asked(wire::opt(q.params));
    names::supported(asked);
    opening_names();
}

proof fn opening_names()
    ensures
        "protocolVersion"@.len() == 15,
        "capabilities"@.len() == 12,
        "serverInfo"@.len() == 10 && "serverInfo"@[0] == 's',
        "clientInfo"@.len() == 10 && "clientInfo"@[0] == 'c',
        "name"@.len() == 4,
        "version"@.len() == 7,
        "_meta"@.len() == 5,
{
    reveal_strlit("protocolVersion");
    reveal_strlit("capabilities");
    reveal_strlit("serverInfo");
    reveal_strlit("clientInfo");
    reveal_strlit("name");
    reveal_strlit("version");
    reveal_strlit("_meta");
}

/// The version that a client asks for is the one under `protocolVersion`, where its parameters
/// can be read, and the earlier of the two where it gives none or they cannot.
pub proof fn version_is_asked_for(params: Option<JsonView>)
    ensures
        ({
            let read = params is Some && params->0 is Object && InitializeRequestParams::canon(
                params->0,
            ) is Some;
            let given = params->0.get("protocolVersion"@);
            &&& read && given is Some ==> Some(
                JsonView::String(server::version_asked(params)),
            ) == given
            &&& !read || given is None ==> server::version_asked(params) == "2025-03-26"@
        }),
{
    broadcast use crate::wire::group_lookup;

    names::versions();
    opening_names();
    if params is Some && params->0 is Object {
        session_forms::initialize_request_params_read(params->0);
    }
}

/// What a client offers is read from under `capabilities`, where its parameters can be read,
/// and is nothing where they cannot.
pub proof fn offer_is_read(params: Option<JsonView>, c: ClientCapabilities)
    requires
        server::opening_offer(params, c),
        params is Some,
        params->0 is Object,
        InitializeRequestParams::canon(params->0) is Some,
        params->0.get("capabilities"@) is Some,
    ensures
        c.reads(params->0.get("capabilities"@)->0),
{
}

/// A server that is given resources never says that it tells of changes to one; whatever else
/// it is given it says.
pub proof fn capabilities_are_said<S, T>(s: &mut ServerSession<S, T>, c: ServerCapabilities)
    requires
        call_ensures(ServerSession::<S, T>::set_server_capabilities, (s, c), ()),
    ensures
        ({
            let said = final(s)@.capabilities;
            &&& said.tools == c.tools
            &&& said.prompts == c.prompts
            &&& said.logging == c.logging
            &&& said.experimental == c.experimental
            &&& said.resources is Some <==> c.resources is Some
            &&& said.resources is Some ==> said.resources->0.subscribe == Some(false)
                && said.resources->0.list_changed == c.resources->0.list_changed
        }),
        final(s)@.initialized == old(s)@.initialized,
        final(s)@.requests == old(s)@.requests,
{
}

/// A request that succeeded is answered with its result, once, unless it was cancelled; its
/// circumstances are forgotten either way.
pub proof fn success_is_answered<S, T>(
    s: &mut ServerSession<S, T>,
    id: RequestId,
    result: Json,
    ctx_cancelled: bool,
    r: Option<Message>,
)
    requires
        call_ensures(ServerSession::<S, T>::send_response, (s, id, result, ctx_cancelled), r),
    ensures
        ({
            let k = id.wire();
            let gone = ctx_cancelled || (old(s)@.requests.dom().contains(k)
                && old(s)@.requests[k].is_cancelled);
            &&& gone ==> r is None
            &&& !gone ==> r is Some && answers(r->0, k, result@)
            &&& !final(s)@.requests.dom().contains(k)
            &&& final(s)@ == (SessionView { requests: old(s)@.requests.remove(k), ..old(s)@ })
        }),
{
}

/// A request that failed is answered with its error, and its circumstances are forgotten.
pub proof fn failure_is_answered<S, T>(
    s: &mut ServerSession<S, T>,
    id: RequestId,
    e: RpcError,
    r: Message,
)
    requires
        call_ensures(ServerSession::<S, T>::send_error_response, (s, id, e), r),
    ensures
        r@ is Response,
        r@->to == Some(id.wire()),
        r@->result is None,
        r@->error matches Some(x) && x.code == e.code && x.message == e.message@ && x.data
            == wire::opt(e.data),
        !final(s)@.requests.dom().contains(id.wire()),
{
}

/// A client that tells that the session is open opens it. One that cancels a request which is
/// being handled marks it and is told so where the request came from. That its roots changed is
/// handed on to nobody, and every other notification to the one who handles them.
pub proof fn notification_is_taken<S, T>(
    s: &mut ServerSession<S, T>,
    n: Notification,
    has_handler: bool,
    r: Reaction,
)
    requires
        call_ensures(ServerSession::<S, T>::received_notification, (s, n, has_handler), r),
    ensures
        n.method@ == "notifications/initialized"@ ==> r is Nothing && final(s)@ == (SessionView {
            initialized: true,
            ..old(s)@
        }),
        n.method@ == "notifications/roots/list_changed"@ ==> r is Nothing && final(s)@ == old(s)@,
        n.method@ != "notifications/initialized"@ && n.method@ != "notifications/cancelled"@
            && n.method@ != "notifications/roots/list_changed"@ ==> final(s)@ == old(s)@ && r
            == if has_handler {
            Reaction::Notify(n)
        } else {
            Reaction::Nothing
        },
        n.method@ == "notifications/cancelled"@ ==> {
            let k = server::cancels(wire::opt(n.params));
            if k is Some && old(s)@.requests.dom().contains(k->0) {
                &&& r is ReplyTo
                &&& r->id.wire() == k->0
                &&& refuses(r->message, k->0, 0, "Request cancelled"@)
                &&& final(s)@.requests.dom().contains(k->0)
                &&& final(s)@.requests[k->0].is_cancelled
                &&& final(s)@.requests[k->0].sink == old(s)@.requests[k->0].sink
                &&& forall|o: JsonView|
                    o != k->0 ==> #[trigger] final(s)@.requests.dom().contains(o) == old(s)@.requests.dom().contains(o) && final(s)@.requests[o] == old(s)@.requests[o]
                &&& final(s)@.initialized == old(s)@.initialized
            } else {
                r is Nothing && final(s)@ == old(s)@
            }
        },
{
    names::method_names();
    names::notifications_apart();
}

/// The request that is cancelled is the one under `requestId`.
pub proof fn cancelled_request_is_read(j: JsonView)
    requires
        j is Object,
    ensures
        server::cancels(Some(j)) matches Some(k) ==> j.get("requestId"@) == Some(k),
        server::cancels(Some(j)) is None <==> CancelledNotificationParams::canon(j) is None,
        server::cancels(None) is None,
{
    params_forms::cancelled_notification_params_read(j);
    match j.get("requestId"@) {
        Some(v) => forms::values::identities(RequestId::Number(0), v),
        None => {},
    }
}

/// A response of the client reaches the one who waits for it, and nobody waits for it any more.
pub proof fn response_reaches_waiter<S, T>(
    s: &mut ServerSession<S, T>,
    response: Response,
    now: u64,
    r: Option<(T, Result<Json, RpcError>)>,
)
    requires
        call_ensures(ServerSession::<S, T>::handle_response, (s, response, now), r),
    ensures
        response.id is None ==> r is None,
        response.id matches Some(id) ==> {
            &&& r is Some <==> old(s).awaited().waiter_of(id.wire()) is Some
            &&& r is Some ==> old(s).awaited().waiter_of(id.wire()) == Some((r->0).0)
            &&& final(s).awaited().waiter_of(id.wire()) is None
        },
        r is Some ==> {
            &&& response.error matches Some(e) ==> (r->0).1 == Err::<Json, RpcError>(e)
            &&& response.error is None && response.result is Some ==> (r->0).1 == Ok::<
                Json,
                RpcError,
            >(response.result->0)
            &&& response.error is None && response.result is None ==> (r->0).1 is Ok
                && (r->0).1->Ok_0@ is Null
        },
        final(s)@ == old(s)@,
{
}

/// A request of the server is sent with the next number where there is a transport, and the one
/// who waits for its answer is found by that number. Without a transport nothing is sent.
pub proof fn request_is_sent<S, T>(
    s: &mut ServerSession<S, T>,
    method: String,
    params: Option<Json>,
    waiter: T,
    r: Result<(RequestId, Message), McpError>,
)
    requires
        call_ensures(ServerSession::<S, T>::send_request, (s, method, params, waiter), r),
    ensures
        r is Ok <==> old(s)@.transport,
        r matches Ok(m) ==> {
            &&& m.0 == RequestId::Number(old(s).awaited().next_number())
            &&& m.1@ == (MessageView::Request {
                id: m.0.wire(),
                method: method@,
                params: wire::opt(params),
            })
            &&& final(s).awaited().waiter_of(m.0.wire()) == Some(waiter)
        },
        r is Err ==> r->Err_0.told() == "Transport not set"@ && final(s).awaited() == old(s).awaited(),
        final(s)@ == old(s)@,
{
}

/// A request of the server ends as the wait for its answer ended.
pub proof fn wait_ends<S, T>(
    s: &mut ServerSession<S, T>,
    id: RequestId,
    outcome: WaitOutcome,
    timeout_ms: u64,
    now: u64,
    r: Result<Json, McpError>,
)
    requires
        call_ensures(ServerSession::<S, T>::settle, (s, &id, outcome, timeout_ms, now), r),
    ensures
        outcome matches WaitOutcome::Answered(Ok(v)) ==> r == Ok::<Json, McpError>(v),
        outcome matches WaitOutcome::Answered(Err(e)) ==> r == Err::<Json, McpError>(
            McpError::Rpc(e),
        ),
        outcome is TimedOut ==> r == Err::<Json, McpError>(McpError::Timeout(timeout_ms)),
        outcome is Dropped ==> r == Err::<Json, McpError>(McpError::Closed),
        !(outcome is Answered) ==> final(s).awaited().waiter_of(id.wire()) is None,
{
}

/// Where the transport is gone, everybody who waits is told so, and nobody waits any more.
pub proof fn lost_transport_is_told<S, T>(
    s: &mut ServerSession<S, T>,
    reason: &str,
    r: (std::collections::HashMap<i64, T>, RpcError),
    n: i64,
)
    requires
        call_ensures(ServerSession::<S, T>::on_disconnected, (s, reason), r),
    ensures
        r.0@ == old(s).awaited().waiting(),
        !final(s).awaited().waiting().dom().contains(n),
        r.1.code == -32603,
        r.1.message@ == "Transport disconnected: "@ + reason@,
{
}

/// The notification goes out on the stream that the client opened of its own, where there is a
/// transport.
pub open spec fn tells<S>(
    v: SessionView<S>,
    r: Option<Outbound<S>>,
    method: Seq<char>,
    params: JsonView,
) -> bool {
    &&& r is Some <==> v.transport
    &&& r is Some ==> {
        &&& r->0.message@ == MessageView::Notification { method, params: Some(params) }
        &&& r->0.ctx.session_id@ == v.id
        &&& r->0.ctx.is_get_stream
        &&& r->0.ctx.sink is None
    }
}

/// A client is told that a list changed by the name of that list.
pub proof fn changes_are_told<S, T>(
    s: ServerSession<S, T>,
    tools: Option<Outbound<S>>,
    prompts: Option<Outbound<S>>,
    resources: Option<Outbound<S>>,
)
    requires
        call_ensures(ServerSession::<S, T>::send_tool_list_changed_notification, (&s,), tools),
        call_ensures(ServerSession::<S, T>::send_prompt_list_changed_notification, (&s,), prompts),
        call_ensures(
            ServerSession::<S, T>::send_resource_list_changed_notification,
            (&s,),
            resources,
        ),
    ensures
        tells(s@, tools, "notifications/tools/list_changed"@, JsonView::Object(seq![])),
        tells(s@, prompts, "notifications/prompts/list_changed"@, JsonView::Object(seq![])),
        tells(s@, resources, "notifications/resources/list_changed"@, JsonView::Object(seq![])),
{
    names::method_names();
    assert(wire::none() =~= seq![]);
}

/// A client is told which resource changed by its place.
pub proof fn change_of_resource_is_told<S, T>(
    s: ServerSession<S, T>,
    uri: &str,
    r: Option<Outbound<S>>,
)
    requires
        call_ensures(ServerSession::<S, T>::send_resource_updated_notification, (&s, uri), r),
    ensures
        r is Some <==> s@.transport,
        r is Some ==> r->0.message@->Notification_method == "notifications/resources/updated"@
            && r->0.message@ is Notification && r->0.message@->Notification_params is Some
            && r->0.message@->Notification_params->0.get("uri"@) == Some(JsonView::String(uri@)),
{
    broadcast use crate::wire::group_lookup;

    names::method_names();
}

/// A line of the log is sent with its level, its logger and its data.
pub proof fn log_is_sent<S, T>(
    s: ServerSession<S, T>,
    level: &str,
    data: Json,
    logger: &str,
    r: Option<Outbound<S>>,
)
    requires
        call_ensures(ServerSession::<S, T>::send_log_message, (&s, level, data, logger), r),
    ensures
        r is Some <==> s@.transport,
        r is Some ==> r->0.message@ is Notification && r->0.message@->Notification_method
            == "notifications/message"@ && r->0.message@->Notification_params is Some && {
            let j = r->0.message@->Notification_params->0;
            &&& j.get("level"@) == Some(JsonView::String(level@))
            &&& j.get("logger"@) == Some(JsonView::String(logger@))
            &&& j.get("data"@) == Some(data@)
        },
{
    broadcast use crate::wire::group_lookup;

    names::method_names();
    reveal_strlit("level");
    reveal_strlit("logger");
    reveal_strlit("data");
    assert("level"@.len() == 5 && "logger"@.len() == 6 && "data"@.len() == 4);
}

/// The progress of a request is told by its token, how far it is, how far it goes and a word on
/// it.
pub proof fn progress_is_told<S, T>(
    s: ServerSession<S, T>,
    token: ProgressToken,
    progress: Real,
    total: Option<Real>,
    message: Option<String>,
    r: Option<Outbound<S>>,
)
    requires
        call_ensures(
            ServerSession::<S, T>::send_progress_notification,
            (&s, token, progress, total, message),
            r,
        ),
    ensures
        r is Some <==> s@.transport,
        r is Some ==> r->0.message@ is Notification && r->0.message@->Notification_method
            == "notifications/progress"@ && r->0.message@->Notification_params is Some && {
            let j = r->0.message@->Notification_params->0;
            &&& j.get("progressToken"@) == Some(token.wire())
            &&& j.get("progress"@) == Some(progress.wire())
            &&& j.get("total"@) == wire::opt(total)
            &&& j.get("message"@) == wire::opt(message)
        },
{
    names::method_names();
    params_forms::progress_notification_params_written(
        ProgressNotificationParams { progress_token: token, progress, total, message },
    );
}

/// Why the server may not ask the client: where every request stands for itself, and before the
/// session is open.
pub open spec fn may_not_ask<S>(v: SessionView<S>, method: Seq<char>) -> Option<Seq<char>> {
    if v.stateless {
        Some(method + " is not supported in stateless server mode"@)
    } else if !v.initialized {
        Some("Session is not initialized"@)
    } else {
        None
    }
}

/// The request says this.
pub open spec fn asks(o: Outgoing, method: Seq<char>, op_name: Seq<char>) -> bool {
    o.method@ == method && o.op_name@ == op_name && o.params is Some
}

/// The server asks for the roots of a client that offered them.
pub proof fn roots_are_asked_for<S, T>(s: ServerSession<S, T>, r: Result<Outgoing, McpError>)
    requires
        call_ensures(ServerSession::<S, T>::list_roots, (&s,), r),
    ensures
        ({
            let barred = may_not_ask(s@, "roots/list"@);
            let offered = s@.client is Some && s@.client->0.roots is Some;
            &&& r is Ok <==> barred is None && offered
            &&& r is Ok ==> asks(r->Ok_0, "roots/list"@, "ListRoots"@) && wire::opt(
                r->Ok_0.params,
            ) == Some(JsonView::Null)
            &&& r is Err ==> r->Err_0 is InvalidState && r->Err_0.told() == match barred {
                Some(m) => m,
                None => "Client does not support roots/list"@,
            }
        }),
{
    names::method_names();
}

/// The server asks for a message of a model of a client that offered it, with everything that
/// it wants to know of the model, and only for what the client offered.
pub proof fn model_is_asked<S, T>(
    s: ServerSession<S, T>,
    p: CreateMessageParams,
    r: Result<Outgoing, McpError>,
)
    requires
        call_ensures(ServerSession::<S, T>::sampling_create_message, (&s, &p), r),
    ensures
        ({
            let barred = may_not_ask(s@, "sampling/createMessage"@);
            let offered = s@.client is Some && s@.client->0.sampling is Some;
            let offer = s@.client->0.sampling->0;
            let wants = p.include_context matches Some(c) && (c@ == "thisServer"@ || c@
                == "allServers"@);
            let messages = crate::sampling_validation::fault_from(p.messages@, 0);
            let why = if barred is Some {
                barred
            } else if !offered {
                Some("Client does not support sampling/createMessage"@)
            } else if p.tools is Some && !offer.tools {
                Some(
                    "Tool-enabled sampling requested but client did not advertise sampling.tools capability"@,
                )
            } else if wants && !offer.context {
                Some("includeContext requires sampling.context capability"@)
            } else {
                messages
            };
            &&& r is Ok <==> why is None
            &&& r is Ok ==> asks(r->Ok_0, "sampling/createMessage"@, "SamplingCreateMessage"@)
                && wire::opt(r->Ok_0.params) == Some(p.wire())
            &&& r is Err ==> r->Err_0 is InvalidState && Some(r->Err_0.told()) == why
        }),
{
    names::method_names();
}

/// The server asks the user of a client by a form, with its words and the form.
pub proof fn user_is_asked_by_form<S, T>(
    s: ServerSession<S, T>,
    message: &str,
    form: MetaMap,
    r: Result<Outgoing, McpError>,
)
    requires
        call_ensures(ServerSession::<S, T>::elicit, (&s, message, form), r),
    ensures
        r is Ok <==> may_not_ask(s@, "elicitation/create"@) is None,
        r is Err ==> Some(r->Err_0.told()) == may_not_ask(s@, "elicitation/create"@),
        r is Ok ==> asks(r->Ok_0, "elicitation/create"@, "Elicit"@) && {
            let j = r->Ok_0.params->0@;
            &&& j.get("mode"@) == Some(JsonView::String("form"@))
            &&& j.get("message"@) == Some(JsonView::String(message@))
            &&& j.get("requestedSchema"@) == Some(form.wire())
        },
{
    broadcast use crate::wire::group_lookup;

    names::method_names();
    asking_names();
}

proof fn asking_names()
    ensures
        "mode"@.len() == 4,
        "message"@.len() == 7,
        "requestedSchema"@.len() == 15,
        "url"@.len() == 3,
        "elicitationId"@.len() == 13,
{
    reveal_strlit("mode");
    reveal_strlit("message");
    reveal_strlit("requestedSchema");
    reveal_strlit("url");
    reveal_strlit("elicitationId");
}

/// The server asks the user of a client by way of a page, with its words, the page and the
/// identity under which the user comes back.
pub proof fn user_is_asked_by_page<S, T>(
    s: ServerSession<S, T>,
    message: &str,
    url: &str,
    elicitation_id: &str,
    r: Result<Outgoing, McpError>,
)
    requires
        call_ensures(ServerSession::<S, T>::elicit_url, (&s, message, url, elicitation_id), r),
    ensures
        r is Ok <==> may_not_ask(s@, "elicitation/create"@) is None,
        r is Err ==> Some(r->Err_0.told()) == may_not_ask(s@, "elicitation/create"@),
        r is Ok ==> asks(r->Ok_0, "elicitation/create"@, "ElicitUrl"@) && {
            let j = r->Ok_0.params->0@;
            &&& j.get("mode"@) == Some(JsonView::String("url"@))
            &&& j.get("message"@) == Some(JsonView::String(message@))
            &&& j.get("url"@) == Some(JsonView::String(url@))
            &&& j.get("elicitationId"@) == Some(JsonView::String(elicitation_id@))
        },
{
    broadcast use crate::wire::group_lookup;

    names::method_names();
    asking_names();
}

/// The answer of a client is read as what it must be. A null result, one of another form and an
/// error of the client are told with the name of what was asked for.
pub proof fn answer_is_read<T: Wire>(
    op_name: &str,
    outcome: Result<Json, McpError>,
    r: Result<T, McpError>,
)
    requires
        call_ensures(server::read_answer::<T>, (op_name, outcome), r),
    ensures
        outcome matches Ok(j) ==> (r is Ok <==> !(j@ is Null) && T::canon(j@) is Some),
        outcome matches Ok(j) ==> (r is Ok ==> T::canon(j@) == Some(r->Ok_0.wire())),
        outcome matches Ok(j) ==> (r is Err ==> r->Err_0.told() == op_name@ + if j@ is Null {
            " failed: null result"@
        } else {
            " failed: result type mismatch ("@ + crate::wire::MALFORMED@ + ")"@
        }),
        outcome matches Err(McpError::Rpc(x)) ==> r is Err && r->Err_0.told() == op_name@
            + " failed: "@ + x.message@,
        outcome matches Err(e) ==> (!(e is Rpc) ==> r == Err::<T, McpError>(e)),
{
    assert(op_name@ + " failed: result type mismatch ("@ + crate::wire::MALFORMED@ + ")"@
        =~= op_name@ + (" failed: result type mismatch ("@ + crate::wire::MALFORMED@ + ")"@));
}

/// A new session is not open, holds no request and waits for nothing; the first request that
/// it sends has the number one.
pub proof fn session_starts<S, T>(
    has_transport: bool,
    name: String,
    version: String,
    id: String,
    stateless: bool,
    s: ServerSession<S, T>,
    k: JsonView,
)
    requires
        call_ensures(ServerSession::<S, T>::new, (has_transport, name, version, id, stateless), s),
    ensures
        s@.id == id@,
        s@.name == name@,
        s@.version == version@,
        s@.transport == has_transport,
        s@.stateless == stateless,
        !s@.initialized,
        s@.client is None,
        !s@.requests.dom().contains(k),
        s.awaited().next_number() == 1,
        s.awaited().waiter_of(k) is None,
{
}

} // verus!
