//! What a client asks of a server, what it makes of the answers, and what it answers itself.
use vstd::prelude::*;

use crate::client::session::{
    Callbacks, ClientHandlers, ClientSession, ClientStep, ClientView, Notice,
};
use crate::client::session as client;
use crate::error::McpError;
use crate::json::{Json, JsonView};
use crate::jsonrpc::{Message, Notification, Request, RequestId, Response, RpcError};
use crate::laws::forms;
use crate::laws::forms::{kinds, params as params_forms};
use crate::laws::names;
use crate::protocol::message::{ErrorView, MessageView};
use crate::protocol::params::{
    CompleteRequestParams, ElicitParams, LoggingMessageNotificationParams,
    ProgressNotificationParams,
};
use crate::protocol::progress;
use crate::schema;
use crate::session::WaitOutcome;
use crate::types::capabilities::SamplingCapability;
use crate::types::completion::{CompleteReference, CompletionArgument, CompletionContext};
use crate::types::logging::LoggingLevel;
use crate::types::meta::ProgressToken;
use crate::types::sampling::{CreateMessageParams, CreateMessageResult};
use crate::types::session::{ElicitResult, InitializeResult, ListRootsResult};
use crate::types::tools::{CallToolResult, Tool};
use crate::wire;
use crate::wire::{Real, Wire};

verus! {

/// A request for this method is sent. Its number is the next one, and from then on the one who
/// waits for its answer is found by that number; nothing else of the session changes.
pub open spec fn sends<H: ClientHandlers, T, P>(
    before: ClientSession<H, T, P>,
    after: ClientSession<H, T, P>,
    sent: (RequestId, Message),
    method: Seq<char>,
    waiter: T,
) -> bool {
    &&& sent.0 == RequestId::Number(before.awaited().next_number())
    &&& sent.1@ is Request
    &&& sent.1@->Request_id == sent.0.wire()
    &&& sent.1@->Request_method == method
    &&& after.awaited().waiter_of(sent.0.wire()) == Some(waiter)
    &&& after@ == before@
}

/// The member of the parameters that are sent.
pub open spec fn param(sent: (RequestId, Message), k: Seq<char>) -> Option<JsonView> {
    match sent.1@->Request_params {
        Some(j) => j.get(k),
        None => None,
    }
}

/// A ping is sent without parameters.
pub proof fn asks_for_life<H: ClientHandlers, T, P>(
    s: &mut ClientSession<H, T, P>,
    waiter: T,
    r: (RequestId, Message),
)
    requires
        call_ensures(ClientSession::<H, T, P>::send_ping, (s, waiter), r),
    ensures
        sends(*old(s), *final(s), r, "ping"@, waiter),
        r.1@->Request_params is None,
{
    broadcast use crate::wire::group_lookup;

    names::method_names();
}

/// The tools are asked for, from the cursor on where there is one.
pub proof fn asks_for_tools<H: ClientHandlers, T, P>(
    s: &mut ClientSession<H, T, P>,
    cursor: Option<String>,
    waiter: T,
    r: (RequestId, Message),
)
    requires
        call_ensures(ClientSession::<H, T, P>::list_tools, (s, cursor, waiter), r),
    ensures
        sends(*old(s), *final(s), r, "tools/list"@, waiter),
        param(r, "cursor"@) == wire::opt(cursor),
        cursor is None ==> r.1@->Request_params == Some(JsonView::Null),
{
    broadcast use crate::wire::group_lookup;

    names::method_names();
}

/// The resources are asked for, from the cursor on where there is one.
pub proof fn asks_for_resources<H: ClientHandlers, T, P>(
    s: &mut ClientSession<H, T, P>,
    cursor: Option<String>,
    waiter: T,
    r: (RequestId, Message),
)
    requires
        call_ensures(ClientSession::<H, T, P>::list_resources, (s, cursor, waiter), r),
    ensures
        sends(*old(s), *final(s), r, "resources/list"@, waiter),
        param(r, "cursor"@) == wire::opt(cursor),
        cursor is None ==> r.1@->Request_params == Some(JsonView::Null),
{
    broadcast use crate::wire::group_lookup;

    names::method_names();
}

/// The prompts are asked for.
pub proof fn asks_for_prompts<H: ClientHandlers, T, P>(
    s: &mut ClientSession<H, T, P>,
    waiter: T,
    r: (RequestId, Message),
)
    requires
        call_ensures(ClientSession::<H, T, P>::list_prompts, (s, waiter), r),
    ensures
        sends(*old(s), *final(s), r, "prompts/list"@, waiter),
        r.1@->Request_params == Some(JsonView::Null),
{
    broadcast use crate::wire::group_lookup;

    names::method_names();
}

/// The templates of resources are asked for.
pub proof fn asks_for_templates<H: ClientHandlers, T, P>(
    s: &mut ClientSession<H, T, P>,
    waiter: T,
    r: (RequestId, Message),
)
    requires
        call_ensures(ClientSession::<H, T, P>::list_resource_templates, (s, waiter), r),
    ensures
        sends(*old(s), *final(s), r, "resources/templates/list"@, waiter),
        r.1@->Request_params == Some(JsonView::Null),
{
    broadcast use crate::wire::group_lookup;

    names::method_names();
}

/// A prompt is asked for by its name, with the arguments that are given.
pub proof fn asks_for_prompt<H: ClientHandlers, T, P>(
    s: &mut ClientSession<H, T, P>,
    name: &str,
    arguments: Option<Json>,
    waiter: T,
    r: (RequestId, Message),
)
    requires
        call_ensures(ClientSession::<H, T, P>::get_prompt, (s, name, &arguments, waiter), r),
    ensures
        sends(*old(s), *final(s), r, "prompts/get"@, waiter),
        param(r, "name"@) == Some(JsonView::String(name@)),
        param(r, "arguments"@) == wire::opt(arguments),
{
    broadcast use crate::wire::group_lookup;

    names::method_names();
    call_names();
}

/// A resource is asked for by its place.
pub proof fn asks_for_resource<H: ClientHandlers, T, P>(
    s: &mut ClientSession<H, T, P>,
    uri: &str,
    waiter: T,
    r: (RequestId, Message),
)
    requires
        call_ensures(ClientSession::<H, T, P>::read_resource, (s, uri, waiter), r),
    ensures
        sends(*old(s), *final(s), r, "resources/read"@, waiter),
        param(r, "uri"@) == Some(JsonView::String(uri@)),
{
    broadcast use crate::wire::group_lookup;

    names::method_names();
}

/// Changes to a resource are asked for by its place.
pub proof fn asks_to_hear<H: ClientHandlers, T, P>(
    s: &mut ClientSession<H, T, P>,
    uri: &str,
    waiter: T,
    r: (RequestId, Message),
)
    requires
        call_ensures(ClientSession::<H, T, P>::subscribe_resource, (s, uri, waiter), r),
    ensures
        sends(*old(s), *final(s), r, "resources/subscribe"@, waiter),
        param(r, "uri"@) == Some(JsonView::String(uri@)),
{
    broadcast use crate::wire::group_lookup;

    names::method_names();
}

/// Changes to a resource are asked for no more, by its place.
pub proof fn asks_to_hear_no_more<H: ClientHandlers, T, P>(
    s: &mut ClientSession<H, T, P>,
    uri: &str,
    waiter: T,
    r: (RequestId, Message),
)
    requires
        call_ensures(ClientSession::<H, T, P>::unsubscribe_resource, (s, uri, waiter), r),
    ensures
        sends(*old(s), *final(s), r, "resources/unsubscribe"@, waiter),
        param(r, "uri"@) == Some(JsonView::String(uri@)),
{
    broadcast use crate::wire::group_lookup;

    names::method_names();
}

/// The level of the log is set by its name.
pub proof fn asks_for_level<H: ClientHandlers, T, P>(
    s: &mut ClientSession<H, T, P>,
    level: LoggingLevel,
    waiter: T,
    r: (RequestId, Message),
)
    requires
        call_ensures(ClientSession::<H, T, P>::set_logging_level, (s, level, waiter), r),
    ensures
        sends(*old(s), *final(s), r, "logging/setLevel"@, waiter),
        param(r, "level"@) == Some(level.wire()),
{
    broadcast use crate::wire::group_lookup;

    names::method_names();
}

/// A completion is asked for by what it is for, the argument, and what goes with it.
pub proof fn asks_for_completion<H: ClientHandlers, T, P>(
    s: &mut ClientSession<H, T, P>,
    reference: CompleteReference,
    argument: CompletionArgument,
    context: Option<CompletionContext>,
    waiter: T,
    r: (RequestId, Message),
)
    requires
        call_ensures(ClientSession::<H, T, P>::complete, (s, reference, argument, context, waiter), r),
    ensures
        sends(*old(s), *final(s), r, "completion/complete"@, waiter),
        param(r, "ref"@) == Some(reference.wire()),
        param(r, "argument"@) == Some(argument.wire()),
        param(r, "context"@) == wire::opt(context),
{
    broadcast use crate::wire::group_lookup;

    names::method_names();
    params_forms::complete_request_params_written(
        CompleteRequestParams { reference, argument, context },
    );
}

proof fn call_names()
    ensures
        "name"@.len() == 4,
        "arguments"@.len() == 9,
        "_meta"@.len() == 5,
{
    reveal_strlit("name");
    reveal_strlit("arguments");
    reveal_strlit("_meta");
}

/// A tool is called by its name, with the arguments that are given. Where the caller wants to
/// hear of its progress, the number of the request is the token by which progress is told.
pub proof fn calls_tool<H: ClientHandlers, T, P>(
    s: &mut ClientSession<H, T, P>,
    name: &str,
    arguments: Option<Json>,
    waiter: T,
    progress: Option<P>,
    r: (RequestId, Message),
    now: u64,
)
    requires
        call_ensures(
            ClientSession::<H, T, P>::call_tool,
            (s, name, &arguments, waiter, progress),
            r,
        ),
    ensures
        sends(*old(s), *final(s), r, "tools/call"@, waiter),
        param(r, "name"@) == Some(JsonView::String(name@)),
        param(r, "arguments"@) == wire::opt(arguments),
        progress is None ==> param(r, "_meta"@) is None,
        progress matches Some(p) ==> {
            &&& param(r, "_meta"@) matches Some(m) && m.get("progressToken"@) == Some(r.0.wire())
            &&& final(s).awaited().told_of(r.0.wire(), now) == Some(p)
        },
{
    broadcast use crate::wire::group_lookup;

    names::method_names();
    call_names();
    let params = client::named(name@, wire::opt(arguments));
    if progress is Some {
        let o = progress::members_or_none(Some(params));
        let inner = progress::members_or_none(crate::json::lookup(o, "_meta"@));
        let meta = crate::json::put_member(inner, "progressToken"@, r.0.wire());
        crate::json::lookup_put_member(inner, "progressToken"@, r.0.wire(), "progressToken"@);
        crate::json::lookup_put_member(o, "_meta"@, JsonView::Object(meta), "_meta"@);
        crate::json::lookup_put_member(o, "_meta"@, JsonView::Object(meta), "name"@);
        crate::json::lookup_put_member(o, "_meta"@, JsonView::Object(meta), "arguments"@);
    }
}

/// A session is opened with the latest version of the protocol, the name and the version of the
/// client, or the default ones where they are empty, and with what the client offers.
pub proof fn opens_session<H: ClientHandlers, T, P>(
    s: &mut ClientSession<H, T, P>,
    waiter: T,
    r: (RequestId, Message),
)
    requires
        call_ensures(ClientSession::<H, T, P>::initialize, (s, waiter), r),
    ensures
        sends(*old(s), *final(s), r, "initialize"@, waiter),
        param(r, "protocolVersion"@) == Some(JsonView::String("2025-06-18"@)),
        param(r, "capabilities"@) == Some(client::offered(old(s)@.callbacks).wire()),
        param(r, "clientInfo"@) matches Some(i) && i.get("name"@) == Some(
            JsonView::String(
                if old(s)@.name.len() > 0 {
                    old(s)@.name
                } else {
                    "MCP Client"@
                },
            ),
        ) && i.get("version"@) == Some(
            JsonView::String(
                if old(s)@.version.len() > 0 {
                    old(s)@.version
                } else {
                    "1.0.0"@
                },
            ),
        ),
{
    broadcast use crate::wire::group_lookup;

    names::method_names();
    names::versions();
    reveal_strlit("protocolVersion");
    reveal_strlit("capabilities");
    reveal_strlit("clientInfo");
    reveal_strlit("name");
    reveal_strlit("version");
    assert("protocolVersion"@.len() == 15 && "capabilities"@.len() == 12 && "clientInfo"@.len()
        == 10);
    assert("name"@.len() == 4 && "version"@.len() == 7);
}

/// A client offers exactly that for which it has something: asking its model, as far as it
/// said it can, asking its user by a form and by way of a page, and its roots, of whose changes
/// it tells.
pub proof fn offers_what_it_has<H: ClientHandlers>(c: Callbacks<H>)
    ensures
        ({
            let o = client::offered(c);
            &&& o.sampling == match c.sampling {
                Some(x) => Some(x.1),
                None => None,
            }
            &&& o.roots is Some <==> c.list_roots is Some
            &&& o.roots is Some ==> o.roots->0.list_changed
            &&& o.elicitation is Some <==> c.elicit is Some || c.elicit_url is Some
            &&& o.elicitation is Some ==> (o.elicitation->0.form is Some <==> c.elicit is Some)
            &&& o.elicitation is Some ==> (o.elicitation->0.url is Some <==> c.elicit_url is Some)
            &&& o.tasks is None
            &&& o.experimental is None
        }),
{
}

/// The answer to the opening of a session is taken exactly if its version is one of the two
/// that are supported. What the server says it can do is then kept; otherwise nothing changes.
pub proof fn opening_is_answered<H: ClientHandlers, T, P>(
    s: &mut ClientSession<H, T, P>,
    answer: InitializeResult,
    r: Result<InitializeResult, McpError>,
)
    requires
        call_ensures(ClientSession::<H, T, P>::initialize_answered, (s, answer), r),
    ensures
        r is Ok <==> answer.protocol_version@ == "2025-03-26"@ || answer.protocol_version@
            == "2025-06-18"@,
        r is Ok ==> r->Ok_0 == answer && final(s)@.server is Some && final(s)@.server->0.wire()
            == answer.capabilities.wire(),
        r is Err ==> final(s)@ == old(s)@ && r->Err_0.told()
            == "Unsupported protocol version from the server: "@ + answer.protocol_version@,
        final(s)@.initialized == old(s)@.initialized,
        final(s)@.callbacks == old(s)@.callbacks,
        final(s)@.schemas == old(s)@.schemas,
        final(s).awaited() == old(s).awaited(),
{
    names::supported(answer.protocol_version@);
}

/// A session counts as open once the server was told so, and only then.
pub proof fn session_is_open<H: ClientHandlers, T, P>(
    s: &mut ClientSession<H, T, P>,
    o: ClientSession<H, T, P>,
    r: bool,
)
    requires
        call_ensures(ClientSession::<H, T, P>::initialized_sent, (s,), ()),
        call_ensures(ClientSession::<H, T, P>::is_initialized, (&o,), r),
    ensures
        final(s)@.initialized,
        final(s)@ == (ClientView { initialized: true, ..old(s)@ }),
        r == o@.initialized,
{
}

/// The server is told that the session is open and that the roots changed by notifications with
/// these names and an object without members.
pub proof fn tells_server<H: ClientHandlers, T, P>(
    s: ClientSession<H, T, P>,
    open: Message,
    roots: Message,
)
    requires
        call_ensures(ClientSession::<H, T, P>::send_initialized_notification, (&s,), open),
        call_ensures(ClientSession::<H, T, P>::send_roots_list_changed, (&s,), roots),
    ensures
        open@ == (MessageView::Notification {
            method: "notifications/initialized"@,
            params: Some(JsonView::Object(seq![])),
        }),
        roots@ == (MessageView::Notification {
            method: "notifications/roots/list_changed"@,
            params: Some(JsonView::Object(seq![])),
        }),
{
    names::method_names();
    assert(wire::none() =~= seq![]);
}

/// The server is told of the progress of its request by the token of the request, how far it
/// is, how far it goes and a word on it.
pub proof fn tells_progress<H: ClientHandlers, T, P>(
    s: ClientSession<H, T, P>,
    token: ProgressToken,
    progress: Real,
    total: Option<Real>,
    message: Option<String>,
    m: Message,
)
    requires
        call_ensures(
            ClientSession::<H, T, P>::send_progress_notification,
            (&s, token, progress, total, message),
            m,
        ),
    ensures
        m@ is Notification,
        m@->Notification_method == "notifications/progress"@,
        m@->Notification_params matches Some(j) && j.get("progressToken"@) == Some(token.wire())
            && j.get("progress"@) == Some(progress.wire()) && j.get("total"@) == wire::opt(total)
            && j.get("message"@) == wire::opt(message),
{
    names::method_names();
    params_forms::progress_notification_params_written(
        ProgressNotificationParams { progress_token: token, progress, total, message },
    );
}

/// A request ends as the wait for its answer ended: with the result or the error of the
/// answer, with the time after which it was given up, or with the closing of the connection.
/// Where no answer came it waits no longer.
pub proof fn wait_ends<H: ClientHandlers, T, P>(
    s: &mut ClientSession<H, T, P>,
    id: RequestId,
    outcome: WaitOutcome,
    timeout_ms: u64,
    now: u64,
    r: Result<Json, McpError>,
)
    requires
        call_ensures(ClientSession::<H, T, P>::settle, (s, &id, outcome, timeout_ms, now), r),
    ensures
        outcome matches WaitOutcome::Answered(Ok(v)) ==> r == Ok::<Json, McpError>(v),
        outcome matches WaitOutcome::Answered(Err(e)) ==> r == Err::<Json, McpError>(
            McpError::Rpc(e),
        ),
        outcome is TimedOut ==> r == Err::<Json, McpError>(McpError::Timeout(timeout_ms)),
        outcome is Dropped ==> r == Err::<Json, McpError>(McpError::Closed),
        !(outcome is Answered) ==> final(s).awaited().waiter_of(id.wire()) is None,
        final(s)@ == old(s)@,
{
}

/// A response reaches the one who waits for it, with its result, null where it has none, or
/// with its error, and nobody waits for it any more. A response to nobody reaches nobody.
pub proof fn response_reaches_waiter<H: ClientHandlers, T, P>(
    s: &mut ClientSession<H, T, P>,
    response: Response,
    now: u64,
    r: Option<(T, Result<Json, RpcError>)>,
)
    requires
        call_ensures(ClientSession::<H, T, P>::handle_response, (s, response, now), r),
    ensures
        response.id is None ==> r is None,
        response.id matches Some(id) ==> {
            &&& r is Some <==> old(s).awaited().waiter_of(id.wire()) is Some
            &&& r is Some ==> old(s).awaited().waiter_of(id.wire()) == Some((r->0).0)
            &&& final(s).awaited().waiter_of(id.wire()) is None
        },
        r is Some ==> {
            &&& response.error matches Some(e) ==> (r->0).1 == Err::<Json, RpcError>(e)
            &&& response.error is None && response.result is Some ==> (r->0).1 == Ok::<
                Json,
                RpcError,
            >(response.result->0)
            &&& response.error is None && response.result is None ==> (r->0).1 is Ok
                && (r->0).1->Ok_0@ is Null
        },
        final(s)@ == old(s)@,
{
}

/// Where the transport is gone, everybody who waits is told so, and nobody waits any more.
pub proof fn lost_transport_is_told<H: ClientHandlers, T, P>(
    s: &mut ClientSession<H, T, P>,
    reason: &str,
    r: (std::collections::HashMap<i64, T>, RpcError),
    n: i64,
)
    requires
        call_ensures(ClientSession::<H, T, P>::on_disconnected, (s, reason), r),
    ensures
        r.0@ == old(s).awaited().waiting(),
        !final(s).awaited().waiting().dom().contains(n),
        r.1.code == -32603,
        r.1.message@ == "Transport disconnected: "@ + reason@,
{
}

/// A result is read as what it must be, and otherwise the fault is told with the method that
/// was asked for. The failure of the request stays what it was.
pub proof fn result_is_read<T: Wire>(
    method: &str,
    outcome: Result<Json, McpError>,
    r: Result<T, McpError>,
)
    requires
        call_ensures(client::read_result::<T>, (method, outcome), r),
    ensures
        outcome matches Ok(j) ==> (r is Ok <==> T::canon(j@) is Some),
        outcome matches Ok(j) ==> (r is Ok ==> T::canon(j@) == Some(r->Ok_0.wire())),
        outcome is Ok && r is Err ==> r->Err_0.told() == "Result type mismatch for "@ + method@
            + ": "@ + crate::wire::MALFORMED@,
        outcome matches Err(e) ==> r == Err::<T, McpError>(e),
{
}

/// The answer to a call of a tool is waited for as long as is said, and for half a minute
/// where nothing is said.
pub proof fn call_waits(given: u64, r: u64)
    requires
        call_ensures(client::call_timeout, (given,), r),
    ensures
        given > 0 ==> r == given,
        given == 0 ==> r == 30_000,
{
}

/// What was listed last of a tool that says what its results meet is what its results are held
/// against; tools that say nothing change nothing.
pub proof fn listed_tools_are_noted(m: Map<Seq<char>, JsonView>, tools: Seq<Tool>, n: int, k: Seq<char>)
    requires
        0 <= n < tools.len(),
    ensures
        ({
            let before = client::schemas_after(m, tools, n);
            let after = client::schemas_after(m, tools, n + 1);
            &&& tools[n].output_schema matches Some(x) ==> after.dom().contains(tools[n].name@)
                && after[tools[n].name@] == x@
            &&& tools[n].output_schema is None ==> after == before
            &&& k != tools[n].name@ ==> after.dom().contains(k) == before.dom().contains(k)
                && after[k] == before[k]
        }),
        client::schemas_after(m, tools, 0) == m,
{
}

/// The result of a tool is handed on as it stands, unless it is known what its results meet
/// and the structured content of a success does not.
pub proof fn result_is_held_to_schema<H: ClientHandlers, T, P>(
    s: ClientSession<H, T, P>,
    name: &str,
    result: CallToolResult,
    r: Result<CallToolResult, McpError>,
)
    requires
        call_ensures(ClientSession::<H, T, P>::call_tool_answered, (&s, name, result), r),
    ensures
        ({
            let head = "Invalid structured content for tool "@ + name@ + ": "@;
            let c = result.structured_content->0@;
            let asked = s@.schemas[name@]@;
            if result.is_error || result.structured_content is None || !s@.schemas.dom().contains(
                name@,
            ) {
                r == Ok::<CallToolResult, McpError>(result)
            } else if !(c is Object) {
                r is Err && r->Err_0 is Validation && r->Err_0.told() == head
                    + "structuredContent must be a JSON object"@
            } else if !schema::valid(asked, c) {
                r is Err && r->Err_0 is Validation && r->Err_0.told() == head + schema::fault(
                    asked,
                    c,
                    ""@,
                )->0
            } else {
                r == Ok::<CallToolResult, McpError>(result)
            }
        }),
{
    schema::no_fault_is_valid(s@.schemas[name@]@, result.structured_content->0@, ""@);
}

/// The message answers the request with this result.
pub open spec fn answers(m: Message, id: RequestId, result: JsonView) -> bool {
    m@ == MessageView::Response { to: Some(id.wire()), result: Some(result), error: None }
}

/// The message tells that the request failed, with this number and in these words.
pub open spec fn refuses(m: Message, id: RequestId, code: int, message: Seq<char>) -> bool {
    m@ == MessageView::Response {
        to: Some(id.wire()),
        result: None,
        error: Some(ErrorView { code, message, data: None }),
    }
}

/// The server is answered with the roots, with what the user said and with the message of the
/// model, or told why not: a model that the user would not ask is told as refused.
pub proof fn server_is_answered(
    id: RequestId,
    roots: Result<ListRootsResult, McpError>,
    said: Result<ElicitResult, McpError>,
    made: Result<Option<CreateMessageResult>, McpError>,
    a: Message,
    b: Message,
    c: Message,
)
    requires
        call_ensures(client::answer_roots, (&id, roots), a),
        call_ensures(client::answer_elicit, (&id, said), b),
        call_ensures(client::answer_sampling, (&id, made), c),
    ensures
        roots matches Ok(x) ==> answers(a, id, x.wire()),
        roots matches Err(e) ==> refuses(a, id, -32603, e.told()),
        said matches Ok(x) ==> answers(b, id, x.wire()),
        said matches Err(e) ==> refuses(b, id, -32603, e.told()),
        made matches Ok(Some(x)) ==> answers(c, id, x.wire()),
        made matches Ok(None) ==> refuses(c, id, -1, "User rejected sampling request"@),
        made matches Err(e) ==> refuses(c, id, -32603, e.told()),
{
}

/// The request is told that its method is not there.
pub open spec fn not_there<H: ClientHandlers>(d: ClientStep<'_, H>, q: Request) -> bool {
    d matches ClientStep::Reply(m) && refuses(
        m,
        q.id,
        -32601,
        "Method not found: "@ + q.method@,
    )
}

/// A server that asks for the roots makes that run which the client has for it. A method that
/// the client does not know, or has nothing for, is told as not there.
pub proof fn server_asks<H: ClientHandlers, T, P>(
    s: ClientSession<H, T, P>,
    q: Request,
    d: ClientStep<'_, H>,
)
    requires
        call_ensures(ClientSession::<H, T, P>::received_request, (&s, &q), d),
    ensures
        q.method@ == "roots/list"@ && s@.callbacks.list_roots is Some ==> d is ListRoots
            && s@.callbacks.list_roots == Some(*d->ListRoots_0),
        q.method@ == "roots/list"@ && s@.callbacks.list_roots is None ==> not_there(d, q),
        q.method@ != "roots/list"@ && q.method@ != "elicitation/create"@ && q.method@
            != "sampling/createMessage"@ ==> not_there(d, q),
        d is ListRoots ==> q.method@ == "roots/list"@,
        d is Elicit || d is ElicitUrl ==> q.method@ == "elicitation/create"@,
        d is Sample ==> q.method@ == "sampling/createMessage"@,
{
    names::method_names();
    names::requests_apart();
}

/// A server that asks the user by a form or by way of a page makes that run which the client
/// has for that way, with the words, the form, the page and the identity that it gave.
pub proof fn server_asks_user<H: ClientHandlers, T, P>(
    s: ClientSession<H, T, P>,
    q: Request,
    d: ClientStep<'_, H>,
)
    requires
        call_ensures(ClientSession::<H, T, P>::received_request, (&s, &q), d),
        q.method@ == "elicitation/create"@,
        q.params is Some,
        q.params->0@ is Object,
    ensures
        ({
            let j = q.params->0@;
            let c = s@.callbacks;
            let read = ElicitParams::canon(j) is Some;
            &&& !read ==> d is Reply && refuses(
                d->Reply_0,
                q.id,
                -32602,
                "Invalid params for elicitation/create: "@ + crate::wire::MALFORMED@,
            )
            &&& read && j.get("mode"@) == Some(JsonView::String("form"@)) ==> {
                &&& c.elicit is None ==> not_there(d, q)
                &&& c.elicit is Some ==> d is Elicit && c.elicit == Some(*d->Elicit_handler)
                    && j.get("message"@) == Some(JsonView::String(d->Elicit_message@)) && j.get(
                    "requestedSchema"@,
                ) == Some(d->requested_schema.wire())
            }
            &&& read && j.get("mode"@) == Some(JsonView::String("url"@)) ==> {
                &&& c.elicit_url is None ==> not_there(d, q)
                &&& c.elicit_url is Some ==> d is ElicitUrl && c.elicit_url == Some(
                    *d->ElicitUrl_handler,
                ) && j.get("message"@) == Some(JsonView::String(d->ElicitUrl_message@)) && j.get(
                    "url"@,
                ) == Some(JsonView::String(d->url@)) && j.get("elicitationId"@) == Some(
                    JsonView::String(d->elicitation_id@),
                )
            }
        }),
{
    names::method_names();
    names::requests_apart();
    reveal_strlit("form");
    reveal_strlit("url");
    assert("form"@.len() == 4 && "url"@.len() == 3);
    let j = q.params->0@;
    kinds::elicit_params_read(j);
    match d {
        ClientStep::Elicit { handler, message, requested_schema } => {
            kinds::elicit_params_written(ElicitParams::Form { message, requested_schema });
        },
        ClientStep::ElicitUrl { handler, message, url, elicitation_id } => {
            kinds::elicit_params_written(ElicitParams::Url { message, url, elicitation_id });
        },
        _ => {},
    }
}

/// A server that asks for a message of a model makes that run which the client has for it, with
/// the parameters that it gave, unless it asks for more than the client offered or for messages
/// that do not fit together.
pub proof fn server_asks_model<H: ClientHandlers, T, P>(
    s: ClientSession<H, T, P>,
    q: Request,
    d: ClientStep<'_, H>,
)
    requires
        call_ensures(ClientSession::<H, T, P>::received_request, (&s, &q), d),
        q.method@ == "sampling/createMessage"@,
    ensures
        ({
            let c = s@.callbacks;
            let j = wire::opt(q.params);
            let read = j is Some && j->0 is Object && CreateMessageParams::canon(j->0) is Some;
            &&& c.sampling is None ==> not_there(d, q)
            &&& c.sampling is Some && !read ==> d is Reply && refuses(
                d->Reply_0,
                q.id,
                -32602,
                "Invalid params for sampling/createMessage"@,
            )
            &&& c.sampling is Some && read ==> d is Sample || d is Reply
            &&& d is Sample ==> c.sampling is Some && (c.sampling->0).0 == *d->Sample_handler
                && read && CreateMessageParams::canon(j->0) == Some(d->params.wire())
                && client::sampling_refused((c.sampling->0).1, d->params) is None
        }),
{
    names::method_names();
    names::requests_apart();
}

/// A request for a message of a model is refused that has tools where the client did not offer
/// them, that wants context of servers where it did not offer that, or whose messages do not fit
/// together; and every other is taken.
pub proof fn model_is_asked_as_offered(offer: SamplingCapability, p: CreateMessageParams)
    ensures
        ({
            let why = client::sampling_refused(offer, p);
            let wants = p.include_context matches Some(c) && (c@ == "thisServer"@ || c@
                == "allServers"@);
            let messages = crate::sampling_validation::fault_from(p.messages@, 0);
            &&& p.tools is Some && !offer.tools ==> why == Some(
                "Tool-enabled sampling request received but client did not advertise sampling.tools capability"@,
            )
            &&& !(p.tools is Some && !offer.tools) && wants && !offer.context ==> why == Some(
                "includeContext requires sampling.context capability"@,
            )
            &&& !(p.tools is Some && !offer.tools) && !(wants && !offer.context) ==> why == messages
        }),
{
}

/// A line of the log of the server is handed on with its level, its logger and its data.
pub proof fn log_is_handed_on<H: ClientHandlers, T, P>(
    s: ClientSession<H, T, P>,
    n: Notification,
    now: u64,
    r: Notice<'_, H, P>,
)
    requires
        call_ensures(ClientSession::<H, T, P>::received_notification, (&s, &n, now), r),
        n.method@ == "notifications/message"@,
        n.params is Some,
        n.params->0@ is Object,
    ensures
        ({
            let j = n.params->0@;
            &&& r is Log <==> LoggingMessageNotificationParams::canon(j) is Some
            &&& !(r is Log) ==> r is Nothing
            &&& r is Log ==> {
                &&& j.get("level"@) matches Some(v) ==> v == JsonView::String(r->level@)
                &&& j.get("logger"@) matches Some(v) ==> v == JsonView::String(r->logger@)
                &&& j.get("data"@) matches Some(v) ==> v == r->data@
                &&& r->handler is Some <==> s@.callbacks.logging is Some
                &&& r->handler is Some ==> s@.callbacks.logging == Some(*r->handler->0)
            }
        }),
{
    names::method_names();
    names::notifications_apart();
    let j = n.params->0@;
    params_forms::logging_message_notification_params_read(j);
    match r {
        Notice::Log { handler, level, data, logger } => {
            params_forms::logging_message_notification_params_written(
                LoggingMessageNotificationParams { level, logger, data },
            );
        },
        _ => {},
    }
}

/// Progress is told to the one who listens to the request that the token stands for, with how
/// far it is, how far it goes and the word on it; other notifications are told to nobody.
pub proof fn progress_is_handed_on<H: ClientHandlers, T, P>(
    s: ClientSession<H, T, P>,
    n: Notification,
    now: u64,
    r: Notice<'_, H, P>,
)
    requires
        call_ensures(ClientSession::<H, T, P>::received_notification, (&s, &n, now), r),
    ensures
        r is Progress ==> n.method@ == "notifications/progress"@,
        r is Log ==> n.method@ == "notifications/message"@,
        n.method@ == "notifications/progress"@ && n.params is Some && n.params->0@ is Object
            && r is Progress ==> {
            let j = n.params->0@;
            &&& j.get("progress"@) is Some ==> forms::kept_of::<Real>(
                j,
                "progress"@,
                r->progress.wire(),
            )
            &&& forms::kept_opt_of::<Real>(j, "total"@, wire::opt(r->total))
            &&& forms::kept_opt_of::<String>(j, "message"@, wire::opt(r->message))
            &&& exists|t: ProgressToken|
                forms::kept_of::<ProgressToken>(j, "progressToken"@, t.wire()) && s.awaited().told_of(
                    #[trigger] t.request(),
                    now,
                ) == Some(*r->listener)
        },
{
    names::method_names();
    names::notifications_apart();
    if n.method@ == "notifications/progress"@ && n.params is Some && n.params->0@ is Object {
        let j = n.params->0@;
        params_forms::progress_notification_params_read(j);
        match r {
            Notice::Progress { listener, progress, total, message } => {
                let t = choose|t: ProgressToken|
                    s.awaited().told_of(#[trigger] t.request(), now) == Some(*listener)
                        && ProgressNotificationParams::canon(j) == Some(
                        ProgressNotificationParams {
                            progress_token: t,
                            progress,
                            total,
                            message,
                        }.wire(),
                    );
                params_forms::progress_notification_params_written(
                    ProgressNotificationParams { progress_token: t, progress, total, message },
                );
            },
            _ => {},
        }
    }
}

} // verus!
