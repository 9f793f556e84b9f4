//! What a client does for the program that it is part of.
use vstd::prelude::*;

use crate::client::McpClient;
use crate::client::session::ClientHandlers;
use crate::client::session as client;
use crate::error::McpError;
use crate::json::{Json, JsonView};
use crate::jsonrpc::{Message, RequestId};
use crate::laws::client::{param, sends};
use crate::laws::forms::params as params_forms;
use crate::laws::names;
use crate::protocol::message::MessageView;
use crate::protocol::params::CompleteRequestParams;
use crate::protocol::progress;
use crate::types::capabilities::SamplingCapability;
use crate::types::completion::{CompleteReference, CompletionArgument, CompletionContext};
use crate::types::config::ClientConfig;
use crate::types::logging::LoggingLevel;
use crate::wire;
use crate::wire::Wire;

verus! {

/// The request and the message that are sent.
pub open spec fn sent(r: Result<(RequestId, Message), McpError>) -> (RequestId, Message) {
    r->Ok_0
}

/// A client that was initialized sends a request on its session. One that was not is told so,
/// and nothing changes.
pub open spec fn asks<H: ClientHandlers, T, P>(
    before: McpClient<H, T, P>,
    after: McpClient<H, T, P>,
    r: Result<(RequestId, Message), McpError>,
    method: Seq<char>,
    waiter: T,
) -> bool {
    &&& r is Ok <==> before.opened() && before.current() is Some
    &&& r is Ok ==> after.current() is Some && sends(
        before.current()->0,
        after.current()->0,
        sent(r),
        method,
        waiter,
    )
    &&& r is Err ==> after.current() == before.current()
    &&& !before.opened() ==> r is Err && r->Err_0 is NotInitialized
    &&& after.opened() == before.opened()
    &&& after.configured() == before.configured()
}

proof fn call_names()
    ensures
        "name"@.len() == 4,
        "arguments"@.len() == 9,
{
    reveal_strlit("name");
    reveal_strlit("arguments");
}

/// A client asks whether the server is there.
pub proof fn asks_for_life<H: ClientHandlers, T, P>(
    c: &mut McpClient<H, T, P>,
    waiter: T,
    r: Result<(RequestId, Message), McpError>,
)
    requires
        call_ensures(McpClient::<H, T, P>::send_ping, (c, waiter), r),
    ensures
        asks(*old(c), *final(c), r, "ping"@, waiter),
        r is Ok ==> {
            &&& sent(r).1@->Request_params is None
        },
{
    broadcast use crate::wire::group_lookup;

    names::method_names();
}

/// A client asks for a page of the tools.
pub proof fn asks_for_tools<H: ClientHandlers, T, P>(
    c: &mut McpClient<H, T, P>,
    cursor: Option<String>,
    waiter: T,
    r: Result<(RequestId, Message), McpError>,
)
    requires
        call_ensures(McpClient::<H, T, P>::list_tools, (c, cursor, waiter), r),
    ensures
        asks(*old(c), *final(c), r, "tools/list"@, waiter),
        r is Ok ==> {
            &&& param(sent(r), "cursor"@) == wire::opt(cursor)
        },
{
    broadcast use crate::wire::group_lookup;

    names::method_names();
}

/// A client asks for a page of the resources.
pub proof fn asks_for_resources<H: ClientHandlers, T, P>(
    c: &mut McpClient<H, T, P>,
    cursor: Option<String>,
    waiter: T,
    r: Result<(RequestId, Message), McpError>,
)
    requires
        call_ensures(McpClient::<H, T, P>::list_resources, (c, cursor, waiter), r),
    ensures
        asks(*old(c), *final(c), r, "resources/list"@, waiter),
        r is Ok ==> {
            &&& param(sent(r), "cursor"@) == wire::opt(cursor)
        },
{
    broadcast use crate::wire::group_lookup;

    names::method_names();
}

/// A client asks for the prompts.
pub proof fn asks_for_prompts<H: ClientHandlers, T, P>(
    c: &mut McpClient<H, T, P>,
    waiter: T,
    r: Result<(RequestId, Message), McpError>,
)
    requires
        call_ensures(McpClient::<H, T, P>::list_prompts, (c, waiter), r),
    ensures
        asks(*old(c), *final(c), r, "prompts/list"@, waiter),
{
    broadcast use crate::wire::group_lookup;

    names::method_names();
}

/// A client asks for the templates of resources.
pub proof fn asks_for_templates<H: ClientHandlers, T, P>(
    c: &mut McpClient<H, T, P>,
    waiter: T,
    r: Result<(RequestId, Message), McpError>,
)
    requires
        call_ensures(McpClient::<H, T, P>::list_resources_templates, (c, waiter), r),
    ensures
        asks(*old(c), *final(c), r, "resources/templates/list"@, waiter),
{
    broadcast use crate::wire::group_lookup;

    names::method_names();
}

/// A client asks for a prompt by its name and with its arguments.
pub proof fn asks_for_prompt<H: ClientHandlers, T, P>(
    c: &mut McpClient<H, T, P>,
    name: &str,
    arguments: Option<Json>,
    waiter: T,
    r: Result<(RequestId, Message), McpError>,
)
    requires
        call_ensures(McpClient::<H, T, P>::get_prompt, (c, name, &arguments, waiter), r),
    ensures
        asks(*old(c), *final(c), r, "prompts/get"@, waiter),
        r is Ok ==> {
            &&& param(sent(r), "name"@) == Some(JsonView::String(name@))
            &&& param(sent(r), "arguments"@) == wire::opt(arguments)
        },
{
    broadcast use crate::wire::group_lookup;

    names::method_names();
    call_names();
}

/// A client asks for a resource by its place.
pub proof fn asks_for_resource<H: ClientHandlers, T, P>(
    c: &mut McpClient<H, T, P>,
    uri: &str,
    waiter: T,
    r: Result<(RequestId, Message), McpError>,
)
    requires
        call_ensures(McpClient::<H, T, P>::read_resource, (c, uri, waiter), r),
    ensures
        asks(*old(c), *final(c), r, "resources/read"@, waiter),
        r is Ok ==> {
            &&& param(sent(r), "uri"@) == Some(JsonView::String(uri@))
        },
{
    broadcast use crate::wire::group_lookup;

    names::method_names();
}

/// A client asks to hear of changes to the resource at a place.
pub proof fn asks_for_news<H: ClientHandlers, T, P>(
    c: &mut McpClient<H, T, P>,
    uri: &str,
    waiter: T,
    r: Result<(RequestId, Message), McpError>,
)
    requires
        call_ensures(McpClient::<H, T, P>::subscribe_resource, (c, uri, waiter), r),
    ensures
        asks(*old(c), *final(c), r, "resources/subscribe"@, waiter),
        r is Ok ==> {
            &&& param(sent(r), "uri"@) == Some(JsonView::String(uri@))
        },
{
    broadcast use crate::wire::group_lookup;

    names::method_names();
}

/// A client asks to hear no more of changes to the resource at a place.
pub proof fn asks_for_no_more_news<H: ClientHandlers, T, P>(
    c: &mut McpClient<H, T, P>,
    uri: &str,
    waiter: T,
    r: Result<(RequestId, Message), McpError>,
)
    requires
        call_ensures(McpClient::<H, T, P>::unsubscribe_resource, (c, uri, waiter), r),
    ensures
        asks(*old(c), *final(c), r, "resources/unsubscribe"@, waiter),
        r is Ok ==> {
            &&& param(sent(r), "uri"@) == Some(JsonView::String(uri@))
        },
{
    broadcast use crate::wire::group_lookup;

    names::method_names();
}

/// A client sets the level of the log of the server.
pub proof fn asks_for_level<H: ClientHandlers, T, P>(
    c: &mut McpClient<H, T, P>,
    level: LoggingLevel,
    waiter: T,
    r: Result<(RequestId, Message), McpError>,
)
    requires
        call_ensures(McpClient::<H, T, P>::set_logging_level, (c, level, waiter), r),
    ensures
        asks(*old(c), *final(c), r, "logging/setLevel"@, waiter),
        r is Ok ==> {
            &&& param(sent(r), "level"@) == Some(level.wire())
        },
{
    broadcast use crate::wire::group_lookup;

    names::method_names();
}

/// A client asks for a completion.
pub proof fn asks_for_completion<H: ClientHandlers, T, P>(
    c: &mut McpClient<H, T, P>,
    reference: CompleteReference,
    argument: CompletionArgument,
    context: Option<CompletionContext>,
    waiter: T,
    r: Result<(RequestId, Message), McpError>,
)
    requires
        call_ensures(McpClient::<H, T, P>::complete, (c, reference, argument, context, waiter), r),
    ensures
        asks(*old(c), *final(c), r, "completion/complete"@, waiter),
        r is Ok ==> {
            &&& param(sent(r), "ref"@) == Some(reference.wire())
            &&& param(sent(r), "argument"@) == Some(argument.wire())
            &&& param(sent(r), "context"@) == wire::opt(context)
        },
{
    broadcast use crate::wire::group_lookup;

    names::method_names();
    params_forms::complete_request_params_written(
        CompleteRequestParams { reference, argument, context },
    );
}

/// A client calls a tool by its name and with its arguments.
pub proof fn asks_for_call<H: ClientHandlers, T, P>(
    c: &mut McpClient<H, T, P>,
    name: &str,
    arguments: Option<Json>,
    waiter: T,
    progress: Option<P>,
    r: Result<(RequestId, Message), McpError>,
)
    requires
        call_ensures(McpClient::<H, T, P>::call_tool, (c, name, &arguments, waiter, progress), r),
    ensures
        asks(*old(c), *final(c), r, "tools/call"@, waiter),
        r is Ok ==> {
            &&& progress is None ==> param(sent(r), "name"@) == Some(JsonView::String(name@))
            &&& progress is None ==> param(sent(r), "arguments"@) == wire::opt(arguments)
            &&& progress is Some ==> sent(r).1@->Request_params == Some(
                progress::with_token(
                    Some(client::named(name@, wire::opt(arguments))),
                    sent(r).0.wire(),
                ),
            )
        },
{
    broadcast use crate::wire::group_lookup;

    names::method_names();
    call_names();
}

/// A client is initialized once: its session starts with what was set before and with its name
/// and version, and nothing waits yet. While it is initialized it cannot be again. Closing it
/// forgets the session.
pub proof fn life<H: ClientHandlers, T, P>(
    c: &mut McpClient<H, T, P>,
    r: Result<(), McpError>,
)
    requires
        call_ensures(McpClient::<H, T, P>::initialize, (c,), r),
    ensures
        r is Ok <==> !old(c).opened(),
        r is Err ==> r->Err_0 is AlreadyInitialized && *final(c) == *old(c),
        final(c).opened(),
        r is Ok ==> final(c).current() is Some && final(c).current()->0@.callbacks
            == old(c).prepared() && final(c).current()->0@.name == old(c).configured().name@
            && final(c).current()->0@.version == old(c).configured().version@
            && !final(c).current()->0@.initialized
            && final(c).current()->0.awaited().next_number() == 1,
{
}

/// Closing a client that is initialized forgets its session; it can be initialized again.
pub proof fn end<H: ClientHandlers, T, P>(c: &mut McpClient<H, T, P>, r: bool)
    requires
        call_ensures(McpClient::<H, T, P>::close_gracefully, (c,), r),
    ensures
        r <==> old(c).opened(),
        !final(c).opened(),
        old(c).opened() ==> final(c).current() is None,
        final(c).configured() == old(c).configured(),
{
}

/// A new client has its configuration, no session, and nothing for requests of a server.
pub proof fn start<H: ClientHandlers, T, P>(config: ClientConfig, c: McpClient<H, T, P>)
    requires
        call_ensures(McpClient::<H, T, P>::with_transport, (config,), c),
    ensures
        c.configured() == config,
        !c.opened(),
        c.current() is None,
        c.prepared().list_roots is None,
        c.prepared().logging is None,
        c.prepared().elicit is None,
        c.prepared().elicit_url is None,
        c.prepared().sampling is None,
{
}

/// What is set to run when the server asks for the roots is what runs then; nothing else changes.
pub proof fn callback_set_roots<H: ClientHandlers, T, P>(c: &mut McpClient<H, T, P>, cb: H::ListRoots)
    requires
        call_ensures(McpClient::<H, T, P>::set_list_roots_callback, (c, cb), ()),
    ensures
        final(c).effective().list_roots == Some(cb),
        final(c).effective().logging == old(c).effective().logging,
        final(c).effective().elicit == old(c).effective().elicit,
        final(c).effective().elicit_url == old(c).effective().elicit_url,
        final(c).effective().sampling == old(c).effective().sampling,
        final(c).opened() == old(c).opened(),
        final(c).configured() == old(c).configured(),
{
}

/// What is set to run when the server sends a line of its log is what runs then; nothing else changes.
pub proof fn callback_set_log<H: ClientHandlers, T, P>(c: &mut McpClient<H, T, P>, cb: H::Logging)
    requires
        call_ensures(McpClient::<H, T, P>::set_logging_callback, (c, cb), ()),
    ensures
        final(c).effective().logging == Some(cb),
        final(c).effective().list_roots == old(c).effective().list_roots,
        final(c).effective().elicit == old(c).effective().elicit,
        final(c).effective().elicit_url == old(c).effective().elicit_url,
        final(c).effective().sampling == old(c).effective().sampling,
        final(c).opened() == old(c).opened(),
        final(c).configured() == old(c).configured(),
{
}

/// What is set to run when the server asks the user to fill in a form is what runs then; nothing else changes.
pub proof fn callback_set_form<H: ClientHandlers, T, P>(c: &mut McpClient<H, T, P>, cb: H::Elicit)
    requires
        call_ensures(McpClient::<H, T, P>::set_elicit_callback, (c, cb), ()),
    ensures
        final(c).effective().elicit == Some(cb),
        final(c).effective().list_roots == old(c).effective().list_roots,
        final(c).effective().logging == old(c).effective().logging,
        final(c).effective().elicit_url == old(c).effective().elicit_url,
        final(c).effective().sampling == old(c).effective().sampling,
        final(c).opened() == old(c).opened(),
        final(c).configured() == old(c).configured(),
{
}

/// What is set to run when the server asks the user to visit a page is what runs then; nothing else changes.
pub proof fn callback_set_page<H: ClientHandlers, T, P>(c: &mut McpClient<H, T, P>, cb: H::ElicitUrl)
    requires
        call_ensures(McpClient::<H, T, P>::set_elicit_url_callback, (c, cb), ()),
    ensures
        final(c).effective().elicit_url == Some(cb),
        final(c).effective().list_roots == old(c).effective().list_roots,
        final(c).effective().logging == old(c).effective().logging,
        final(c).effective().elicit == old(c).effective().elicit,
        final(c).effective().sampling == old(c).effective().sampling,
        final(c).opened() == old(c).opened(),
        final(c).configured() == old(c).configured(),
{
}

/// What is set to run when the server asks for a message of a model is what runs then, and it
/// offers what is said with it; nothing else changes.
pub proof fn callback_set_model<H: ClientHandlers, T, P>(
    c: &mut McpClient<H, T, P>,
    cb: H::Sampling,
    offer: SamplingCapability,
)
    requires
        call_ensures(
            McpClient::<H, T, P>::set_sampling_create_message_callback,
            (c, cb, offer),
            (),
        ),
    ensures
        final(c).effective().sampling == Some((cb, offer)),
        final(c).effective().list_roots == old(c).effective().list_roots,
        final(c).effective().logging == old(c).effective().logging,
        final(c).effective().elicit == old(c).effective().elicit,
        final(c).effective().elicit_url == old(c).effective().elicit_url,
{
}

/// What the client tells the server of its roots and of progress needs a session.
pub proof fn tells_server<H: ClientHandlers, T, P>(
    c: McpClient<H, T, P>,
    r: Result<Message, McpError>,
)
    requires
        call_ensures(McpClient::<H, T, P>::send_roots_list_changed, (&c,), r),
    ensures
        r is Ok <==> c.opened() && c.current() is Some,
        r is Ok ==> r->Ok_0@ == (MessageView::Notification {
            method: "notifications/roots/list_changed"@,
            params: Some(JsonView::Object(seq![])),
        }),
        !c.opened() ==> r is Err && r->Err_0 is NotInitialized,
{
    names::method_names();
    assert(wire::none() =~= seq![]);
}

} // verus!
