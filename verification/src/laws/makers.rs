//! Values are made of what they are given, and tell what they hold.
use vstd::prelude::*;

use crate::auth;
use crate::auth::{
    AuthContext, AuthenticationResult, BearerTokenAuthenticator, BearerTokenProvider,
    SimpleTokenVerifier,
};
use crate::client::{McpClient, McpClientFactory};
use crate::client::session::{Callbacks, ClientHandlers, ClientSession};
use crate::client::session as client;
use crate::error::McpError;
use crate::json;
use crate::json::{Json, JsonView};
use crate::jsonrpc::{Message, Notification, Request, RequestId, Response};
use crate::laws::names;
use crate::protocol::endpoint;
use crate::protocol::message::MessageView;
use crate::server::McpServer;
use crate::server::dispatch::{Handlers, ServerInner};
use crate::server::prompt_manager::PromptManager;
use crate::server::resource_manager::ResourceManager;
use crate::server::session::{Outbound, ServerSession};
use crate::server::tool_manager::ToolManager;
use crate::string_map;
use crate::string_map::StringMap;
use crate::transport::RequestContext;
use crate::transport::streamable_http_client::StreamableHttpClientTransport;
use crate::types::capabilities::{ClientCapabilities, SamplingCapability, ServerCapabilities};
use crate::types::config::{
    ClientConfig, ServerConfig, StreamableHttpClientConfig, StreamableHttpServerConfig,
};
use crate::types::content::{ContentBlock, RoleType, TextContent};
use crate::types::prompts::PromptArgument;
use crate::types::sampling::{SamplingContent, SamplingMessage, SamplingMessageContentBlock};
use crate::types::session::{Implementation, InitializeResult};
use crate::types::tools::{CallToolResult, ListToolsResult};
use crate::wire;
use crate::wire::{Malformed, MetaMap, TextMap, Wire};

verus! {

/// The result of a tool is made of one block of text, a failure where it is one; and from a value
/// of JSON of both the value and its text, which of a text is the text itself.
pub proof fn results_made(s: String, j: Json, a: CallToolResult, b: CallToolResult, c: CallToolResult)
    requires
        call_ensures(CallToolResult::text, (s,), a),
        call_ensures(CallToolResult::error, (s,), b),
        call_ensures(CallToolResult::from_structured, (j,), c),
    ensures
        a.content@.len() == 1 && a.content@[0] is Text && a.content@[0]->Text_0.text@ == s@,
        a.content@[0]->Text_0.annotations is None,
        !a.is_error && a.structured_content is None && a.meta is None,
        b.content@.len() == 1 && b.content@[0] is Text && b.content@[0]->Text_0.text@ == s@,
        b.content@[0]->Text_0.annotations is None,
        b.is_error && b.structured_content is None && b.meta is None,
        c.content@.len() == 1 && c.content@[0] is Text,
        j@ matches JsonView::String(t) ==> c.content@[0]->Text_0.text@ == t,
        !(j@ is String) ==> c.content@[0]->Text_0.text@ == json::compact_text(j@.normal()),
        !c.is_error && c.structured_content == Some(j) && c.meta is None,
{
}

/// Blocks of text hold the text, and tell it; other blocks tell none.
pub proof fn text_blocks_made(
    s: String,
    a: TextContent,
    b: ContentBlock,
    c: SamplingMessageContentBlock,
    d: ContentBlock,
    t: Option<&str>,
    e: SamplingMessageContentBlock,
    u: Option<&str>,
)
    requires
        call_ensures(TextContent::new, (s,), a),
        call_ensures(ContentBlock::text, (s,), b),
        call_ensures(SamplingMessageContentBlock::text, (s,), c),
        call_ensures(ContentBlock::as_text, (&d,), t),
        call_ensures(SamplingMessageContentBlock::as_text, (&e,), u),
    ensures
        a.text == s && a.annotations is None,
        b is Text && b->Text_0.text == s && b->Text_0.annotations is None,
        c is Text && c->Text_0.text == s && c->Text_0.annotations is None,
        t is Some <==> d is Text,
        t is Some ==> t->0@ == d->Text_0.text@,
        u is Some <==> e is Text,
        u is Some ==> u->0@ == e->Text_0.text@,
{
}

/// The content of a sampling message is one block or several, and tells the first text in it.
pub proof fn sampling_content_made(
    s: String,
    role: RoleType,
    a: SamplingContent,
    m: SamplingMessage,
    c: SamplingContent,
    n: usize,
    t: Option<String>,
    list: Vec<SamplingMessageContentBlock>,
    i: int,
)
    requires
        call_ensures(SamplingContent::text, (s,), a),
        call_ensures(SamplingMessage::text, (role, s), m),
        call_ensures(SamplingContent::count, (&c,), n),
        call_ensures(SamplingContent::first_text, (&c,), t),
        call_ensures(SamplingContent::as_list, (&c,), list),
    ensures
        a is Single && a->Single_0 is Text && a->Single_0->Text_0.text@ == s@,
        m.role == role && m.meta is None,
        m.content is Single && m.content->Single_0 is Text && m.content->Single_0->Text_0.text@ == s@,
        c is Single ==> n == 1 && c.blocks()[0] == c->Single_0,
        c is Multiple ==> n == c->Multiple_0@.len() && c.blocks() == c->Multiple_0@,
        t is None <==> forall|k: int|
            0 <= k < c.blocks().len() ==> !((#[trigger] c.blocks()[k]) is Text),
        0 <= i < c.blocks().len() && c.blocks()[i] is Text && (forall|k: int|
            0 <= k < i ==> !((#[trigger] c.blocks()[k]) is Text)) ==> t is Some && t->0@
            == c.blocks()[i]->Text_0.text@,
        list@.len() == n,
        0 <= i < n ==> list@[i].wire() == c.blocks()[i].wire(),
{
    assert(wire::wires(list@).len() == wire::wires(c.blocks()).len());
    if 0 <= i < n {
        assert(wire::wires(list@)[i] == wire::wires(c.blocks())[i]);
    }
    if t is Some {
        let k = choose|k: int|
            0 <= k < c.blocks().len() && (#[trigger] c.blocks()[k]) is Text
                && c.blocks()[k]->Text_0.text@ == t->0@ && forall|j: int|
                0 <= j < k ==> !((#[trigger] c.blocks()[j]) is Text);
        assert(c.blocks()[k] is Text);
    }
}

/// Records are made of what they are given, and of nothing else.
pub proof fn records_made(
    name: String,
    version: String,
    description: String,
    required: bool,
    capabilities: ServerCapabilities,
    info: Implementation,
    instructions: Option<String>,
    a: Implementation,
    b: InitializeResult,
    c: PromptArgument,
)
    requires
        call_ensures(Implementation::new, (name, version), a),
        call_ensures(InitializeResult::new, (version, capabilities, info, instructions), b),
        call_ensures(PromptArgument::new, (name, description, required), c),
    ensures
        a.name == name && a.version == version && a.title is None && a.website_url is None
            && a.icons is None,
        b.protocol_version == version && b.capabilities == capabilities && b.server_info == info
            && b.instructions == instructions && b.meta is None,
        c.name == name && c.description == Some(description) && c.required == Some(required)
            && c.title is None,
{
}

/// Credentials are kept as they are given.
pub proof fn credentials_made<V>(
    token: String,
    a: BearerTokenProvider,
    p: &mut BearerTokenProvider,
    q: BearerTokenProvider,
    t: String,
    none: BearerTokenProvider,
    verifier: Option<V>,
    b: BearerTokenAuthenticator<V>,
    scopes: StringMap<String>,
    c: SimpleTokenVerifier,
    d: SimpleTokenVerifier,
)
    requires
        call_ensures(BearerTokenProvider::new, (token,), a),
        call_ensures(BearerTokenProvider::set_token, (p, token), ()),
        call_ensures(BearerTokenProvider::token, (&q,), t),
        call_ensures(<BearerTokenProvider as Default>::default, (), none),
        call_ensures(BearerTokenAuthenticator::<V>::new, (verifier,), b),
        call_ensures(SimpleTokenVerifier::new, (scopes,), c),
        call_ensures(<SimpleTokenVerifier as Default>::default, (), d),
    ensures
        a.token == token && final(p).token == token && t == q.token && none.token@.len() == 0,
        b.verifier == verifier,
        c.tokens == scopes && d.tokens@.dom() == Set::<Seq<char>>::empty(),
{
}

/// A caller of whom nothing is known has neither a name nor scopes, and one who failed is told
/// why.
pub proof fn callers_made(
    why: &str,
    a: AuthContext,
    b: AuthContext,
    c: AuthenticationResult,
    d: AuthenticationResult,
    h: &StringMap<String>,
    t: Result<String, AuthenticationResult>,
)
    requires
        call_ensures(AuthContext::unknown, (), a),
        call_ensures(<AuthContext as Default>::default, (), b),
        call_ensures(AuthenticationResult::failure, (why,), c),
        call_ensures(<AuthenticationResult as Default>::default, (), d),
        call_ensures(auth::bearer_token, (h,), t),
    ensures
        a.client_id is None && a.scopes is None && b.client_id is None && b.scopes is None,
        !c.authenticated && c.context is None && c.error_description is Some
            && c.error_description->0@ == why@,
        !d.authenticated && d.context is None && d.error_description is None,
        t is Ok <==> auth::bearer(string_map::texts(h@)) is Ok,
        t is Ok ==> auth::bearer(string_map::texts(h@))->Ok_0 == t->Ok_0@,
        t is Err ==> !t->Err_0.authenticated && t->Err_0.error_description is Some
            && t->Err_0.error_description->0@ == auth::bearer(string_map::texts(h@))->Err_0,
{
}

/// The scopes that are required are told in order, with a blank between them.
pub proof fn scopes_told(keys: Seq<Seq<char>>, k: Seq<char>)
    ensures
        auth::joined(seq![]).len() == 0,
        auth::joined(seq![k]) == k,
        keys.len() > 0 ==> auth::joined(keys.push(k)) == auth::joined(keys) + " "@ + k,
{
    assert(keys.push(k).drop_last() =~= keys);
}

/// A client for a server over HTTP is made where its endpoint and its times may be taken.
pub proof fn http_client_made<H: ClientHandlers, T, P>(
    c: ClientConfig,
    t: StreamableHttpClientConfig,
    r: Result<(McpClient<H, T, P>, StreamableHttpClientTransport), McpError>,
    s: McpClient<H, T, P>,
    k: Seq<char>,
)
    requires
        call_ensures(McpClientFactory::create_streamable_http_client::<H, T, P>, (c, t), r),
        call_ensures(McpClientFactory::create_stdio_client::<H, T, P>, (c,), s),
    ensures
        r is Ok <==> endpoint::endpoint_fault(t.endpoint@) is None && 1 <= t.timeout <= 1_800_000
            && 1 <= t.sse_timeout <= 1_800_000,
        endpoint::endpoint_fault(t.endpoint@) is Some ==> r->Err_0.faults_argument(
            endpoint::endpoint_fault(t.endpoint@)->0,
        ),
        endpoint::endpoint_fault(t.endpoint@) is None && !(1 <= t.timeout <= 1_800_000)
            ==> r->Err_0.faults_argument("Invalid timeout value"@),
        endpoint::endpoint_fault(t.endpoint@) is None && 1 <= t.timeout <= 1_800_000 && r is Err
            ==> r->Err_0.faults_argument("Invalid SSE read timeout value"@),
        r is Ok ==> {
            let a = (r->Ok_0).0;
            let b = (r->Ok_0).1@;
            let given = string_map::texts(t.headers@);
            &&& a.configured() == c && a.current() is None && !a.opened()
            &&& a.prepared().list_roots is None && a.prepared().logging is None
                && a.prepared().elicit is None && a.prepared().elicit_url is None
                && a.prepared().sampling is None
            &&& b.url == t.endpoint@ && b.timeout == t.timeout && b.sse_timeout == t.sse_timeout
            &&& b.session.len() == 0 && b.version.len() == 0 && b.running
            &&& (r->Ok_0).1.encryption() == t.tls_config
            &&& given.dom().contains(k) ==> b.headers.dom().contains(k) && b.headers[k] == given[k]
            &&& !given.dom().contains(k) && k == "content-type"@ ==> b.headers.dom().contains(k)
                && b.headers[k] == "application/json"@
        },
        s.configured() == c && s.current() is None && !s.opened(),
        s.prepared().list_roots is None && s.prepared().logging is None
            && s.prepared().elicit is None && s.prepared().elicit_url is None
            && s.prepared().sampling is None,
{
    names::header_names();
    names::headers_apart();
}

/// A client hands out its session while it is open.
pub proof fn client_tells<H: ClientHandlers, T, P>(
    c: McpClient<H, T, P>,
    settings: &ClientConfig,
    open: bool,
    s: Result<&ClientSession<H, T, P>, McpError>,
    again: Result<(), McpError>,
    offered: Result<ServerCapabilities, McpError>,
)
    requires
        call_ensures(McpClient::<H, T, P>::config, (&c,), settings),
        call_ensures(McpClient::<H, T, P>::is_initialized, (&c,), open),
        call_ensures(McpClient::<H, T, P>::session, (&c,), s),
        call_ensures(McpClient::<H, T, P>::check_initialize, (&c,), again),
        call_ensures(McpClient::<H, T, P>::get_server_capabilities, (&c,), offered),
    ensures
        *settings == c.configured() && open == c.opened(),
        s is Ok <==> c.opened() && c.current() is Some,
        s is Ok ==> c.current() == Some(*s->Ok_0),
        !c.opened() ==> s->Err_0 is NotInitialized && offered->Err_0 is NotInitialized,
        c.opened() && c.current() is None ==> s->Err_0.faults_state(
            "client session is not created."@,
        ) && offered->Err_0.faults_state("client session is not created."@),
        again is Ok <==> !c.opened(),
        again is Err ==> again->Err_0 is AlreadyInitialized,
        offered is Ok <==> c.opened() && c.current() is Some,
        offered is Ok && c.current()->0@.server is Some ==> offered->Ok_0.wire()
            == c.current()->0@.server->0.wire(),
        offered is Ok && c.current()->0@.server is None ==> offered->Ok_0.is_default(),
{
}

/// A session of a client starts closed, knows nothing of its server, and offers what it has
/// callbacks for.
pub proof fn client_session_made<H: ClientHandlers, T, P>(
    config: &ClientConfig,
    callbacks: Callbacks<H>,
    s: ClientSession<H, T, P>,
    none: Callbacks<H>,
    t: ClientSession<H, T, P>,
    c: ServerCapabilities,
    n: usize,
    o: ClientCapabilities,
)
    requires
        call_ensures(ClientSession::<H, T, P>::new, (config, callbacks), s),
        call_ensures(Callbacks::<H>::new, (), none),
        call_ensures(ClientSession::<H, T, P>::server_capabilities, (&t,), c),
        call_ensures(ClientSession::<H, T, P>::pending_count, (&t,), n),
        call_ensures(ClientSession::<H, T, P>::build_client_capabilities, (&t,), o),
    ensures
        s@.name == config.name@ && s@.version == config.version@ && s@.callbacks == callbacks,
        !s@.initialized && s@.server is None && s@.schemas.dom() == Set::<Seq<char>>::empty(),
        s.awaited().next_number() == 1 && s.awaited().waiting().dom() == Set::<i64>::empty(),
        none.list_roots is None && none.logging is None && none.elicit is None
            && none.elicit_url is None && none.sampling is None,
        t@.server is Some ==> c.wire() == t@.server->0.wire(),
        t@.server is None ==> c.is_default(),
        n == t.awaited().waiting().dom().len(),
        o == client::offered(t@.callbacks),
{
}

/// A callback that is set on a session takes the place of the one before, and of no other.
pub proof fn session_callbacks_set<H: ClientHandlers, T, P>(
    a: &mut ClientSession<H, T, P>,
    ca: H::ListRoots,
    b: &mut ClientSession<H, T, P>,
    cb: H::Logging,
    c: &mut ClientSession<H, T, P>,
    cc: H::Elicit,
    d: &mut ClientSession<H, T, P>,
    cd: H::ElicitUrl,
    e: &mut ClientSession<H, T, P>,
    ce: H::Sampling,
    offer: SamplingCapability,
)
    requires
        call_ensures(ClientSession::<H, T, P>::set_list_roots_callback, (a, ca), ()),
        call_ensures(ClientSession::<H, T, P>::set_logging_callback, (b, cb), ()),
        call_ensures(ClientSession::<H, T, P>::set_elicit_callback, (c, cc), ()),
        call_ensures(ClientSession::<H, T, P>::set_elicit_url_callback, (d, cd), ()),
        call_ensures(
            ClientSession::<H, T, P>::set_sampling_create_message_callback,
            (e, ce, offer),
            (),
        ),
    ensures
        final(a)@.callbacks.list_roots == Some(ca) && final(a)@.callbacks.logging == old(a)@.callbacks.logging && final(a)@.callbacks.elicit == old(a)@.callbacks.elicit && final(a)@.callbacks.sampling == old(a)@.callbacks.sampling,
        final(b)@.callbacks.logging == Some(cb) && final(b)@.callbacks.list_roots == old(b)@.callbacks.list_roots && final(b)@.callbacks.elicit_url == old(b)@.callbacks.elicit_url,
        final(c)@.callbacks.elicit == Some(cc) && final(c)@.callbacks.elicit_url == old(c)@.callbacks.elicit_url && final(c)@.callbacks.sampling == old(c)@.callbacks.sampling,
        final(d)@.callbacks.elicit_url == Some(cd) && final(d)@.callbacks.elicit == old(d)@.callbacks.elicit && final(d)@.callbacks.logging == old(d)@.callbacks.logging,
        final(e)@.callbacks.sampling == Some((ce, offer)) && final(e)@.callbacks.elicit == old(e)@.callbacks.elicit && final(e)@.callbacks.list_roots == old(e)@.callbacks.list_roots,
        final(a)@.initialized == old(a)@.initialized && final(b)@.initialized == old(b)@.initialized
            && final(c)@.initialized == old(c)@.initialized && final(d)@.initialized == old(d)@.initialized && final(e)@.initialized == old(e)@.initialized,
{
}

/// A session of a client sends what it is told to, and answers what it is asked.
pub proof fn client_session_sends<H: ClientHandlers, T, P>(
    s: &mut ClientSession<H, T, P>,
    method: &str,
    params: Option<Json>,
    waiter: T,
    listener: Option<P>,
    r: (RequestId, Message),
    t: ClientSession<H, T, P>,
    n: Message,
    e: &McpError,
    f: McpError,
    id: &RequestId,
    outcome: Result<Json, McpError>,
    a: Message,
)
    requires
        call_ensures(
            ClientSession::<H, T, P>::send_request_raw,
            (s, method, params, waiter, listener),
            r,
        ),
        call_ensures(ClientSession::<H, T, P>::send_notification, (&t, method, params), n),
        call_ensures(client::send_failed, (e,), f),
        call_ensures(client::answer_request::<Json>, (id, outcome), a),
    ensures
        r.0 == RequestId::Number(old(s).awaited().next_number()),
        r.1@ is Request && r.1@->Request_id == r.0.wire() && r.1@->Request_method == method@,
        listener is None ==> r.1@->Request_params == wire::opt(params),
        listener is Some ==> r.1@->Request_params is Some && r.1@->Request_params
            == Some(crate::protocol::progress::with_token(wire::opt(params), r.0.wire())),
        final(s).awaited().waiting().dom().contains(old(s).awaited().next_number()) && final(s).awaited().waiting()[old(s).awaited().next_number()] == waiter,
        final(s)@ == old(s)@,
        n@ == (MessageView::Notification { method: method@, params: wire::opt(params) }),
        f is Rpc && f->Rpc_0.code == -32603 && f->Rpc_0.message@ == "Transport error: "@ + e.told()
            && f->Rpc_0.data is None,
        a@ is Response && a@->to == Some(id.wire()),
        outcome is Ok ==> a@->result == Some(outcome->Ok_0.wire()) && a@->error is None,
        outcome is Err ==> a@->result is None && a@->error is Some && a@->error->0.code == -32603
            && a@->error->0.message == outcome->Err_0.told(),
{
}

/// The schemas of the tools that a server lists are noted.
pub proof fn schemas_noted<H: ClientHandlers, T, P>(
    s: &mut ClientSession<H, T, P>,
    l: &ListToolsResult,
)
    requires
        call_ensures(ClientSession::<H, T, P>::cache_tool_schemas, (s, l), ()),
    ensures
        client::schema_views(final(s)@.schemas) == client::schemas_after(
            client::schema_views(old(s)@.schemas),
            l.tools@,
            l.tools@.len() as int,
        ),
        final(s)@.callbacks == old(s)@.callbacks && final(s)@.initialized == old(s)@.initialized,
        final(s).awaited() == old(s).awaited(),
{
}

/// A session of a server without a client yet has the settings of one of whom nothing is said.
pub proof fn server_session_made<S, T>(
    s: ServerSession<S, T>,
    t: ServerSession<S, T>,
    id: &str,
    alone: bool,
    open: bool,
    c: ClientCapabilities,
    n: usize,
    key: &RequestId,
    found: Option<&RequestContext<S>>,
)
    requires
        call_ensures(ServerSession::<S, T>::detached, (), s),
        call_ensures(ServerSession::<S, T>::session_id, (&t,), id),
        call_ensures(ServerSession::<S, T>::is_stateless, (&t,), alone),
        call_ensures(ServerSession::<S, T>::is_initialized, (&t,), open),
        call_ensures(ServerSession::<S, T>::get_client_capabilities, (&t,), c),
        call_ensures(ServerSession::<S, T>::pending_count, (&t,), n),
        call_ensures(ServerSession::<S, T>::context, (&t, key), found),
    ensures
        s@.id.len() == 0 && s@.name == "MCP Server"@ && s@.version == "1.0.0"@,
        !s@.transport && !s@.stateless && !s@.initialized && s@.client is None,
        s@.requests.dom() == Set::<JsonView>::empty() && s.awaited().next_number() == 1,
        id@ == t@.id && alone == t@.stateless && open == t@.initialized,
        t@.client is Some ==> c.wire() == t@.client->0.wire() && c.sampling == t@.client->0.sampling
            && c.elicitation == t@.client->0.elicitation && c.roots == t@.client->0.roots && c.tasks
            == t@.client->0.tasks,
        t@.client is None ==> c.is_default(),
        n == t.awaited().waiting().dom().len(),
        found is Some <==> t@.requests.dom().contains(key.wire()),
        found is Some ==> *found->0 == t@.requests[key.wire()],
{
}

/// A session gives up a request that it waits for, and tells its client of something over the
/// stream of events.
pub proof fn server_session_sends<S, T>(
    s: &mut ServerSession<S, T>,
    n: i64,
    now: u64,
    t: ServerSession<S, T>,
    method: &str,
    params: Option<Json>,
    r: Option<Outbound<S>>,
)
    requires
        call_ensures(ServerSession::<S, T>::forget, (s, &RequestId::Number(n), now), ()),
        call_ensures(ServerSession::<S, T>::send_notification, (&t, method, params), r),
    ensures
        final(s)@ == old(s)@ && !final(s).awaited().waiting().dom().contains(n),
        r is Some <==> t@.transport,
        r is Some ==> r->0.message@ == (MessageView::Notification {
            method: method@,
            params: wire::opt(params),
        }) && r->0.ctx.session_id@ == t@.id && r->0.ctx.method@ == method@ && r->0.ctx.is_get_stream
            && r->0.ctx.connection_id == 0 && !r->0.ctx.is_cancelled && r->0.ctx.sink is None,
{
}

/// A server tells its settings and what it offers.
pub proof fn server_tells<H: Handlers, A, Z>(
    s: McpServer<H, A, Z>,
    c: &ServerConfig,
    t: Option<&StreamableHttpServerConfig<A, Z>>,
    i: &ServerInner<H>,
    a: &ToolManager<H::Tool>,
    b: &PromptManager<H::Prompt>,
    d: &ResourceManager<H::Resource>,
)
    requires
        call_ensures(McpServer::<H, A, Z>::config, (&s,), c),
        call_ensures(McpServer::<H, A, Z>::transport_config, (&s,), t),
        call_ensures(McpServer::<H, A, Z>::inner, (&s,), i),
        call_ensures(McpServer::<H, A, Z>::tools, (&s,), a),
        call_ensures(McpServer::<H, A, Z>::prompts, (&s,), b),
        call_ensures(McpServer::<H, A, Z>::resources, (&s,), d),
    ensures
        *c == s.configured() && *i == s.offers(),
        t is Some <==> s.reached() is Some,
        t is Some ==> s.reached() == Some(*t->0),
        *a == s.offers().tools && *b == s.offers().prompts && *d == s.offers().resources,
{
}

/// Copies of messages say what the messages say.
pub proof fn messages_copied(
    q: Request,
    r: Request,
    n: Notification,
    o: Notification,
    a: Response,
    b: Response,
    m: Message,
    c: Message,
)
    requires
        call_ensures(Request::duplicate, (&q,), r),
        call_ensures(Notification::duplicate, (&n,), o),
        call_ensures(Response::duplicate, (&a,), b),
        call_ensures(Message::duplicate, (&m,), c),
    ensures
        r.id.wire() == q.id.wire() && r.method == q.method && wire::opt(r.params) == wire::opt(
            q.params,
        ),
        o.method == n.method && wire::opt(o.params) == wire::opt(n.params),
        wire::opt(b.id) == wire::opt(a.id) && wire::opt(b.result) == wire::opt(a.result)
            && wire::opt(b.error) == wire::opt(a.error),
        c@ == m@ && c.wire() == m.wire(),
{
}

/// Maps of JSON and of texts hold what was put in last under a name.
pub proof fn open_maps_hold(
    a: MetaMap,
    m: &mut MetaMap,
    k: &str,
    v: Json,
    q: Seq<char>,
    n: MetaMap,
    r: Option<&Json>,
    t: TextMap,
    u: TextMap,
    s: Option<&str>,
)
    requires
        call_ensures(MetaMap::new, (), a),
        call_ensures(MetaMap::insert, (m, k, v), ()),
        call_ensures(MetaMap::get, (&n, k), r),
        call_ensures(TextMap::new, (), t),
        call_ensures(TextMap::get, (&u, k), s),
    ensures
        a@.len() == 0 && t.entries@.len() == 0,
        json::lookup(final(m)@, k@) == Some(v@),
        q != k@ ==> json::lookup(final(m)@, q) == json::lookup(old(m)@, q),
        r is Some <==> json::lookup(n@, k@) is Some,
        r is Some ==> json::lookup(n@, k@) == Some(r->0@),
        s is Some <==> json::lookup(wire::text_members(u.entries@), k@) is Some,
        s is Some ==> json::lookup(wire::text_members(u.entries@), k@) == Some(
            JsonView::String(s->0@),
        ),
{
    json::lookup_put_member(old(m)@, k@, v@, k@);
    json::lookup_put_member(old(m)@, k@, v@, q);
}

/// Members of a record are written under their names, those that are missing not at all.
pub proof fn members_written(
    start: Vec<(String, Json)>,
    o: &mut Vec<(String, Json)>,
    k: &str,
    v: &Json,
    p: &mut Vec<(String, Json)>,
    x: &Option<Json>,
    q: Seq<char>,
)
    requires
        call_ensures(wire::start, (), start),
        call_ensures(wire::put::<Json>, (o, k, v), ()),
        call_ensures(wire::put_opt::<Json>, (p, k, x), ()),
    ensures
        json::entries(start@).len() == 0,
        json::lookup(json::entries(final(o)@), k@) == Some(v.wire()),
        q != k@ ==> json::lookup(json::entries(final(o)@), q) == json::lookup(
            json::entries(old(o)@),
            q,
        ),
        *x is Some ==> json::lookup(json::entries(final(p)@), k@) == Some(x->0.wire()),
        *x is None ==> json::entries(final(p)@) == json::entries(old(p)@),
{
    broadcast use crate::wire::group_lookup;

}

/// Members of a record are read from under their names, or from their places; one that may be
/// missing may be null too, and one with a default may be missing.
pub proof fn members_read<T: Wire>(
    j: &Json,
    k: &str,
    i: usize,
    a: Result<T, Malformed>,
    b: Result<Option<T>, Malformed>,
    d: T,
    c: Result<T, Malformed>,
)
    requires
        call_ensures(wire::read::<T>, (j, k, i), a),
        call_ensures(wire::read_opt::<T>, (j, k, i), b),
        call_ensures(wire::read_or::<T>, (j, k, i, d), c),
    ensures
        ({
            let m = match j@ {
                JsonView::Object(o) => json::lookup(o, k@),
                JsonView::Array(x) => if i < x.len() {
                    Some(x[i as int])
                } else {
                    None
                },
                _ => None,
            };
            &&& a is Ok <==> m is Some && T::canon(m->0) is Some
            &&& a is Ok ==> T::canon(m->0) == Some(a->Ok_0.wire())
            &&& m is None || m == Some(JsonView::Null) ==> b is Ok && b->Ok_0 is None
            &&& m is Some && !(m->0 is Null) ==> (b is Ok <==> T::canon(m->0) is Some)
            &&& m is Some && !(m->0 is Null) && b is Ok ==> b->Ok_0 is Some && T::canon(m->0)
                == Some(b->Ok_0->0.wire())
            &&& m is None ==> c is Ok && c->Ok_0.wire() == d.wire()
            &&& m is Some ==> (c is Ok <==> T::canon(m->0) is Some)
            &&& m is Some && c is Ok ==> T::canon(m->0) == Some(c->Ok_0.wire())
        }),
{
    if b is Ok {
        let x = wire::opt(b->Ok_0);
    }
}

/// Lists are read, written and copied item by item, in order.
pub proof fn items_read<T: Wire>(
    a: &Vec<Json>,
    r: Result<Vec<T>, Malformed>,
    v: &Vec<T>,
    w: Vec<Json>,
    c: Vec<T>,
    i: int,
    e: Malformed,
    words: &'static str,
)
    requires
        call_ensures(Malformed::message, (&e,), words),
        call_ensures(wire::read_items::<T>, (a,), r),
        call_ensures(wire::write_items::<T>, (v,), w),
        call_ensures(wire::duplicate_list::<T>, (v,), c),
    ensures
        r is Ok <==> forall|k: int| 0 <= k < a@.len() ==> T::canon((#[trigger] a@[k])@) is Some,
        r is Ok ==> r->Ok_0@.len() == a@.len(),
        r is Ok && 0 <= i < a@.len() ==> T::canon(a@[i]@) == Some(r->Ok_0@[i].wire()),
        words@ == "the value does not have the expected form"@,
        w@.len() == v@.len() && c@.len() == v@.len(),
        0 <= i < v@.len() ==> w@[i]@ == v@[i].wire() && c@[i].wire() == v@[i].wire(),
{
    let js = json::items(a@);
    if r is Ok {
        assert forall|k: int| 0 <= k < a@.len() implies T::canon((#[trigger] a@[k])@) is Some by {
            assert(T::canon(js[k]) is Some);
        }
        assert(wire::wires(r->Ok_0@).len() == wire::canons::<T>(js).len());
        if 0 <= i < a@.len() {
            assert(wire::wires(r->Ok_0@)[i] == wire::canons::<T>(js)[i]);
            assert(T::canon(js[i]) is Some);
        }
    } else {
        let k = choose|k: int| 0 <= k < js.len() && T::canon(#[trigger] js[k]) is None;
        assert(T::canon(a@[k]@) is None);
    }
    assert(json::items(w@).len() == wire::wires(v@).len());
    assert(wire::wires(c@).len() == wire::wires(v@).len());
    if 0 <= i < v@.len() {
        assert(json::items(w@)[i] == wire::wires(v@)[i]);
        assert(wire::wires(c@)[i] == wire::wires(v@)[i]);
    }
}

} // verus!
