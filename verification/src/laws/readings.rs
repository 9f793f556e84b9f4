//! What is read, chosen and answered, by the functions that do it.
use vstd::prelude::*;

use crate::error::{JsonRpcErrorCode, McpError};
use crate::json;
use crate::json::{Json, JsonView};
use crate::jsonrpc::{Message, Request, RequestId, RpcError};
use crate::protocol;
use crate::protocol::endpoint;
use crate::protocol::endpoint::{ServerEndpoint, UrlParts};
use crate::protocol::message;
use crate::protocol::message::{IncomingPayload, MessageParseError, ParseErrorView};
use crate::protocol::progress;
use crate::schema;
use crate::server::dispatch;
use crate::server::dispatch::{DispatchView, Dispatched, Handlers, ServerInner};
use crate::server::manager;
use crate::server::paging;
use crate::server::resource_manager::ResourceManager;
use crate::server::tool_manager::ToolManager;
use crate::string_map;
use crate::string_map::StringMap;
use crate::text;
use crate::transport::http_message::HttpRequest;
use crate::transport::sse;
use crate::transport::sse::EventView;
use crate::transport::streamable_http_client::StreamableHttpClientTransport;
use crate::transport::streamable_http_client as client;
use crate::transport::streamable_http_server::{HttpOutcome, StreamableHttpServerTransport};
use crate::transport::streamable_http_server as server;
use crate::types::content::{ContentBlock, RoleType};
use crate::types::logging::LoggingLevel;
use crate::types::meta::{ProgressToken, RequestParamsMeta};
use crate::types::resources::ListResourcesResult;
use crate::types::tools::ListToolsResult;
use crate::wire;
use crate::wire::Wire;

verus! {

/// A value is taken by a schema where the schema finds no fault with it, and otherwise the fault
/// is told.
pub proof fn value_is_validated(s: &Json, v: &Json, r: Result<(), String>)
    requires
        call_ensures(schema::validate, (s, v), r),
    ensures
        r is Ok <==> schema::valid(s@, v@),
        r is Ok <==> schema::fault(s@, v@, ""@) is None,
        r is Err ==> schema::fault(s@, v@, ""@) == Some(r->Err_0@),
{
}

/// A value, a text and several are read as the messages that they are.
pub proof fn messages_are_read(
    v: Json,
    t: &str,
    a: Result<Message, MessageParseError>,
    b: Result<Message, MessageParseError>,
    c: Result<IncomingPayload, MessageParseError>,
    d: Result<IncomingPayload, MessageParseError>,
)
    requires
        call_ensures(message::classify_message, (v,), a),
        call_ensures(message::parse_message, (t,), b),
        call_ensures(message::classify_payload, (v,), c),
        call_ensures(message::parse_payload, (t,), d),
    ensures
        a is Ok <==> message::classified(v@) is Ok,
        a is Ok ==> a->Ok_0@ == message::classified(v@)->Ok_0,
        a is Err ==> a->Err_0@ == message::classified(v@)->Err_0,
        json::parsed(t@) matches Err(e) ==> b is Err && b->Err_0@ == ParseErrorView::InvalidJson(e)
            && d is Err && d->Err_0@ == ParseErrorView::InvalidJson(e),
        json::parsed(t@) matches Ok(j) ==> (b is Ok <==> message::classified(j) is Ok) && (b is Ok
            ==> b->Ok_0@ == message::classified(j)->Ok_0) && (b is Err ==> b->Err_0@
            == message::classified(j)->Err_0),
        c is Ok <==> message::payload(v@) is Ok,
        c is Ok ==> c->Ok_0@ == message::payload(v@)->Ok_0,
        c is Err ==> c->Err_0@ == message::payload(v@)->Err_0,
        json::parsed(t@) matches Ok(j) ==> (d is Ok <==> message::payload(j) is Ok) && (d is Ok
            ==> d->Ok_0@ == message::payload(j)->Ok_0) && (d is Err ==> d->Err_0@
            == message::payload(j)->Err_0),
{
}

/// A message is written as the compact text of its form, and its form is what the text says.
pub proof fn messages_are_written(m: &Message, t: String, j: Json, e: &MessageParseError, w: String)
    requires
        call_ensures(message::serialize_message, (m,), t),
        call_ensures(Message::to_value, (m,), j),
        call_ensures(MessageParseError::message, (e,), w),
    ensures
        t@ == json::compact_text(message::written(m@).normal()),
        j@ == m.wire(),
        e matches MessageParseError::InvalidJson(x) ==> w@ == "invalid JSON: "@ + x@,
        e matches MessageParseError::InvalidMessage { id, message, has_method } ==> w@ == message@,
{
}

/// Text is read and written as JSON, and numbers as doubles.
pub proof fn json_is_read_and_written(
    t: &str,
    r: Result<Json, String>,
    j: &Json,
    w: String,
    k: &Json,
    same: bool,
)
    requires
        call_ensures(Json::parse, (t,), r),
        call_ensures(Json::to_text, (j,), w),
        call_ensures(Json::same, (j, k), same),
    ensures
        r is Ok <==> json::parsed(t@) is Ok,
        r is Ok ==> json::parsed(t@) == Ok::<JsonView, Seq<char>>(r->Ok_0@),
        r is Err ==> json::parsed(t@) == Err::<JsonView, Seq<char>>(r->Err_0@),
        w@ == json::compact_text(j@.normal()),
        same <==> j@.same(k@),
{
}

/// An endpoint is taken or refused, and read, as was said of endpoints.
pub proof fn endpoints_are_read(
    s: &str,
    a: Result<(), String>,
    b: Result<ServerEndpoint, String>,
    u: UrlParts,
    c: Result<ServerEndpoint, String>,
)
    requires
        call_ensures(endpoint::is_valid_streamable_http_endpoint, (s,), a),
        call_ensures(endpoint::parse_server_endpoint, (s,), b),
        call_ensures(endpoint::endpoint_from_url, (u, s), c),
    ensures
        a is Ok <==> endpoint::endpoint_fault(s@) is None,
        a is Err ==> endpoint::endpoint_fault(s@) == Some(a->Err_0@),
        b is Ok <==> endpoint::server_endpoint(s@) is Ok,
        b is Ok ==> {
            let e = endpoint::server_endpoint(s@)->Ok_0;
            b->Ok_0.scheme@ == e.0 && b->Ok_0.host@ == e.1 && b->Ok_0.port == e.2 && b->Ok_0.path@
                == e.3
        },
        b is Err ==> endpoint::server_endpoint(s@)->Err_0 == b->Err_0@,
        c is Ok <==> endpoint::endpoint_of(u@, s@) is Ok,
        c is Ok ==> {
            let e = endpoint::endpoint_of(u@, s@)->Ok_0;
            c->Ok_0.scheme@ == e.0 && c->Ok_0.host@ == e.1 && c->Ok_0.port == e.2 && c->Ok_0.path@
                == e.3
        },
        c is Err ==> endpoint::endpoint_of(u@, s@)->Err_0 == c->Err_0@,
{
}

/// What a server does with a request is done with the handler that the request names, and with
/// what it gives.
pub proof fn requests_are_dispatched<'a, H: Handlers>(
    s: &'a ServerInner<H>,
    q: &Request,
    d: Dispatched<'a, H>,
)
    requires
        call_ensures(ServerInner::<H>::dispatch, (s, q), d),
    ensures
        ({
            let v = dispatch::dispatched(s, q.method@, wire::opt(q.params));
            &&& v is Answer <==> d is Answer
            &&& v is Fail <==> d is Fail
            &&& v is CallTool <==> d is CallTool
            &&& v is GetPrompt <==> d is GetPrompt
            &&& v is ReadResource <==> d is ReadResource
            &&& v is SetLevel <==> d is SetLevel
            &&& v is Complete <==> d is Complete
            &&& d matches Dispatched::Answer(j) ==> v == DispatchView::Answer(j@)
            &&& d matches Dispatched::Fail(e) ==> v->code == e.code && v->message == e.message@
                && e.data is None
            &&& d matches Dispatched::CallTool { tool, arguments, meta } ==> s.tools@.dom().contains(
                v->CallTool_name,
            ) && *tool == s.tools@[v->CallTool_name] && arguments@ == v->CallTool_arguments
                && wire::opt(meta) == v->CallTool_meta
            &&& d matches Dispatched::GetPrompt { handler, name, arguments, meta } ==> name@
                == v->GetPrompt_name && *handler == s.prompts@[name@].handler && wire::opt(
                arguments,
            ) == v->GetPrompt_arguments && wire::opt(meta) == v->GetPrompt_meta
            &&& d matches Dispatched::ReadResource { handler, uri, meta } ==> uri@ == v->uri
                && *handler == s.resources@[uri@].handler && wire::opt(meta) == v->ReadResource_meta
            &&& d matches Dispatched::SetLevel { handler, level } ==> level@ == v->level
                && s.set_level_handler == Some(*handler)
            &&& d matches Dispatched::Complete { handler, reference, argument, context }
                ==> reference.wire() == v->reference && argument.wire() == v->argument && wire::opt(
                context,
            ) == v->context && s.complete_handler == Some(*handler)
        }),
{
}

/// A tool that is called without arguments is run with an empty object.
pub proof fn missing_arguments_are_an_empty_object<'a, H: Handlers>(
    s: &'a ServerInner<H>,
    q: &Request,
    d: Dispatched<'a, H>,
)
    requires
        call_ensures(ServerInner::<H>::dispatch, (s, q), d),
        q.method@ == "tools/call"@,
        q.params is Some,
        d is CallTool,
    ensures
        ({
            let given = q.params->0@.get("arguments"@);
            &&& given is None || given == Some(JsonView::Null) ==> d->CallTool_arguments@
                == JsonView::Object(seq![])
            &&& given is Some && given != Some(JsonView::Null) ==> d->CallTool_arguments@ == given->0
        }),
{
    crate::laws::names::method_names();
    crate::laws::names::requests_apart();
}

/// A page of tools, or of resources, holds those from its start to its end, in the order of
/// their names, and says where the next begins.
pub proof fn pages_are_listed<H>(
    m: ToolManager<H>,
    n: ResourceManager<H>,
    cursor: Option<&str>,
    a: ListToolsResult,
    b: ListResourcesResult,
    i: int,
)
    requires
        call_ensures(ToolManager::<H>::list_tools, (&m, cursor), a),
        call_ensures(ResourceManager::<H>::list_resources, (&n, cursor), b),
    ensures
        ({
            let c = paging::cursor_text(cursor);
            let len = m.order().len() as int;
            let start = paging::page_start(c, len);
            let end = paging::page_end(start, m.size() as int, len);
            &&& a.tools@.len() == end - start
            &&& 0 <= i < end - start ==> a.tools@[i].name@ == m@[m.order()[start + i]].name@
                && wire::opt(a.tools@[i].input_schema) == wire::opt(
                m@[m.order()[start + i]].input_schema,
            )
            &&& a.next_cursor is Some <==> end < len
            &&& a.next_cursor is Some ==> a.next_cursor->0@ == text::decimal(end)
            &&& a.meta is None
        }),
        ({
            let c = paging::cursor_text(cursor);
            let len = n.order().len() as int;
            let start = paging::page_start(c, len);
            let end = paging::page_end(start, n.size() as int, len);
            &&& b.resources@.len() == end - start
            &&& 0 <= i < end - start ==> b.resources@[i].wire()
                == n@[n.order()[start + i]].info.wire()
            &&& b.next_cursor is Some <==> end < len
            &&& b.next_cursor is Some ==> b.next_cursor->0@ == text::decimal(end)
            &&& b.meta is None
        }),
{
    let x = wire::opt(a.next_cursor);
    let y = wire::opt(b.next_cursor);
    let c = paging::cursor_text(cursor);
    let start = paging::page_start(c, m.order().len() as int);
    if 0 <= i < a.tools@.len() {
        assert(m@[m.order()[start + i]].described_by(a.tools@[i]));
    }
}

/// An HTTP request has the outcome that was said of it, and changes the transport by its effect.
pub proof fn requests_have_outcomes(
    t: &mut StreamableHttpServerTransport,
    q: &HttpRequest,
    has_callback: bool,
    open: bool,
    r: HttpOutcome,
    u: &mut StreamableHttpServerTransport,
    v: StreamableHttpServerTransport,
    id: &str,
    ended: bool,
    streams: bool,
)
    requires
        call_ensures(StreamableHttpServerTransport::handle_request, (t, q, has_callback, open), r),
        call_ensures(StreamableHttpServerTransport::forget_stream, (u,), ()),
        call_ensures(StreamableHttpServerTransport::session_id, (&v,), id),
        call_ensures(StreamableHttpServerTransport::is_terminated, (&v,), ended),
        call_ensures(StreamableHttpServerTransport::has_get_stream, (&v,), streams),
    ensures
        r@ == server::outcome(old(t)@, q@, has_callback, open),
        final(t)@ == server::after(old(t)@, r@.effect),
        !final(u)@.stream && final(u)@.session == old(u)@.session && final(u)@.json == old(u)@.json
            && final(u)@.stateless == old(u)@.stateless && final(u)@.terminated == old(u)@.terminated && final(u)@.next == old(u)@.next,
        id@ == v@.session && ended == v@.terminated && streams == v@.stream,
{
}

/// A message goes out as an event named `message` that carries its text.
pub proof fn messages_go_out_as_events(m: &Message, r: String)
    requires
        call_ensures(server::event_data, (m,), r),
    ensures
        r@ == sse::event_text(EventView { event: Some("message"@), data: message::message_text(m@) }),
{
}

/// The server is reached, and looked up, as was said of its name.
pub proof fn servers_are_reached(
    url: &str,
    name: &str,
    parts: &Result<UrlParts, String>,
    moved: Option<String>,
    a: String,
    b: Option<(String, u16)>,
    t: StreamableHttpClientTransport,
    c: String,
    d: Option<(String, u16)>,
)
    requires
        call_ensures(client::choose_url, (url, name, parts, moved), a),
        call_ensures(client::choose_lookup, (name, parts), b),
        call_ensures(StreamableHttpClientTransport::effective_url, (&t,), c),
        call_ensures(StreamableHttpClientTransport::connect, (&t,), d),
    ensures
        ({
            let named = name@.len() > 0 && *parts is Ok && parts->Ok_0@.scheme == "https"@;
            &&& named && moved is Some ==> a@ == moved->0@
            &&& !named || moved is None ==> a@ == url@
            &&& b is Some <==> named && parts->Ok_0@.host is Some
            &&& b is Some ==> (b->0).0@ == parts->Ok_0@.host->0
            &&& b is Some && parts->Ok_0@.port is Some ==> (b->0).1 == parts->Ok_0@.port->0
            &&& b is Some && parts->Ok_0@.port is None ==> (b->0).1 == 443
        }),
        c@ == client::url_used(
            t@.url,
            t@.server_name,
            endpoint::url_parts(t@.url),
            client::rehosted(t@.url, t@.server_name),
        ),
        client::place_view(d) == client::lookup_wanted(
            t@.server_name,
            endpoint::url_parts(t@.url),
        ),
{
    let u = client::parts_view(*parts);
    let p = client::place_view(b);
}

/// The headers that go out are those that can.
pub proof fn headers_go_out(
    h: &StringMap<String>,
    r: Vec<(String, String)>,
    l: &Vec<(String, String)>,
    s: Vec<(String, String)>,
)
    requires
        call_ensures(client::apply_headers, (h,), r),
        call_ensures(manager::response_headers, (l,), s),
    ensures
        text::pairs(r@) == client::sendable_from(h.order(), string_map::texts(h@), 0),
        text::pairs(s@) == manager::sent_from(text::pairs(l@), 0),
{
}

/// The levels of messages, the roles and the kinds of content have their names.
pub proof fn names_are_given(
    l: LoggingLevel,
    n: &'static str,
    role: RoleType,
    m: &'static str,
    b: ContentBlock,
    k: &'static str,
)
    requires
        call_ensures(LoggingLevel::as_str, (l,), n),
        call_ensures(RoleType::as_str, (role,), m),
        call_ensures(ContentBlock::kind_name, (&b,), k),
    ensures
        l is Debug ==> n@ == "debug"@,
        l is Info ==> n@ == "info"@,
        l is Notice ==> n@ == "notice"@,
        l is Warning ==> n@ == "warning"@,
        l is Error ==> n@ == "error"@,
        l is Critical ==> n@ == "critical"@,
        l is Alert ==> n@ == "alert"@,
        l is Emergency ==> n@ == "emergency"@,
        role is User ==> m@ == "user"@,
        role is Assistant ==> m@ == "assistant"@,
        b is Text ==> k@ == "text"@,
        b is Image ==> k@ == "image"@,
        b is Audio ==> k@ == "audio"@,
        b is ResourceLink ==> k@ == "resource_link"@,
        b is EmbeddedResource ==> k@ == "resource"@,
{
}

/// A token stands for the request whose number or text it is, and a text that is a number for
/// the request of that number; it is told as text.
pub proof fn tokens_stand_for_requests(
    id: &RequestId,
    t: ProgressToken,
    u: ProgressToken,
    back: RequestId,
    w: String,
    n: i64,
    a: ProgressToken,
    s: String,
    b: ProgressToken,
    c: &str,
    d: ProgressToken,
    e: RequestId,
    f: ProgressToken,
)
    requires
        call_ensures(ProgressToken::from_request_id, (id,), t),
        call_ensures(ProgressToken::to_request_id, (&u,), back),
        call_ensures(ProgressToken::to_text, (&u,), w),
        call_ensures(<ProgressToken as From<i64>>::from, (n,), a),
        call_ensures(<ProgressToken as From<String>>::from, (s,), b),
        call_ensures(<ProgressToken as From<&str>>::from, (c,), d),
        call_ensures(<ProgressToken as From<RequestId>>::from, (e,), f),
    ensures
        t.wire() == id.wire(),
        u matches ProgressToken::Number(k) ==> back == RequestId::Number(k) && w@ == text::decimal(
            k as int,
        ),
        u matches ProgressToken::String(x) ==> w@ == x@,
        u matches ProgressToken::String(x) ==> (text::parsed_i64(x@) is Some ==> back
            == RequestId::Number(text::parsed_i64(x@)->0 as i64)),
        u matches ProgressToken::String(x) ==> (text::parsed_i64(x@) is None ==> back is String
            && back->String_0@ == x@),
        a == ProgressToken::Number(n),
        b == ProgressToken::String(s),
        d is String && d->String_0@ == c@,
        e is Number ==> f == ProgressToken::Number(e->Number_0),
        e is String ==> f == ProgressToken::String(e->String_0),
{
}

/// The metadata of a request are read from its parameters, and a version is one of those that
/// are supported.
pub proof fn parameters_are_looked_at(
    p: &Option<Json>,
    r: Option<RequestParamsMeta>,
    v: &str,
    ok: bool,
)
    requires
        call_ensures(progress::progress_meta, (p,), r),
        call_ensures(protocol::is_supported_protocol_version, (v,), ok),
    ensures
        wire::opt(r) == progress::meta_of(wire::opt(*p)),
        ok <==> v@ == "2025-03-26"@ || v@ == "2025-06-18"@,
{
    crate::laws::names::supported(v@);
}

/// Errors tell their number, words and data, and are made of them.
pub proof fn errors_tell(
    e: McpError,
    code: Option<i64>,
    kind: Option<JsonRpcErrorCode>,
    words: String,
    data: Option<&Json>,
    peer: bool,
    told: RpcError,
    n: i64,
    m: String,
    k: JsonRpcErrorCode,
    a: McpError,
    b: McpError,
    c: McpError,
    d: McpError,
    number: i64,
    read: Option<JsonRpcErrorCode>,
    x: RpcError,
    y: McpError,
)
    requires
        call_ensures(McpError::code, (&e,), code),
        call_ensures(McpError::code_enum, (&e,), kind),
        call_ensures(McpError::message, (&e,), words),
        call_ensures(McpError::data, (&e,), data),
        call_ensures(McpError::is_rpc, (&e,), peer),
        call_ensures(McpError::to_rpc_error, (&e,), told),
        call_ensures(McpError::rpc, (n, m), a),
        call_ensures(McpError::rpc_code, (k, m), b),
        call_ensures(McpError::state, (m,), c),
        call_ensures(McpError::argument, (m,), d),
        call_ensures(JsonRpcErrorCode::code, (k,), number),
        call_ensures(JsonRpcErrorCode::from_code, (n,), read),
        call_ensures(<McpError as From<RpcError>>::from, (x,), y),
    ensures
        e matches McpError::Rpc(i) ==> code == Some(i.code) && words@ == i.message@ && peer
            && told.code == i.code && told.message@ == i.message@ && kind
            == JsonRpcErrorCode::numbered(i.code as int),
        e matches McpError::Rpc(i) ==> (data is Some <==> i.data is Some) && (data is Some ==> i.data
            == Some(*data->0)) && wire::opt(told.data) == wire::opt(i.data),
        !(e is Rpc) ==> code is None && kind is None && data is None && !peer && told.data is None
            && told.message@ == words@ && words@ == e.told(),
        e is InvalidArgument || e is Validation ==> told.code == -32602,
        !(e is Rpc) && !(e is InvalidArgument) && !(e is Validation) ==> told.code == -32603,
        a is Rpc && a->Rpc_0.code == n && a->Rpc_0.message == m && a->Rpc_0.data is None,
        b is Rpc && b->Rpc_0.code == k.number() && b->Rpc_0.message == m && b->Rpc_0.data is None,
        c == McpError::InvalidState(m),
        d == McpError::InvalidArgument(m),
        number == k.number(),
        read == JsonRpcErrorCode::numbered(n as int),
        y == McpError::Rpc(x),
{
    crate::laws::names::error_words(e);
}

} // verus!
