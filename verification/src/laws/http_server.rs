//! What a server makes of each request that reaches it over HTTP.
use vstd::prelude::*;

use crate::error::McpError;
use crate::json;
use crate::json::{JsonView, NumberView};
use crate::jsonrpc::Message;
use crate::laws::names;
use crate::protocol::message;
use crate::protocol::message::{MessageView, ParseErrorView, PayloadView};
use crate::text;
use crate::transport::RequestContext;
use crate::transport::http_message::RequestView;
use crate::transport::sink;
use crate::transport::sink::ResponseSink;
use crate::transport::sse;
use crate::transport::streamable_http_server::{
    EffectView, OutcomeView, SendRoute, StreamableHttpServerTransport, TransportView,
};
use crate::transport::streamable_http_server as server;

verus! {

/// The body that tells of an error: an error of the message format to nobody in particular.
pub open spec fn told(code: int, message: Seq<char>) -> Seq<char> {
    json::compact_text(
        JsonView::Object(
            seq![
                json::member("jsonrpc"@, JsonView::String("2.0"@)),
                json::member("id"@, JsonView::String("server-error"@)),
                json::member(
                    "error"@,
                    JsonView::Object(
                        seq![
                            json::member("code"@, JsonView::Number(NumberView::Whole(code))),
                            json::member("message"@, JsonView::String(message)),
                        ],
                    ),
                ),
            ],
        ).normal(),
    )
}

/// The request is answered with this status and an error, as JSON, and nothing else is done.
pub open spec fn refused(o: OutcomeView, status: int, code: int, message: Seq<char>) -> bool {
    &&& o.effect is Nothing
    &&& o.reply is Full
    &&& o.reply->Full_0.status == status
    &&& o.reply->Full_0.body == told(code, message)
    &&& o.reply->Full_0.headers.contains(("content-type"@, "application/json"@))
}

/// What is told of an error is the error of the message format.
pub proof fn error_told(code: int, message: Seq<char>)
    ensures
        json::compact_text(server::error_body(message, code).normal()) == told(code, message),
{
    let e = server::error_body(message, code)->Object_0;
    let inner = e[2].value->Object_0;
    assert(inner =~= seq![
        json::member("code"@, JsonView::Number(NumberView::Whole(code))),
        json::member("message"@, JsonView::String(message)),
    ]);
    assert(e =~= seq![
        json::member("jsonrpc"@, JsonView::String("2.0"@)),
        json::member("id"@, JsonView::String("server-error"@)),
        json::member("error"@, JsonView::Object(inner)),
    ]);
}

proof fn error_answered(
    s: TransportView,
    message: Seq<char>,
    status: int,
    code: int,
    extra: Seq<(Seq<char>, Seq<char>)>,
)
    ensures
        refused(
            server::answered(server::error_answer(s, message, status, code, extra)),
            status,
            code,
            message,
        ),
        forall|i: int|
            0 <= i < extra.len() ==> server::error_answer(
                s,
                message,
                status,
                code,
                extra,
            ).headers.contains(#[trigger] extra[i]),
{
    error_told(code, message);
    names::header_names();
    let h = server::error_answer(s, message, status, code, extra).headers;
    assert(h[extra.len() as int] == ("content-type"@, "application/json"@));
    assert forall|i: int| 0 <= i < extra.len() implies h.contains(#[trigger] extra[i]) by {
        assert(h[i] == extra[i]);
    }
}

/// A request is taken by its method: a session that has ended takes none, one in which every
/// request stands for itself takes posts only, and one that lasts takes posts, gets and deletes.
pub proof fn methods_taken(
    s: TransportView,
    r: RequestView,
    has_callback: bool,
    stream_open: bool,
)
    ensures
        ({
            let o = server::outcome(s, r, has_callback, stream_open);
            &&& s.stateless && r.method != "POST"@ ==> refused(
                o,
                405,
                -32600,
                "Method Not Allowed"@,
            ) && o.reply->Full_0.headers.contains(("allow"@, "POST"@))
            &&& s.terminated && !(s.stateless && r.method != "POST"@) ==> refused(
                o,
                404,
                -32600,
                "Not Found: Session has been terminated"@,
            )
            &&& !s.terminated && !s.stateless && r.method != "POST"@ && r.method != "GET"@
                && r.method != "DELETE"@ ==> refused(o, 405, -32600, "Method Not Allowed"@)
                && o.reply->Full_0.headers.contains(("allow"@, "GET, POST, DELETE"@))
            &&& o.effect is Deliver ==> r.method == "POST"@ && !s.terminated
            &&& o.effect is Attach ==> r.method == "GET"@ && !s.terminated && !s.stateless
            &&& o.effect is Terminate ==> r.method == "DELETE"@ && !s.terminated && !s.stateless
        }),
{
    names::header_names();
    method_words();
    error_answered(s, "Method Not Allowed"@, 405, -32600, seq![("allow"@, "POST"@)]);
    error_answered(s, "Method Not Allowed"@, 405, -32600, seq![("allow"@, "GET, POST, DELETE"@)]);
    error_answered(s, "Not Found: Session has been terminated"@, 404, -32600, seq![]);
    let one = seq![("allow"@, "POST"@)];
    let three = seq![("allow"@, "GET, POST, DELETE"@)];
    assert(one[0] == ("allow"@, "POST"@));
    assert(three[0] == ("allow"@, "GET, POST, DELETE"@));
}

proof fn method_words()
    ensures
        "POST"@.len() == 4,
        "GET"@.len() == 3,
        "DELETE"@.len() == 6,
{
    reveal_strlit("POST");
    reveal_strlit("GET");
    reveal_strlit("DELETE");
}

/// The header, in lowercase, and an empty text where it is missing.
pub open spec fn header(r: RequestView, k: Seq<char>) -> Seq<char> {
    if r.headers.dom().contains(k) {
        r.headers[k]
    } else {
        seq![]
    }
}

/// The version that the request names is supported; a request that names none is of the
/// earlier version.
pub open spec fn version_taken(r: RequestView) -> bool {
    let v = r.headers["mcp-protocol-version"@];
    !r.headers.dom().contains("mcp-protocol-version"@) || v == "2025-03-26"@ || v == "2025-06-18"@
}

/// The request takes the answers that a post gets and posts JSON.
pub open spec fn accepts(s: TransportView, r: RequestView) -> bool {
    &&& text::occurs(header(r, "accept"@), "application/json"@)
    &&& !s.json ==> text::occurs(header(r, "accept"@), "text/event-stream"@)
}

/// The request names the session, or need not.
pub open spec fn names_session(s: TransportView, r: RequestView) -> bool {
    s.session.len() == 0 || header(r, "mcp-session-id"@) == s.session
}

/// A post is refused that does not take the answers it would get, that does not post JSON, that
/// is no JSON, that names another session or none, unless it opens one, or that is of a version
/// which is not supported; and each refusal says why.
pub proof fn posts_refused(s: TransportView, r: RequestView, stream_open: bool)
    requires
        r.method == "POST"@,
        !s.terminated,
    ensures
        ({
            let o = server::outcome(s, r, true, stream_open);
            let j = json::parsed(r.body);
            let headers_done = accepts(s, r) && text::occurs(
                header(r, "content-type"@),
                "application/json"@,
            );
            let known = j is Ok && (server::is_initialization(j->Ok_0) || names_session(s, r));
            &&& !accepts(s, r) && s.json ==> refused(
                o,
                406,
                -32600,
                "Not Acceptable: Client must accept application/json"@,
            )
            &&& !accepts(s, r) && !s.json ==> refused(
                o,
                406,
                -32600,
                "Not Acceptable: Client must accept both application/json and text/event-stream"@,
            )
            &&& accepts(s, r) && !headers_done ==> refused(
                o,
                415,
                -32600,
                "Unsupported Media Type: Content-Type must be application/json"@,
            )
            &&& headers_done && j is Err ==> refused(o, 400, -32700, "Parse error: "@ + j->Err_0)
            &&& headers_done && j is Ok && !known && header(r, "mcp-session-id"@).len() == 0
                ==> refused(o, 400, -32600, "Bad Request: Missing session ID"@)
            &&& headers_done && j is Ok && !known && header(r, "mcp-session-id"@).len() > 0
                ==> refused(o, 404, -32600, "Not Found: Invalid or expired session ID"@)
            &&& headers_done && known && !version_taken(r) ==> refused(
                o,
                400,
                -32600,
                "Bad Request: Unsupported protocol version: "@
                    + r.headers["mcp-protocol-version"@] + ". Supported versions: "@
                    + "2025-03-26, 2025-06-18"@,
            )
            &&& headers_done && known && version_taken(r) ==> match message::payload(j->Ok_0) {
                Ok(PayloadView::Single(m)) => o == server::posted(s, seq![m], false),
                Ok(PayloadView::Batch(ms)) => o == server::posted(s, ms, true),
                Err(e) => o == server::misposted(s, e),
            }
        }),
{
    names::header_names();
    names::versions();
    method_words();
    let v = r.headers["mcp-protocol-version"@];
    names::supported(v);
    names::supported("2025-03-26"@);
    assert(header(r, "accept"@) =~= r.given("accept"@));
    assert(header(r, "content-type"@) =~= r.given("content-type"@));
    assert(header(r, "mcp-session-id"@) =~= r.given("mcp-session-id"@));
    error_answered(
        s,
        "Not Acceptable: Client must accept application/json"@,
        406,
        -32600,
        seq![],
    );
    error_answered(
        s,
        "Not Acceptable: Client must accept both application/json and text/event-stream"@,
        406,
        -32600,
        seq![],
    );
    error_answered(
        s,
        "Unsupported Media Type: Content-Type must be application/json"@,
        415,
        -32600,
        seq![],
    );
    error_answered(s, "Bad Request: Missing session ID"@, 400, -32600, seq![]);
    error_answered(s, "Not Found: Invalid or expired session ID"@, 404, -32600, seq![]);
    error_answered(
        s,
        "Bad Request: Unsupported protocol version: "@ + v + ". Supported versions: "@
            + "2025-03-26, 2025-06-18"@,
        400,
        -32600,
        seq![],
    );
    match json::parsed(r.body) {
        Err(e) => error_answered(s, "Parse error: "@ + e, 400, -32700, seq![]),
        Ok(j) => {},
    }
}

/// A post opens a session where it calls `initialize`, or one of several that it holds does.
pub proof fn posts_that_open(j: JsonView)
    ensures
        !(j is Array) ==> (server::is_initialization(j) <==> j.get("method"@) == Some(
            JsonView::String("initialize"@),
        )),
        j matches JsonView::Array(a) ==> (server::is_initialization(j) <==> exists|i: int|
            0 <= i < a.len() && (#[trigger] a[i]).get("method"@) == Some(
                JsonView::String("initialize"@),
            )),
{
    names::method_names();
    match j {
        JsonView::Array(a) => {
            if server::is_initialization(j) {
                let i = choose|i: int| 0 <= i < a.len() && server::initializes(#[trigger] a[i]);
                assert(a[i].get("method"@) == Some(JsonView::String("initialize"@)));
            }
            if exists|i: int|
                0 <= i < a.len() && (#[trigger] a[i]).get("method"@) == Some(
                    JsonView::String("initialize"@),
                ) {
                let i = choose|i: int|
                    0 <= i < a.len() && (#[trigger] a[i]).get("method"@) == Some(
                        JsonView::String("initialize"@),
                    );
                assert(server::initializes(a[i]));
            }
        },
        _ => {},
    }
}

/// One of the messages is a request.
pub open spec fn holds_request(ms: Seq<MessageView>) -> bool {
    exists|i: int| 0 <= i < ms.len() && (#[trigger] ms[i]) is Request
}

proof fn requests_counted(ms: Seq<MessageView>)
    ensures
        server::request_count(ms) > 0 <==> holds_request(ms),
        server::request_count(ms) <= ms.len(),
    decreases ms.len(),
{
    if ms.len() > 0 {
        requests_counted(ms.drop_last());
        if holds_request(ms) && !(ms.last() is Request) {
            let i = choose|i: int| 0 <= i < ms.len() && (#[trigger] ms[i]) is Request;
            assert(ms.drop_last()[i] is Request);
        }
        if holds_request(ms.drop_last()) {
            let i = choose|i: int|
                0 <= i < ms.drop_last().len() && (#[trigger] ms.drop_last()[i]) is Request;
            assert(ms[i] is Request);
        }
        if ms.last() is Request {
            assert(ms[ms.len() - 1] is Request);
        }
    }
}

/// Every message of a post that is taken reaches the session, in order. Where there is no
/// request among them the post is answered with 202 at once, and otherwise once every request
/// is answered: as JSON, or on a stream of events.
pub proof fn posts_delivered(s: TransportView, ms: Seq<MessageView>, batch: bool, i: int)
    ensures
        ({
            let o = server::posted(s, ms, batch);
            let d = o.effect->Deliver_0;
            &&& o.effect is Deliver
            &&& d.messages.len() == ms.len()
            &&& 0 <= i < ms.len() ==> d.messages[i].0 == ms[i]
            &&& d.session == s.session
            &&& d.connection == s.next
            &&& !holds_request(ms) ==> d.sink is None && o.reply is Full
                && o.reply->Full_0.status == 202 && o.reply->Full_0.body.len() == 0
            &&& holds_request(ms) ==> d.sink is Some && d.sink->0.expected
                == server::request_count(ms)
            &&& holds_request(ms) && s.json ==> o.reply is Deferred && d.sink->0.json
            &&& holds_request(ms) && !s.json ==> o.reply is Stream && o.reply->status == 200
                && !d.sink->0.json && o.reply->headers.contains(
                ("content-type"@, "text/event-stream"@),
            )
            &&& holds_request(ms) && 0 <= i < ms.len() && ms[i] is Request ==> d.messages[i].1
                == ms[i]->Request_method
        }),
{
    requests_counted(ms);
    names::header_names();
    let h = server::sse_headers(s, true);
    assert(h[0] == ("content-type"@, "text/event-stream"@));
}

/// What is posted and is no message: a call that is malformed is answered with the error at
/// once, and anything else is accepted and reaches the session as the error that it is.
pub proof fn posts_misread(s: TransportView, e: ParseErrorView)
    ensures
        ({
            let o = server::misposted(s, e);
            let told = MessageView::Response {
                to: Some(e.told_id()),
                result: None,
                error: Some(e.told()),
            };
            let call = e is InvalidMessage && e->has_method;
            &&& call ==> o.effect is Nothing && o.reply is Full && o.reply->Full_0.body
                == message::message_text(told) && o.reply->Full_0.status == if s.json {
                200int
            } else {
                400
            }
            &&& !call ==> o.effect is Deliver && o.effect->Deliver_0.sink is None
                && o.effect->Deliver_0.messages.len() == 1 && o.effect->Deliver_0.messages[0].0
                == told && o.reply is Full && o.reply->Full_0.status == 202
        }),
{
}

/// The client's own stream is opened where the client takes events, names its session, is of a
/// version that is supported and has none open; and otherwise it is told why not.
pub proof fn streams_opened(s: TransportView, r: RequestView, stream_open: bool)
    requires
        r.method == "GET"@,
        !s.terminated,
        !s.stateless,
    ensures
        ({
            let o = server::outcome(s, r, true, stream_open);
            let takes = text::occurs(header(r, "accept"@), "text/event-stream"@);
            &&& !takes ==> refused(
                o,
                406,
                -32600,
                "Not Acceptable: Client must accept text/event-stream"@,
            )
            &&& takes && !names_session(s, r) ==> refused(
                o,
                400,
                -32600,
                "Bad Request: Invalid session ID"@,
            )
            &&& takes && names_session(s, r) && !version_taken(r) ==> refused(
                o,
                400,
                -32600,
                "Bad Request: Unsupported protocol version: "@
                    + r.headers["mcp-protocol-version"@] + ". Supported versions: "@
                    + "2025-03-26, 2025-06-18"@,
            )
            &&& takes && names_session(s, r) && version_taken(r) && s.stream && stream_open
                ==> refused(
                o,
                409,
                -32600,
                "Conflict: Only one SSE stream is allowed per session"@,
            )
            &&& takes && names_session(s, r) && version_taken(r) && !(s.stream && stream_open)
                ==> o.effect is Attach && o.reply is Stream && o.reply->status == 200
                && o.reply->headers.contains(("content-type"@, "text/event-stream"@))
            &&& o.effect is Attach ==> server::after(s, o.effect).stream
        }),
{
    names::header_names();
    names::versions();
    method_words();
    let v = r.headers["mcp-protocol-version"@];
    names::supported(v);
    names::supported("2025-03-26"@);
    assert(header(r, "accept"@) =~= r.given("accept"@));
    assert(header(r, "mcp-session-id"@) =~= r.given("mcp-session-id"@));
    error_answered(
        s,
        "Not Acceptable: Client must accept text/event-stream"@,
        406,
        -32600,
        seq![],
    );
    error_answered(s, "Bad Request: Invalid session ID"@, 400, -32600, seq![]);
    error_answered(
        s,
        "Conflict: Only one SSE stream is allowed per session"@,
        409,
        -32600,
        seq![],
    );
    error_answered(
        s,
        "Bad Request: Unsupported protocol version: "@ + v + ". Supported versions: "@
            + "2025-03-26, 2025-06-18"@,
        400,
        -32600,
        seq![],
    );
    let h = server::sse_headers(s, false);
    assert(h[0] == ("content-type"@, "text/event-stream"@));
}

/// A session is ended by the one who names it. One that is none cannot be ended.
pub proof fn sessions_ended(s: TransportView, r: RequestView, stream_open: bool)
    requires
        r.method == "DELETE"@,
        !s.terminated,
        !s.stateless,
    ensures
        ({
            let o = server::outcome(s, r, true, stream_open);
            let named = header(r, "mcp-session-id"@);
            &&& s.session.len() == 0 ==> refused(
                o,
                405,
                -32600,
                "Method Not Allowed: Session termination not supported"@,
            )
            &&& s.session.len() > 0 && named != s.session ==> refused(
                o,
                400,
                -32600,
                "Bad Request: Invalid session ID"@,
            )
            &&& s.session.len() > 0 && named == s.session ==> o.effect is Terminate
                && o.reply is Full && o.reply->Full_0.status == 200 && o.reply->Full_0.body.len()
                == 0
            &&& o.effect is Terminate ==> server::after(s, o.effect).terminated && server::after(
                s,
                o.effect,
            ).session.len() == 0 && !server::after(s, o.effect).stream
        }),
{
    names::header_names();
    method_words();
    assert(header(r, "mcp-session-id"@) =~= r.given("mcp-session-id"@));
    error_answered(
        s,
        "Method Not Allowed: Session termination not supported"@,
        405,
        -32600,
        seq![],
    );
    error_answered(s, "Bad Request: Invalid session ID"@, 400, -32600, seq![]);
}

/// Every answer of a session names it.
pub proof fn session_is_named(
    s: TransportView,
    message: Seq<char>,
    status: int,
    code: int,
    extra: Seq<(Seq<char>, Seq<char>)>,
    body: Seq<char>,
    with_accel: bool,
)
    requires
        s.session.len() > 0,
    ensures
        server::error_answer(s, message, status, code, extra).headers.contains(
            ("mcp-session-id"@, s.session),
        ),
        server::json_answer(s, body, status).headers.contains(("mcp-session-id"@, s.session)),
        server::sse_headers(s, with_accel).contains(("mcp-session-id"@, s.session)),
        server::sse_headers(s, with_accel).contains(("cache-control"@, "no-cache, no-transform"@)),
        server::sse_headers(s, with_accel).contains(("connection"@, "keep-alive"@)),
{
    names::header_names();
    let a = server::error_answer(s, message, status, code, extra).headers;
    assert(a.last() == ("mcp-session-id"@, s.session));
    let b = server::json_answer(s, body, status).headers;
    assert(b.last() == ("mcp-session-id"@, s.session));
    let c = server::sse_headers(s, with_accel);
    assert(c.last() == ("mcp-session-id"@, s.session));
    assert(c[1] == ("cache-control"@, "no-cache, no-transform"@));
    assert(c[2] == ("connection"@, "keep-alive"@));
}

/// Nothing but the effect of a request changes the session: connections are numbered on, a
/// stream of the client's own is noted, and an ended session stays ended.
pub proof fn effects(s: TransportView, e: EffectView)
    ensures
        e is Nothing ==> server::after(s, e) == s,
        e is Deliver ==> server::after(s, e) == (TransportView {
            next: server::after(s, e).next,
            ..s
        }),
        e is Deliver && s.next < i64::MAX ==> server::after(s, e).next == s.next + 1,
        e is Attach ==> server::after(s, e) == (TransportView { stream: true, ..s }),
        e is Terminate ==> server::after(s, e).terminated,
        s.terminated ==> server::after(s, e).terminated,
{
}

/// A server side is made of an identity of visible characters only, and it has neither ended
/// nor a stream.
pub proof fn server_side_starts(
    id: &str,
    json: bool,
    stateless: bool,
    r: Result<StreamableHttpServerTransport, McpError>,
)
    requires
        call_ensures(StreamableHttpServerTransport::new, (id, json, stateless), r),
    ensures
        r is Ok <==> forall|i: int| 0 <= i < id@.len() ==> '!' <= #[trigger] id@[i] <= '~',
        r matches Ok(t) ==> t@.session == id@ && t@.json == json && t@.stateless == stateless
            && !t@.terminated && !t@.stream && t@.next == 1,
        r matches Err(e) ==> e is InvalidArgument && e.told()
            == "Session ID must only contain visible ASCII characters (0x21-0x7E)"@,
{
}

/// What the session sends on its own account goes out on the client's own stream, and waits for
/// it for a while. A response goes where the request came from: to the collected answer, or on
/// its stream of events.
pub proof fn messages_routed<S>(
    t: StreamableHttpServerTransport,
    m: Message,
    ctx: RequestContext<S>,
    sink_is_json: bool,
    waited: bool,
    r: Result<SendRoute, McpError>,
)
    requires
        call_ensures(
            StreamableHttpServerTransport::send_message::<S>,
            (&t, &m, &ctx, sink_is_json, waited),
            r,
        ),
    ensures
        ({
            let own = ctx.is_get_stream || ctx.connection_id == 0;
            let collects = t@.json && sink_is_json;
            &&& own && t@.stream ==> r is Ok && r->Ok_0 is OwnStream
            &&& own && !t@.stream && !t@.terminated && !waited ==> r is Ok && r->Ok_0 is Wait
            &&& own && !t@.stream && (t@.terminated || waited) ==> r is Err && r->Err_0.told()
                == "SSE stream request context not set"@
            &&& !own && ctx.sink is None ==> r is Err && r->Err_0.told()
                == "HTTP callback not set"@
            &&& !own && ctx.sink is Some && collects && m is Response ==> r is Ok
                && r->Ok_0 is Collect && r->Ok_0->Collect_0@ == message::written(m@)
            &&& !own && ctx.sink is Some && collects && !(m is Response) ==> r is Ok
                && r->Ok_0 is Drop
            &&& !own && ctx.sink is Some && !collects ==> r is Ok && r->Ok_0 is Frame
            &&& r matches Ok(SendRoute::Frame(x)) ==> x@ == sse::event_text(
                sse::EventView { event: Some("message"@), data: message::message_text(m@) },
            )
            &&& r matches Ok(SendRoute::OwnStream(x)) ==> x@ == sse::event_text(
                sse::EventView { event: Some("message"@), data: message::message_text(m@) },
            )
        }),
{
}

/// A stream that answers a request ends with the last response that is due, and goes on where a
/// message is no response.
pub proof fn stream_ends_with_last_response(
    sink: &mut ResponseSink,
    m: Message,
    open: bool,
    r: Result<bool, McpError>,
)
    requires
        call_ensures(server::frame_written, (sink, &m, open), r),
    ensures
        r is Ok <==> !old(sink)@.json && open,
        r matches Ok(ends) ==> (ends <==> m is Response && old(sink)@.expected <= 1),
        r is Ok && !(m is Response) ==> final(sink)@ == old(sink)@,
        r is Ok && m is Response && old(sink)@.expected > 0 ==> final(sink)@.expected == old(sink)@.expected - 1,
        r is Err ==> *final(sink) == *old(sink),
{
}

/// Ending a session ends it whatever state it is in, and tells whether a stream ends with it.
pub proof fn session_ends(t: &mut StreamableHttpServerTransport, r: bool)
    requires
        call_ensures(StreamableHttpServerTransport::terminate, (t,), r),
    ensures
        r == old(t)@.stream,
        final(t)@.terminated,
        !final(t)@.stream,
        final(t)@.session.len() == 0,
        final(t)@.json == old(t)@.json,
{
}

} // verus!
