//! The HTTP transport of a client as a whole: what it is made with, what it sends, and what it
//! keeps of the answers.
use vstd::prelude::*;

use crate::auth::{AuthProvider, BearerTokenProvider};
use crate::error::{JsonRpcErrorCode, McpError};
use crate::jsonrpc::{Message, RequestId};
use crate::laws::names;
use crate::protocol::message;
use crate::protocol::message::{MessageView, ParseErrorView};
use crate::string_map;
use crate::string_map::StringMap;
use crate::text;
use crate::transport::http_message;
use crate::transport::sse;
use crate::transport::sse::{SseEvent, SseParser};
use crate::transport::streamable_http_client::{
    BodyStep, PostReply, PostStep, Posting, Received, StreamableHttpClientTransport,
};
use crate::transport::streamable_http_client as client;
use crate::types::config::TlsConfig;
use crate::wire;
use crate::wire::Wire;

verus! {

/// A transport is made where both times to wait may be taken; it starts without a session, and
/// says what it was given beside what every request says.
pub proof fn transport_is_made(
    url: String,
    headers: StringMap<String>,
    timeout: u64,
    sse_timeout: u64,
    tls: TlsConfig,
    r: Result<StreamableHttpClientTransport, McpError>,
    k: Seq<char>,
)
    requires
        call_ensures(
            StreamableHttpClientTransport::new,
            (url, headers, timeout, sse_timeout, tls),
            r,
        ),
    ensures
        r is Ok <==> 1 <= timeout <= 1_800_000 && 1 <= sse_timeout <= 1_800_000,
        timeout == 0 || timeout > 1_800_000 ==> r->Err_0.faults_argument("Invalid timeout value"@),
        1 <= timeout <= 1_800_000 && r is Err ==> r->Err_0.faults_argument(
            "Invalid SSE read timeout value"@,
        ),
        r is Ok ==> {
            let t = r->Ok_0@;
            let given = string_map::texts(headers@);
            &&& t.url == url@ && t.timeout == timeout && t.sse_timeout == sse_timeout
            &&& t.server_name == tls.server_name@ && r->Ok_0.encryption() == tls
            &&& t.session.len() == 0 && t.version.len() == 0 && t.running
            &&& given.dom().contains(k) ==> t.headers.dom().contains(k) && t.headers[k] == given[k]
            &&& !given.dom().contains(k) && k == "accept"@ ==> t.headers.dom().contains(k)
                && t.headers[k] == "application/json"@ + ", "@ + "text/event-stream"@
            &&& !given.dom().contains(k) && k == "content-type"@ ==> t.headers.dom().contains(k)
                && t.headers[k] == "application/json"@
            &&& !given.dom().contains(k) && k != "accept"@ && k != "content-type"@
                ==> !t.headers.dom().contains(k)
        },
{
    names::header_names();
    names::headers_apart();
}

/// An answer changes the session and nothing else, and is dealt with by what it says.
pub proof fn answer_is_taken(
    t: &mut StreamableHttpClientTransport,
    method: &Option<String>,
    reply: PostReply,
    r: PostStep,
)
    requires
        call_ensures(StreamableHttpClientTransport::post_answered, (t, method, reply), r),
    ensures
        r@ == client::post_step(reply),
        reply is Response ==> (r is Done <==> reply->status == 202),
        reply is Response && (reply->status < 200 || reply->status >= 300) ==> r is Report
            && r->code == JsonRpcErrorCode::InvalidRequest,
        !(reply is Response) ==> r is Report && r->code == JsonRpcErrorCode::InternalError
            && final(t)@ == old(t)@,
        reply is Response && reply->session_id is Some && reply->session_id->0@.len() > 0 && 200
            <= reply->status < 300 && reply->status != 202 && *method is Some && method->0@
            == "initialize"@ ==> final(t)@.session == reply->session_id->0@,
        reply is Response && (reply->session_id is None || reply->session_id->0@.len() == 0
            || reply->status < 200 || reply->status >= 300 || reply->status == 202
            || *method is None || method->0@ != "initialize"@) ==> final(t)@ == old(t)@,
        final(t)@.url == old(t)@.url && final(t)@.headers == old(t)@.headers,
        final(t)@.timeout == old(t)@.timeout && final(t)@.sse_timeout == old(t)@.sse_timeout,
        final(t)@.server_name == old(t)@.server_name && final(t)@.version == old(t)@.version,
        final(t)@.running == old(t)@.running && final(t).encryption() == old(t).encryption(),
{
    names::method_names();
}

/// A message is posted as its text while the transport runs; a request is remembered by its
/// identity and method, and the notification that opens a session starts the stream of events
/// where the session has an identity.
pub proof fn message_is_posted(
    t: StreamableHttpClientTransport,
    m: &Message,
    r: Result<Posting, McpError>,
    opens: bool,
)
    requires
        call_ensures(StreamableHttpClientTransport::send_message, (&t, m), r),
        call_ensures(StreamableHttpClientTransport::start_get_stream, (&t,), opens),
    ensures
        r is Ok <==> t@.running,
        r is Err ==> r->Err_0.faults_transport("HttpClientService is not running"@),
        r is Ok ==> {
            let p = r->Ok_0;
            &&& p.body@ == message::message_text(m@)
            &&& m@ matches MessageView::Request { id, method, params } ==> p.request_id is Some
                && p.request_id->0.wire() == id && p.method is Some && p.method->0@ == method
                && !p.start_stream
            &&& m@ matches MessageView::Notification { method, params } ==> p.request_id is None
                && p.method is None && (p.start_stream <==> method == "notifications/initialized"@
                && t@.session.len() > 0)
            &&& m@ is Response ==> p.request_id is None && p.method is None && !p.start_stream
        },
        opens <==> t@.session.len() > 0,
{
    names::method_names();
    if r is Ok {
        let p = r->Ok_0;
        assert(wire::opt(p.request_id) is Some <==> p.request_id is Some);
        assert(client::text_of(p.method) is Some <==> p.method is Some);
    }
}

/// A body is read as a message, and what it is instead is reported.
pub proof fn body_is_read(body: Result<String, String>, r: BodyStep)
    requires
        call_ensures(client::read_body, (body,), r),
    ensures
        r is Deliver <==> body is Ok && message::message_of(body->Ok_0@) is Ok,
        r is Deliver ==> r->0@ == message::message_of(body->Ok_0@)->Ok_0,
        r is Report ==> r->code == JsonRpcErrorCode::InternalError,
        body is Err ==> r->message@ == "HTTP request failed: "@ + body->Err_0@,
        body is Ok ==> (message::message_of(body->Ok_0@) matches Err(ParseErrorView::InvalidJson(w))
            ==> r->message@ == "Failed to parse response: "@ + ("invalid JSON: "@ + w)),
{
}

/// The one who asked is told of a failure with the identity of what was asked, unless that is
/// zero or there is none.
pub proof fn asker_is_told(
    id: &Option<RequestId>,
    code: JsonRpcErrorCode,
    words: String,
    r: Option<Message>,
)
    requires
        call_ensures(client::report_error, (id, code, words), r),
    ensures
        r is Some <==> *id is Some && id->0 != RequestId::Number(0),
        r is Some ==> {
            let m = r->0@;
            &&& m is Response
            &&& m->to == Some(id->0.wire())
            &&& m->result is None
            &&& m->error is Some && m->error->0.code == code.number() && m->error->0.message
                == words@ && m->error->0.data is None
        },
{
}

/// The version of the protocol is kept from the answer that opens the session, and from no other.
pub proof fn version_is_kept(
    t: &mut StreamableHttpClientTransport,
    m: &Message,
    opens: bool,
)
    requires
        call_ensures(StreamableHttpClientTransport::message_received, (t, m, opens), ()),
    ensures
        opens && client::version_told(m@) is Some ==> final(t)@.version == client::version_told(
            m@,
        )->0,
        !opens || client::version_told(m@) is None ==> final(t)@.version == old(t)@.version,
        final(t)@.url == old(t)@.url && final(t)@.headers == old(t)@.headers,
        final(t)@.timeout == old(t)@.timeout && final(t)@.sse_timeout == old(t)@.sse_timeout,
        final(t)@.session == old(t)@.session && final(t)@.running == old(t)@.running,
        final(t).encryption() == old(t).encryption(),
{
}

/// A transport that ended has neither a session nor a version, and runs no more.
pub proof fn transport_ends(t: &mut StreamableHttpClientTransport)
    requires
        call_ensures(StreamableHttpClientTransport::terminate, (t,), ()),
    ensures
        final(t)@.session.len() == 0 && final(t)@.version.len() == 0 && !final(t)@.running,
        final(t)@.url == old(t)@.url && final(t)@.headers == old(t)@.headers,
        final(t)@.timeout == old(t)@.timeout && final(t)@.sse_timeout == old(t)@.sse_timeout,
        final(t).encryption() == old(t).encryption(),
{
}

/// What a transport tells of itself is what it holds.
pub proof fn transport_tells(
    t: StreamableHttpClientTransport,
    session: &str,
    version: &str,
    runs: bool,
    a: u64,
    b: u64,
    tls: &TlsConfig,
    opened: bool,
    status: u16,
)
    requires
        call_ensures(StreamableHttpClientTransport::session_id, (&t,), session),
        call_ensures(StreamableHttpClientTransport::protocol_version, (&t,), version),
        call_ensures(StreamableHttpClientTransport::is_running, (&t,), runs),
        call_ensures(StreamableHttpClientTransport::timeout, (&t,), a),
        call_ensures(StreamableHttpClientTransport::sse_read_timeout, (&t,), b),
        call_ensures(StreamableHttpClientTransport::tls, (&t,), tls),
        call_ensures(client::stream_opened, (status,), opened),
    ensures
        session@ == t@.session && version@ == t@.version && runs == t@.running,
        a == t@.timeout && b == t@.sse_timeout && *tls == t.encryption(),
        opened <==> 200 <= status < 300,
{
}

/// The headers of a request are those of the transport and those that name the session and the
/// version.
pub proof fn headers_are_prepared(
    t: StreamableHttpClientTransport,
    h: &mut StringMap<String>,
    r: StringMap<String>,
    k: Seq<char>,
)
    requires
        call_ensures(StreamableHttpClientTransport::add_session, (&t, h), ()),
        call_ensures(
            StreamableHttpClientTransport::prepare_headers::<BearerTokenProvider>,
            (&t, None),
            r,
        ),
    ensures
        ({
            let all = string_map::texts(r@);
            let was = string_map::texts(old(h)@);
            let is_now = string_map::texts(final(h)@);
            let named = t@.session.len() > 0 && k == "mcp-session-id"@;
            let dated = t@.version.len() > 0 && k == "mcp-protocol-version"@;
            &&& named ==> all.dom().contains(k) && all[k] == t@.session && is_now.dom().contains(k)
                && is_now[k] == t@.session
            &&& dated ==> all.dom().contains(k) && all[k] == t@.version && is_now.dom().contains(k)
                && is_now[k] == t@.version
            &&& !named && !dated ==> all.dom().contains(k) == t@.headers.dom().contains(k) && all[k]
                == t@.headers[k]
            &&& !named && !dated ==> is_now.dom().contains(k) == was.dom().contains(k) && is_now[k]
                == was[k]
        }),
{
    names::header_names();
    names::headers_apart();
}

/// A provider of credentials sees the headers of the transport; what it gives is sent, and the
/// session and the version with it.
pub proof fn credentials_are_prepared<A: AuthProvider>(
    t: StreamableHttpClientTransport,
    a: &A,
    r: StringMap<String>,
)
    requires
        call_ensures(StreamableHttpClientTransport::prepare_headers::<A>, (&t, Some(a)), r),
    ensures
        ({
            let all = string_map::texts(r@);
            &&& t@.session.len() > 0 ==> all.dom().contains("mcp-session-id"@)
                && all["mcp-session-id"@] == t@.session
            &&& t@.version.len() > 0 ==> all.dom().contains("mcp-protocol-version"@)
                && all["mcp-protocol-version"@] == t@.version
            &&& exists|h: Map<Seq<char>, Seq<char>>| #[trigger]
                a.may_give(t@.headers, h) && forall|k: Seq<char>|
                    (k != "mcp-session-id"@ || t@.session.len() == 0) && (k
                        != "mcp-protocol-version"@ || t@.version.len() == 0)
                        ==> #[trigger] all.dom().contains(k) == h.dom().contains(k) && all[k]
                        == h[k]
        }),
{
    names::header_names();
    names::headers_apart();
    let h = choose|h: Map<Seq<char>, Seq<char>>| #[trigger]
        a.may_give(t@.headers, h) && string_map::texts(r@) == client::with_session(
            h,
            t@.session,
            t@.version,
        );
    assert(a.may_give(t@.headers, h));
}

/// Every header that can be sent is sent, and no other.
pub proof fn headers_are_applied(
    order: Seq<Seq<char>>,
    h: Map<Seq<char>, Seq<char>>,
    k: Seq<char>,
)
    ensures
        client::sendable_from(order, h, 0).contains((k, h[k])) <==> order.contains(k)
            && http_message::sendable(k, h[k]),
        client::sendable_from(order, h, 0).len() <= order.len(),
{
    headers_applied_from(order, h, 0, k);
    if exists|j: int| 0 <= j < order.len() && order[j] == k {
        let j = choose|j: int| 0 <= j < order.len() && order[j] == k;
        assert(order.contains(order[j]));
    }
}

proof fn headers_applied_from(
    order: Seq<Seq<char>>,
    h: Map<Seq<char>, Seq<char>>,
    i: int,
    k: Seq<char>,
)
    requires
        0 <= i <= order.len(),
    ensures
        client::sendable_from(order, h, i).contains((k, h[k])) <==> (exists|j: int|
            i <= j < order.len() && order[j] == k) && http_message::sendable(k, h[k]),
        client::sendable_from(order, h, i).len() <= order.len() - i,
    decreases order.len() - i,
{
    let all = client::sendable_from(order, h, i);
    if i < order.len() {
        headers_applied_from(order, h, i + 1, k);
        let rest = client::sendable_from(order, h, i + 1);
        if http_message::sendable(order[i], h[order[i]]) {
            assert(all == seq![(order[i], h[order[i]])] + rest);
            assert(all[0] == (order[i], h[order[i]]));
            assert forall|j: int| 0 <= j < rest.len() implies #[trigger] all[j + 1] == rest[j] by {}
            if rest.contains((k, h[k])) {
                let j = choose|j: int| 0 <= j < rest.len() && rest[j] == (k, h[k]);
                assert(all[j + 1] == (k, h[k]));
            }
            if all.contains((k, h[k])) {
                let j = choose|j: int| 0 <= j < all.len() && all[j] == (k, h[k]);
                if j > 0 {
                    assert(rest[j - 1] == all[j]);
                }
            }
        }
        if exists|j: int| i <= j < order.len() && order[j] == k {
            let j = choose|j: int| i <= j < order.len() && order[j] == k;
            if j > i {
                assert(i + 1 <= j < order.len() && order[j] == k);
            }
        }
    } else {
        assert(all == Seq::<(Seq<char>, Seq<char>)>::empty());
    }
}

/// What comes on a stream is taken as the messages of its events.
pub proof fn stream_is_consumed(
    p: &mut SseParser,
    q: &mut SseParser,
    chunk: &str,
    stop: bool,
    r: Received,
    last: Option<Message>,
    e: &SseEvent,
    one: Option<Message>,
)
    requires
        call_ensures(client::consume_sse, (p, chunk, stop), r),
        call_ensures(client::consume_end, (q,), last),
        call_ensures(client::handle_sse_event, (e,), one),
    ensures
        ({
            let (lines, rest) = sse::complete_lines(old(p).left() + chunk@);
            let (es, part) = sse::events_read(old(p).part(), lines);
            &&& final(p).part() == part && final(p).left() == rest
            &&& message::messages(r.messages@) == client::received(es, stop).0
            &&& r.ended == client::received(es, stop).1
        }),
        ({
            let es = sse::at_end(old(q).part(), old(q).left());
            &&& es.len() == 0 ==> last is None
            &&& es.len() > 0 ==> client::message_view(last) == client::event_message(es[0])
        }),
        client::message_view(one) == client::event_message(e@),
{
}

} // verus!
