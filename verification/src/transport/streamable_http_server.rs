//! The server side of a session over HTTP: which requests are taken, what they hand
//! to the session, and where what the session sends goes.
use vstd::prelude::*;

use crate::error::{JsonRpcErrorCode, McpError};
use crate::json;
use crate::json::{Json, JsonView, NumberView};
use crate::jsonrpc::Message;
use crate::protocol;
use crate::protocol::message;
use crate::protocol::message::{
    classify_payload, serialize_message, IncomingPayload, MessageParseError, MessageView,
    ParseErrorView, PayloadView,
};
use crate::protocol::{headers, is_supported_protocol_version, methods, status};
use crate::text;
use crate::text::str_eq;
use crate::transport::http_message::{
    HttpReply, HttpRequest, HttpResponse, ReplyView, RequestView, ResponseView,
};
use crate::transport::sink;
use crate::transport::sink::{ResponseSink, SinkView};
use crate::transport::sse;
use crate::transport::sse::{EventView, SseEvent};
use crate::transport::RequestContext;
use crate::wire;

verus! {

/// For how many milliseconds a message that a server sends on its own account waits
/// for the client to open its stream.
pub const GET_STREAM_WAIT_MS: u64 = 2000;

/// Every character is visible ASCII.
pub open spec fn visible_ascii(s: Seq<char>) -> bool {
    forall|i: int| 0 <= i < s.len() ==> '!' <= #[trigger] s[i] <= '~'
}

fn is_visible_ascii(s: &str) -> (r: bool)
    ensures
        r == visible_ascii(s@),
{
    let cs = text::chars_of(s);
    let mut i: usize = 0;
    while i < cs.len()
        invariant
            i <= cs.len(),
            cs@ == s@,
            forall|k: int| 0 <= k < i ==> '!' <= #[trigger] cs@[k] <= '~',
        decreases cs.len() - i,
    {
        if !('!' <= cs[i] && cs[i] <= '~') {
            assert(!visible_ascii(cs@));
            return false;
        }
        i = i + 1;
    }
    true
}

/// The server side of one session.
#[derive(Debug)]
pub struct StreamableHttpServerTransport {
    session_id: String,
    is_json_response_enabled: bool,
    stateless: bool,
    is_terminated: bool,
    has_stream: bool,
    next_connection: i64,
}

/// What the server side of a session holds.
#[verifier::ext_equal]
pub struct TransportView {
    /// The identity of the session; it is empty where there is none.
    pub session: Seq<char>,
    /// Requests are answered with JSON; otherwise with events.
    pub json: bool,
    pub stateless: bool,
    pub terminated: bool,
    /// The client opened a stream of its own.
    pub stream: bool,
    /// The number of the next connection.
    pub next: int,
}

/// Messages for the session, each with its method.
#[derive(Debug)]
pub struct Delivery {
    pub messages: Vec<(Message, String)>,
    pub connection_id: i64,
    pub session_id: String,
    /// Where the responses go, if there are any to come.
    pub sink: Option<ResponseSink>,
}

/// Messages for the session.
pub struct DeliveryView {
    pub messages: Seq<(MessageView, Seq<char>)>,
    pub connection: int,
    pub session: Seq<char>,
    pub sink: Option<SinkView>,
}

/// The messages, each with its method.
pub open spec fn addressed(v: Seq<(Message, String)>) -> Seq<(MessageView, Seq<char>)> {
    Seq::new(v.len(), |i: int| (v[i].0@, v[i].1@))
}

impl View for Delivery {
    type V = DeliveryView;

    open spec fn view(&self) -> DeliveryView {
        DeliveryView {
            messages: addressed(self.messages@),
            connection: self.connection_id as int,
            session: self.session_id@,
            sink: match self.sink {
                Some(s) => Some(s@),
                None => None,
            },
        }
    }
}

/// What is to be done besides answering a request.
#[derive(Debug)]
pub enum HttpEffect {
    Nothing,
    /// Hand messages to the session.
    Deliver(Delivery),
    /// Keep the stream that answers the request as the client's own.
    Attach,
    /// End the client's own stream, if there is one.
    Terminate,
}

/// What is to be done besides answering a request.
pub enum EffectView {
    Nothing,
    Deliver(DeliveryView),
    Attach,
    Terminate,
}

impl View for HttpEffect {
    type V = EffectView;

    open spec fn view(&self) -> EffectView {
        match self {
            HttpEffect::Nothing => EffectView::Nothing,
            HttpEffect::Deliver(d) => EffectView::Deliver(d@),
            HttpEffect::Attach => EffectView::Attach,
            HttpEffect::Terminate => EffectView::Terminate,
        }
    }
}

/// What comes of a request.
#[derive(Debug)]
pub struct HttpOutcome {
    pub reply: HttpReply,
    pub effect: HttpEffect,
}

/// What comes of a request.
pub struct OutcomeView {
    pub reply: ReplyView,
    pub effect: EffectView,
}

impl View for HttpOutcome {
    type V = OutcomeView;

    open spec fn view(&self) -> OutcomeView {
        OutcomeView { reply: self.reply@, effect: self.effect@ }
    }
}

/// A request is answered, and nothing else is done.
pub open spec fn answered(a: ResponseView) -> OutcomeView {
    OutcomeView { reply: ReplyView::Full(a), effect: EffectView::Nothing }
}

/// The header that tells the identity of the session.
pub open spec fn session_header(s: TransportView) -> Seq<(Seq<char>, Seq<char>)> {
    if s.session.len() == 0 {
        seq![]
    } else {
        seq![(headers::MCP_SESSION_ID@, s.session)]
    }
}

/// The header that tells that the content is JSON.
pub open spec fn json_header() -> Seq<(Seq<char>, Seq<char>)> {
    seq![(headers::CONTENT_TYPE@, headers::CONTENT_TYPE_JSON@)]
}

/// The headers of a stream of events.
pub open spec fn sse_headers(s: TransportView, with_accel: bool) -> Seq<(Seq<char>, Seq<char>)> {
    let start = seq![
        (headers::CONTENT_TYPE@, headers::CONTENT_TYPE_SSE@),
        (headers::CACHE_CONTROL@, headers::CACHE_CONTROL_NO_CACHE_NO_TRANSFORM@),
        (headers::CONNECTION@, headers::CONNECTION_KEEP_ALIVE@),
    ];
    let start = if with_accel {
        start.push((headers::X_ACCEL_BUFFERING@, "no"@))
    } else {
        start
    };
    start + session_header(s)
}

/// The body that tells of an error.
pub open spec fn error_body(message: Seq<char>, code: int) -> JsonView {
    let e = wire::with(wire::none(), "code"@, JsonView::Number(NumberView::Whole(code)));
    let e = wire::with(e, "message"@, JsonView::String(message));
    let o = wire::with(wire::none(), "jsonrpc"@, JsonView::String("2.0"@));
    let o = wire::with(o, "id"@, JsonView::String("server-error"@));
    JsonView::Object(wire::with(o, "error"@, JsonView::Object(e)))
}

/// The response that tells of an error.
pub open spec fn error_answer(
    s: TransportView,
    message: Seq<char>,
    status: int,
    code: int,
    extra: Seq<(Seq<char>, Seq<char>)>,
) -> ResponseView {
    ResponseView {
        status,
        headers: extra + json_header() + session_header(s),
        body: json::compact_text(error_body(message, code).normal()),
    }
}

/// The response to a request that is not taken.
pub open spec fn invalid(s: TransportView, message: Seq<char>, status: int) -> ResponseView {
    error_answer(s, message, status, -32600, seq![])
}

/// A request whose method is not taken, and the methods that are.
pub open spec fn not_allowed(s: TransportView, allowed: Seq<char>) -> ResponseView {
    error_answer(s, "Method Not Allowed"@, 405, -32600, seq![(headers::ALLOW@, allowed)])
}

/// A response with a body of JSON.
pub open spec fn json_answer(s: TransportView, body: Seq<char>, status: int) -> ResponseView {
    ResponseView { status, headers: json_header() + session_header(s), body }
}

/// Why a request is not taken, and the status that tells so.
pub struct FaultView {
    pub message: Seq<char>,
    pub status: int,
}

/// There is a fault.
pub open spec fn fault(message: Seq<char>, status: int) -> Option<FaultView> {
    Some(FaultView { message, status })
}

/// What comes of a fault.
pub open spec fn refusal(s: TransportView, f: Option<FaultView>) -> Option<OutcomeView> {
    match f {
        Some(f) => Some(answered(invalid(s, f.message, f.status))),
        None => None,
    }
}

/// What comes of a request, if it is known.
pub open spec fn outcome_view(o: Option<HttpOutcome>) -> Option<OutcomeView> {
    match o {
        Some(o) => Some(o@),
        None => None,
    }
}

/// Why the protocol version of a request does not do.
pub open spec fn version_fault(r: RequestView) -> Option<FaultView> {
    let version = if r.headers.dom().contains(headers::MCP_PROTOCOL_VERSION@) {
        r.headers[headers::MCP_PROTOCOL_VERSION@]
    } else {
        protocol::DEFAULT_PROTOCOL_VERSION@
    };
    if protocol::supported_versions().contains(version) {
        None
    } else {
        fault(
            "Bad Request: Unsupported protocol version: "@ + version + ". Supported versions: "@
                + protocol::SUPPORTED_PROTOCOL_VERSIONS_STRING@,
            400,
        )
    }
}

/// Why the headers of a post do not do.
pub open spec fn post_header_fault(s: TransportView, r: RequestView) -> Option<FaultView> {
    let accept = r.given(headers::ACCEPT@);
    let takes_json = text::occurs(accept, headers::CONTENT_TYPE_JSON@);
    let takes_events = text::occurs(accept, headers::CONTENT_TYPE_SSE@);
    if s.json && !takes_json {
        fault("Not Acceptable: Client must accept application/json"@, 406)
    } else if !s.json && !(takes_json && takes_events) {
        fault(
            "Not Acceptable: Client must accept both application/json and text/event-stream"@,
            406,
        )
    } else if !text::occurs(r.given(headers::CONTENT_TYPE@), headers::CONTENT_TYPE_JSON@) {
        fault("Unsupported Media Type: Content-Type must be application/json"@, 415)
    } else {
        None
    }
}

/// A call of the method that opens a session.
pub open spec fn initializes(j: JsonView) -> bool {
    j.get("method"@) == Some(JsonView::String(methods::INITIALIZE@))
}

/// One of several calls opens a session.
pub open spec fn one_initializes(items: Seq<JsonView>) -> bool {
    exists|i: int| 0 <= i < items.len() && initializes(#[trigger] items[i])
}

/// What was posted opens a session.
pub open spec fn is_initialization(j: JsonView) -> bool {
    match j {
        JsonView::Array(items) => one_initializes(items),
        _ => initializes(j),
    }
}

/// Why the session that a post names does not do.
pub open spec fn session_fault(
    s: TransportView,
    r: RequestView,
    initialization: bool,
) -> Option<FaultView> {
    let named = r.given(headers::MCP_SESSION_ID@);
    if initialization || s.session.len() == 0 || named == s.session {
        None
    } else if named.len() == 0 {
        fault("Bad Request: Missing session ID"@, 400)
    } else {
        fault("Not Found: Invalid or expired session ID"@, 404)
    }
}

/// Messages for the session, with the number of a new connection.
pub open spec fn delivery(
    s: TransportView,
    messages: Seq<(MessageView, Seq<char>)>,
    sink: Option<SinkView>,
) -> EffectView {
    EffectView::Deliver(
        DeliveryView { messages, connection: s.next, session: s.session, sink },
    )
}

/// The method of a message, and an empty text for a response.
pub open spec fn method_of(m: MessageView) -> Seq<char> {
    match m {
        MessageView::Request { id, method, params } => method,
        MessageView::Notification { method, params } => method,
        MessageView::Response { to, result, error } => seq![],
    }
}

/// Each message with its method.
pub open spec fn with_methods(ms: Seq<MessageView>) -> Seq<(MessageView, Seq<char>)> {
    Seq::new(ms.len(), |i: int| (ms[i], method_of(ms[i])))
}

/// Each message with no method.
pub open spec fn without_methods(ms: Seq<MessageView>) -> Seq<(MessageView, Seq<char>)> {
    Seq::new(ms.len(), |i: int| (ms[i], seq![]))
}

/// How many of the messages are requests.
pub open spec fn request_count(ms: Seq<MessageView>) -> nat
    decreases ms.len(),
{
    if ms.len() == 0 {
        0
    } else {
        request_count(ms.drop_last()) + if ms.last() is Request {
            1nat
        } else {
            0
        }
    }
}

/// What comes of messages that were posted.
pub open spec fn posted(s: TransportView, ms: Seq<MessageView>, batch: bool) -> OutcomeView {
    let n = request_count(ms) as int;
    if n == 0 {
        OutcomeView {
            reply: ReplyView::Full(json_answer(s, seq![], 202)),
            effect: delivery(s, without_methods(ms), None),
        }
    } else if s.json {
        OutcomeView {
            reply: ReplyView::Deferred,
            effect: delivery(
                s,
                with_methods(ms),
                Some(sink::collecting(n, batch, json_header() + session_header(s))),
            ),
        }
    } else {
        OutcomeView {
            reply: ReplyView::Stream { status: 200, headers: sse_headers(s, true) },
            effect: delivery(s, with_methods(ms), Some(sink::counting(n))),
        }
    }
}

/// What comes of a payload that is no message: a malformed call is answered at once,
/// and anything else reaches the session as the response that tells of the error.
pub open spec fn misposted(s: TransportView, e: ParseErrorView) -> OutcomeView {
    let told = MessageView::Response { to: Some(e.told_id()), result: None, error: Some(e.told()) };
    let malformed_call = e is InvalidMessage && e->has_method;
    if malformed_call {
        answered(
            json_answer(
                s,
                message::message_text(told),
                if s.json {
                    200
                } else {
                    400
                },
            ),
        )
    } else {
        OutcomeView {
            reply: ReplyView::Full(json_answer(s, seq![], 202)),
            effect: delivery(s, seq![(told, seq![])], None),
        }
    }
}

/// What comes of a post.
pub open spec fn post_outcome(s: TransportView, r: RequestView, has_callback: bool) -> OutcomeView {
    if !has_callback {
        answered(
            ResponseView {
                status: 500,
                headers: seq![(headers::CONTENT_TYPE@, headers::CONTENT_TYPE_TEXT_PLAIN@)],
                body: "Callbacks not set"@,
            },
        )
    } else {
        match post_header_fault(s, r) {
            Some(f) => answered(invalid(s, f.message, f.status)),
            None => match json::parsed(r.body) {
                Err(e) => answered(error_answer(s, "Parse error: "@ + e, 400, -32700, seq![])),
                Ok(j) => match session_fault(s, r, is_initialization(j)) {
                    Some(f) => answered(invalid(s, f.message, f.status)),
                    None => match version_fault(r) {
                        Some(f) => answered(invalid(s, f.message, f.status)),
                        None => match message::payload(j) {
                            Ok(PayloadView::Single(m)) => posted(s, seq![m], false),
                            Ok(PayloadView::Batch(ms)) => posted(s, ms, true),
                            Err(e) => misposted(s, e),
                        },
                    },
                },
            },
        }
    }
}

/// What comes of a request for the client's own stream.
pub open spec fn get_outcome(s: TransportView, r: RequestView, stream_open: bool) -> OutcomeView {
    if !text::occurs(r.given(headers::ACCEPT@), headers::CONTENT_TYPE_SSE@) {
        answered(invalid(s, "Not Acceptable: Client must accept text/event-stream"@, 406))
    } else if s.session.len() > 0 && r.given(headers::MCP_SESSION_ID@) != s.session {
        answered(invalid(s, "Bad Request: Invalid session ID"@, 400))
    } else {
        match version_fault(r) {
            Some(f) => answered(invalid(s, f.message, f.status)),
            None => if s.stream && stream_open {
                answered(invalid(s, "Conflict: Only one SSE stream is allowed per session"@, 409))
            } else {
                OutcomeView {
                    reply: ReplyView::Stream { status: 200, headers: sse_headers(s, false) },
                    effect: EffectView::Attach,
                }
            },
        }
    }
}

/// What comes of a request to end the session.
pub open spec fn delete_outcome(s: TransportView, r: RequestView) -> OutcomeView {
    if s.session.len() == 0 {
        answered(
            error_answer(
                s,
                "Method Not Allowed: Session termination not supported"@,
                405,
                -32600,
                seq![],
            ),
        )
    } else if r.given(headers::MCP_SESSION_ID@) != s.session {
        answered(invalid(s, "Bad Request: Invalid session ID"@, 400))
    } else {
        OutcomeView {
            reply: ReplyView::Full(json_answer(s, seq![], 200)),
            effect: EffectView::Terminate,
        }
    }
}

/// What comes of a request. `has_callback` tells that there is a session to hand
/// messages to, and `stream_open` that the client still takes events on its own
/// stream.
pub open spec fn outcome(
    s: TransportView,
    r: RequestView,
    has_callback: bool,
    stream_open: bool,
) -> OutcomeView {
    if s.stateless && r.method != "POST"@ {
        answered(not_allowed(s, "POST"@))
    } else if s.terminated {
        answered(invalid(s, "Not Found: Session has been terminated"@, 404))
    } else if r.method == "POST"@ {
        post_outcome(s, r, has_callback)
    } else if r.method == "GET"@ {
        get_outcome(s, r, stream_open)
    } else if r.method == "DELETE"@ {
        delete_outcome(s, r)
    } else {
        answered(not_allowed(s, "GET, POST, DELETE"@))
    }
}

/// The number of the connection after another.
pub open spec fn next_number(n: int) -> int {
    if n < i64::MAX {
        n + 1
    } else {
        i64::MIN as int
    }
}

/// The session after it was ended.
pub open spec fn ended(s: TransportView) -> TransportView {
    TransportView { session: seq![], terminated: true, stream: false, ..s }
}

/// The state after a request.
pub open spec fn after(s: TransportView, effect: EffectView) -> TransportView {
    match effect {
        EffectView::Nothing => s,
        EffectView::Deliver(_) => TransportView { next: next_number(s.next), ..s },
        EffectView::Attach => TransportView { stream: true, ..s },
        EffectView::Terminate => ended(s),
    }
}

/// The event that carries a message.
pub open spec fn message_event(m: MessageView) -> EventView {
    EventView { event: Some("message"@), data: message::message_text(m) }
}

/// Where a message that the session sends goes.
#[derive(Debug)]
pub enum SendRoute {
    /// Wait until the client opens its stream, then ask again.
    Wait,
    /// Write this on the client's own stream.
    OwnStream(String),
    /// Take this in as a response.
    Collect(Json),
    /// Nowhere.
    Drop,
    /// Write this on the stream that answers the request.
    Frame(String),
}

/// The body that tells of an error.
pub(crate) fn error_json(message: &str, code: i64) -> (r: Json)
    ensures
        r@ == error_body(message@, code as int),
{
    let mut e = wire::start();
    wire::put_json(&mut e, "code", Json::integer(code));
    wire::put_json(&mut e, "message", Json::string(message));
    let mut o = wire::start();
    wire::put_json(&mut o, "jsonrpc", Json::string(protocol::JSONRPC_VERSION));
    wire::put_json(&mut o, "id", Json::string("server-error"));
    wire::put_json(&mut o, "error", Json::object(e));
    Json::object(o)
}

impl StreamableHttpServerTransport {
    /// What the server side of the session holds.
    pub closed spec fn view(&self) -> TransportView {
        TransportView {
            session: self.session_id@,
            json: self.is_json_response_enabled,
            stateless: self.stateless,
            terminated: self.is_terminated,
            stream: self.has_stream,
            next: self.next_connection as int,
        }
    }

    /// The server side of a new session. With an empty identity it is of no session.
    pub fn new(session_id: &str, is_json_response_enabled: bool, stateless: bool) -> (r: Result<
        Self,
        McpError,
    >)
        ensures
            r is Ok <==> visible_ascii(session_id@),
            match r {
                Ok(t) => t@ == (TransportView {
                    session: session_id@,
                    json: is_json_response_enabled,
                    stateless,
                    terminated: false,
                    stream: false,
                    next: 1,
                }),
                Err(e) => e.faults_argument(
                    "Session ID must only contain visible ASCII characters (0x21-0x7E)"@,
                ),
            },
    {
        if !is_visible_ascii(session_id) {
            return Err(
                McpError::argument(
                    "Session ID must only contain visible ASCII characters (0x21-0x7E)".to_owned(),
                ),
            );
        }
        Ok(
            StreamableHttpServerTransport {
                session_id: session_id.to_owned(),
                is_json_response_enabled,
                stateless,
                is_terminated: false,
                has_stream: false,
                next_connection: 1,
            },
        )
    }

    /// The identity of the session, which is empty after its end.
    pub fn session_id(&self) -> (r: &str)
        ensures
            r@ == self@.session,
    {
        self.session_id.as_str()
    }

    /// Tells whether the session was ended.
    pub fn is_terminated(&self) -> (r: bool)
        ensures
            r == self@.terminated,
    {
        self.is_terminated
    }

    /// Tells whether the client opened a stream of its own.
    pub fn has_get_stream(&self) -> (r: bool)
        ensures
            r == self@.stream,
    {
        self.has_stream
    }

    fn add_session_header(&self, h: &mut Vec<(String, String)>)
        ensures
            text::pairs(final(h)@) == text::pairs(old(h)@) + session_header(self@),
    {
        if !self.session_id.as_str().is_empty() {
            h.push((headers::MCP_SESSION_ID.to_owned(), self.session_id.clone()));
        }
        assert(text::pairs(h@) =~= text::pairs(old(h)@) + session_header(self@));
    }

    fn error_response(
        &self,
        message: &str,
        status_code: u16,
        code: i64,
        extra: Vec<(String, String)>,
    ) -> (r: HttpResponse)
        ensures
            r@ == error_answer(
                self@,
                message@,
                status_code as int,
                code as int,
                text::pairs(extra@),
            ),
    {
        let mut h = extra;
        h.push((headers::CONTENT_TYPE.to_owned(), headers::CONTENT_TYPE_JSON.to_owned()));
        assert(text::pairs(h@) =~= text::pairs(extra@) + json_header());
        self.add_session_header(&mut h);
        let body = error_json(message, code);
        HttpResponse { status: status_code, headers: h, body: body.to_text() }
    }

    fn invalid_request(&self, message: &str, status_code: u16) -> (r: HttpOutcome)
        ensures
            r@ == answered(invalid(self@, message@, status_code as int)),
    {
        let extra: Vec<(String, String)> = Vec::new();
        assert(text::pairs(extra@) =~= seq![]);
        let code: i64 = JsonRpcErrorCode::InvalidRequest.code();
        let a = self.error_response(message, status_code, code, extra);
        HttpOutcome { reply: HttpReply::Full(a), effect: HttpEffect::Nothing }
    }

    fn method_not_allowed(&self, allowed: &str) -> (r: HttpOutcome)
        ensures
            r@ == answered(not_allowed(self@, allowed@)),
    {
        let mut extra: Vec<(String, String)> = Vec::new();
        extra.push((headers::ALLOW.to_owned(), allowed.to_owned()));
        assert(text::pairs(extra@) =~= seq![(headers::ALLOW@, allowed@)]);
        let code: i64 = JsonRpcErrorCode::InvalidRequest.code();
        let a = self.error_response(
            "Method Not Allowed",
            status::METHOD_NOT_ALLOWED,
            code,
            extra,
        );
        HttpOutcome { reply: HttpReply::Full(a), effect: HttpEffect::Nothing }
    }

    fn json_headers(&self) -> (r: Vec<(String, String)>)
        ensures
            text::pairs(r@) == json_header() + session_header(self@),
    {
        let mut h: Vec<(String, String)> = Vec::new();
        h.push((headers::CONTENT_TYPE.to_owned(), headers::CONTENT_TYPE_JSON.to_owned()));
        assert(text::pairs(h@) =~= json_header());
        self.add_session_header(&mut h);
        h
    }

    fn json_response(&self, body: Option<String>, status_code: u16) -> (r: HttpResponse)
        ensures
            r@ == json_answer(
                self@,
                match body {
                    Some(b) => b@,
                    None => seq![],
                },
                status_code as int,
            ),
    {
        let body = match body {
            Some(b) => b,
            None => {
                let b = String::new();
                assert(b@ =~= seq![]);
                b
            },
        };
        HttpResponse { status: status_code, headers: self.json_headers(), body }
    }

    fn sse_headers(&self, with_accel: bool) -> (r: Vec<(String, String)>)
        ensures
            text::pairs(r@) == sse_headers(self@, with_accel),
    {
        let mut h: Vec<(String, String)> = Vec::new();
        h.push((headers::CONTENT_TYPE.to_owned(), headers::CONTENT_TYPE_SSE.to_owned()));
        h.push(
            (
                headers::CACHE_CONTROL.to_owned(),
                headers::CACHE_CONTROL_NO_CACHE_NO_TRANSFORM.to_owned(),
            ),
        );
        h.push((headers::CONNECTION.to_owned(), headers::CONNECTION_KEEP_ALIVE.to_owned()));
        let ghost start = seq![
            (headers::CONTENT_TYPE@, headers::CONTENT_TYPE_SSE@),
            (headers::CACHE_CONTROL@, headers::CACHE_CONTROL_NO_CACHE_NO_TRANSFORM@),
            (headers::CONNECTION@, headers::CONNECTION_KEEP_ALIVE@),
        ];
        assert(text::pairs(h@) =~= start);
        if with_accel {
            h.push((headers::X_ACCEL_BUFFERING.to_owned(), "no".to_owned()));
            assert(text::pairs(h@) =~= start.push((headers::X_ACCEL_BUFFERING@, "no"@)));
        }
        self.add_session_header(&mut h);
        h
    }

    fn validate_protocol_version(&self, request: &HttpRequest) -> (r: Option<HttpOutcome>)
        ensures
            outcome_view(r) == refusal(self@, version_fault(request@)),
    {
        let version = match request.header(headers::MCP_PROTOCOL_VERSION) {
            Some(v) => v,
            None => protocol::DEFAULT_PROTOCOL_VERSION,
        };
        if is_supported_protocol_version(version) {
            return None;
        }
        let message = text::cat4(
            "Bad Request: Unsupported protocol version: ",
            version,
            ". Supported versions: ",
            protocol::SUPPORTED_PROTOCOL_VERSIONS_STRING,
        );
        Some(self.invalid_request(message.as_str(), status::BAD_REQUEST))
    }

    fn validate_post_headers(&self, request: &HttpRequest) -> (r: Option<HttpOutcome>)
        ensures
            outcome_view(r) == refusal(self@, post_header_fault(self@, request@)),
    {
        let accept = request.header_or_empty(headers::ACCEPT);
        let has_json = text::contains(accept, headers::CONTENT_TYPE_JSON);
        let has_sse = text::contains(accept, headers::CONTENT_TYPE_SSE);
        if self.is_json_response_enabled {
            if !has_json {
                return Some(
                    self.invalid_request(
                        "Not Acceptable: Client must accept application/json",
                        status::NOT_ACCEPTABLE,
                    ),
                );
            }
        } else if !has_json || !has_sse {
            return Some(
                self.invalid_request(
                    "Not Acceptable: Client must accept both application/json and text/event-stream",
                    status::NOT_ACCEPTABLE,
                ),
            );
        }
        let content_type = request.header_or_empty(headers::CONTENT_TYPE);
        if !text::contains(content_type, headers::CONTENT_TYPE_JSON) {
            return Some(
                self.invalid_request(
                    "Unsupported Media Type: Content-Type must be application/json",
                    status::UNSUPPORTED_MEDIA_TYPE,
                ),
            );
        }
        None
    }

    fn validate_session_id(&self, request: &HttpRequest, initialization: bool) -> (r: Option<
        HttpOutcome,
    >)
        ensures
            outcome_view(r) == refusal(self@, session_fault(self@, request@, initialization)),
    {
        if initialization || self.session_id.as_str().is_empty() {
            return None;
        }
        let named = request.header_or_empty(headers::MCP_SESSION_ID);
        if named.is_empty() {
            return Some(
                self.invalid_request("Bad Request: Missing session ID", status::BAD_REQUEST),
            );
        }
        if !str_eq(named, self.session_id.as_str()) {
            return Some(
                self.invalid_request("Not Found: Invalid or expired session ID", status::NOT_FOUND),
            );
        }
        None
    }

    /// Messages for the session, with the number of a new connection.
    fn deliver(&mut self, messages: Vec<(Message, String)>, sink: Option<ResponseSink>) -> (r:
        HttpEffect)
        ensures
            r@ == delivery(
                old(self)@,
                addressed(messages@),
                match sink {
                    Some(s) => Some(s@),
                    None => None,
                },
            ),
            final(self)@ == after(old(self)@, r@),
    {
        let connection_id: i64 = self.next_connection;
        self.next_connection = connection_id.wrapping_add(1);
        HttpEffect::Deliver(
            Delivery { messages, connection_id, session_id: self.session_id.clone(), sink },
        )
    }

    fn post_messages(&mut self, list: Vec<Message>, batch: bool) -> (r: HttpOutcome)
        ensures
            r@ == posted(old(self)@, message::messages(list@), batch),
            final(self)@ == after(old(self)@, r@.effect),
    {
        let ghost ms = message::messages(list@);
        let n: usize = count_requests(&list);
        if n == 0 {
            let all = address(list, false);
            let a = self.json_response(None, status::ACCEPTED);
            let effect = self.deliver(all, None);
            return HttpOutcome { reply: HttpReply::Full(a), effect };
        }
        let all = address(list, true);
        if self.is_json_response_enabled {
            let sink = ResponseSink::json(n, batch, self.json_headers());
            let effect = self.deliver(all, Some(sink));
            return HttpOutcome { reply: HttpReply::Deferred, effect };
        }
        let headers = self.sse_headers(true);
        let effect = self.deliver(all, Some(ResponseSink::sse(n)));
        HttpOutcome { reply: HttpReply::Stream { status: status::OK, headers }, effect }
    }

    fn post_error(&mut self, e: MessageParseError) -> (r: HttpOutcome)
        ensures
            r@ == misposted(old(self)@, e@),
            final(self)@ == after(old(self)@, r@.effect),
    {
        let has_method = match &e {
            MessageParseError::InvalidMessage { id, message, has_method } => *has_method,
            MessageParseError::InvalidJson(_) => false,
        };
        let told = Message::Response(e.to_error_response());
        if has_method {
            let code: u16 = if self.is_json_response_enabled {
                status::OK
            } else {
                status::BAD_REQUEST
            };
            let body = serialize_message(&told);
            let a = self.json_response(Some(body), code);
            return HttpOutcome { reply: HttpReply::Full(a), effect: HttpEffect::Nothing };
        }
        let none = String::new();
        assert(none@ =~= seq![]);
        let mut list: Vec<(Message, String)> = Vec::new();
        list.push((told, none));
        assert(addressed(list@) =~= seq![(told@, seq![])]);
        let a = self.json_response(None, status::ACCEPTED);
        let effect = self.deliver(list, None);
        HttpOutcome { reply: HttpReply::Full(a), effect }
    }

    fn handle_post(&mut self, request: &HttpRequest, has_callback: bool) -> (r: HttpOutcome)
        ensures
            r@ == post_outcome(old(self)@, request@, has_callback),
            final(self)@ == after(old(self)@, r@.effect),
    {
        if !has_callback {
            let a = HttpResponse::new(status::INTERNAL_SERVER_ERROR).header(
                headers::CONTENT_TYPE,
                headers::CONTENT_TYPE_TEXT_PLAIN,
            ).body("Callbacks not set".to_owned());
            assert(a@.headers =~= seq![(headers::CONTENT_TYPE@, headers::CONTENT_TYPE_TEXT_PLAIN@)]);
            return HttpOutcome { reply: HttpReply::Full(a), effect: HttpEffect::Nothing };
        }
        if let Some(o) = self.validate_post_headers(request) {
            return o;
        }
        let raw = match Json::parse(request.body.as_str()) {
            Ok(j) => j,
            Err(e) => {
                let message = text::cat2("Parse error: ", e.as_str());
                let extra: Vec<(String, String)> = Vec::new();
                assert(text::pairs(extra@) =~= seq![]);
                let code: i64 = JsonRpcErrorCode::ParseError.code();
                let a = self.error_response(message.as_str(), status::BAD_REQUEST, code, extra);
                return HttpOutcome { reply: HttpReply::Full(a), effect: HttpEffect::Nothing };
            },
        };
        let initialization = opens_session(&raw);
        if let Some(o) = self.validate_session_id(request, initialization) {
            return o;
        }
        if let Some(o) = self.validate_protocol_version(request) {
            return o;
        }
        match classify_payload(raw) {
            Ok(IncomingPayload::Single(m)) => {
                let mut list: Vec<Message> = Vec::new();
                list.push(m);
                assert(message::messages(list@) =~= seq![m@]);
                self.post_messages(list, false)
            },
            Ok(IncomingPayload::Batch(list)) => self.post_messages(list, true),
            Err(e) => self.post_error(e),
        }
    }

    fn handle_get(&mut self, request: &HttpRequest, stream_open: bool) -> (r: HttpOutcome)
        ensures
            r@ == get_outcome(old(self)@, request@, stream_open),
            final(self)@ == after(old(self)@, r@.effect),
    {
        let accept = request.header_or_empty(headers::ACCEPT);
        if !text::contains(accept, headers::CONTENT_TYPE_SSE) {
            return self.invalid_request(
                "Not Acceptable: Client must accept text/event-stream",
                status::NOT_ACCEPTABLE,
            );
        }
        if !self.session_id.as_str().is_empty() {
            let named = request.header_or_empty(headers::MCP_SESSION_ID);
            if !str_eq(named, self.session_id.as_str()) {
                return self.invalid_request("Bad Request: Invalid session ID", status::BAD_REQUEST);
            }
        }
        if let Some(o) = self.validate_protocol_version(request) {
            return o;
        }
        if self.has_stream && stream_open {
            return self.invalid_request(
                "Conflict: Only one SSE stream is allowed per session",
                status::CONFLICT,
            );
        }
        let headers = self.sse_headers(false);
        self.has_stream = true;
        HttpOutcome {
            reply: HttpReply::Stream { status: status::OK, headers },
            effect: HttpEffect::Attach,
        }
    }

    fn handle_delete(&mut self, request: &HttpRequest) -> (r: HttpOutcome)
        ensures
            r@ == delete_outcome(old(self)@, request@),
            final(self)@ == after(old(self)@, r@.effect),
    {
        if self.session_id.as_str().is_empty() {
            let extra: Vec<(String, String)> = Vec::new();
            assert(text::pairs(extra@) =~= seq![]);
            let code: i64 = JsonRpcErrorCode::InvalidRequest.code();
            let a = self.error_response(
                "Method Not Allowed: Session termination not supported",
                status::METHOD_NOT_ALLOWED,
                code,
                extra,
            );
            return HttpOutcome { reply: HttpReply::Full(a), effect: HttpEffect::Nothing };
        }
        let named = request.header_or_empty(headers::MCP_SESSION_ID);
        if !str_eq(named, self.session_id.as_str()) {
            return self.invalid_request("Bad Request: Invalid session ID", status::BAD_REQUEST);
        }
        let a = self.json_response(None, status::OK);
        let _ = self.terminate();
        HttpOutcome { reply: HttpReply::Full(a), effect: HttpEffect::Terminate }
    }

    /// Handles a request. `has_callback` tells that there is a session to hand messages
    /// to, and `stream_open` that the client still takes events on its own stream.
    pub fn handle_request(
        &mut self,
        request: &HttpRequest,
        has_callback: bool,
        stream_open: bool,
    ) -> (r: HttpOutcome)
        ensures
            r@ == outcome(old(self)@, request@, has_callback, stream_open),
            final(self)@ == after(old(self)@, r@.effect),
    {
        let method = request.method.as_str();
        let post = str_eq(method, "POST");
        if self.stateless && !post {
            return self.method_not_allowed("POST");
        }
        if self.is_terminated {
            return self.invalid_request("Not Found: Session has been terminated", status::NOT_FOUND);
        }
        if post {
            self.handle_post(request, has_callback)
        } else if str_eq(method, "GET") {
            self.handle_get(request, stream_open)
        } else if str_eq(method, "DELETE") {
            self.handle_delete(request)
        } else {
            self.method_not_allowed("GET, POST, DELETE")
        }
    }

    /// Ends the session. Tells whether the client has a stream of its own, which ends
    /// with it.
    pub fn terminate(&mut self) -> (r: bool)
        ensures
            r == old(self)@.stream,
            final(self)@ == ended(old(self)@),
    {
        let stream = self.has_stream;
        self.is_terminated = true;
        self.has_stream = false;
        self.session_id = String::new();
        assert(self.session_id@ =~= seq![]);
        stream
    }

    /// Forgets the client's own stream, so that it can open another.
    pub fn forget_stream(&mut self)
        ensures
            final(self)@ == (TransportView { stream: false, ..old(self)@ }),
    {
        self.has_stream = false;
    }

    /// Tells where a message that the session sends goes. `sink_is_json` tells that
    /// the responses to the request are collected, and `waited` that the client had its
    /// time to open a stream.
    pub fn send_message<S>(
        &self,
        message: &Message,
        ctx: &RequestContext<S>,
        sink_is_json: bool,
        waited: bool,
    ) -> (r: Result<SendRoute, McpError>)
        ensures
            ({
                let own = ctx.is_get_stream || ctx.connection_id == 0;
                let collects = self@.json && sink_is_json;
                let event = sse::event_text(message_event(message@));
                match r {
                    Ok(SendRoute::Wait) => own && !self@.stream && !self@.terminated && !waited,
                    Ok(SendRoute::OwnStream(t)) => own && self@.stream && t@ == event,
                    Ok(SendRoute::Collect(j)) => !own && ctx.sink is Some && collects && *message
                        is Response && j@ == message::written(message@),
                    Ok(SendRoute::Drop) => !own && ctx.sink is Some && collects && !(*message
                        is Response),
                    Ok(SendRoute::Frame(t)) => !own && ctx.sink is Some && !collects && t@ == event,
                    Err(e) => if own {
                        &&& !self@.stream && (self@.terminated || waited)
                        &&& e.faults_state("SSE stream request context not set"@)
                    } else {
                        ctx.sink is None && e.faults_state("HTTP callback not set"@)
                    },
                }
            }),
    {
        if ctx.is_get_stream || ctx.connection_id == 0 {
            if self.has_stream {
                return Ok(SendRoute::OwnStream(event_data(message)));
            }
            if !self.is_terminated && !waited {
                return Ok(SendRoute::Wait);
            }
            return Err(McpError::state("SSE stream request context not set".to_owned()));
        }
        if ctx.sink.is_none() {
            return Err(McpError::state("HTTP callback not set".to_owned()));
        }
        if self.is_json_response_enabled && sink_is_json {
            if message.is_response() {
                proof {
                    message::form_follows(*message);
                }
                return Ok(SendRoute::Collect(message.to_value()));
            }
            return Ok(SendRoute::Drop);
        }
        Ok(SendRoute::Frame(event_data(message)))
    }
}

/// The event that carries a message, as it is written. It reads back as one event
/// whose data is the text of the message.
pub fn event_data(message: &Message) -> (r: String)
    ensures
        r@ == sse::event_text(message_event(message@)),
        sse::complete_lines(r@).1 == Seq::<char>::empty(),
        sse::events_read(sse::nothing(), sse::complete_lines(r@).0) == (
            seq![message_event(message@)],
            sse::nothing(),
        ),
        message::complete(*message) && message::written(message@).normal().readable()
            ==> message::received_as(
            message_event(message@).data,
            message::normal_message(message@),
        ),
{
    let data = serialize_message(message);
    proof {
        reveal_strlit("message");
        assert(sse::one_line("message"@));
        assert(sse::one_line(data@)) by {
            assert forall|i: int| 0 <= i < data@.len() implies #[trigger] data@[i] != '\n'
                && data@[i] != '\r' by {
                assert(data@[i] >= ' ');
            }
        }
        sse::written_event_is_read("message"@, data@);
    }
    SseEvent::typed("message", data).to_wire()
}

/// Notes that the event of a message was written on the stream that answers a request,
/// if the receiver still takes events. Tells whether the stream ends with it.
pub fn frame_written(sink: &mut ResponseSink, message: &Message, open: bool) -> (r: Result<
    bool,
    McpError,
>)
    ensures
        match r {
            Ok(ends) => {
                &&& !old(sink)@.json && open
                &&& ends == (*message is Response && old(sink)@.expected <= 1)
                &&& final(sink)@ == if *message is Response {
                    SinkView { expected: sink::one_less(old(sink)@.expected), ..old(sink)@ }
                } else {
                    old(sink)@
                }
            },
            Err(e) => {
                &&& *final(sink) == *old(sink)
                &&& old(sink)@.json || !open
                &&& if old(sink)@.json {
                    e.faults_state("cannot stream to a JSON response sink"@)
                } else {
                    e.faults_transport("SSE stream is closed"@)
                }
            },
        },
{
    match sink.send_frame(open) {
        Ok(_) => {},
        Err(e) => {
            return Err(e);
        },
    }
    if message.is_response() {
        Ok(sink.response_delivered())
    } else {
        Ok(false)
    }
}

fn count_requests(list: &Vec<Message>) -> (n: usize)
    ensures
        n == request_count(message::messages(list@)),
{
    let ghost ms = message::messages(list@);
    let mut n: usize = 0;
    let mut i: usize = 0;
    assert(ms.take(0) =~= seq![]);
    while i < list.len()
        invariant
            i <= list.len(),
            n <= i,
            ms == message::messages(list@),
            n == request_count(ms.take(i as int)),
        decreases list.len() - i,
    {
        assert(ms.take(i + 1).drop_last() =~= ms.take(i as int));
        assert(ms.take(i + 1).last() == list@[i as int]@);
        if list[i].is_request() {
            n = n + 1;
        }
        i = i + 1;
    }
    assert(ms.take(list.len() as int) =~= ms);
    n
}

/// The messages, each with its method or with none.
fn address(list: Vec<Message>, methods: bool) -> (out: Vec<(Message, String)>)
    ensures
        addressed(out@) == if methods {
            with_methods(message::messages(list@))
        } else {
            without_methods(message::messages(list@))
        },
{
    let mut out: Vec<(Message, String)> = Vec::new();
    let mut i: usize = 0;
    while i < list.len()
        invariant
            i <= list.len(),
            out.len() == i,
            forall|k: int|
                0 <= k < i ==> (#[trigger] out@[k]).0@ == list@[k]@ && out@[k].1@ == if methods {
                    method_of(list@[k]@)
                } else {
                    seq![]
                },
        decreases list.len() - i,
    {
        let none = String::new();
        assert(none@ =~= seq![]);
        let method = if methods {
            match list[i].method() {
                Some(m) => m.to_owned(),
                None => none,
            }
        } else {
            none
        };
        out.push((list[i].duplicate(), method));
        i = i + 1;
    }
    assert(addressed(out@) =~= if methods {
        with_methods(message::messages(list@))
    } else {
        without_methods(message::messages(list@))
    });
    out
}

fn calls_initialize(j: &Json) -> (r: bool)
    ensures
        r == initializes(j@),
{
    match j.get("method") {
        Some(Json::String(m)) => str_eq(m.as_str(), methods::INITIALIZE),
        _ => false,
    }
}

fn opens_session(j: &Json) -> (r: bool)
    ensures
        r == is_initialization(j@),
{
    match j {
        Json::Array(items) => {
            proof {
                Json::array_view(*items);
            }
            let ghost all = json::items(items@);
            let mut i: usize = 0;
            while i < items.len()
                invariant
                    i <= items.len(),
                    all == json::items(items@),
                    j@ == JsonView::Array(all),
                    forall|k: int| 0 <= k < i ==> !initializes(#[trigger] all[k]),
                decreases items.len() - i,
            {
                assert(all[i as int] == items@[i as int]@);
                if calls_initialize(&items[i]) {
                    assert(initializes(all[i as int]));
                    return true;
                }
                i = i + 1;
            }
            false
        },
        _ => calls_initialize(j),
    }
}

/// Once a session is ended, every request is refused and nothing reaches the session,
/// whatever the request; and it stays ended.
pub proof fn ended_session_refuses(
    s: TransportView,
    r: RequestView,
    has_callback: bool,
    stream_open: bool,
)
    requires
        s.terminated,
    ensures
        ({
            let o = outcome(s, r, has_callback, stream_open);
            &&& o.effect == EffectView::Nothing
            &&& o.reply is Full
            &&& o.reply->Full_0.status == 404 || (s.stateless && r.method != "POST"@
                && o.reply->Full_0.status == 405)
            &&& after(s, o.effect) == s
        }),
{
}

/// A request that is refused reaches nobody and changes nothing.
pub proof fn refused_changes_nothing(
    s: TransportView,
    r: RequestView,
    has_callback: bool,
    stream_open: bool,
)
    ensures
        ({
            let o = outcome(s, r, has_callback, stream_open);
            o.reply is Full && o.reply->Full_0.status >= 400 ==> o.effect == EffectView::Nothing
                && after(s, o.effect) == s
        }),
{
}

/// Where there is a session, only a request that names it, or opens it, reaches it or
/// changes anything.
pub proof fn only_its_own_requests(
    s: TransportView,
    r: RequestView,
    has_callback: bool,
    stream_open: bool,
)
    requires
        s.session.len() > 0,
        r.given(headers::MCP_SESSION_ID@) != s.session,
        json::parsed(r.body) matches Ok(j) ==> !is_initialization(j),
    ensures
        outcome(s, r, has_callback, stream_open).effect == EffectView::Nothing,
{
}

/// While the client has an open stream of its own, it gets no other.
pub proof fn one_own_stream(s: TransportView, r: RequestView, has_callback: bool)
    requires
        s.stream,
    ensures
        outcome(s, r, has_callback, true).effect != EffectView::Attach,
{
}

/// The client that ends its session gets an answer that still names the session, and
/// the session is ended after it.
pub proof fn deleting_ends(s: TransportView, r: RequestView, has_callback: bool, stream_open: bool)
    requires
        !s.stateless && !s.terminated,
        r.method == "DELETE"@,
        s.session.len() > 0,
        r.given(headers::MCP_SESSION_ID@) == s.session,
    ensures
        ({
            let o = outcome(s, r, has_callback, stream_open);
            &&& o.reply == ReplyView::Full(json_answer(s, seq![], 200))
            &&& after(s, o.effect).terminated
            &&& after(s, o.effect).session.len() == 0
            &&& !after(s, o.effect).stream
        }),
{
    reveal_strlit("POST");
    reveal_strlit("GET");
    reveal_strlit("DELETE");
    assert("POST"@.len() == 4 && "GET"@.len() == 3 && "DELETE"@.len() == 6);
}

} // verus!
