//! The client side of a session over HTTP: what is sent, and what the answers mean.
//! Times are in milliseconds.
use vstd::prelude::*;

use crate::auth::AuthProvider;
use crate::error::{JsonRpcErrorCode, McpError};
use crate::jsonrpc::{Message, RequestId, Response, RpcError};
use crate::protocol::endpoint;
use crate::protocol::endpoint::{parse_url, UrlParts, UrlView};
use crate::protocol::message;
use crate::protocol::message::{
    parse_message, serialize_message, ErrorView, MessageView, ParseErrorView,
};
use crate::protocol::{headers, methods, status};
use crate::string_map;
use crate::string_map::StringMap;
use crate::text;
use crate::text::str_eq;
use crate::transport::http_message;
use crate::transport::http_message::is_sendable;
use crate::transport::sse;
use crate::transport::sse::{EventView, SseEvent, SseParser};
use crate::types::config::TlsConfig;
use crate::wire;
use crate::wire::Wire;

verus! {

/// How long a connection may take, where nothing else is said.
pub const DEFAULT_HTTP_TIMEOUT_MS: u64 = 30_000;

/// How long a request may take, where nothing else is said.
pub const DEFAULT_SSE_READ_TIMEOUT_MS: u64 = 60_000;

/// The longest time that is taken.
pub const MAX_TIMEOUT_MS: u64 = 1_800_000;

/// The client side of a session.
#[derive(Debug)]
pub struct StreamableHttpClientTransport {
    url: String,
    request_headers: StringMap<String>,
    timeout: u64,
    sse_read_timeout: u64,
    tls: TlsConfig,
    session_id: String,
    protocol_version: String,
    running: bool,
}

/// What the client side of a session holds.
#[verifier::ext_equal]
pub struct ClientTransportView {
    pub url: Seq<char>,
    /// The headers of every request.
    pub headers: Map<Seq<char>, Seq<char>>,
    pub timeout: int,
    pub sse_timeout: int,
    /// The name under which the server is known, where it is not that of the URL.
    pub server_name: Seq<char>,
    /// The identity of the session; it is empty until the server gives one.
    pub session: Seq<char>,
    /// The protocol version; it is empty until the server gives one.
    pub version: Seq<char>,
    pub running: bool,
}

/// A time that is taken.
pub open spec fn valid_timeout(ms: int) -> bool {
    1 <= ms <= MAX_TIMEOUT_MS
}

/// The headers of a request, where nothing else is said.
pub open spec fn default_headers() -> Map<Seq<char>, Seq<char>> {
    map![
        headers::ACCEPT@ => headers::CONTENT_TYPE_JSON@ + ", "@ + headers::CONTENT_TYPE_SSE@,
        headers::CONTENT_TYPE@ => headers::CONTENT_TYPE_JSON@,
    ]
}

/// The headers with those of the session: its identity and its protocol version, once
/// they are known.
pub open spec fn with_session(
    h: Map<Seq<char>, Seq<char>>,
    session: Seq<char>,
    version: Seq<char>,
) -> Map<Seq<char>, Seq<char>> {
    let h = if session.len() > 0 {
        h.insert(headers::MCP_SESSION_ID@, session)
    } else {
        h
    };
    if version.len() > 0 {
        h.insert(headers::MCP_PROTOCOL_VERSION@, version)
    } else {
        h
    }
}

/// The text of a URL with another host, or nothing where it cannot have that host.
pub uninterp spec fn rehosted(url: Seq<char>, host: Seq<char>) -> Option<Seq<char>>;

/// A text that may be missing.
pub open spec fn text_of(s: Option<String>) -> Option<Seq<char>> {
    match s {
        Some(s) => Some(s@),
        None => None,
    }
}

/// `url::Url::set_host` on what `url::Url::parse` gives, and the text of the result:
/// named by `rehosted`, and nothing where one of the two fails.
#[verifier::external_body]
fn rehost_url(url: &str, host: &str) -> (r: Option<String>)
    ensures
        text_of(r) == rehosted(url@, host@),
{
    let mut u = url::Url::parse(url).ok()?;
    u.set_host(Some(host)).ok()?;
    Some(u.to_string())
}

/// The URL with the name of the server in place of its host, where it has a name and
/// the URL is of an encrypted connection and can have that host.
pub open spec fn url_used(
    url: Seq<char>,
    server_name: Seq<char>,
    parts: Result<UrlView, Seq<char>>,
    moved: Option<Seq<char>>,
) -> Seq<char> {
    if server_name.len() == 0 {
        url
    } else {
        match (parts, moved) {
            (Ok(u), Some(m)) => if u.scheme == "https"@ {
                m
            } else {
                url
            },
            _ => url,
        }
    }
}

/// The parts of a URL, or what is wrong with it.
pub open spec fn parts_view(parts: Result<UrlParts, String>) -> Result<UrlView, Seq<char>> {
    match parts {
        Ok(u) => Ok(u@),
        Err(e) => Err(e@),
    }
}

/// Tells which URL is used, given its parts and how it reads with the name of the
/// server as its host.
pub fn choose_url(
    url: &str,
    server_name: &str,
    parts: &Result<UrlParts, String>,
    moved: Option<String>,
) -> (r: String)
    ensures
        r@ == url_used(url@, server_name@, parts_view(*parts), text_of(moved)),
{
    if server_name.is_empty() {
        return url.to_owned();
    }
    match (parts, moved) {
        (Ok(u), Some(m)) => if str_eq(u.scheme.as_str(), "https") {
            m
        } else {
            url.to_owned()
        },
        _ => url.to_owned(),
    }
}

/// Where a server is to be looked up that is known under another name.
pub open spec fn lookup_wanted(
    server_name: Seq<char>,
    parts: Result<UrlView, Seq<char>>,
) -> Option<(Seq<char>, int)> {
    match parts {
        Ok(u) => match u.host {
            Some(host) => if server_name.len() > 0 && u.scheme == "https"@ {
                Some(
                    (
                        host,
                        match u.port {
                            Some(p) => p,
                            None => 443,
                        },
                    ),
                )
            } else {
                None
            },
            None => None,
        },
        Err(_) => None,
    }
}

/// A host and a port.
pub open spec fn place_view(p: Option<(String, u16)>) -> Option<(Seq<char>, int)> {
    match p {
        Some((h, p)) => Some((h@, p as int)),
        None => None,
    }
}

/// Tells where a server is to be looked up that is known under another name, given the
/// parts of its URL.
pub fn choose_lookup(server_name: &str, parts: &Result<UrlParts, String>) -> (r: Option<
    (String, u16),
>)
    ensures
        place_view(r) == lookup_wanted(server_name@, parts_view(*parts)),
{
    match parts {
        Ok(u) => match &u.host {
            Some(host) => if !server_name.is_empty() && str_eq(u.scheme.as_str(), "https") {
                let port: u16 = match u.port {
                    Some(p) => p,
                    None => 443,
                };
                Some((host.clone(), port))
            } else {
                None
            },
            None => None,
        },
        Err(_) => None,
    }
}

/// The headers that can be sent, from place `i` of the names on.
pub open spec fn sendable_from(
    order: Seq<Seq<char>>,
    h: Map<Seq<char>, Seq<char>>,
    i: int,
) -> Seq<(Seq<char>, Seq<char>)>
    decreases order.len() - i,
{
    if i < 0 || i >= order.len() {
        seq![]
    } else {
        let rest = sendable_from(order, h, i + 1);
        if http_message::sendable(order[i], h[order[i]]) {
            seq![(order[i], h[order[i]])] + rest
        } else {
            rest
        }
    }
}

/// The headers that can be sent; the others are left out.
pub fn apply_headers(h: &StringMap<String>) -> (r: Vec<(String, String)>)
    ensures
        text::pairs(r@) == sendable_from(h.order(), string_map::texts(h@), 0),
{
    let n: usize = h.len();
    let ghost ts = string_map::texts(h@);
    let mut out: Vec<(String, String)> = Vec::new();
    let mut i: usize = 0;
    assert(text::pairs(out@) =~= seq![]);
    assert(text::pairs(out@) + sendable_from(h.order(), ts, 0) =~= sendable_from(h.order(), ts, 0));
    while i < n
        invariant
            i <= n,
            n == h.order().len(),
            ts == string_map::texts(h@),
            sendable_from(h.order(), ts, 0) == text::pairs(out@) + sendable_from(
                h.order(),
                ts,
                i as int,
            ),
        decreases n - i,
    {
        let k = h.key_at(i);
        let v = h.value_at(i);
        let ghost before = text::pairs(out@);
        if is_sendable(k, v.as_str()) {
            out.push((k.to_owned(), v.clone()));
            proof {
                let rest = sendable_from(h.order(), ts, i + 1);
                assert(text::pairs(out@) =~= before + seq![(k@, v@)]);
                assert(before + (seq![(k@, v@)] + rest) =~= text::pairs(out@) + rest);
            }
        }
        i = i + 1;
    }
    assert(text::pairs(out@) + Seq::<(Seq<char>, Seq<char>)>::empty() =~= text::pairs(out@));
    out
}

/// What came of a post.
#[derive(Debug)]
pub enum PostReply {
    /// There is no client to send it.
    NotRunning,
    /// It could not be sent, for this reason.
    Failed(String),
    /// It was answered. The identity of the session and the type of the content are
    /// those that the headers give.
    Response { status: u16, session_id: Option<String>, content_type: Option<String> },
}

/// What is to be done with the answer to a post.
#[derive(Debug)]
pub enum PostStep {
    Done,
    /// Tell that the request failed.
    Report { code: JsonRpcErrorCode, message: String },
    /// Read the body, which is a message.
    ReadJson,
    /// Read the body, which is a stream of events.
    ReadEvents,
}

/// What is to be done with the answer to a post.
pub enum StepView {
    Done,
    Report { code: JsonRpcErrorCode, message: Seq<char> },
    ReadJson,
    ReadEvents,
}

impl View for PostStep {
    type V = StepView;

    open spec fn view(&self) -> StepView {
        match self {
            PostStep::Done => StepView::Done,
            PostStep::Report { code, message } => StepView::Report { code: *code, message: message@ },
            PostStep::ReadJson => StepView::ReadJson,
            PostStep::ReadEvents => StepView::ReadEvents,
        }
    }
}

/// The answer has a body that is to be read.
pub open spec fn to_be_read(status: int) -> bool {
    200 <= status < 300 && status != 202
}

/// What is to be done with the answer to a post.
pub open spec fn post_step(reply: PostReply) -> StepView {
    match reply {
        PostReply::NotRunning => StepView::Report {
            code: JsonRpcErrorCode::InternalError,
            message: "HTTP request failed: HttpClientService is not running"@,
        },
        PostReply::Failed(e) => StepView::Report {
            code: JsonRpcErrorCode::InternalError,
            message: "HTTP request failed: "@ + e@,
        },
        PostReply::Response { status, session_id, content_type } => if status == 202 {
            StepView::Done
        } else if status == 404 {
            StepView::Report {
                code: JsonRpcErrorCode::InvalidRequest,
                message: "Session terminated"@,
            }
        } else if !to_be_read(status as int) {
            StepView::Report {
                code: JsonRpcErrorCode::InvalidRequest,
                message: "HTTP error: "@ + text::decimal(status as int),
            }
        } else {
            match content_type {
                Some(t) => if text::occurs(t@, headers::CONTENT_TYPE_JSON@) {
                    StepView::ReadJson
                } else if text::occurs(t@, headers::CONTENT_TYPE_SSE@) {
                    StepView::ReadEvents
                } else {
                    StepView::Report {
                        code: JsonRpcErrorCode::InternalError,
                        message: "Unexpected content type: "@ + t@,
                    }
                },
                None => StepView::Report {
                    code: JsonRpcErrorCode::InternalError,
                    message: "Unexpected content type: "@ + "<missing>"@,
                },
            }
        },
    }
}

/// The identity of the session after the answer to a post of a request for `method`.
pub open spec fn session_after(
    session: Seq<char>,
    method: Option<Seq<char>>,
    reply: PostReply,
) -> Seq<char> {
    match reply {
        PostReply::Response { status, session_id, content_type } => match session_id {
            Some(id) => if to_be_read(status as int) && method == Some(methods::INITIALIZE@)
                && id@.len() > 0 {
                id@
            } else {
                session
            },
            None => session,
        },
        _ => session,
    }
}

/// What is to be done with a body that was read.
pub enum BodyStep {
    /// Hand this on.
    Deliver(Message),
    /// Tell that the request failed.
    Report { code: JsonRpcErrorCode, message: String },
}

/// The reason that a text is no message, in words.
pub open spec fn reason(e: ParseErrorView) -> Seq<char> {
    match e {
        ParseErrorView::InvalidJson(m) => "invalid JSON: "@ + m,
        ParseErrorView::InvalidMessage { id, message, has_method } => message,
    }
}

/// Tells what is to be done with a body of JSON, or that it could not be read.
pub fn read_body(body: Result<String, String>) -> (r: BodyStep)
    ensures
        match (body, r) {
            (Ok(t), BodyStep::Deliver(m)) => message::message_of(t@) == Ok::<
                MessageView,
                ParseErrorView,
            >(m@),
            (Ok(t), BodyStep::Report { code, message }) => message::message_of(t@) is Err
                && code == JsonRpcErrorCode::InternalError && message@
                == "Failed to parse response: "@ + reason(message::message_of(t@)->Err_0),
            (Err(e), BodyStep::Deliver(_)) => false,
            (Err(e), BodyStep::Report { code, message }) => code
                == JsonRpcErrorCode::InternalError && message@ == "HTTP request failed: "@ + e@,
        },
{
    match body {
        Ok(t) => match parse_message(t.as_str()) {
            Ok(m) => BodyStep::Deliver(m),
            Err(e) => {
                let why = e.message();
                BodyStep::Report {
                    code: JsonRpcErrorCode::InternalError,
                    message: text::cat2("Failed to parse response: ", why.as_str()),
                }
            },
        },
        Err(e) => BodyStep::Report {
            code: JsonRpcErrorCode::InternalError,
            message: text::cat2("HTTP request failed: ", e.as_str()),
        },
    }
}

/// The request can be answered: it has an identity, which is not zero.
pub open spec fn answerable(id: Option<RequestId>) -> bool {
    id is Some && id->0.wire() != message::zero_id()
}

/// The response that tells that a request failed, if it can be answered.
pub fn report_error(request_id: &Option<RequestId>, code: JsonRpcErrorCode, message: String) -> (r:
    Option<Message>)
    ensures
        match r {
            Some(m) => answerable(*request_id) && m@ == (MessageView::Response {
                to: Some(request_id->0.wire()),
                result: None,
                error: Some(ErrorView { code: code.number(), message: message@, data: None }),
            }),
            None => !answerable(*request_id),
        },
{
    match request_id {
        None => None,
        Some(id) => {
            let zero = RequestId::Number(0);
            if id.same(&zero) {
                return None;
            }
            let error = RpcError::new(code.code(), message);
            Some(Message::Response(Response::error(Some(id.duplicate()), error)))
        },
    }
}

/// The message that an event carries, if it carries one.
pub open spec fn event_message(e: EventView) -> Option<MessageView> {
    let named = match e.event {
        Some(n) => n == "message"@,
        None => true,
    };
    if !named {
        None
    } else {
        match message::message_of(e.data) {
            Ok(m) => Some(m),
            Err(_) => None,
        }
    }
}

/// A message that may be missing.
pub open spec fn message_view(m: Option<Message>) -> Option<MessageView> {
    match m {
        Some(m) => Some(m@),
        None => None,
    }
}

/// The message that an event carries, if it carries one.
pub fn handle_sse_event(event: &SseEvent) -> (r: Option<Message>)
    ensures
        message_view(r) == event_message(event@),
{
    let named = match &event.event {
        Some(n) => str_eq(n.as_str(), "message"),
        None => true,
    };
    if !named {
        return None;
    }
    match parse_message(event.data.as_str()) {
        Ok(m) => Some(m),
        Err(_) => None,
    }
}

/// The messages that were received, and whether nothing more is read.
#[derive(Debug)]
pub struct Received {
    pub messages: Vec<Message>,
    pub ended: bool,
}

/// The messages that events carry, up to the first response where reading stops there;
/// and whether it stops.
pub open spec fn received(events: Seq<EventView>, stop: bool) -> (Seq<MessageView>, bool)
    decreases events.len(),
{
    if events.len() == 0 {
        (seq![], false)
    } else {
        let (before, ended) = received(events.drop_last(), stop);
        if ended {
            (before, true)
        } else {
            match event_message(events.last()) {
                Some(m) => (before.push(m), stop && m is Response),
                None => (before, false),
            }
        }
    }
}

/// Once reading stops, later events change nothing.
proof fn stopped(events: Seq<EventView>, n: int, stop: bool)
    requires
        0 <= n <= events.len(),
        received(events.take(n), stop).1,
    ensures
        received(events, stop) == received(events.take(n), stop),
    decreases events.len(),
{
    if n < events.len() {
        assert(events.drop_last().take(n) =~= events.take(n));
        stopped(events.drop_last(), n, stop);
    } else {
        assert(events.take(n) =~= events);
    }
}

/// Reads a piece of a stream of events. With `stop_after_response`, nothing is read
/// after the first response.
pub fn consume_sse(parser: &mut SseParser, chunk: &str, stop_after_response: bool) -> (r: Received)
    ensures
        ({
            let (lines, rest) = sse::complete_lines(old(parser).left() + chunk@);
            let (es, p) = sse::events_read(old(parser).part(), lines);
            &&& final(parser).part() == p && final(parser).left() == rest
            &&& message::messages(r.messages@) == received(es, stop_after_response).0
            &&& r.ended == received(es, stop_after_response).1
        }),
{
    let list = parser.feed(chunk);
    let ghost es = sse::events(list@);
    let mut messages: Vec<Message> = Vec::new();
    let mut i: usize = 0;
    assert(message::messages(messages@) =~= seq![]);
    assert(es.take(0) =~= seq![]);
    while i < list.len()
        invariant
            i <= list.len(),
            es == sse::events(list@),
            ({
                let (lines, rest) = sse::complete_lines(old(parser).left() + chunk@);
                let (e, p) = sse::events_read(old(parser).part(), lines);
                e == es && parser.part() == p && parser.left() == rest
            }),
            received(es.take(i as int), stop_after_response) == (
                message::messages(messages@),
                false,
            ),
        decreases list.len() - i,
    {
        assert(es.take(i + 1).drop_last() =~= es.take(i as int));
        assert(es.take(i + 1).last() == list@[i as int]@);
        let ghost before = message::messages(messages@);
        match handle_sse_event(&list[i]) {
            Some(m) => {
                let is_response = m.is_response();
                messages.push(m);
                assert(message::messages(messages@) =~= before.push(m@));
                if is_response && stop_after_response {
                    proof {
                        stopped(es, i + 1, stop_after_response);
                    }
                    return Received { messages, ended: true };
                }
            },
            None => {},
        }
        i = i + 1;
    }
    assert(es.take(list.len() as int) =~= es);
    Received { messages, ended: false }
}

/// Reads the end of a stream of events.
pub fn consume_end(parser: &mut SseParser) -> (r: Option<Message>)
    ensures
        final(parser).part() == sse::nothing(),
        final(parser).left() == Seq::<char>::empty(),
        ({
            let es = sse::at_end(old(parser).part(), old(parser).left());
            message_view(r) == if es.len() > 0 {
                event_message(es[0])
            } else {
                None
            }
        }),
{
    match parser.finish() {
        Some(e) => handle_sse_event(&e),
        None => None,
    }
}

/// The protocol version that a response to the opening of a session tells.
pub open spec fn version_told(m: MessageView) -> Option<Seq<char>> {
    match m {
        MessageView::Response { to, result, error } => match result {
            Some(j) => match j.get("protocolVersion"@) {
                Some(v) => v.text(),
                None => None,
            },
            None => None,
        },
        _ => None,
    }
}

/// What is to be posted.
#[derive(Debug)]
pub struct Posting {
    pub body: String,
    /// The identity of the request, if it is one.
    pub request_id: Option<RequestId>,
    /// The method of the request, if it is one.
    pub method: Option<String>,
    /// Open the client's own stream as well.
    pub start_stream: bool,
}

impl StreamableHttpClientTransport {
    /// What the client side of the session holds.
    pub closed spec fn view(&self) -> ClientTransportView {
        ClientTransportView {
            url: self.url@,
            headers: string_map::texts(self.request_headers@),
            timeout: self.timeout as int,
            sse_timeout: self.sse_read_timeout as int,
            server_name: self.tls.server_name@,
            session: self.session_id@,
            version: self.protocol_version@,
            running: self.running,
        }
    }

    /// The encryption of the connection.
    pub closed spec fn encryption(&self) -> TlsConfig {
        self.tls
    }

    /// The client side of a new session. The headers of the caller go before ours.
    pub fn new(
        url: String,
        headers: StringMap<String>,
        timeout: u64,
        sse_read_timeout: u64,
        tls: TlsConfig,
    ) -> (r: Result<Self, McpError>)
        ensures
            r is Ok <==> valid_timeout(timeout as int) && valid_timeout(sse_read_timeout as int),
            match r {
                Ok(t) => {
                    &&& t@ == (ClientTransportView {
                        url: url@,
                        headers: default_headers().union_prefer_right(string_map::texts(headers@)),
                        timeout: timeout as int,
                        sse_timeout: sse_read_timeout as int,
                        server_name: tls.server_name@,
                        session: seq![],
                        version: seq![],
                        running: true,
                    })
                    &&& t.encryption() == tls
                },
                Err(e) => e.faults_argument(
                    if !valid_timeout(timeout as int) {
                        "Invalid timeout value"@
                    } else {
                        "Invalid SSE read timeout value"@
                    },
                ),
            },
    {
        if timeout == 0 || timeout > MAX_TIMEOUT_MS {
            return Err(McpError::argument("Invalid timeout value".to_owned()));
        }
        if sse_read_timeout == 0 || sse_read_timeout > MAX_TIMEOUT_MS {
            return Err(McpError::argument("Invalid SSE read timeout value".to_owned()));
        }
        let mut h = headers;
        let ghost given = string_map::texts(headers@);
        if !h.contains_key(headers::ACCEPT) {
            let accept = text::cat3(headers::CONTENT_TYPE_JSON, ", ", headers::CONTENT_TYPE_SSE);
            let _ = h.insert(headers::ACCEPT.to_owned(), accept);
        }
        if !h.contains_key(headers::CONTENT_TYPE) {
            let _ = h.insert(
                headers::CONTENT_TYPE.to_owned(),
                headers::CONTENT_TYPE_JSON.to_owned(),
            );
        }
        proof {
            reveal_strlit("accept");
            reveal_strlit("content-type");
            assert("accept"@.len() == 6 && "content-type"@.len() == 12);
            assert(string_map::texts(h@) =~= default_headers().union_prefer_right(given));
        }
        let session_id = String::new();
        let protocol_version = String::new();
        assert(session_id@ =~= seq![]);
        assert(protocol_version@ =~= seq![]);
        Ok(
            StreamableHttpClientTransport {
                url,
                request_headers: h,
                timeout,
                sse_read_timeout,
                tls,
                session_id,
                protocol_version,
                running: true,
            },
        )
    }

    /// The identity of the session, once the server gave one.
    pub fn session_id(&self) -> (r: &str)
        ensures
            r@ == self@.session,
    {
        self.session_id.as_str()
    }

    /// The protocol version, once the server gave one.
    pub fn protocol_version(&self) -> (r: &str)
        ensures
            r@ == self@.version,
    {
        self.protocol_version.as_str()
    }

    /// Tells whether messages are still sent.
    pub fn is_running(&self) -> (r: bool)
        ensures
            r == self@.running,
    {
        self.running
    }

    /// How long a connection may take.
    pub fn timeout(&self) -> (r: u64)
        ensures
            r == self@.timeout,
    {
        self.timeout
    }

    /// How long a request may take.
    pub fn sse_read_timeout(&self) -> (r: u64)
        ensures
            r == self@.sse_timeout,
    {
        self.sse_read_timeout
    }

    /// The encryption of the connection.
    pub fn tls(&self) -> (r: &TlsConfig)
        ensures
            *r == self.encryption(),
            r.server_name@ == self@.server_name,
    {
        &self.tls
    }

    /// The URL that requests go to.
    pub fn effective_url(&self) -> (r: String)
        ensures
            r@ == url_used(
                self@.url,
                self@.server_name,
                endpoint::url_parts(self@.url),
                rehosted(self@.url, self@.server_name),
            ),
    {
        let parts = parse_url(self.url.as_str());
        let moved = rehost_url(self.url.as_str(), self.tls.server_name.as_str());
        choose_url(self.url.as_str(), self.tls.server_name.as_str(), &parts, moved)
    }

    /// Where the server is to be looked up before the first request, if it is known
    /// under another name.
    pub fn connect(&self) -> (r: Option<(String, u16)>)
        ensures
            place_view(r) == lookup_wanted(self@.server_name, endpoint::url_parts(self@.url)),
    {
        let parts = parse_url(self.url.as_str());
        choose_lookup(self.tls.server_name.as_str(), &parts)
    }

    /// Adds the headers of the session to those of a request.
    pub fn add_session(&self, h: &mut StringMap<String>)
        ensures
            string_map::texts(final(h)@) == with_session(
                string_map::texts(old(h)@),
                self@.session,
                self@.version,
            ),
    {
        let ghost before = string_map::texts(h@);
        if !self.session_id.as_str().is_empty() {
            let _ = h.insert(headers::MCP_SESSION_ID.to_owned(), self.session_id.clone());
            assert(string_map::texts(h@) =~= before.insert(
                headers::MCP_SESSION_ID@,
                self.session_id@,
            ));
        }
        let ghost between = string_map::texts(h@);
        if !self.protocol_version.as_str().is_empty() {
            let _ = h.insert(
                headers::MCP_PROTOCOL_VERSION.to_owned(),
                self.protocol_version.clone(),
            );
            assert(string_map::texts(h@) =~= between.insert(
                headers::MCP_PROTOCOL_VERSION@,
                self.protocol_version@,
            ));
        }
    }

    /// The headers of a request. `auth` may add to them and change them, but for those
    /// of the session, which are added last.
    pub fn prepare_headers<A: AuthProvider>(&self, auth: Option<&A>) -> (r: StringMap<String>)
        ensures
            match auth {
                Some(a) => exists|h: Map<Seq<char>, Seq<char>>| #[trigger]
                    a.may_give(self@.headers, h) && string_map::texts(r@) == with_session(
                        h,
                        self@.session,
                        self@.version,
                    ),
                None => string_map::texts(r@) == with_session(
                    self@.headers,
                    self@.session,
                    self@.version,
                ),
            },
    {
        let mut h = self.request_headers.clone();
        if let Some(a) = auth {
            a.apply(&mut h);
        }
        let ghost before = string_map::texts(h@);
        self.add_session(&mut h);
        assert(auth is Some ==> auth->0.may_give(self@.headers, before));
        h
    }

    /// Tells what is to be done with the answer to a post of a request for `method`.
    pub fn post_answered(&mut self, method: &Option<String>, reply: PostReply) -> (r: PostStep)
        ensures
            r@ == post_step(reply),
            final(self)@ == (ClientTransportView {
                session: session_after(old(self)@.session, text_of(*method), reply),
                ..old(self)@
            }),
            final(self).encryption() == old(self).encryption(),
    {
        match reply {
            PostReply::NotRunning => PostStep::Report {
                code: JsonRpcErrorCode::InternalError,
                message: "HTTP request failed: HttpClientService is not running".to_owned(),
            },
            PostReply::Failed(e) => PostStep::Report {
                code: JsonRpcErrorCode::InternalError,
                message: text::cat2("HTTP request failed: ", e.as_str()),
            },
            PostReply::Response { status: code, session_id, content_type } => {
                if code == status::ACCEPTED {
                    return PostStep::Done;
                }
                if code == status::NOT_FOUND {
                    return PostStep::Report {
                        code: JsonRpcErrorCode::InvalidRequest,
                        message: "Session terminated".to_owned(),
                    };
                }
                if !(200 <= code && code < 300) {
                    let n = text::int_text(code as i128);
                    return PostStep::Report {
                        code: JsonRpcErrorCode::InvalidRequest,
                        message: text::cat2("HTTP error: ", n.as_str()),
                    };
                }
                let initialization = match method {
                    Some(m) => str_eq(m.as_str(), methods::INITIALIZE),
                    None => false,
                };
                if initialization {
                    if let Some(id) = session_id {
                        if !id.as_str().is_empty() {
                            self.session_id = id;
                        }
                    }
                }
                match content_type {
                    Some(t) => if text::contains(t.as_str(), headers::CONTENT_TYPE_JSON) {
                        PostStep::ReadJson
                    } else if text::contains(t.as_str(), headers::CONTENT_TYPE_SSE) {
                        PostStep::ReadEvents
                    } else {
                        PostStep::Report {
                            code: JsonRpcErrorCode::InternalError,
                            message: text::cat2("Unexpected content type: ", t.as_str()),
                        }
                    },
                    None => PostStep::Report {
                        code: JsonRpcErrorCode::InternalError,
                        message: text::cat2("Unexpected content type: ", "<missing>"),
                    },
                }
            },
        }
    }

    /// Takes note of a message that answers a post: the response to the opening of a
    /// session tells the protocol version.
    pub fn message_received(&mut self, message: &Message, initialization: bool)
        ensures
            final(self)@ == (ClientTransportView {
                version: match version_told(message@) {
                    Some(v) => if initialization {
                        v
                    } else {
                        old(self)@.version
                    },
                    None => old(self)@.version,
                },
                ..old(self)@
            }),
            final(self).encryption() == old(self).encryption(),
    {
        if !initialization {
            return ;
        }
        if let Message::Response(a) = message {
            if let Some(result) = &a.result {
                if let Some(v) = result.get("protocolVersion") {
                    if let Some(v) = v.as_str() {
                        self.protocol_version = v.to_owned();
                    }
                }
            }
        }
    }

    /// Tells whether the client's own stream can be opened: there is a session.
    pub fn start_get_stream(&self) -> (r: bool)
        ensures
            r == (self@.session.len() > 0),
    {
        !self.session_id.as_str().is_empty()
    }

    /// What is to be posted for a message. The client's own stream is opened when the
    /// session is.
    pub fn send_message(&self, message: &Message) -> (r: Result<Posting, McpError>)
        ensures
            match r {
                Ok(p) => {
                    &&& self@.running
                    &&& p.body@ == message::message_text(message@)
                    &&& wire::opt(p.request_id) == match message@ {
                        MessageView::Request { id, method, params } => Some(id),
                        _ => None,
                    }
                    &&& text_of(p.method) == match message@ {
                        MessageView::Request { id, method, params } => Some(method),
                        _ => None,
                    }
                    &&& p.start_stream == match message@ {
                        MessageView::Notification { method, params } => method
                            == methods::NOTIFICATION_INITIALIZED@ && self@.session.len() > 0,
                        _ => false,
                    }
                },
                Err(e) => !self@.running && e.faults_transport("HttpClientService is not running"@),
            },
    {
        if !self.running {
            return Err(McpError::Transport("HttpClientService is not running".to_owned()));
        }
        let start_stream = match message {
            Message::Notification(n) => str_eq(
                n.method.as_str(),
                methods::NOTIFICATION_INITIALIZED,
            ) && self.start_get_stream(),
            _ => false,
        };
        let (request_id, method) = match message {
            Message::Request(q) => (Some(q.id.duplicate()), Some(q.method.clone())),
            _ => (None, None),
        };
        Ok(Posting { body: serialize_message(message), request_id, method, start_stream })
    }

    /// Ends the session on this side.
    pub fn terminate(&mut self)
        ensures
            final(self)@ == (ClientTransportView {
                session: seq![],
                version: seq![],
                running: false,
                ..old(self)@
            }),
            final(self).encryption() == old(self).encryption(),
    {
        self.running = false;
        self.session_id = String::new();
        self.protocol_version = String::new();
        assert(self.session_id@ =~= seq![]);
        assert(self.protocol_version@ =~= seq![]);
    }
}

/// Tells whether the server opened the client's own stream.
pub fn stream_opened(status: u16) -> (r: bool)
    ensures
        r == (200 <= status < 300),
{
    200 <= status && status < 300
}

/// The session that a server names when it is opened is named in every later request
/// to it.
pub proof fn session_is_kept(t: ClientTransportView, reply: PostReply)
    requires
        reply matches PostReply::Response { status, session_id, content_type }
            && to_be_read(status as int) && session_id is Some && session_id->0@.len() > 0,
    ensures
        ({
            let session = session_after(t.session, Some(methods::INITIALIZE@), reply);
            with_session(t.headers, session, t.version)[headers::MCP_SESSION_ID@]
                == reply->session_id->0@
        }),
{
    reveal_strlit("mcp-session-id");
    reveal_strlit("mcp-protocol-version");
    assert("mcp-session-id"@.len() == 14 && "mcp-protocol-version"@.len() == 20);
}

/// A response that is sent as one event is received as that response, and reading ends
/// with it where it stops after a response.
pub proof fn event_is_received(m: MessageView, text: Seq<char>, stop: bool)
    requires
        message::message_of(text) == Ok::<MessageView, ParseErrorView>(m),
    ensures
        received(seq![EventView { event: Some("message"@), data: text }], stop) == (
            seq![m],
            stop && m is Response,
        ),
{
    let e = EventView { event: Some("message"@), data: text };
    let all = seq![e];
    assert(all.drop_last() =~= seq![]);
    assert(Seq::<MessageView>::empty().push(m) =~= seq![m]);
    assert(received(all.drop_last(), stop) == (Seq::<MessageView>::empty(), false));
}

} // verus!
