//! The sessions of a server over HTTP, and where a request goes.
use vstd::prelude::*;

use crate::auth::{AuthenticationResult, Authenticator, Authorizer};
use crate::error::McpError;
use crate::json;
use crate::json::{Json, JsonView};
use crate::protocol::endpoint;
use crate::protocol::{headers, parse_server_endpoint, status};
use crate::server::session;
use crate::server::session::ServerSession;
use crate::string_map::StringMap;
use crate::text;
use crate::text::str_eq;
use crate::transport::http_message;
use crate::transport::http_message::{
    is_sendable, HttpReply, HttpRequest, HttpResponse, ReplyView, RequestView, ResponseView,
};
use crate::transport::streamable_http_server;
use crate::transport::streamable_http_server::{StreamableHttpServerTransport, TransportView};
use crate::types::config::{ServerConfig, StreamableHttpServerConfig};
use crate::wire;
use crate::wire::Wire;

verus! {

/// A digit of a number to the base sixteen, in lowercase.
pub open spec fn hex_digit(c: char) -> bool {
    '0' <= c <= '9' || 'a' <= c <= 'f'
}

/// The text of a random UUID: groups of eight, four, four, four and twelve digits with
/// hyphens between them, of the fourth version and the usual variant.
pub open spec fn random_uuid_text(s: Seq<char>) -> bool {
    &&& s.len() == 36
    &&& forall|i: int|
        0 <= i < 36 ==> if i == 8 || i == 13 || i == 18 || i == 23 {
            #[trigger] s[i] == '-'
        } else {
            hex_digit(s[i])
        }
    &&& s[14] == '4'
    &&& s[19] == '8' || s[19] == '9' || s[19] == 'a' || s[19] == 'b'
}

/// `uuid::Uuid::new_v4` and the text of what it gives. The digits are random; only
/// their form is stated.
#[verifier::external_body]
fn random_uuid() -> (r: String)
    ensures
        random_uuid_text(r@),
{
    uuid::Uuid::new_v4().to_string()
}

/// A new identity for a session, which can stand in a header.
pub fn generate_session_id() -> (r: String)
    ensures
        random_uuid_text(r@),
        streamable_http_server::visible_ascii(r@),
{
    let r = random_uuid();
    assert forall|i: int| 0 <= i < r@.len() implies '!' <= #[trigger] r@[i] <= '~' by {
        if i == 8 || i == 13 || i == 18 || i == 23 {
            assert(r@[i] == '-');
        } else {
            assert(hex_digit(r@[i]));
        }
    }
    r
}

/// The sessions of a server. `A` authenticates those who call, `Z` decides whether they
/// may go on, and `E` is what is kept of a session.
pub struct ServerManager<A, Z, E> {
    config: ServerConfig,
    transport_config: Option<StreamableHttpServerConfig<A, Z>>,
    sessions: StringMap<E>,
}

/// Where a request goes.
#[derive(Debug)]
pub enum Routed {
    /// Nowhere; this answers it.
    Answer(HttpReply),
    /// To a session that is made for it alone.
    Stateless { session_id: String },
    /// To a new session.
    Create { session_id: String },
    /// To a session that there is.
    Existing { session_id: String },
}

/// A response of the server itself to one who may not go on.
pub open spec fn auth_answer(code: int, words: Seq<char>, message: Seq<char>) -> ResponseView {
    ResponseView {
        status: code,
        headers: seq![
            (headers::CONTENT_TYPE@, headers::CONTENT_TYPE_JSON@),
            ("x-status-text"@, words),
        ],
        body: json::compact_text(
            JsonView::Object(
                wire::with(wire::none(), "error"@, JsonView::String(message)),
            ).normal(),
        ),
    }
}

fn auth_error(status_code: u16, words: &str, message: &str) -> (r: HttpResponse)
    ensures
        r@ == auth_answer(status_code as int, words@, message@),
{
    let mut o = wire::start();
    wire::put_json(&mut o, "error", Json::string(message));
    let body = Json::object(o);
    let r = HttpResponse::new(status_code).header(
        headers::CONTENT_TYPE,
        headers::CONTENT_TYPE_JSON,
    ).header("x-status-text", words).body(body.to_text());
    assert(r@.headers =~= seq![
        (headers::CONTENT_TYPE@, headers::CONTENT_TYPE_JSON@),
        ("x-status-text"@, words@),
    ]);
    r
}

/// The answer to one who was not found to be anybody.
pub open spec fn unauthenticated(x: AuthenticationResult) -> Option<ResponseView> {
    if x.authenticated {
        None
    } else {
        Some(
            auth_answer(
                401,
                "Unauthorized"@,
                match x.error_description {
                    Some(d) => d@,
                    None => "Authentication failed"@,
                },
            ),
        )
    }
}

/// The answer to one who may not go on.
pub open spec fn forbidden() -> ResponseView {
    auth_answer(403, "Forbidden"@, "Insufficient permissions"@)
}

/// A response that may be missing.
pub open spec fn response_view(r: Option<HttpResponse>) -> Option<ResponseView> {
    match r {
        Some(a) => Some(a@),
        None => None,
    }
}

/// The answer to one who was not found to be anybody, by what came of authenticating
/// them.
pub fn refuse_unauthenticated(x: &AuthenticationResult) -> (r: Option<HttpResponse>)
    ensures
        response_view(r) == unauthenticated(*x),
{
    if x.authenticated {
        return None;
    }
    let a = match &x.error_description {
        Some(d) => auth_error(status::UNAUTHORIZED, "Unauthorized", d.as_str()),
        None => auth_error(status::UNAUTHORIZED, "Unauthorized", "Authentication failed"),
    };
    Some(a)
}

/// The answer to one who may not go on.
pub fn refuse_unauthorized(authorized: bool) -> (r: Option<HttpResponse>)
    ensures
        response_view(r) == if authorized {
            None
        } else {
            Some(forbidden())
        },
{
    if authorized {
        None
    } else {
        Some(auth_error(status::FORBIDDEN, "Forbidden", "Insufficient permissions"))
    }
}

/// The answer where there is nothing to be reached.
pub open spec fn endpoint_not_found() -> ResponseView {
    ResponseView { status: 404, headers: seq![], body: "Endpoint not found"@ }
}

/// The answer where there is no such session.
pub open spec fn session_not_found() -> ResponseView {
    ResponseView {
        status: 404,
        headers: streamable_http_server::json_header(),
        body: json::compact_text(
            streamable_http_server::error_body(
                "Not Found: Invalid or expired session ID"@,
                -32600,
            ).normal(),
        ),
    }
}

/// The answer where the server itself fails.
pub open spec fn server_failed(why: Seq<char>) -> ResponseView {
    ResponseView {
        status: 500,
        headers: seq![(headers::CONTENT_TYPE@, headers::CONTENT_TYPE_TEXT_PLAIN@)],
        body: "Error: "@ + why,
    }
}

/// The answer where the server itself fails.
pub fn internal_error(e: &McpError) -> (r: HttpReply)
    ensures
        r@ == ReplyView::Full(server_failed(e.told())),
{
    let why = e.message();
    let a = HttpResponse::new(status::INTERNAL_SERVER_ERROR).header(
        headers::CONTENT_TYPE,
        headers::CONTENT_TYPE_TEXT_PLAIN,
    ).body(text::cat2("Error: ", why.as_str()));
    assert(a@.headers =~= seq![(headers::CONTENT_TYPE@, headers::CONTENT_TYPE_TEXT_PLAIN@)]);
    HttpReply::Full(a)
}

/// The request was refused.
pub open spec fn rejected(r: ReplyView) -> bool {
    r is Full && r->Full_0.status >= 400
}

/// The sessions that are kept after a request to one of them was handled: that one not, where
/// it has ended, or where the request was its first and was refused.
pub open spec fn kept_after<E>(
    sessions: Map<Seq<char>, E>,
    id: Seq<char>,
    created: bool,
    terminated: bool,
    reply: ReplyView,
) -> Map<Seq<char>, E> {
    if terminated || (created && rejected(reply)) {
        sessions.remove(id)
    } else {
        sessions
    }
}

/// Where a server listens.
#[derive(Debug)]
pub struct ListenPlan {
    /// The host and the port.
    pub bind: String,
    /// The path under which requests are taken.
    pub path: String,
}

/// Where a server listens, by the parts of its endpoint.
pub open spec fn plans(p: ListenPlan, host: Seq<char>, port: int, path: Seq<char>) -> bool {
    &&& p.bind@ == host + ":"@ + text::decimal(port)
    &&& p.path@ == if path.len() == 0 {
        "/"@
    } else {
        path
    }
}

/// Tells where a server listens, by the parts of its endpoint.
pub fn plan_listening(host: &str, port: u16, path: &str) -> (r: ListenPlan)
    ensures
        plans(r, host@, port as int, path@),
{
    let n = text::int_text(port as i128);
    let bind = text::cat3(host, ":", n.as_str());
    let path = if path.is_empty() {
        "/".to_owned()
    } else {
        path.to_owned()
    };
    ListenPlan { bind, path }
}

impl<A, Z, E> ServerManager<A, Z, E> {
    /// The sessions there are.
    pub closed spec fn view(&self) -> Map<Seq<char>, E> {
        self.sessions@
    }

    /// The configuration of the server.
    pub closed spec fn configured(&self) -> ServerConfig {
        self.config
    }

    /// How the server is reached over HTTP, if it is.
    pub closed spec fn reached(&self) -> Option<StreamableHttpServerConfig<A, Z>> {
        self.transport_config
    }

    /// No sessions yet. Without a transport configuration the server is not reached over
    /// HTTP.
    pub fn new(config: ServerConfig, transport_config: Option<StreamableHttpServerConfig<A, Z>>) -> (r:
        Self)
        ensures
            r.configured() == config,
            r.reached() == transport_config,
            r@ == Map::<Seq<char>, E>::empty(),
    {
        ServerManager { config, transport_config, sessions: StringMap::new() }
    }

    /// Tells whether the server is on a pair of text streams.
    pub fn is_stdio(&self) -> (r: bool)
        ensures
            r == (self.reached() is None),
    {
        self.transport_config.is_none()
    }

    /// How many sessions there are.
    pub fn session_count(&self) -> (r: usize)
        ensures
            r == self@.dom().len(),
            self@.dom().finite(),
    {
        self.sessions.len()
    }

    /// The session with an identity.
    pub fn get_session(&self, session_id: &str) -> (r: Option<&E>)
        ensures
            match r {
                Some(e) => self@.dom().contains(session_id@) && *e == self@[session_id@],
                None => !self@.dom().contains(session_id@),
            },
    {
        self.sessions.get(session_id)
    }

    /// Tells where the server listens.
    pub fn start_http(&self) -> (r: Result<ListenPlan, McpError>)
        ensures
            match r {
                Ok(p) => self.reached() is Some && exists|e: endpoint::ServerEndpoint|
                    endpoint::server_endpoint(self.reached()->0.endpoint@) == Ok::<_, Seq<char>>(
                        #[trigger] endpoint::endpoint_view(e),
                    ) && plans(p, e.host@, e.port as int, e.path@),
                Err(McpError::InvalidState(m)) => match self.reached() {
                    Some(c) => endpoint::server_endpoint(c.endpoint@) == Err::<
                        (Seq<char>, Seq<char>, int, Seq<char>),
                        Seq<char>,
                    >(m@),
                    None => m@ == "HTTP transport is not configured"@,
                },
                Err(_) => false,
            },
    {
        match &self.transport_config {
            Some(c) => match parse_server_endpoint(c.endpoint.as_str()) {
                Ok(e) => Ok(plan_listening(e.host.as_str(), e.port, e.path.as_str())),
                Err(m) => Err(McpError::InvalidState(m)),
            },
            None => Err(McpError::state("HTTP transport is not configured".to_owned())),
        }
    }

    /// Makes the two sides of a new session over HTTP: its transport, and the session
    /// itself.
    pub fn new_http_session<S, T>(&self, session_id: &str, stateless: bool) -> (r: Result<
        (StreamableHttpServerTransport, ServerSession<S, T>),
        McpError,
    >)
        ensures
            r is Ok <==> self.reached() is Some && (stateless
                || streamable_http_server::visible_ascii(session_id@)),
            match r {
                Ok((t, s)) => {
                    &&& t@ == (TransportView {
                        session: if stateless {
                            seq![]
                        } else {
                            session_id@
                        },
                        json: self.reached()->0.is_json_response_enabled,
                        stateless,
                        terminated: false,
                        stream: false,
                        next: 1,
                    })
                    &&& s@.id == session_id@
                    &&& s@.name == self.configured().name@
                    &&& s@.version == self.configured().version@
                    &&& s@.transport
                    &&& s@.stateless == stateless
                    &&& !s@.initialized
                    &&& s@.client is None
                    &&& s@.requests.dom() == Set::<JsonView>::empty()
                    &&& s.awaited().next_number() == 1
                    &&& s.awaited().waiting() == Map::<i64, T>::empty()
                    &&& exists|c: crate::types::capabilities::ServerCapabilities|
                        c.wire() == self.configured().capabilities.wire() && s@.capabilities
                            == #[trigger] session::unsubscribed(c)
                },
                Err(e) => if self.reached() is None {
                    e.faults_state("HTTP transport is not configured"@)
                } else {
                    e.faults_argument(
                        "Session ID must only contain visible ASCII characters (0x21-0x7E)"@,
                    )
                },
            },
    {
        let json = match &self.transport_config {
            Some(c) => c.is_json_response_enabled,
            None => {
                return Err(McpError::state("HTTP transport is not configured".to_owned()));
            },
        };
        proof {
            reveal_strlit("");
            assert(""@ =~= seq![]);
        }
        let transport_id = if stateless {
            ""
        } else {
            session_id
        };
        let t = match StreamableHttpServerTransport::new(transport_id, json, stateless) {
            Ok(t) => t,
            Err(e) => {
                return Err(e);
            },
        };
        let mut s: ServerSession<S, T> = ServerSession::new(
            true,
            self.config.name.clone(),
            self.config.version.clone(),
            session_id.to_owned(),
            stateless,
        );
        let c = self.config.capabilities.duplicate();
        let ghost kept = c;
        s.set_server_capabilities(c);
        assert(s@.requests.dom() =~= Set::<JsonView>::empty());
        assert(s@.capabilities == session::unsubscribed(kept));
        Ok((t, s))
    }

    /// Keeps a session.
    pub fn insert_session(&mut self, session_id: String, entry: E)
        ensures
            final(self)@ == old(self)@.insert(session_id@, entry),
            final(self).configured() == old(self).configured(),
            final(self).reached() == old(self).reached(),
    {
        let _ = self.sessions.insert(session_id, entry);
    }

    /// Forgets a session that has ended, or whose first request was refused. Gives what
    /// was kept of it.
    pub fn request_handled(
        &mut self,
        session_id: &str,
        created: bool,
        terminated: bool,
        reply: &HttpReply,
    ) -> (r: Option<E>)
        ensures
            final(self)@ == kept_after(old(self)@, session_id@, created, terminated, reply@),
            r is Some <==> (terminated || (created && rejected(reply@)))
                && old(self)@.dom().contains(session_id@),
            r is Some ==> r->0 == old(self)@[session_id@],
            final(self).configured() == old(self).configured(),
            final(self).reached() == old(self).reached(),
    {
        let refused = match reply.as_full() {
            Some(a) => a.status >= 400,
            None => false,
        };
        if terminated || (created && refused) {
            return self.sessions.remove(session_id);
        }
        None
    }

    /// Forgets every session, and gives what was kept of them.
    pub fn stop(&mut self) -> (r: StringMap<E>)
        ensures
            r@ == old(self)@,
            final(self)@ == Map::<Seq<char>, E>::empty(),
            final(self).configured() == old(self).configured(),
            final(self).reached() == old(self).reached(),
    {
        let mut all: StringMap<E> = StringMap::new();
        std::mem::swap(&mut all, &mut self.sessions);
        all
    }
}

/// Where a request goes whose caller may go on.
pub open spec fn routed<E>(
    stateless: bool,
    sessions: Map<Seq<char>, E>,
    r: RequestView,
    to: Routed,
) -> bool {
    let named = r.given(headers::MCP_SESSION_ID@);
    if stateless {
        to matches Routed::Stateless { session_id } && session_id@ == named
    } else if named.len() == 0 {
        to matches Routed::Create { session_id } && random_uuid_text(session_id@)
    } else if sessions.dom().contains(named) {
        to matches Routed::Existing { session_id } && session_id@ == named
    } else {
        to matches Routed::Answer(a) && a@ == ReplyView::Full(session_not_found())
    }
}

/// What may answer a caller, by what came of authenticating and authorizing them:
/// nothing where they may go on. Nobody is authenticated where there is nothing to do
/// so, and nobody is authorized but those who were authenticated.
pub open spec fn caller_answer<A: Authenticator, Z: Authorizer>(
    c: Option<StreamableHttpServerConfig<A, Z>>,
    headers: &StringMap<String>,
    v: Option<ResponseView>,
) -> bool {
    match c {
        Some(c) => match c.authenticator {
            Some(a) => exists|x: AuthenticationResult| #[trigger]
                call_ensures(A::authenticate, (&a, headers), x) && match c.authorizer {
                    Some(z) => if unauthenticated(x) is Some {
                        v == unauthenticated(x)
                    } else {
                        exists|ok: bool| #[trigger]
                            call_ensures(Z::authorize, (&z, &x), ok) && v == if ok {
                                None
                            } else {
                                Some(forbidden())
                            }
                    },
                    None => v == unauthenticated(x),
                },
            None => v is None,
        },
        None => v is None,
    }
}

impl<A: Authenticator, Z: Authorizer, E> ServerManager<A, Z, E> {
    /// The answer to a caller who may not go on.
    pub fn check_caller(&self, request: &HttpRequest) -> (r: Option<HttpResponse>)
        ensures
            caller_answer(self.reached(), &request.headers, response_view(r)),
    {
        let c = match &self.transport_config {
            Some(c) => c,
            None => {
                return None;
            },
        };
        let a = match &c.authenticator {
            Some(a) => a,
            None => {
                return None;
            },
        };
        let x = a.authenticate(&request.headers);
        if let Some(refusal) = refuse_unauthenticated(&x) {
            return Some(refusal);
        }
        match &c.authorizer {
            Some(z) => {
                let ok = z.authorize(&x);
                refuse_unauthorized(ok)
            },
            None => None,
        }
    }

    /// Tells where a request goes whose caller may go on.
    pub fn route(&self, request: &HttpRequest) -> (r: Routed)
        ensures
            match self.reached() {
                Some(c) => routed(c.stateless, self@, request@, r),
                None => r matches Routed::Answer(a) && a@ == ReplyView::Full(endpoint_not_found()),
            },
    {
        let stateless = match &self.transport_config {
            Some(c) => c.stateless,
            None => {
                let a = HttpResponse::new(status::NOT_FOUND).body("Endpoint not found".to_owned());
                return Routed::Answer(HttpReply::Full(a));
            },
        };
        let named = request.header_or_empty(headers::MCP_SESSION_ID);
        if stateless {
            return Routed::Stateless { session_id: named.to_owned() };
        }
        if named.is_empty() {
            return Routed::Create { session_id: generate_session_id() };
        }
        if self.sessions.contains_key(named) {
            return Routed::Existing { session_id: named.to_owned() };
        }
        let body = streamable_http_server::error_json(
            "Not Found: Invalid or expired session ID",
            -32600,
        );
        let a = HttpResponse::new(status::NOT_FOUND).header(
            headers::CONTENT_TYPE,
            headers::CONTENT_TYPE_JSON,
        ).body(body.to_text());
        assert(a@.headers =~= streamable_http_server::json_header());
        Routed::Answer(HttpReply::Full(a))
    }

    /// Tells where a request goes: the caller must be let in first.
    pub fn handle_request(&self, request: &HttpRequest) -> (r: Routed)
        ensures
            match self.reached() {
                Some(c) => exists|v: Option<ResponseView>| #[trigger]
                    caller_answer(self.reached(), &request.headers, v) && match v {
                        Some(a) => r matches Routed::Answer(x) && x@ == ReplyView::Full(a),
                        None => routed(c.stateless, self@, request@, r),
                    },
                None => r matches Routed::Answer(a) && a@ == ReplyView::Full(endpoint_not_found()),
            },
    {
        let refusal = self.check_caller(request);
        let ghost v = response_view(refusal);
        assert(caller_answer(self.reached(), &request.headers, v));
        match refusal {
            Some(a) => Routed::Answer(HttpReply::Full(a)),
            None => self.route(request),
        }
    }
}

/// The sessions after a whole request, by where it went: a new session is kept while its
/// first request is handled, and whatever session it went to is looked at after that.
pub open spec fn sessions_after<E>(
    sessions: Map<Seq<char>, E>,
    to: Routed,
    entry: E,
    terminated: bool,
    reply: ReplyView,
) -> Map<Seq<char>, E> {
    match to {
        Routed::Answer(_) => sessions,
        Routed::Stateless { session_id } => sessions,
        Routed::Create { session_id } => kept_after(
            sessions.insert(session_id@, entry),
            session_id@,
            true,
            terminated,
            reply,
        ),
        Routed::Existing { session_id } => kept_after(
            sessions,
            session_id@,
            false,
            terminated,
            reply,
        ),
    }
}

/// What a whole request leaves of the sessions. Where nothing is kept between requests, or
/// where it names a session that there is not, they stay as they were. A request without a
/// name makes a new session, which stays unless it has ended or its first reply has a status
/// from 400 on; it is then gone again, as if it had never been. A request to a session that
/// there is takes it away exactly if it has ended. No other session is touched.
pub proof fn whole_request<E>(
    stateless: bool,
    sessions: Map<Seq<char>, E>,
    request: RequestView,
    to: Routed,
    entry: E,
    terminated: bool,
    reply: ReplyView,
    other: Seq<char>,
)
    requires
        routed(stateless, sessions, request, to),
    ensures
        ({
            let named = request.given(headers::MCP_SESSION_ID@);
            let after = sessions_after(sessions, to, entry, terminated, reply);
            if stateless {
                after == sessions
            } else if named.len() == 0 {
                &&& to is Create
                &&& {
                    let id = to->Create_session_id@;
                    &&& terminated || rejected(reply) ==> after == sessions.remove(id) && (
                    !sessions.dom().contains(id) ==> after == sessions)
                    &&& !(terminated || rejected(reply)) ==> after == sessions.insert(id, entry)
                    &&& other != id ==> after.dom().contains(other) == sessions.dom().contains(
                        other,
                    ) && after[other] == sessions[other]
                }
            } else if !sessions.dom().contains(named) {
                after == sessions
            } else {
                &&& terminated ==> after == sessions.remove(named)
                &&& !terminated ==> after == sessions
                &&& other != named ==> after.dom().contains(other) == sessions.dom().contains(
                    other,
                ) && after[other] == sessions[other]
            }
        }),
{
    if let Routed::Create { session_id } = to {
        let id = session_id@;
        assert(sessions.insert(id, entry).remove(id) =~= sessions.remove(id));
        if !sessions.dom().contains(id) {
            assert(sessions.remove(id) =~= sessions);
        }
    }
}

/// The headers of a response as they are sent, from place `i` on.
pub open spec fn sent_from(h: Seq<(Seq<char>, Seq<char>)>, i: int) -> Seq<(Seq<char>, Seq<char>)>
    decreases h.len() - i,
{
    if i < 0 || i >= h.len() {
        seq![]
    } else {
        let rest = sent_from(h, i + 1);
        if h[i].0 != "x-status-text"@ && http_message::sendable(h[i].0, h[i].1) {
            seq![h[i]] + rest
        } else {
            rest
        }
    }
}

/// The headers of a response as they are sent: those that can be, without the one that
/// tells the status in words.
pub fn response_headers(list: &Vec<(String, String)>) -> (r: Vec<(String, String)>)
    ensures
        text::pairs(r@) == sent_from(text::pairs(list@), 0),
{
    let ghost all = text::pairs(list@);
    let mut out: Vec<(String, String)> = Vec::new();
    let mut i: usize = 0;
    assert(text::pairs(out@) =~= seq![]);
    assert(text::pairs(out@) + sent_from(all, 0) =~= sent_from(all, 0));
    while i < list.len()
        invariant
            i <= list.len(),
            all == text::pairs(list@),
            sent_from(all, 0) == text::pairs(out@) + sent_from(all, i as int),
        decreases list.len() - i,
    {
        let ghost before = text::pairs(out@);
        let name = list[i].0.as_str();
        let value = list[i].1.as_str();
        if !str_eq(name, "x-status-text") && is_sendable(name, value) {
            out.push((name.to_owned(), value.to_owned()));
            proof {
                let rest = sent_from(all, i + 1);
                assert(text::pairs(out@) =~= before + seq![all[i as int]]);
                assert(before + (seq![all[i as int]] + rest) =~= text::pairs(out@) + rest);
            }
        }
        i = i + 1;
    }
    assert(text::pairs(out@) + Seq::<(Seq<char>, Seq<char>)>::empty() =~= text::pairs(out@));
    out
}

} // verus!
