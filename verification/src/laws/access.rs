//! Who is let in over HTTP, and what those who are not are told.
use vstd::prelude::*;

use crate::auth;
use crate::auth::{
    AuthProvider, AuthenticationResult, Authenticator, Authorizer, BearerTokenAuthenticator,
    BearerTokenProvider, NoAuthAuthenticator, ScopeBasedAuthorizer, SimpleTokenVerifier,
    TokenVerifier,
};
use crate::error::McpError;
use crate::json;
use crate::json::JsonView;
use crate::laws::names;
use crate::server::manager;
use crate::server::manager::{Routed, ServerManager};
use crate::string_map;
use crate::string_map::StringMap;
use crate::text;
use crate::transport::http_message::{HttpRequest, HttpResponse, ReplyView, ResponseView};
use crate::types::config::StreamableHttpServerConfig;
use crate::wire;

verus! {

/// A token is read from the header `authorization`, where it has the scheme `Bearer`, in
/// whatever case, and something after it; and otherwise it is told what is missing.
pub proof fn token_is_read(h: Map<Seq<char>, Seq<char>>)
    ensures
        ({
            let b = auth::bearer(h);
            let v = h["authorization"@];
            &&& !h.dom().contains("authorization"@) ==> b == Err::<Seq<char>, Seq<char>>(
                "Missing Authorization header"@,
            )
            &&& h.dom().contains("authorization"@) && (v.len() < 7 || text::lowered(v.take(7))
                != "bearer "@) ==> b == Err::<Seq<char>, Seq<char>>(
                "Authorization header must use Bearer scheme"@,
            )
            &&& b is Ok ==> h.dom().contains("authorization"@) && text::lowered(v.take(7))
                == "bearer "@ && b->Ok_0.len() > 0
        }),
{
}

/// What follows the scheme is the token, without the blanks and tabs that it starts with.
pub proof fn token_follows_scheme(h: Map<Seq<char>, Seq<char>>, gap: Seq<char>, token: Seq<char>)
    requires
        h.dom().contains("authorization"@),
        h["authorization"@].len() >= 7,
        text::lowered(h["authorization"@].take(7)) == "bearer "@,
        h["authorization"@].skip(7) == gap + token,
        forall|i: int| 0 <= i < gap.len() ==> #[trigger] gap[i] == ' ' || gap[i] == '\t',
        token.len() > 0 ==> token[0] != ' ' && token[0] != '\t',
    ensures
        token.len() > 0 ==> auth::bearer(h) == Ok::<Seq<char>, Seq<char>>(token),
        token.len() == 0 ==> auth::bearer(h) == Err::<Seq<char>, Seq<char>>(
            "Bearer token is empty"@,
        ),
{
    gap_is_dropped(gap, token);
}

proof fn gap_is_dropped(gap: Seq<char>, token: Seq<char>)
    requires
        forall|i: int| 0 <= i < gap.len() ==> #[trigger] gap[i] == ' ' || gap[i] == '\t',
        token.len() > 0 ==> token[0] != ' ' && token[0] != '\t',
    ensures
        auth::unblanked(gap + token) == token,
    decreases gap.len(),
{
    let s = gap + token;
    if gap.len() > 0 {
        assert(s[0] == gap[0]);
        assert(s.drop_first() =~= gap.drop_first() + token);
        gap_is_dropped(gap.drop_first(), token);
    } else {
        assert(s =~= token);
    }
}

/// A token is sent under `authorization` with the scheme `Bearer`, unless it is empty or has a
/// line break in it; the other headers stay.
pub proof fn token_is_sent(
    p: BearerTokenProvider,
    before: Map<Seq<char>, Seq<char>>,
    after: Map<Seq<char>, Seq<char>>,
    k: Seq<char>,
)
    requires
        p.may_give(before, after),
    ensures
        ({
            let fit = p.token@.len() > 0 && !p.token@.contains('\r') && !p.token@.contains('\n');
            &&& fit ==> after.dom().contains("authorization"@) && after["authorization"@]
                == "Bearer "@ + p.token@
            &&& !fit ==> after == before
            &&& k != "authorization"@ ==> after.dom().contains(k) == before.dom().contains(k)
                && after[k] == before[k]
        }),
{
}

/// Without a check everybody is let in, and nothing is known of the caller.
pub proof fn everybody_without_check(h: StringMap<String>, r: AuthenticationResult)
    requires
        call_ensures(NoAuthAuthenticator::authenticate, (&NoAuthAuthenticator, &h), r),
    ensures
        r.authenticated,
        r.error_description is None,
        r.context matches Some(c) && c.client_id is None && c.scopes is None,
{
}

/// The caller was not authenticated, for this reason.
pub open spec fn fails(r: AuthenticationResult, why: Seq<char>) -> bool {
    &&& !r.authenticated
    &&& r.context is None
    &&& r.error_description is Some
    &&& r.error_description->0@ == why
}

/// A caller is authenticated by its token as the verifier finds, and not at all without a
/// token or without a verifier.
pub proof fn caller_is_authenticated<V: TokenVerifier>(
    a: BearerTokenAuthenticator<V>,
    h: StringMap<String>,
    r: AuthenticationResult,
)
    requires
        call_ensures(BearerTokenAuthenticator::<V>::authenticate, (&a, &h), r),
    ensures
        a.verifier is None ==> fails(r, "Token verifier not configured"@),
        a.verifier is Some ==> match auth::bearer(string_map::texts(h@)) {
            Err(why) => fails(r, why),
            Ok(token) => exists|t: &str| #[trigger]
                t@ == token && call_ensures(V::verify_token, (&a.verifier->0, t), r),
        },
{
}

/// A verifier of listed tokens takes exactly those, and tells the caller and its scopes by
/// the token.
pub proof fn listed_tokens_are_taken(v: SimpleTokenVerifier, token: &str, r: AuthenticationResult)
    requires
        call_ensures(SimpleTokenVerifier::verify_token, (&v, token), r),
    ensures
        r.authenticated <==> token@.len() > 0 && v.tokens@.dom().contains(token@),
        r.authenticated ==> r.context is Some && r.context->0.client_id is Some
            && r.context->0.client_id->0@ == "client-"@ + token@ && r.context->0.scopes == Some(
            v.tokens@[token@],
        ) && r.error_description is None,
        !r.authenticated ==> r.context is None && r.error_description is Some
            && r.error_description->0@ == if token@.len() == 0 {
            "Token is empty"@
        } else {
            "Invalid token"@
        },
{
}

/// A token that was added is taken with its scopes, and one that was taken out is not; the
/// others stay.
pub proof fn tokens_come_and_go(
    v: &mut SimpleTokenVerifier,
    w: &mut SimpleTokenVerifier,
    token: String,
    scopes: String,
    gone: &str,
    k: Seq<char>,
)
    requires
        call_ensures(SimpleTokenVerifier::add_token, (v, token, scopes), ()),
        call_ensures(SimpleTokenVerifier::remove_token, (w, gone), ()),
    ensures
        final(v).tokens@.dom().contains(token@),
        final(v).tokens@[token@] == scopes,
        k != token@ ==> final(v).tokens@.dom().contains(k) == old(v).tokens@.dom().contains(k)
            && final(v).tokens@[k] == old(v).tokens@[k],
        !final(w).tokens@.dom().contains(gone@),
        k != gone@ ==> final(w).tokens@.dom().contains(k) == old(w).tokens@.dom().contains(k)
            && final(w).tokens@[k] == old(w).tokens@[k],
{
}

/// A caller may go on who was authenticated and has every scope that is required.
pub proof fn scopes_are_required(a: ScopeBasedAuthorizer, x: AuthenticationResult, r: bool, w: Seq<char>)
    requires
        call_ensures(ScopeBasedAuthorizer::authorize, (&a, &x), r),
    ensures
        r ==> x.authenticated && x.context is Some && x.context->0.scopes is Some,
        r && a.scopes().contains(w) ==> auth::words(x.context->0.scopes->0@).contains(w),
        x.authenticated && x.context is Some && x.context->0.scopes is Some && auth::words(
            x.context->0.scopes->0@,
        ).len() > 0 && a.scopes().subset_of(auth::words(x.context->0.scopes->0@)) ==> r,
{
}

/// The scopes that are required are the words of a text, of which there must be one.
pub proof fn scopes_are_set(
    a: &mut ScopeBasedAuthorizer,
    scopes: &str,
    r: Result<(), McpError>,
    made: Result<ScopeBasedAuthorizer, McpError>,
)
    requires
        call_ensures(ScopeBasedAuthorizer::set_required_scopes, (a, scopes), r),
        call_ensures(ScopeBasedAuthorizer::new, (scopes,), made),
    ensures
        r is Ok <==> auth::words(scopes@).len() > 0,
        made is Ok <==> auth::words(scopes@).len() > 0,
        r is Ok ==> final(a).scopes() == auth::words(scopes@),
        made matches Ok(m) ==> m.scopes() == auth::words(scopes@),
        r is Err ==> final(a).scopes() == old(a).scopes() && r->Err_0.told()
            == "requiredScopes must not be empty"@,
        made matches Err(e) ==> e.told() == "requiredScopes must not be empty"@,
{
}

/// A word of a text is a longest piece of it without white space.
pub proof fn words_of_text(s: Seq<char>, w: Seq<char>)
    ensures
        auth::words(s).contains(w) <==> exists|i: int, j: int|
            0 <= i < j <= s.len() && w == #[trigger] s.subrange(i, j) && (forall|k: int|
                i <= k < j ==> !text::is_space(#[trigger] s[k])) && (i == 0 || text::is_space(
                s[i - 1],
            )) && (j == s.len() || text::is_space(s[j])),
{
    if auth::words(s).contains(w) {
        let (i, j) = choose|i: int, j: int| auth::word_at(s, i, j) && w == s.subrange(i, j);
        assert(w == s.subrange(i, j));
    }
    if exists|i: int, j: int|
        0 <= i < j <= s.len() && w == #[trigger] s.subrange(i, j) && (forall|k: int|
            i <= k < j ==> !text::is_space(#[trigger] s[k])) && (i == 0 || text::is_space(
            s[i - 1],
        )) && (j == s.len() || text::is_space(s[j])) {
        let (i, j) = choose|i: int, j: int|
            0 <= i < j <= s.len() && w == #[trigger] s.subrange(i, j) && (forall|k: int|
                i <= k < j ==> !text::is_space(#[trigger] s[k])) && (i == 0 || text::is_space(
                s[i - 1],
            )) && (j == s.len() || text::is_space(s[j]));
        assert(auth::word_at(s, i, j));
    }
}

/// The answer refuses the caller with this status and in these words.
pub open spec fn turns_away(a: ResponseView, status: int, words: Seq<char>, why: Seq<char>) -> bool {
    &&& a.status == status
    &&& a.headers == seq![("content-type"@, "application/json"@), ("x-status-text"@, words)]
    &&& a.body == json::compact_text(
        JsonView::Object(seq![json::member("error"@, JsonView::String(why))]).normal(),
    )
}

/// A caller who is not authenticated is turned away with 401 and the reason, and one who may
/// not go on with 403.
pub proof fn callers_are_turned_away(
    x: AuthenticationResult,
    authorized: bool,
    a: Option<HttpResponse>,
    b: Option<HttpResponse>,
)
    requires
        call_ensures(manager::refuse_unauthenticated, (&x,), a),
        call_ensures(manager::refuse_unauthorized, (authorized,), b),
    ensures
        a is None <==> x.authenticated,
        a matches Some(r) ==> turns_away(
            r@,
            401,
            "Unauthorized"@,
            match x.error_description {
                Some(d) => d@,
                None => "Authentication failed"@,
            },
        ),
        b is None <==> authorized,
        b matches Some(r) ==> turns_away(r@, 403, "Forbidden"@, "Insufficient permissions"@),
{
    names::header_names();
    let why = match x.error_description {
        Some(d) => d@,
        None => "Authentication failed"@,
    };
    assert(wire::with(wire::none(), "error"@, JsonView::String(why)) =~= seq![
        json::member("error"@, JsonView::String(why)),
    ]);
    assert(wire::with(wire::none(), "error"@, JsonView::String("Insufficient permissions"@))
        =~= seq![json::member("error"@, JsonView::String("Insufficient permissions"@))]);
}

/// The check lets the caller go on: it authenticates the caller where the server authenticates
/// anybody, and authorizes the caller where it also authorizes anybody.
pub open spec fn let_in<A: Authenticator, Z: Authorizer>(
    c: StreamableHttpServerConfig<A, Z>,
    h: &StringMap<String>,
) -> bool {
    c.authenticator matches Some(a) ==> exists|x: AuthenticationResult| #[trigger]
        call_ensures(A::authenticate, (&a, h), x) && x.authenticated && (c.authorizer matches Some(z)
            ==> call_ensures(Z::authorize, (&z, &x), true))
}

/// Only a caller who is let in reaches a session, a new one or one that there is.
pub proof fn only_those_let_in<A: Authenticator, Z: Authorizer, E>(
    m: ServerManager<A, Z, E>,
    q: HttpRequest,
    to: Routed,
)
    requires
        call_ensures(ServerManager::<A, Z, E>::handle_request, (&m, &q), to),
    ensures
        !(to is Answer) ==> m.reached() is Some && let_in(m.reached()->0, &q.headers),
        m.reached() is None ==> to is Answer && to->Answer_0@ == ReplyView::Full(
            ResponseView { status: 404, headers: seq![], body: "Endpoint not found"@ },
        ),
{
    if !(to is Answer) && m.reached() is Some {
        let c = m.reached()->0;
        let v = choose|v: Option<ResponseView>| #[trigger]
            manager::caller_answer(m.reached(), &q.headers, v) && match v {
                Some(a) => to matches Routed::Answer(x) && x@ == ReplyView::Full(a),
                None => manager::routed(c.stateless, m@, q@, to),
            };
        assert(v is None);
    }
}

/// A caller who is let in reaches the session that the request names, a new one where it names
/// none, and none where every request stands for itself; one that names a session that there is
/// not is told so with 404.
pub proof fn sessions_are_found<A: Authenticator, Z: Authorizer, E>(
    m: ServerManager<A, Z, E>,
    q: HttpRequest,
    to: Routed,
)
    requires
        call_ensures(ServerManager::<A, Z, E>::route, (&m, &q), to),
        m.reached() is Some,
    ensures
        ({
            let named = if q@.headers.dom().contains("mcp-session-id"@) {
                q@.headers["mcp-session-id"@]
            } else {
                seq![]
            };
            let stateless = m.reached()->0.stateless;
            &&& stateless ==> to is Stateless && to->Stateless_session_id@ == named
            &&& !stateless && named.len() == 0 ==> to is Create
            &&& !stateless && named.len() > 0 && m@.dom().contains(named) ==> to is Existing
                && to->Existing_session_id@ == named
            &&& !stateless && named.len() > 0 && !m@.dom().contains(named) ==> to is Answer
                && to->Answer_0@ is Full && to->Answer_0@->Full_0.status == 404
                && to->Answer_0@->Full_0.body == crate::laws::http_server::told(
                -32600,
                "Not Found: Invalid or expired session ID"@,
            )
        }),
{
    names::header_names();
    let e = crate::transport::streamable_http_server::error_body(
        "Not Found: Invalid or expired session ID"@,
        -32600,
    );
    crate::laws::http_server::error_told(-32600, "Not Found: Invalid or expired session ID"@);
}

} // verus!
