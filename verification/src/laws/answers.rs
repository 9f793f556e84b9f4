//! The answers of a server over HTTP, header by header.
use vstd::prelude::*;

use crate::json;
use crate::json::{JsonView, NumberView};
use crate::laws::names;
use crate::protocol::message;
use crate::protocol::message::{MessageView, ParseErrorView, ErrorView};
use crate::transport::http_message::RequestView;
use crate::transport::streamable_http_server::TransportView;
use crate::transport::streamable_http_server as server;

verus! {

/// The header that names the session, where it has an identity.
pub open spec fn named(s: TransportView) -> Seq<(Seq<char>, Seq<char>)> {
    if s.session.len() > 0 {
        seq![("mcp-session-id"@, s.session)]
    } else {
        seq![]
    }
}

/// A stream of events is announced as such, is not to be kept or changed on its way, and names
/// its session; one that answers a post is not to be held back either.
pub proof fn streams_announced(s: TransportView)
    ensures
        server::sse_headers(s, false) == seq![
            ("content-type"@, "text/event-stream"@),
            ("cache-control"@, "no-cache, no-transform"@),
            ("connection"@, "keep-alive"@),
        ] + named(s),
        server::sse_headers(s, true) == seq![
            ("content-type"@, "text/event-stream"@),
            ("cache-control"@, "no-cache, no-transform"@),
            ("connection"@, "keep-alive"@),
            ("x-accel-buffering"@, "no"@),
        ] + named(s),
{
    names::header_names();
    let three = seq![
        ("content-type"@, "text/event-stream"@),
        ("cache-control"@, "no-cache, no-transform"@),
        ("connection"@, "keep-alive"@),
    ];
    assert(three.push(("x-accel-buffering"@, "no"@)) =~= seq![
        ("content-type"@, "text/event-stream"@),
        ("cache-control"@, "no-cache, no-transform"@),
        ("connection"@, "keep-alive"@),
        ("x-accel-buffering"@, "no"@),
    ]);
}

/// Answers in JSON say so and name the session; errors say what else is given first.
pub proof fn json_announced(
    s: TransportView,
    body: Seq<char>,
    status: int,
    words: Seq<char>,
    code: int,
    extra: Seq<(Seq<char>, Seq<char>)>,
)
    ensures
        server::json_answer(s, body, status).status == status,
        server::json_answer(s, body, status).body == body,
        server::json_answer(s, body, status).headers == seq![
            ("content-type"@, "application/json"@),
        ] + named(s),
        server::error_answer(s, words, status, code, extra).status == status,
        server::error_answer(s, words, status, code, extra).headers == extra + seq![
            ("content-type"@, "application/json"@),
        ] + named(s),
        server::error_answer(s, words, status, code, extra).body == json::compact_text(
            server::error_body(words, code).normal(),
        ),
{
    names::header_names();
}

/// A post that nobody is there to take fails with status 500, in plain text, and does nothing.
pub proof fn posts_without_taker(s: TransportView, r: RequestView, open: bool)
    requires
        r.method == "POST"@,
        !s.terminated,
    ensures
        ({
            let o = server::outcome(s, r, false, open);
            &&& o.effect is Nothing
            &&& o.reply is Full
            &&& o.reply->Full_0.status == 500
            &&& o.reply->Full_0.body == "Callbacks not set"@
            &&& o.reply->Full_0.headers == seq![("content-type"@, "text/plain"@)]
        }),
{
    names::header_names();
    reveal_strlit("POST");
    reveal_strlit("GET");
    reveal_strlit("DELETE");
}

/// Requests are counted one by one.
pub proof fn requests_counted(ms: Seq<MessageView>, m: MessageView)
    ensures
        server::request_count(seq![]) == 0,
        m is Request ==> server::request_count(ms.push(m)) == server::request_count(ms) + 1,
        !(m is Request) ==> server::request_count(ms.push(m)) == server::request_count(ms),
{
    assert(ms.push(m).drop_last() =~= ms);
}

/// The answers to a post are collected as it was posted, and go out with the headers of JSON; the
/// stream that carries them otherwise is announced. Calls are noted with their methods.
pub proof fn posts_answered(s: TransportView, ms: Seq<MessageView>, batch: bool, i: int)
    ensures
        ({
            let o = server::posted(s, ms, batch);
            let d = o.effect->Deliver_0;
            let n = server::request_count(ms);
            &&& n > 0 && s.json ==> d.sink is Some && d.sink->0.batch == batch && d.sink->0.headers
                == seq![("content-type"@, "application/json"@)] + named(s)
                && d.sink->0.collected.len() == 0 && !d.sink->0.sent && d.sink->0.expected == n
            &&& n > 0 && !s.json ==> o.reply is Stream && o.reply->headers == server::sse_headers(
                s,
                true,
            ) && d.sink is Some && d.sink->0.expected == n && !d.sink->0.json
            &&& 0 <= i < ms.len() && n == 0 ==> d.messages[i].1.len() == 0
            &&& 0 <= i < ms.len() && n > 0 ==> (ms[i] matches MessageView::Notification {
                method,
                params,
            } ==> d.messages[i].1 == method)
            &&& 0 <= i < ms.len() && n > 0 && ms[i] is Response ==> d.messages[i].1.len() == 0
            &&& n == 0 ==> o.reply is Full && o.reply->Full_0.status == 202
                && o.reply->Full_0.headers == seq![("content-type"@, "application/json"@)] + named(s)
        }),
{
    names::header_names();
}

/// What is posted and is no message is told as the error that it is: text that is no JSON as a
/// parse error, and a payload that is no message as an invalid request with its identity.
pub proof fn misread_posts_told(e: ParseErrorView)
    ensures
        e matches ParseErrorView::InvalidJson(w) ==> e.told_id() == JsonView::Number(
            NumberView::Whole(0),
        ) && e.told() == (ErrorView { code: -32700, message: w, data: None }),
        e matches ParseErrorView::InvalidMessage { id, message, has_method } ==> e.told_id() == id
            && e.told() == (ErrorView { code: -32600, message, data: None }),
{
}

} // verus!
