//! What goes over a connection: events, lines, responses, headers and the files of encryption.
use vstd::prelude::*;

use crate::error::McpError;
use crate::json;
use crate::json::{Json, JsonView};
use crate::jsonrpc::Message;
use crate::laws::names;
use crate::protocol::message;
use crate::string_map;
use crate::string_map::StringMap;
use crate::text;
use crate::transport::RequestContext;
use crate::transport::http_message;
use crate::transport::http_message::{HttpReply, HttpRequest, HttpResponse, ReplyView};
use crate::transport::sink;
use crate::transport::sink::{ResponseSink, SinkView};
use crate::transport::sse;
use crate::transport::sse::{EventView, PartView, SseEvent, SseParser, WholeLines};
use crate::transport::stdio;
use crate::transport::stdio::IncomingLine;
use crate::transport::tls;
use crate::transport::tls::{PemKey, TlsPlan};
use crate::types::config::TlsConfig;

verus! {

/// A text without an end of line in it has none to be found.
proof fn no_end_found(s: Seq<char>)
    requires
        !s.contains('\n'),
    ensures
        text::first_at(s, '\n', 0) is None,
{
    text::first_at_found(s, '\n', 0);
    if text::first_at(s, '\n', 0) is Some {
        let i = text::first_at(s, '\n', 0)->0;
        assert(s.contains(s[i]));
    }
}

/// The first end of line is that after a text without one.
proof fn end_found(a: Seq<char>, b: Seq<char>)
    requires
        !a.contains('\n'),
    ensures
        text::first_at(a + "\n"@ + b, '\n', 0) == Some(a.len() as int),
        (a + "\n"@ + b).take(a.len() as int) == a,
        (a + "\n"@ + b).skip(a.len() as int + 1) == b,
{
    reveal_strlit("\n");
    let s = a + "\n"@ + b;
    text::first_at_found(s, '\n', 0);
    assert(s[a.len() as int] == '\n');
    match text::first_at(s, '\n', 0) {
        Some(i) => {
            if i < a.len() {
                assert(s[i] == a[i]);
                assert(a.contains(a[i]));
            }
        },
        None => {},
    }
    assert(s.take(a.len() as int) =~= a);
    assert(s.skip(a.len() as int + 1) =~= b);
}

/// An event is written as its name, where it has one, and its data, each line of it in a field,
/// and an empty line.
pub proof fn event_is_written(name: Seq<char>, line: Seq<char>, more: Seq<char>)
    requires
        !line.contains('\n'),
    ensures
        sse::event_text(EventView { event: Some(name), data: line }) == "event: "@ + name + "\n"@ + (
        "data: "@ + line + "\n"@) + "\n"@,
        sse::event_text(EventView { event: None, data: line }) == "data: "@ + line + "\n"@ + "\n"@,
        sse::data_lines(line) == "data: "@ + line + "\n"@,
        sse::data_lines(line + "\n"@ + more) == "data: "@ + line + "\n"@ + sse::data_lines(more),
{
    no_end_found(line);
    end_found(line, more);
    assert(sse::event_text(EventView { event: None, data: line }) =~= "data: "@ + line + "\n"@
        + "\n"@);
}

/// A stream is cut into lines at every end of line, without the carriage return before it.
pub proof fn stream_is_cut(line: Seq<char>, more: Seq<char>)
    requires
        !line.contains('\n'),
    ensures
        sse::complete_lines(line) == (Seq::<Seq<char>>::empty(), line),
        sse::complete_lines(line + "\n"@ + more).1 == sse::complete_lines(more).1,
        line.len() == 0 || line.last() != '\r' ==> sse::complete_lines(line + "\n"@ + more).0
            == seq![line] + sse::complete_lines(more).0,
        line.len() > 0 && line.last() == '\r' ==> sse::complete_lines(line + "\n"@ + more).0
            == seq![line.drop_last()] + sse::complete_lines(more).0,
{
    no_end_found(line);
    end_found(line, more);
}

/// A field is what stands before the colon of a line, and its value what stands after it, without
/// one blank.
pub proof fn field_is_read(name: Seq<char>, value: Seq<char>)
    requires
        !name.contains(':'),
    ensures
        sse::field_name(name + ":"@ + value) == name,
        value.len() == 0 || value[0] != ' ' ==> sse::field_value(name + ":"@ + value) == value,
        sse::field_value(name + ": "@ + value) == value,
        sse::field_name(name + ": "@ + value) == name,
        sse::field_name(name) == name,
        sse::field_value(name).len() == 0,
{
    reveal_strlit(":");
    reveal_strlit(": ");
    let s = name + ":"@ + value;
    let t = name + ": "@ + value;
    text::first_at_found(s, ':', 0);
    text::first_at_found(t, ':', 0);
    text::first_at_found(name, ':', 0);
    assert(s[name.len() as int] == ':');
    assert(t[name.len() as int] == ':');
    assert forall|i: int| 0 <= i < name.len() implies #[trigger] name[i] != ':' by {
        assert(name.contains(name[i]));
    }
    assert forall|i: int| 0 <= i < name.len() implies #[trigger] s[i] != ':' && t[i] != ':' by {
        assert(s[i] == name[i] && t[i] == name[i]);
    }
    assert(text::first_at(s, ':', 0) == Some(name.len() as int));
    assert(text::first_at(t, ':', 0) == Some(name.len() as int)) by {
        let i = text::first_at(t, ':', 0)->0;
        if i < name.len() {
            assert(t[i] == name[i]);
        }
    }
    assert(s.take(name.len() as int) =~= name);
    assert(t.take(name.len() as int) =~= name);
    assert(s.skip(name.len() as int + 1) =~= value);
    assert(t.skip(name.len() as int + 1) =~= seq![' '] + value);
    assert((seq![' '] + value).drop_first() =~= value);
}

/// A field `event` names the event, fields `data` are joined line by line, and every other field
/// is passed over.
pub proof fn line_is_taken(p: PartView, line: Seq<char>)
    ensures
        ({
            let q = sse::line_read(p, line);
            let name = sse::field_name(line);
            let value = sse::field_value(line);
            &&& name == "event"@ ==> q.event == Some(value) && q.data == p.data
            &&& name == "data"@ && p.data is None ==> q.data == Some(value) && q.event == p.event
            &&& name == "data"@ && p.data is Some ==> q.data == Some(p.data->0 + "\n"@ + value)
                && q.event == p.event
            &&& name != "event"@ && name != "data"@ ==> q == p
        }),
{
    reveal_strlit("event");
    reveal_strlit("data");
    assert("event"@.len() == 5 && "data"@.len() == 4);
}

/// An empty line ends an event, which there is only where it has data; every other line is taken.
pub proof fn events_are_read(p: PartView, lines: Seq<Seq<char>>, line: Seq<char>)
    ensures
        ({
            let (es, q) = sse::events_read(p, lines);
            let (fs, r) = sse::events_read(p, lines.push(line));
            &&& line.len() > 0 ==> fs == es && r == sse::line_read(q, line)
            &&& line.len() == 0 ==> r.event is None && r.data is None
            &&& line.len() == 0 && q.data is None ==> fs == es
            &&& line.len() == 0 && q.data is Some ==> fs == es.push(
                EventView { event: q.event, data: q.data->0 },
            )
        }),
        sse::events_read(p, seq![]) == (Seq::<EventView>::empty(), p),
{
    assert(lines.push(line).drop_last() =~= lines);
    let (es, q) = sse::events_read(p, lines);
    if q.data is Some {
        let e = EventView { event: q.event, data: q.data->0 };
        assert(es + seq![e] =~= es.push(e));
    } else {
        assert(es + Seq::<EventView>::empty() =~= es);
    }
}

/// What is left when a stream ends is taken as its last line, and ends the last event.
pub proof fn stream_is_ended(p: PartView, left: Seq<char>)
    requires
        left.len() == 0 || left.last() != '\r',
    ensures
        ({
            let q = if left.len() == 0 {
                p
            } else {
                sse::line_read(p, left)
            };
            let es = sse::at_end(p, left);
            &&& q.data is None ==> es.len() == 0
            &&& q.data is Some ==> es == seq![EventView { event: q.event, data: q.data->0 }]
            &&& sse::at_end(p, left.push('\r')) == es
        }),
{
    assert(left.push('\r').drop_last() =~= left);
}

/// A reader of events starts with nothing, takes what it is fed, and is left with nothing when
/// the stream ends.
pub proof fn parser_reads(
    fresh: SseParser,
    p: &mut SseParser,
    chunk: &str,
    r: Vec<SseEvent>,
    q: &mut SseParser,
    last: Option<SseEvent>,
)
    requires
        call_ensures(SseParser::new, (), fresh),
        call_ensures(SseParser::feed, (p, chunk), r),
        call_ensures(SseParser::finish, (q,), last),
    ensures
        fresh.part().event is None && fresh.part().data is None && fresh.left().len() == 0,
        ({
            let (lines, rest) = sse::complete_lines(old(p).left() + chunk@);
            let (es, part) = sse::events_read(old(p).part(), lines);
            &&& r@.len() == es.len()
            &&& forall|i: int| 0 <= i < es.len() ==> (#[trigger] r@[i])@ == es[i]
            &&& final(p).part() == part && final(p).left() == rest
        }),
        ({
            let es = sse::at_end(old(q).part(), old(q).left());
            &&& last is Some <==> es.len() > 0
            &&& last is Some ==> last->0@ == es[0]
            &&& final(q).part().event is None && final(q).part().data is None && final(q).left().len() == 0
        }),
{
    let (lines, rest) = sse::complete_lines(old(p).left() + chunk@);
    let (es, part) = sse::events_read(old(p).part(), lines);
    assert(sse::events(r@) == es);
    assert forall|i: int| 0 <= i < es.len() implies (#[trigger] r@[i])@ == es[i] by {
        assert(sse::events(r@)[i] == es[i]);
    }
    let at = sse::at_end(old(q).part(), old(q).left());
    if last is Some {
        assert(at == seq![last->0@]);
    }
}

/// An event is made of its name and its data, and written as both.
pub proof fn event_is_made(name: &str, data: String, e: SseEvent, f: SseEvent, t: String)
    requires
        call_ensures(SseEvent::typed, (name, data), e),
        call_ensures(SseEvent::to_wire, (&f,), t),
    ensures
        e@.event == Some(name@) && e@.data == data@,
        t@ == sse::event_text(f@),
{
}

/// Bytes are passed on up to the last end of line that came, in the order in which they came.
pub proof fn bytes_are_passed_on(
    fresh: WholeLines,
    w: &mut WholeLines,
    part: &[u8],
    r: Vec<u8>,
    v: WholeLines,
    rest: Vec<u8>,
)
    requires
        call_ensures(WholeLines::new, (), fresh),
        call_ensures(WholeLines::feed, (w, part), r),
        call_ensures(WholeLines::finish, (v,), rest),
    ensures
        fresh@.len() == 0,
        r@ + final(w)@ == old(w)@ + part@,
        forall|i: int| 0 <= i < final(w)@.len() ==> #[trigger] final(w)@[i] != 10,
        r@.len() > 0 ==> r@[r@.len() - 1] == 10,
        rest@ == v@,
{
}

/// A message on the standard streams is its text and an end of line, and is taken back from it.
pub proof fn message_is_framed(m: &Message, r: String)
    requires
        call_ensures(stdio::frame_message, (m,), r),
    ensures
        r@ == message::message_text(m@) + "\n"@,
        !message::message_text(m@).contains('\n'),
        stdio::lines_extracted(r@).0 == seq![message::message_text(m@)],
        stdio::lines_extracted(r@).1.len() == 0,
{
    reveal_strlit("\n");
    let t = message::message_text(m@);
    assert(r@.drop_last() =~= t);
    if t.contains('\n') {
        let i = choose|i: int| 0 <= i < t.len() && t[i] == '\n';
        assert(t[i] != '\n');
    }
}

/// Lines are taken out of what came in, without the carriage return before the end of line, and
/// empty ones are passed over; what has no end of line yet stays.
pub proof fn lines_are_taken(line: Seq<char>, more: Seq<char>)
    requires
        !line.contains('\n'),
    ensures
        stdio::lines_extracted(line) == (Seq::<Seq<char>>::empty(), line),
        ({
            let (rest, left) = stdio::lines_extracted(more);
            let (all, end) = stdio::lines_extracted(line + "\n"@ + more);
            let bare = if line.len() > 0 && line.last() == '\r' {
                line.drop_last()
            } else {
                line
            };
            &&& end == left
            &&& bare.len() == 0 ==> all == rest
            &&& bare.len() > 0 ==> all == seq![bare] + rest
        }),
{
    no_end_found(line);
    end_found(line, more);
}

/// A buffer gives up its complete lines and keeps the rest.
pub proof fn buffer_gives_lines(b: &mut String, r: Vec<String>, i: int)
    requires
        call_ensures(stdio::extract_lines, (b,), r),
    ensures
        r@.len() == stdio::lines_extracted(old(b)@).0.len(),
        0 <= i < r@.len() ==> r@[i]@ == stdio::lines_extracted(old(b)@).0[i],
        final(b)@ == stdio::lines_extracted(old(b)@).1,
{
    assert(text::texts(r@).len() == r@.len());
    if 0 <= i < r@.len() {
        assert(text::texts(r@)[i] == r@[i]@);
    }
}

/// Carriage returns at the end of a line are no part of it, however many there are.
pub proof fn returns_are_dropped(s: Seq<char>, n: nat)
    requires
        s.len() == 0 || s.last() != '\r',
    ensures
        stdio::uncarried_all(s + Seq::new(n, |i: int| '\r')) == s,
    decreases n,
{
    let t = s + Seq::new(n, |i: int| '\r');
    if n == 0 {
        assert(t =~= s);
    } else {
        returns_are_dropped(s, (n - 1) as nat);
        assert(t.drop_last() =~= s + Seq::new((n - 1) as nat, |i: int| '\r'));
        assert(t.last() == '\r');
    }
}

/// A line is read as a message, and told apart by whether it answers one.
pub proof fn line_is_read(line: &str, r: IncomingLine)
    requires
        call_ensures(stdio::incoming_line, (line,), r),
    ensures
        ({
            let s = stdio::uncarried_all(line@);
            let m = message::message_of(s);
            &&& r is Empty <==> s.len() == 0
            &&& r is Invalid <==> s.len() > 0 && m is Err
            &&& r is Invalid ==> m->Err_0 == r->Invalid_0@
            &&& r is Response <==> s.len() > 0 && m is Ok && m->Ok_0 is Response
            &&& r is Response ==> r->Response_0@ == m->Ok_0
            &&& r is Call <==> s.len() > 0 && m is Ok && !(m->Ok_0 is Response)
            &&& r is Call ==> r->Call_0@ == m->Ok_0
        }),
{
}

/// A variable is passed to a process only where neither its name nor its value holds an equals
/// sign or an end of line.
pub proof fn variables_are_passed(
    order: Seq<Seq<char>>,
    env: Map<Seq<char>, String>,
    value: &str,
    bad: bool,
    k: Seq<char>,
)
    requires
        call_ensures(stdio::contains_invalid_env_chars, (value,), bad),
    ensures
        bad <==> value@.contains('=') || value@.contains('\n') || value@.contains('\r'),
        stdio::usable_from(order, env, 0).contains((k, env[k]@)) <==> order.contains(k)
            && !k.contains('=') && !k.contains('\n') && !k.contains('\r') && !env[k]@.contains('=')
            && !env[k]@.contains('\n') && !env[k]@.contains('\r'),
        stdio::usable_from(order, env, 0).len() <= order.len(),
{
    variables_passed_from(order, env, 0, k);
    if exists|j: int| 0 <= j < order.len() && order[j] == k {
        let j = choose|j: int| 0 <= j < order.len() && order[j] == k;
        assert(order.contains(order[j]));
    }
}

proof fn variables_passed_from(
    order: Seq<Seq<char>>,
    env: Map<Seq<char>, String>,
    i: int,
    k: Seq<char>,
)
    requires
        0 <= i <= order.len(),
    ensures
        stdio::usable_from(order, env, i).contains((k, env[k]@)) <==> (exists|j: int|
            i <= j < order.len() && order[j] == k) && stdio::env_usable(k, env[k]@),
        stdio::usable_from(order, env, i).len() <= order.len() - i,
    decreases order.len() - i,
{
    let all = stdio::usable_from(order, env, i);
    if i < order.len() {
        variables_passed_from(order, env, i + 1, k);
        let rest = stdio::usable_from(order, env, i + 1);
        if stdio::env_usable(order[i], env[order[i]]@) {
            assert(all == seq![(order[i], env[order[i]]@)] + rest);
            assert(all[0] == (order[i], env[order[i]]@));
            assert forall|j: int| 0 <= j < rest.len() implies #[trigger] all[j + 1] == rest[j] by {}
            if rest.contains((k, env[k]@)) {
                let j = choose|j: int| 0 <= j < rest.len() && rest[j] == (k, env[k]@);
                assert(all[j + 1] == (k, env[k]@));
            }
            if all.contains((k, env[k]@)) {
                let j = choose|j: int| 0 <= j < all.len() && all[j] == (k, env[k]@);
                if j > 0 {
                    assert(rest[j - 1] == all[j]);
                }
            }
        }
        if exists|j: int| i <= j < order.len() && order[j] == k {
            let j = choose|j: int| i <= j < order.len() && order[j] == k;
            if j > i {
                assert(i + 1 <= j < order.len() && order[j] == k);
            }
        }
    } else {
        assert(all == Seq::<(Seq<char>, Seq<char>)>::empty());
    }
}

/// The variables of a process are those that may be passed, in the order of their names.
pub proof fn environment_is_passed(env: &StringMap<String>, r: Vec<(String, String)>, i: int)
    requires
        call_ensures(stdio::usable_env, (env,), r),
    ensures
        r@.len() == stdio::usable_from(env.order(), env@, 0).len(),
        0 <= i < r@.len() ==> (r@[i].0@, r@[i].1@) == stdio::usable_from(env.order(), env@, 0)[i],
{
    assert(text::pairs(r@).len() == r@.len());
    if 0 <= i < r@.len() {
        assert(text::pairs(r@)[i] == (r@[i].0@, r@[i].1@));
    }
}

/// Answers are held back until the last that is expected; they are one response, with status 200,
/// an array where several were asked at once.
pub proof fn answers_are_collected(s: SinkView, v: JsonView)
    ensures
        ({
            let (t, r) = sink::delivered(s, v);
            let all = s.collected.push(v);
            &&& t.json == s.json && t.batch == s.batch && t.headers == s.headers
            &&& s.expected > 0 ==> t.expected == s.expected - 1
            &&& s.expected > 1 ==> r is None && t.collected == all && t.sent == s.sent
            &&& s.expected <= 1 ==> t.collected.len() == 0 && t.sent
            &&& s.expected <= 1 && s.sent ==> r is None
            &&& s.expected <= 1 && !s.sent ==> r is Some && r->0.status == 200 && r->0.headers
                == s.headers
            &&& s.expected <= 1 && !s.sent && s.batch ==> r->0.body == json::compact_text(
                JsonView::Array(all).normal(),
            )
            &&& s.expected <= 1 && !s.sent && !s.batch ==> r->0.body == json::compact_text(
                all[0].normal(),
            )
        }),
{
}

/// A sink for JSON collects, and a sink for events counts; each starts as it was told.
pub proof fn sinks_are_made(
    n: usize,
    batch: bool,
    headers: Vec<(String, String)>,
    a: ResponseSink,
    b: ResponseSink,
    c: ResponseSink,
)
    requires
        call_ensures(ResponseSink::json, (n, batch, headers), a),
        call_ensures(ResponseSink::sse, (n,), b),
        call_ensures(ResponseSink::sse_from_sender, (), c),
    ensures
        a@.json && a@.batch == batch && a@.expected == n && a@.headers == text::pairs(headers@)
            && a@.collected.len() == 0 && !a@.sent,
        !b@.json && b@.expected == n && b@.collected.len() == 0 && !b@.sent && b@.headers.len() == 0,
        !c@.json && c@.expected == usize::MAX && !c@.sent,
{
}

/// Events go only to a sink for events that is open, and JSON only to a sink for JSON.
pub proof fn sinks_take_their_own(
    s: ResponseSink,
    open: bool,
    sent: Result<(), McpError>,
    j: bool,
    left: usize,
    w: &mut ResponseSink,
    v: Json,
    r: Result<Option<HttpResponse>, McpError>,
    u: &mut ResponseSink,
    done: bool,
)
    requires
        call_ensures(ResponseSink::send_frame, (&s, open), sent),
        call_ensures(ResponseSink::is_json, (&s,), j),
        call_ensures(ResponseSink::remaining, (&s,), left),
        call_ensures(ResponseSink::deliver_json, (w, v), r),
        call_ensures(ResponseSink::response_delivered, (u,), done),
    ensures
        sent is Ok <==> !s@.json && open,
        s@.json ==> sent->Err_0.faults_state("cannot stream to a JSON response sink"@),
        !s@.json && !open ==> sent->Err_0.faults_transport("SSE stream is closed"@),
        j == s@.json && left == s@.expected,
        r is Ok <==> old(w)@.json,
        r is Err ==> r->Err_0.faults_state("cannot deliver JSON to an SSE sink"@) && final(w)@
            == old(w)@,
        r is Ok ==> final(w)@ == sink::delivered(old(w)@, v@).0 && sink::response_view(r->Ok_0)
            == sink::delivered(old(w)@, v@).1,
        done <==> old(u)@.expected <= 1,
        old(u)@.expected > 0 ==> final(u)@.expected == old(u)@.expected - 1,
        final(u)@.json == old(u)@.json && final(u)@.collected == old(u)@.collected && final(u)@.sent
            == old(u)@.sent && final(u)@.batch == old(u)@.batch && final(u)@.headers == old(u)@.headers,
{
}

/// The value of a header is that of the first header of its name, in whatever case.
pub proof fn header_is_found(h: Seq<(Seq<char>, Seq<char>)>, name: Seq<char>, i: int)
    requires
        0 <= i <= h.len(),
    ensures
        http_message::first_value(h, name, i) is None <==> forall|k: int|
            i <= k < h.len() ==> text::lowered((#[trigger] h[k]).0) != text::lowered(name),
        http_message::first_value(h, name, i) is Some ==> exists|k: int|
            i <= k < h.len() && text::lowered((#[trigger] h[k]).0) == text::lowered(name)
                && http_message::first_value(h, name, i) == Some(h[k].1) && forall|l: int|
                i <= l < k ==> text::lowered((#[trigger] h[l]).0) != text::lowered(name),
    decreases h.len() - i,
{
    if i < h.len() {
        header_is_found(h, name, i + 1);
        if text::lowered(h[i].0) == text::lowered(name) {
            assert(text::lowered(h[i].0) == text::lowered(name));
        }
    }
}

/// The headers of a request are kept under names in lowercase, without the white space around
/// their values; of several of a name the first that is a text counts.
pub proof fn headers_are_kept(
    fields: Seq<(Seq<char>, Option<Seq<char>>)>,
    name: Seq<char>,
    value: Option<Seq<char>>,
    k: Seq<char>,
)
    ensures
        ({
            let before = http_message::first_texts(fields);
            let after = http_message::first_texts(fields.push((name, value)));
            let n = text::lowered(name);
            &&& value is Some && !before.dom().contains(n) ==> after.dom().contains(n) && after[n]
                == text::trimmed(value->0)
            &&& value is None || before.dom().contains(n) ==> after == before
            &&& k != n ==> after.dom().contains(k) == before.dom().contains(k) && after[k]
                == before[k]
        }),
        http_message::first_texts(seq![]).dom() == Set::<Seq<char>>::empty(),
{
    assert(fields.push((name, value)).drop_last() =~= fields);
}

/// A header can be sent where its name is a token and its value holds no control character.
pub proof fn headers_that_can_be_sent(name: Seq<char>, value: Seq<char>, c: char)
    ensures
        http_message::header_char(c) <==> (c as u32 >= 32 && c as u32 != 127) || c == '\t',
        http_message::name_char(c) ==> c as u32 >= 33 && c as u32 <= 126,
        'a' <= c <= 'z' || 'A' <= c <= 'Z' || '0' <= c <= '9' || c == '-' || c == '_'
            ==> http_message::name_char(c),
        c == ':' || c == '(' || c == ')' || c == '<' || c == '>' || c == '@' || c == ',' || c == ';'
            || c == '\\' || c == '"' || c == '/' || c == '[' || c == ']' || c == '?' || c == '='
            || c == '{' || c == '}' ==> !http_message::name_char(c),
        name.len() == 0 || name.len() > 65535 ==> !http_message::sendable(name, value),
        name.contains(c) && !http_message::name_char(c) ==> !http_message::sendable(name, value),
        value.contains(c) && !http_message::header_char(c) ==> !http_message::sendable(name, value),
        0 < name.len() <= 65535 && (forall|i: int|
            0 <= i < name.len() ==> http_message::name_char(#[trigger] name[i])) && (forall|i: int|
            0 <= i < value.len() ==> http_message::header_char(#[trigger] value[i]))
            ==> http_message::sendable(name, value),
{
    reveal_strlit("!#$%&'*+-.^_`|~");
    let extra = "!#$%&'*+-.^_`|~"@;
    assert(extra.len() == 15);
    assert(extra[8] == '-' && extra[11] == '_');
    if extra.contains(c) {
        let i = choose|i: int| 0 <= i < extra.len() && extra[i] == c;
        assert(c == extra[i]);
    }
}

/// A request and a response are what they are made of.
pub proof fn http_messages_made(
    method: &str,
    url: String,
    h: StringMap<String>,
    body: String,
    a: HttpRequest,
    b: HttpRequest,
    d: HttpRequest,
    status: u16,
    e: HttpResponse,
    f: HttpResponse,
    name: &str,
    value: &str,
    g: HttpResponse,
    x: HttpResponse,
    z: HttpResponse,
)
    requires
        call_ensures(HttpRequest::new, (method, h, body), a),
        call_ensures(HttpRequest::received, (method, url, h, body), b),
        call_ensures(<HttpRequest as Default>::default, (), d),
        call_ensures(HttpResponse::new, (status,), e),
        call_ensures(HttpResponse::header, (f, name, value), g),
        call_ensures(HttpResponse::body, (f, body), x),
        call_ensures(<HttpResponse as Default>::default, (), z),
    ensures
        a.method@ == method@ && a.url@.len() == 0 && a.headers == h && a.body == body,
        b.method@ == text::raised(method@) && b.url == url && b.headers == h && b.body == body,
        d.method@.len() == 0 && d.url@.len() == 0 && d.body@.len() == 0 && d.headers@.dom() == Set::<
            Seq<char>,
        >::empty(),
        e@.status == status && e@.headers.len() == 0 && e@.body.len() == 0,
        g@.headers == f@.headers.push((name@, value@)) && g@.status == f@.status && g@.body
            == f@.body,
        x@.body == body@ && x@.status == f@.status && x@.headers == f@.headers,
        z@.status == 0 && z@.headers.len() == 0 && z@.body.len() == 0,
{
}

/// A request and a response tell what they hold.
pub proof fn http_messages_told(
    q: HttpRequest,
    name: &str,
    a: Option<&str>,
    b: &str,
    p: HttpResponse,
    c: Option<&str>,
    d: Option<&str>,
    r: HttpReply,
    full: Option<&HttpResponse>,
    status: Option<u16>,
    e: Option<&str>,
    v: bool,
    value: &str,
)
    requires
        call_ensures(HttpRequest::header, (&q, name), a),
        call_ensures(HttpRequest::header_or_empty, (&q, name), b),
        call_ensures(HttpResponse::header_value, (&p, name), c),
        call_ensures(HttpResponse::content_type, (&p,), d),
        call_ensures(HttpReply::as_full, (&r,), full),
        call_ensures(HttpReply::status, (&r,), status),
        call_ensures(HttpReply::header_value, (&r, name), e),
        call_ensures(http_message::is_sendable, (name, value), v),
    ensures
        a is Some <==> q@.headers.dom().contains(name@),
        a is Some ==> a->0@ == q@.headers[name@] && b@ == a->0@,
        a is None ==> b@.len() == 0,
        http_message::found(c) == http_message::first_value(p@.headers, name@, 0),
        http_message::found(d) == http_message::first_value(p@.headers, "content-type"@, 0),
        full is Some <==> r is Full,
        full is Some ==> r == HttpReply::Full(*full->0),
        r is Deferred ==> status is None && e is None,
        r@ matches ReplyView::Full(x) ==> status is Some && status->0 == x.status
            && http_message::found(e) == http_message::first_value(x.headers, name@, 0),
        r@ matches ReplyView::Stream { status: s, headers } ==> status is Some && status->0 == s
            && http_message::found(e) == http_message::first_value(headers, name@, 0),
        v <==> http_message::sendable(name@, value@),
{
    names::header_names();
}

/// The headers of a request come in under lowercase names.
pub proof fn headers_come_in(
    all: &Vec<(String, Option<String>)>,
    r: StringMap<String>,
    h: &http::HeaderMap<http::HeaderValue>,
    q: StringMap<String>,
    v: &Vec<(String, String)>,
    w: Vec<(String, String)>,
)
    requires
        call_ensures(http_message::lowercase_fields, (all,), r),
        call_ensures(http_message::lowercase_headers, (h,), q),
        call_ensures(sink::copy_headers, (v,), w),
    ensures
        string_map::texts(r@) == http_message::first_texts(http_message::listed_fields(all@)),
        string_map::texts(q@) == http_message::first_texts(http_message::fields(*h)),
        text::pairs(w@) == text::pairs(v@),
{
}

/// Encryption asks for a client's certificate and trusts an authority where one is named, sends
/// an identity where both its files are, and takes any peer where it is told not to look.
pub proof fn encryption_is_planned(t: &TlsConfig, p: TlsPlan)
    requires
        call_ensures(tls::plan_tls, (t,), p),
    ensures
        p.demands_client <==> t.ca_file@.len() > 0,
        p.trusts_authority <==> t.ca_file@.len() > 0,
        p.sends_identity <==> t.cert_file@.len() > 0 && t.key_file@.len() > 0,
        p.accepts_any_peer <==> !t.verify_peer,
{
}

/// The fault of a file of certificates is that of the first that has one.
pub proof fn first_fault_told(certs: Seq<Result<Seq<u8>, Seq<char>>>)
    ensures
        tls::first_fault(certs) is None <==> forall|i: int|
            0 <= i < certs.len() ==> (#[trigger] certs[i]) is Ok,
        tls::first_fault(certs) is Some ==> exists|i: int|
            0 <= i < certs.len() && (#[trigger] certs[i]) == Err::<Seq<u8>, Seq<char>>(
                tls::first_fault(certs)->0,
            ) && forall|k: int| 0 <= k < i ==> (#[trigger] certs[k]) is Ok,
    decreases certs.len(),
{
    if certs.len() > 0 {
        let before = certs.drop_last();
        first_fault_told(before);
        assert forall|i: int| 0 <= i < before.len() implies #[trigger] before[i] == certs[i] by {}
        if tls::first_fault(before) is Some {
            let i = choose|i: int|
                0 <= i < before.len() && (#[trigger] before[i]) == Err::<Seq<u8>, Seq<char>>(
                    tls::first_fault(before)->0,
                ) && forall|k: int| 0 <= k < i ==> (#[trigger] before[k]) is Ok;
            assert(certs[i] == before[i]);
            assert forall|k: int| 0 <= k < i implies (#[trigger] certs[k]) is Ok by {
                assert(before[k] == certs[k]);
            }
        } else {
            assert forall|k: int| 0 <= k < certs.len() - 1 implies (#[trigger] certs[k]) is Ok by {
                assert(before[k] == certs[k]);
            }
            assert(certs[certs.len() - 1] == certs.last());
        }
        if forall|i: int| 0 <= i < certs.len() ==> (#[trigger] certs[i]) is Ok {
            assert forall|i: int| 0 <= i < before.len() implies (#[trigger] before[i]) is Ok by {
                assert(before[i] == certs[i]);
            }
            assert(certs[certs.len() - 1] is Ok);
        }
    }
}

/// Certificates are taken all or none, in order; the first that cannot be read is told with its
/// file.
pub proof fn certificates_are_chosen(
    path: &str,
    found: Vec<Result<Vec<u8>, String>>,
    r: Result<Vec<Vec<u8>>, McpError>,
    i: int,
)
    requires
        call_ensures(tls::choose_certificates, (path, found), r),
    ensures
        r is Ok <==> tls::first_fault(tls::certs_view(found@)) is None,
        r is Ok ==> r->Ok_0@.len() == found@.len(),
        r is Ok && 0 <= i < found@.len() ==> found@[i] is Ok && r->Ok_0@[i]@ == found@[i]->Ok_0@,
        r is Err ==> r->Err_0.faults_transport(
            "Invalid TLS certificate "@ + path@ + ": "@ + tls::first_fault(
                tls::certs_view(found@),
            )->0,
        ),
{
    if r is Ok {
        let v = r->Ok_0@;
        assert(tls::ders(v) == tls::certs_view(found@));
        assert(tls::ders(v).len() == tls::certs_view(found@).len());
        if 0 <= i < found@.len() {
            assert(tls::ders(v)[i] == tls::certs_view(found@)[i]);
        }
    }
}

/// Authorities are taken one by one; each that cannot be read is told with its file.
pub proof fn authorities_are_chosen(
    path: &str,
    found: Vec<Result<Vec<u8>, String>>,
    r: Vec<Result<Vec<u8>, McpError>>,
    i: int,
)
    requires
        call_ensures(tls::choose_authorities, (path, found), r),
    ensures
        r@.len() == found@.len(),
        0 <= i < found@.len() && found@[i] is Ok ==> r@[i] is Ok && r@[i]->Ok_0@ == found@[i]->Ok_0@,
        0 <= i < found@.len() && found@[i] is Err ==> r@[i] is Err && r@[i]->Err_0.faults_transport(
            "Invalid TLS CA file "@ + path@ + ": "@ + found@[i]->Err_0@,
        ),
{
    if 0 <= i < found@.len() {
        assert(tls::authority(path@, tls::cert_view(found@[i]), r@[i]));
    }
}

/// A key is taken as it was found, and its absence or its fault is told with its file.
pub proof fn key_is_chosen(
    path: &str,
    found: Result<Option<PemKey>, String>,
    r: Result<PemKey, McpError>,
)
    requires
        call_ensures(tls::choose_key, (path, found), r),
    ensures
        r is Ok <==> found is Ok && found->Ok_0 is Some,
        r is Ok ==> r->Ok_0@ == found->Ok_0->0@,
        found is Ok && found->Ok_0 is None ==> r->Err_0.faults_transport(
            "No private key found in "@ + path@,
        ),
        found is Err ==> r->Err_0.faults_transport(
            "Invalid TLS key "@ + path@ + ": "@ + found->Err_0@,
        ),
{
}

/// Files of certificates and keys are read as what they hold, and an identity is both, one after
/// the other on lines of their own.
pub proof fn files_are_read(
    path: &str,
    file: &[u8],
    certs: Result<Vec<Vec<u8>>, McpError>,
    all: Vec<Result<Vec<u8>, McpError>>,
    key: Result<PemKey, McpError>,
    more: &[u8],
    both: Vec<u8>,
    i: int,
)
    requires
        call_ensures(tls::read_certificates, (path, file), certs),
        call_ensures(tls::read_authorities, (path, file), all),
        call_ensures(tls::read_key, (path, file), key),
        call_ensures(tls::identity_file, (file, more), both),
    ensures
        ({
            let found = tls::pem_certs(file@);
            let k = tls::pem_key(file@);
            &&& certs is Ok <==> tls::first_fault(found) is None
            &&& certs is Ok ==> certs->Ok_0@.len() == found.len()
            &&& certs is Ok && 0 <= i < found.len() ==> found[i] == Ok::<Seq<u8>, Seq<char>>(
                certs->Ok_0@[i]@,
            )
            &&& certs is Err ==> certs->Err_0.faults_transport(
                "Invalid TLS certificate "@ + path@ + ": "@ + tls::first_fault(found)->0,
            )
            &&& all@.len() == found.len()
            &&& 0 <= i < found.len() && found[i] is Ok ==> all@[i] is Ok && all@[i]->Ok_0@
                == found[i]->Ok_0
            &&& 0 <= i < found.len() && found[i] is Err ==> all@[i] is Err
                && all@[i]->Err_0.faults_transport(
                "Invalid TLS CA file "@ + path@ + ": "@ + found[i]->Err_0,
            )
            &&& key is Ok <==> k is Ok && k->Ok_0 is Some
            &&& key is Ok ==> key->Ok_0@ == k->Ok_0->0
            &&& k is Ok && k->Ok_0 is None ==> key->Err_0.faults_transport(
                "No private key found in "@ + path@,
            )
            &&& k is Err ==> key->Err_0.faults_transport(
                "Invalid TLS key "@ + path@ + ": "@ + k->Err_0,
            )
        }),
        both@ == file@ + seq![10u8] + more@,
{
    let found = tls::pem_certs(file@);
    if certs is Ok {
        let v = certs->Ok_0@;
        assert(tls::ders(v) == found);
        assert(tls::ders(v).len() == v.len());
        if 0 <= i < found.len() {
            assert(tls::ders(v)[i] == Ok::<Seq<u8>, Seq<char>>(v[i]@));
        }
    }
    if 0 <= i < found.len() {
        assert(tls::authority(path@, found[i], all@[i]));
    }
}

/// What a server starts of its own belongs to no connection and no stream.
pub proof fn server_starts(
    id: &str,
    method: &str,
    a: RequestContext<ResponseSink>,
    b: RequestContext<ResponseSink>,
)
    requires
        call_ensures(RequestContext::<ResponseSink>::server_initiated, (id, method), a),
        call_ensures(<RequestContext<ResponseSink> as Default>::default, (), b),
    ensures
        a.connection_id == 0 && a.session_id@ == id@ && a.method@ == method@,
        !a.is_get_stream && !a.is_cancelled && a.sink is None,
        b.connection_id == 0 && b.session_id@.len() == 0 && b.method@.len() == 0,
        !b.is_get_stream && !b.is_cancelled && b.sink is None,
{
}

} // verus!
