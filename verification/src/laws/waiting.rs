//! Requests that wait for an answer, sampling messages in order, and the log.
use vstd::prelude::*;

use crate::error::McpError;
use crate::json::{Json, JsonView};
use crate::jsonrpc::{RequestId, RpcError};
use crate::log;
use crate::log::{LogOutput, LogState, McpLogLevel};
use crate::protocol::progress;
use crate::sampling_validation;
use crate::sampling_validation::{
    fault_from, has_result, has_use, only_results, result_ids, use_ids,
};
use crate::server::request_table::RequestTable;
use crate::session;
use crate::session::{PendingRequests, WaitOutcome};
use crate::text;
use crate::types::content::RoleType;
use crate::types::meta::ProgressToken;
use crate::types::sampling::{SamplingMessage, SamplingMessageContentBlock};
use crate::wire;
use crate::wire::Wire;

verus! {

/// Requests are numbered from one on, one after the other, and nothing waits at first.
pub proof fn requests_are_numbered<T, P>(
    a: PendingRequests<T, P>,
    b: PendingRequests<T, P>,
    p: &mut PendingRequests<T, P>,
    id: RequestId,
)
    requires
        call_ensures(PendingRequests::<T, P>::new, (), a),
        call_ensures(<PendingRequests<T, P> as Default>::default, (), b),
        call_ensures(PendingRequests::<T, P>::next_id, (p,), id),
    ensures
        a.next_number() == 1 && a.waiting().dom() == Set::<i64>::empty() && a.listening().dom()
            == Set::<i64>::empty() && a.lingering().len() == 0,
        b.next_number() == 1 && b.waiting().dom() == Set::<i64>::empty() && b.listening().dom()
            == Set::<i64>::empty() && b.lingering().len() == 0,
        id == RequestId::Number(old(p).next_number()),
        old(p).next_number() < i64::MAX ==> final(p).next_number() == old(p).next_number() + 1,
        old(p).next_number() == i64::MAX ==> final(p).next_number() == i64::MIN,
        final(p).waiting() == old(p).waiting() && final(p).listening() == old(p).listening()
            && final(p).lingering() == old(p).lingering(),
{
}

/// A request that is registered waits under the number that it is given, and listens for progress
/// where it asks to.
pub proof fn request_waits<T, P>(
    p: &mut PendingRequests<T, P>,
    waiter: T,
    listener: Option<P>,
    id: RequestId,
    k: i64,
)
    requires
        call_ensures(PendingRequests::<T, P>::register, (p, waiter, listener), id),
    ensures
        ({
            let n = old(p).next_number();
            &&& id == RequestId::Number(n)
            &&& n < i64::MAX ==> final(p).next_number() == n + 1
            &&& final(p).waiting().dom().contains(n) && final(p).waiting()[n] == waiter
            &&& k != n ==> final(p).waiting().dom().contains(k) == old(p).waiting().dom().contains(
                k,
            ) && final(p).waiting()[k] == old(p).waiting()[k]
            &&& listener is Some ==> final(p).listening().dom().contains(n) && final(p).listening()[n] == listener->0
            &&& listener is None ==> final(p).listening() == old(p).listening()
            &&& k != n ==> final(p).listening().dom().contains(k) == old(p).listening().dom().contains(k) && final(p).listening()[k] == old(p).listening()[k]
            &&& final(p).lingering() == old(p).lingering()
        }),
{
}

/// A number stands for the request that has it; nothing else stands for one.
pub proof fn numbers_stand_for_requests(n: i64, s: String)
    ensures
        session::numbered(RequestId::Number(n).wire()) == Some(n),
        session::numbered(RequestId::String(s).wire()) is None,
{
}

/// An answer goes to the one who waits under its number, who waits no more; the others wait on.
pub proof fn answer_is_handed_over<T, P>(
    p: &mut PendingRequests<T, P>,
    n: i64,
    now: u64,
    r: Option<T>,
    k: i64,
)
    requires
        call_ensures(PendingRequests::<T, P>::complete, (p, &RequestId::Number(n), now), r),
    ensures
        r is Some <==> old(p).waiting().dom().contains(n),
        r is Some ==> r->0 == old(p).waiting()[n],
        !final(p).waiting().dom().contains(n) && !final(p).listening().dom().contains(n),
        k != n ==> final(p).waiting().dom().contains(k) == old(p).waiting().dom().contains(k)
            && final(p).waiting()[k] == old(p).waiting()[k],
        k != n ==> final(p).listening().dom().contains(k) == old(p).listening().dom().contains(k)
            && final(p).listening()[k] == old(p).listening()[k],
        old(p).listening().dom().contains(n) ==> final(p).lingering().len() > 0 && final(p).lingering().last() == (now, n, old(p).listening()[n]),
        final(p).next_number() == old(p).next_number(),
{
    numbers_stand_for_requests(n, arbitrary());
}

/// A request that is given up waits no more, and neither answers nor progress change for others.
pub proof fn request_is_given_up<T, P>(
    p: &mut PendingRequests<T, P>,
    n: i64,
    now: u64,
    k: i64,
)
    requires
        call_ensures(PendingRequests::<T, P>::remove, (p, &RequestId::Number(n), now), ()),
    ensures
        !final(p).waiting().dom().contains(n) && !final(p).listening().dom().contains(n),
        k != n ==> final(p).waiting().dom().contains(k) == old(p).waiting().dom().contains(k)
            && final(p).waiting()[k] == old(p).waiting()[k],
        k != n ==> final(p).listening().dom().contains(k) == old(p).listening().dom().contains(k)
            && final(p).listening()[k] == old(p).listening()[k],
        final(p).next_number() == old(p).next_number(),
{
    numbers_stand_for_requests(n, arbitrary());
}

/// Progress of a request that ended is still told for five seconds.
pub proof fn progress_lingers<P>(s: Seq<(u64, i64, P)>, at: u64, n: i64, p: P, now: u64)
    ensures
        now - at < 5000 ==> session::latest(s.push((at, n, p)), n, now) == Some(p),
        now - at >= 5000 ==> session::latest(s.push((at, n, p)), n, now) == session::latest(
            s,
            n,
            now,
        ),
        session::latest(Seq::<(u64, i64, P)>::empty(), n, now) is None,
        forall|i: int|
            0 <= i < session::fresh(s, now).len() ==> now - (#[trigger] session::fresh(
                s,
                now,
            )[i]).0 < 5000,
        forall|i: int|
            0 <= i < s.len() && now - (#[trigger] s[i]).0 < 5000 ==> session::fresh(
                s,
                now,
            ).contains(s[i]),
{
    assert(s.push((at, n, p)).drop_last() =~= s);
    let keep = |e: (u64, i64, P)| now - e.0 < session::PROGRESS_GRACE;
    assert forall|i: int| 0 <= i < s.len() && now - (#[trigger] s[i]).0 < 5000 implies session::fresh(
        s,
        now,
    ).contains(s[i]) by {
        s.lemma_filter_contains(keep, i);
    }
    assert forall|i: int| 0 <= i < session::fresh(s, now).len() implies now - (
    #[trigger] session::fresh(s, now)[i]).0 < 5000 by {
        s.lemma_filter_pred(keep, i);
    }
}

/// Progress of another request changes nothing.
pub proof fn progress_of_others<P>(s: Seq<(u64, i64, P)>, e: (u64, i64, P), n: i64, now: u64)
    requires
        e.1 != n,
    ensures
        session::latest(s.push(e), n, now) == session::latest(s, n, now),
{
    assert(s.push(e).drop_last() =~= s);
}

/// Progress is told to the listener of the request that the token stands for, and after its end
/// to the last that listened.
pub proof fn progress_is_told<T, P>(
    p: PendingRequests<T, P>,
    token: &ProgressToken,
    now: u64,
    r: Option<&P>,
    n: i64,
)
    requires
        call_ensures(PendingRequests::<T, P>::progress_callback, (&p, token, now), r),
        session::numbered(token.request()) == Some(n),
    ensures
        p.listening().dom().contains(n) ==> r is Some && *r->0 == p.listening()[n],
        !p.listening().dom().contains(n) ==> (r is Some <==> session::latest(
            p.lingering(),
            n,
            now,
        ) is Some),
        !p.listening().dom().contains(n) && r is Some ==> session::latest(p.lingering(), n, now)
            == Some(*r->0),
{
}

/// As many requests are counted as wait, and as many listeners as listen.
pub proof fn waiting_is_counted<T, P>(
    p: PendingRequests<T, P>,
    n: usize,
    none: bool,
    l: usize,
)
    requires
        call_ensures(PendingRequests::<T, P>::len, (&p,), n),
        call_ensures(PendingRequests::<T, P>::is_empty, (&p,), none),
        call_ensures(PendingRequests::<T, P>::progress_len, (&p,), l),
    ensures
        n == p.waiting().dom().len() && (none <==> n == 0),
        l == p.listening().dom().len(),
{
}

/// Where a connection ends, all who wait are handed over, and nobody waits any more.
pub proof fn all_are_failed<T, P>(
    p: &mut PendingRequests<T, P>,
    r: std::collections::HashMap<i64, T>,
)
    requires
        call_ensures(PendingRequests::<T, P>::fail_all, (p,), r),
    ensures
        r@ == old(p).waiting(),
        final(p).waiting().dom() == Set::<i64>::empty(),
        final(p).listening().dom() == Set::<i64>::empty(),
        final(p).lingering().len() == 0,
        final(p).next_number() == old(p).next_number(),
{
}

/// A wait ends with the answer, with the end of the connection, or with the time that it took;
/// without an answer the request is given up.
pub proof fn wait_is_settled<T, P>(
    p: &mut PendingRequests<T, P>,
    n: i64,
    outcome: WaitOutcome,
    ms: u64,
    now: u64,
    r: Result<Json, McpError>,
    k: i64,
)
    requires
        call_ensures(
            PendingRequests::<T, P>::settle,
            (p, &RequestId::Number(n), outcome, ms, now),
            r,
        ),
    ensures
        outcome matches WaitOutcome::Answered(Ok(v)) ==> r == Ok::<Json, McpError>(v),
        outcome matches WaitOutcome::Answered(Err(e)) ==> r == Err::<Json, McpError>(
            McpError::Rpc(e),
        ),
        outcome is Dropped ==> r == Err::<Json, McpError>(McpError::Closed),
        outcome is TimedOut ==> r == Err::<Json, McpError>(McpError::Timeout(ms)),
        outcome is Answered ==> *final(p) == *old(p),
        !(outcome is Answered) ==> !final(p).waiting().dom().contains(n),
        k != n ==> final(p).waiting().dom().contains(k) == old(p).waiting().dom().contains(k)
            && final(p).waiting()[k] == old(p).waiting()[k],
        final(p).next_number() == old(p).next_number(),
{
    numbers_stand_for_requests(n, arbitrary());
}

/// What an answer tells: its error where it has one, and its result otherwise, which is null
/// where it has none.
pub proof fn answers_told(a: crate::Response, r: Result<Json, RpcError>)
    ensures
        session::told(a, r) && a.error is Some ==> r == Err::<Json, RpcError>(a.error->0),
        session::told(a, r) && a.error is None && a.result is Some ==> r == Ok::<Json, RpcError>(
            a.result->0,
        ),
        session::told(a, r) && a.error is None && a.result is None ==> r is Ok && r->Ok_0@ is Null,
        a.error is Some ==> session::told(a, Err(a.error->0)),
        a.error is None && a.result is Some ==> session::told(a, Ok(a.result->0)),
{
}

/// A table of requests holds what was last put in under an identity, until it is taken out.
pub proof fn requests_are_kept<C>(
    fresh: RequestTable<C>,
    t: RequestTable<C>,
    id: &RequestId,
    found: Option<&C>,
    u: &mut RequestTable<C>,
    gone: Option<C>,
    v: &mut RequestTable<C>,
    key: RequestId,
    value: C,
    k: JsonView,
)
    requires
        call_ensures(RequestTable::<C>::new, (), fresh),
        call_ensures(RequestTable::<C>::get, (&t, id), found),
        call_ensures(RequestTable::<C>::remove, (u, id), gone),
        call_ensures(RequestTable::<C>::insert, (v, key, value), ()),
    ensures
        fresh@.dom() == Set::<JsonView>::empty(),
        found is Some <==> t@.dom().contains(id.wire()),
        found is Some ==> *found->0 == t@[id.wire()],
        gone is Some <==> old(u)@.dom().contains(id.wire()),
        gone is Some ==> gone->0 == old(u)@[id.wire()],
        !final(u)@.dom().contains(id.wire()),
        k != id.wire() ==> final(u)@.dom().contains(k) == old(u)@.dom().contains(k) && final(u)@[k]
            == old(u)@[k],
        final(v)@.dom().contains(key.wire()) && final(v)@[key.wire()] == value,
        k != key.wire() ==> final(v)@.dom().contains(k) == old(v)@.dom().contains(k) && final(v)@[k] == old(v)@[k],
{
}

/// A token for progress is written where it is looked for, in `_meta` of the parameters.
pub proof fn token_is_written(p: &mut Option<Json>, t: &ProgressToken, k: Seq<char>)
    requires
        call_ensures(progress::inject_progress_token, (p, t), ()),
    ensures
        *final(p) is Some,
        final(p)->0@.get("_meta"@) is Some,
        final(p)->0@.get("_meta"@)->0.get("progressToken"@) == Some(t.wire()),
        k != "_meta"@ && *old(p) is Some && old(p)->0@ is Object ==> final(p)->0@.get(k) == old(p)->0@.get(k),
{
    let was = wire::opt(*old(p));
    let j = progress::with_token(was, t.wire());
    assert(wire::opt(*final(p)) == Some(j));
    let o = progress::members_or_none(was);
    let m = progress::members_or_none(crate::json::lookup(o, "_meta"@));
    let meta = crate::json::put_member(m, "progressToken"@, t.wire());
    crate::json::lookup_put_member(m, "progressToken"@, t.wire(), "progressToken"@);
    crate::json::lookup_put_member(o, "_meta"@, JsonView::Object(meta), "_meta"@);
    crate::json::lookup_put_member(o, "_meta"@, JsonView::Object(meta), k);
}

/// The messages of a sampling request are taken where every use of a tool is answered by the next
/// message, which holds the results of just these uses and nothing else, and results stand
/// nowhere else.
pub proof fn messages_in_order(
    m: &Vec<SamplingMessage>,
    r: Result<(), McpError>,
    i: int,
)
    requires
        call_ensures(sampling_validation::validate_tool_use_result_messages, (m,), r),
    ensures
        r is Err ==> r->Err_0 is InvalidArgument && (r->Err_0.told()
            == "Tool results mixed with other content"@ || r->Err_0.told()
            == "Tool result missing in request"@),
        r is Ok && 0 <= i < m@.len() && has_use(m@[i].content.blocks()) ==> {
            &&& m@[i].role == RoleType::Assistant
            &&& i + 1 < m@.len()
            &&& only_results(m@[i + 1].content.blocks())
            &&& use_ids(m@[i].content.blocks()) == result_ids(m@[i + 1].content.blocks())
        },
        r is Ok && 0 <= i < m@.len() && has_result(m@[i].content.blocks()) ==> {
            &&& m@[i].role == RoleType::User
            &&& i > 0
            &&& only_results(m@[i].content.blocks())
            &&& has_use(m@[i - 1].content.blocks())
            &&& use_ids(m@[i - 1].content.blocks()) == result_ids(m@[i].content.blocks())
        },
        (forall|k: int|
            0 <= k < m@.len() ==> !has_use((#[trigger] m@[k]).content.blocks()) && !has_result(
                m@[k].content.blocks(),
            )) ==> r is Ok,
{
    fault_words(m@, 0);
    if r is Ok && 0 <= i < m@.len() {
        assert(sampling_validation::stand(m@, i));
    }
    if forall|k: int|
        0 <= k < m@.len() ==> !has_use((#[trigger] m@[k]).content.blocks()) && !has_result(
            m@[k].content.blocks(),
        ) {
        assert forall|k: int| 0 <= k < m@.len() implies #[trigger] sampling_validation::stand(
            m@,
            k,
        ) by {
            assert(!has_use(m@[k].content.blocks()));
        }
    }
}

proof fn fault_words(m: Seq<SamplingMessage>, i: int)
    requires
        0 <= i,
    ensures
        fault_from(m, i) is Some ==> fault_from(m, i)->0 == "Tool results mixed with other content"@
            || fault_from(m, i)->0 == "Tool result missing in request"@,
    decreases m.len() - i,
{
    if i < m.len() {
        fault_words(m, i + 1);
    }
}

/// The first message that is out of order tells the fault: results mixed with something else or
/// sent by the wrong side are told as such, and everything else as a result that is missing.
pub proof fn first_fault_is_told(m: Seq<SamplingMessage>)
    requires
        m.len() > 0,
        has_result(m[0].content.blocks()),
    ensures
        !only_results(m[0].content.blocks()) || m[0].role != RoleType::User ==> fault_from(m, 0)
            == Some("Tool results mixed with other content"@),
        only_results(m[0].content.blocks()) && m[0].role == RoleType::User ==> fault_from(m, 0)
            == Some("Tool result missing in request"@),
{
    let b = sampling_validation::at(m, 0);
    assert(!sampling_validation::results_stand(m, 0));
}

/// A use of a tool that is not followed by its results is told as a result that is missing, and
/// one that is followed by results among something else as mixed.
pub proof fn use_without_result_is_told(m: Seq<SamplingMessage>)
    requires
        m.len() > 0,
        has_use(m[0].content.blocks()),
        !has_result(m[0].content.blocks()),
    ensures
        m.len() == 1 || m[0].role != RoleType::Assistant || !has_result(m[1].content.blocks())
            ==> fault_from(m, 0) == Some("Tool result missing in request"@),
        m.len() > 1 && m[0].role == RoleType::Assistant && has_result(m[1].content.blocks())
            && !only_results(m[1].content.blocks()) ==> fault_from(m, 0) == Some(
            "Tool results mixed with other content"@,
        ),
        m.len() > 1 && m[0].role == RoleType::Assistant && has_result(m[1].content.blocks())
            && only_results(m[1].content.blocks()) && use_ids(m[0].content.blocks()) != result_ids(
            m[1].content.blocks(),
        ) ==> fault_from(m, 0) == Some("Tool result missing in request"@),
{
    let b = sampling_validation::at(m, 0);
    assert(sampling_validation::results_stand(m, 0));
    assert(sampling_validation::results_fault(m, 0) is None);
}

/// A message that is in order passes the question on to the next.
pub proof fn faults_are_looked_for_in_order(m: Seq<SamplingMessage>, i: int)
    requires
        0 <= i < m.len(),
    ensures
        sampling_validation::stand(m, i) ==> fault_from(m, i) == fault_from(m, i + 1),
        !sampling_validation::stand(m, i) ==> fault_from(m, i) is Some,
{
}

/// Messages hold uses and results where one of their blocks is one, of the identity that it names.
pub proof fn blocks_tell(b: Seq<SamplingMessageContentBlock>, i: int)
    requires
        0 <= i < b.len(),
    ensures
        b[i] is ToolUse ==> has_use(b) && !only_results(b) && use_ids(b).contains(
            b[i]->ToolUse_0.id@,
        ),
        b[i] is ToolResult ==> has_result(b) && result_ids(b).contains(
            b[i]->ToolResult_0.tool_use_id@,
        ),
        !(b[i] is ToolResult) ==> !only_results(b),
        !has_use(b) ==> use_ids(b) == Set::<Seq<char>>::empty(),
        !has_result(b) ==> result_ids(b) == Set::<Seq<char>>::empty(),
{
    if b[i] is ToolUse {
        assert(sampling_validation::is_use_of(b[i], b[i]->ToolUse_0.id@));
    }
    if b[i] is ToolResult {
        assert(sampling_validation::is_result_of(b[i], b[i]->ToolResult_0.tool_use_id@));
    }
    if !has_use(b) {
        assert(use_ids(b) =~= Set::<Seq<char>>::empty());
    }
    if !has_result(b) {
        assert(result_ids(b) =~= Set::<Seq<char>>::empty());
    }
}

/// The levels of the log are numbered from three to seven, and named.
pub proof fn log_levels_told(
    l: McpLogLevel,
    n: u8,
    name: &'static str,
    b: u8,
    back: Option<McpLogLevel>,
    named: &'static str,
)
    requires
        call_ensures(McpLogLevel::as_u8, (l,), n),
        call_ensures(McpLogLevel::name, (l,), name),
        call_ensures(McpLogLevel::from_u8, (b,), back),
        call_ensures(log::log_level_name, (b,), named),
    ensures
        l is Debug ==> n == 3 && name@ == "DEBUG"@,
        l is Info ==> n == 4 && name@ == "INFO"@,
        l is Warn ==> n == 5 && name@ == "WARN"@,
        l is Error ==> n == 6 && name@ == "ERROR"@,
        l is Fatal ==> n == 7 && name@ == "FATAL"@,
        b == 3 ==> back == Some(McpLogLevel::Debug) && named@ == "DEBUG"@,
        b == 4 ==> back == Some(McpLogLevel::Info) && named@ == "INFO"@,
        b == 5 ==> back == Some(McpLogLevel::Warn) && named@ == "WARN"@,
        b == 6 ==> back == Some(McpLogLevel::Error) && named@ == "ERROR"@,
        b == 7 ==> back == Some(McpLogLevel::Fatal) && named@ == "FATAL"@,
        b < 3 || b > 7 ==> back is None && named@ == "UNKNOWN"@,
{
}

/// The log starts at the level of information without a callback, and what is set is what holds.
pub proof fn log_is_set<C>(
    fresh: LogState<C>,
    s: &mut LogState<C>,
    level: u8,
    r: i32,
    t: &mut LogState<C>,
    typed: McpLogLevel,
    u: &mut LogState<C>,
    c: Option<C>,
    q: i32,
    v: LogState<C>,
    l: McpLogLevel,
    back: Option<&C>,
)
    requires
        call_ensures(LogState::<C>::new, (), fresh),
        call_ensures(log::set_log_level::<C>, (s, level), r),
        call_ensures(log::set_log_level_typed::<C>, (t, typed), ()),
        call_ensures(log::set_log_callback::<C>, (u, c), q),
        call_ensures(log::get_log_level::<C>, (&v,), l),
        call_ensures(log::get_log_callback::<C>, (&v,), back),
    ensures
        fresh.level == McpLogLevel::Info && fresh.callback is None,
        3 <= level <= 7 ==> r == 0 && final(s).level.number() == level,
        level < 3 || level > 7 ==> r == -1 && final(s).level == old(s).level,
        final(s).callback == old(s).callback,
        final(t).level == typed && final(t).callback == old(t).callback,
        q == 0 && final(u).callback == c && final(u).level == old(u).level,
        l == v.level,
        back is Some <==> v.callback is Some,
        back is Some ==> v.callback == Some(*back->0),
{
}

/// A line below the level of the log is dropped; every other goes to the callback where there is
/// one, with its time, thread, level, file and number.
pub proof fn line_is_logged<C>(
    s: &LogState<C>,
    level: McpLogLevel,
    file: &str,
    line: u32,
    words: &str,
    time: &str,
    thread: &str,
    r: LogOutput,
)
    requires
        call_ensures(log::emit::<C>, (s, level, file, line, words, time, thread), r),
    ensures
        r is Dropped <==> level.number() < s.level.number(),
        r is Callback <==> level.number() >= s.level.number() && s.callback is Some,
        r is Record <==> level.number() >= s.level.number() && s.callback is None,
        r is Callback ==> r->0@ == "["@ + time@ + "] ["@ + thread@ + "] ["@ + level.named() + "] "@
            + log::file_name(file@) + ":["@ + text::decimal(line as int) + "] "@ + words@,
{
}

/// The name of a file is what follows the last slash of its path.
pub proof fn file_is_named(dir: Seq<char>, name: Seq<char>)
    requires
        !name.contains('/'),
    ensures
        log::file_name(name) == name,
        log::file_name(dir.push('/') + name) == name,
    decreases name.len(),
{
    let p = dir.push('/') + name;
    if name.len() > 0 {
        let short = name.drop_last();
        assert(!short.contains('/')) by {
            if short.contains('/') {
                let i = choose|i: int| 0 <= i < short.len() && short[i] == '/';
                assert(name[i] == '/');
            }
        }
        file_is_named(dir, short);
        assert(p.drop_last() =~= dir.push('/') + short);
        assert(name.last() != '/') by {
            assert(name.contains(name.last()));
        }
        assert(p.last() == name.last());
        assert(short.push(name.last()) =~= name);
    } else {
        assert(p =~= dir.push('/'));
        assert(p.last() == '/');
        assert(name =~= seq![]);
    }
}

/// The time of a line is a date and a time of day, down to the thousandth of a second.
pub proof fn lines_are_dated(s: Seq<char>)
    requires
        log::dated(s),
        s.len() == 23,
    ensures
        s[4] == '-' && s[7] == '-' && s[10] == ' ' && s[13] == ':' && s[16] == ':' && s[19] == '.',
        '0' <= s[0] <= '9' && '0' <= s[5] <= '9' && '0' <= s[8] <= '9' && '0' <= s[11] <= '9' && '0'
            <= s[22] <= '9',
{
    assert(s[4] == '-' && s[7] == '-');
    assert(s[10] == ' ');
    assert(s[13] == ':' && s[16] == ':');
    assert(s[19] == '.');
    assert('0' <= s[0] <= '9');
}

} // verus!
