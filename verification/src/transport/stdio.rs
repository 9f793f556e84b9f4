//! Messages over a pair of text streams, one on each line.
use vstd::prelude::*;
use vstd::string::*;

use crate::jsonrpc::Message;
use crate::protocol::message;
use crate::protocol::message::{
    parse_message, serialize_message, MessageParseError, MessageView, ParseErrorView,
};
use crate::string_map::StringMap;
use crate::text;
use crate::text::{chars_of, find_char, slice};
use crate::transport::sse;

verus! {

/// The messages that a text completes, and what is left of it: each line that is not
/// empty, without the carriage return it may end in.
pub open spec fn lines_extracted(s: Seq<char>) -> (Seq<Seq<char>>, Seq<char>)
    decreases s.len(),
{
    match text::first_at(s, '\n', 0) {
        Some(i) => if 0 <= i < s.len() {
            let line = sse::uncarried(s.take(i));
            let (lines, rest) = lines_extracted(s.skip(i + 1));
            (
                if line.len() == 0 {
                    lines
                } else {
                    seq![line] + lines
                },
                rest,
            )
        } else {
            (seq![], s)
        },
        None => (seq![], s),
    }
}

/// Takes the messages that are complete out of what was received, and leaves the rest
/// there.
pub fn extract_lines(buffer: &mut String) -> (r: Vec<String>)
    ensures
        text::texts(r@) == lines_extracted(old(buffer)@).0,
        final(buffer)@ == lines_extracted(old(buffer)@).1,
{
    let cs = chars_of(buffer.as_str());
    let ghost all = cs@;
    let mut out: Vec<String> = Vec::new();
    let mut from: usize = 0;
    assert(all.skip(0) =~= all);
    assert(text::texts(out@) =~= seq![]);
    assert(text::texts(out@) + lines_extracted(all).0 =~= lines_extracted(all).0);
    loop
        invariant
            from <= cs.len(),
            cs@ == all,
            all == old(buffer)@,
            lines_extracted(all).0 == text::texts(out@) + lines_extracted(all.skip(from as int)).0,
            lines_extracted(all).1 == lines_extracted(all.skip(from as int)).1,
        decreases cs.len() - from,
    {
        let rest = chars_of(slice(&cs, from, cs.len()).as_str());
        assert(rest@ =~= all.skip(from as int));
        proof {
            text::first_at_found(rest@, '\n', 0);
        }
        match find_char(&rest, '\n', 0) {
            Some(i) => {
                let end: usize = if i > 0 && rest[i - 1] == '\r' {
                    i - 1
                } else {
                    i
                };
                let line = slice(&rest, 0, end);
                assert(line@ =~= sse::uncarried(rest@.take(i as int)));
                assert(rest@.skip(i + 1) =~= all.skip(from + i + 1));
                let ghost before = text::texts(out@);
                if !line.as_str().is_empty() {
                    out.push(line);
                    proof {
                        let tail = lines_extracted(all.skip(from + i + 1)).0;
                        assert(text::texts(out@) =~= before + seq![line@]);
                        assert(before + (seq![line@] + tail) =~= text::texts(out@) + tail);
                    }
                }
                from = from + i + 1;
            },
            None => {
                let left = slice(&rest, 0, rest.len());
                assert(left@ =~= rest@);
                assert(text::texts(out@) + Seq::<Seq<char>>::empty() =~= text::texts(out@));
                *buffer = left;
                return out;
            },
        }
    }
}

/// What is left of a text has no end of line, and no message is empty or holds one.
pub proof fn nothing_complete_left(s: Seq<char>)
    ensures
        !lines_extracted(s).1.contains('\n'),
        forall|i: int|
            0 <= i < lines_extracted(s).0.len() ==> (#[trigger] lines_extracted(s).0[i]).len() > 0
                && !lines_extracted(s).0[i].contains('\n'),
    decreases s.len(),
{
    text::first_at_found(s, '\n', 0);
    match text::first_at(s, '\n', 0) {
        Some(i) => {
            nothing_complete_left(s.skip(i + 1));
            let line = sse::uncarried(s.take(i));
            assert forall|k: int| 0 <= k < line.len() implies line[k] != '\n' by {
                assert(line[k] == s[k]);
            }
            let (lines, rest) = lines_extracted(s.skip(i + 1));
            let all = lines_extracted(s).0;
            assert forall|k: int| 0 <= k < all.len() implies (#[trigger] all[k]).len() > 0
                && !all[k].contains('\n') by {
                if line.len() > 0 {
                    if k > 0 {
                        assert(all[k] == lines[k - 1]);
                    }
                } else {
                    assert(all[k] == lines[k]);
                }
            }
        },
        None => {},
    }
}

/// The same messages come out, however the text is cut into pieces.
pub proof fn pieces_extracted(a: Seq<char>, b: Seq<char>)
    ensures
        lines_extracted(a + b) == ({
            let (lines, rest) = lines_extracted(a);
            let (more, left) = lines_extracted(rest + b);
            (lines + more, left)
        }),
    decreases a.len(),
{
    text::first_at_found(a, '\n', 0);
    text::first_at_found(a + b, '\n', 0);
    match text::first_at(a, '\n', 0) {
        Some(i) => {
            assert((a + b)[i] == a[i]);
            assert(forall|k: int| 0 <= k < i ==> (a + b)[k] == a[k]);
            let j = text::first_at(a + b, '\n', 0)->0;
            assert(j == i) by {
                if j < i {
                    assert(a[j] != '\n');
                }
                if i < j {
                    assert((a + b)[i] != '\n');
                }
            }
            assert((a + b).take(i) =~= a.take(i));
            assert((a + b).skip(i + 1) =~= a.skip(i + 1) + b);
            pieces_extracted(a.skip(i + 1), b);
            let (l1, r1) = lines_extracted(a.skip(i + 1));
            let (l2, r2) = lines_extracted(r1 + b);
            let first = seq![sse::uncarried(a.take(i))];
            assert(first + (l1 + l2) =~= (first + l1) + l2);
        },
        None => {
            assert(Seq::<Seq<char>>::empty() + lines_extracted(a + b).0 =~= lines_extracted(
                a + b,
            ).0);
        },
    }
}

/// The line that a message is sent on.
pub open spec fn framed(m: MessageView) -> Seq<char> {
    message::message_text(m) + "\n"@
}

/// Writes a message on a line of its own.
pub fn frame_message(message: &Message) -> (r: String)
    ensures
        r@ == framed(message@),
        r@.len() > 1,
        r@.last() == '\n',
        sse::one_line(r@.drop_last()),
        lines_extracted(r@) == (seq![message::message_text(message@)], Seq::<char>::empty()),
        message::complete(*message) && message::written(message@).normal().readable()
            ==> message::received_as(
            message::message_text(message@),
            message::normal_message(message@),
        ),
{
    let t = serialize_message(message);
    let r = text::cat2(t.as_str(), "\n");
    proof {
        reveal_strlit("\n");
        assert("\n"@ =~= seq!['\n']);
        assert(r@.drop_last() =~= t@);
        let empty = Seq::<char>::empty();
        assert(r@ =~= t@ + "\n"@ + empty);
        line_taken(t@, empty);
        text::first_at_found(empty, '\n', 0);
        assert(seq![t@] + lines_extracted(empty).0 =~= seq![t@]);
    }
    r
}

/// A line in front of more text is taken as it is.
pub proof fn line_taken(line: Seq<char>, more: Seq<char>)
    requires
        line.len() > 0,
        sse::one_line(line),
    ensures
        lines_extracted(line + "\n"@ + more) == (
            seq![line] + lines_extracted(more).0,
            lines_extracted(more).1,
        ),
{
    reveal_strlit("\n");
    assert("\n"@ =~= seq!['\n']);
    let s = line + "\n"@ + more;
    let n = line.len() as int;
    assert(s[n] == '\n');
    text::first_at_found(s, '\n', 0);
    let i = text::first_at(s, '\n', 0)->0;
    assert(i == n) by {
        if i < n {
            assert(s[i] == line[i]);
        }
        if n < i {
            assert(s[n] != '\n');
        }
    }
    assert(s.take(n) =~= line);
    assert(s.skip(n + 1) =~= more);
    assert(line.last() == line[n - 1]);
}

/// Texts sent one after another, each on its line.
pub open spec fn sent(lines: Seq<Seq<char>>) -> Seq<char>
    decreases lines.len(),
{
    if lines.len() == 0 {
        seq![]
    } else {
        lines[0] + "\n"@ + sent(lines.drop_first())
    }
}

/// What is sent is what is received, message by message, with nothing left over.
pub proof fn sent_is_received(lines: Seq<Seq<char>>)
    requires
        forall|i: int|
            0 <= i < lines.len() ==> (#[trigger] lines[i]).len() > 0 && sse::one_line(lines[i]),
    ensures
        lines_extracted(sent(lines)) == (lines, Seq::<char>::empty()),
    decreases lines.len(),
{
    if lines.len() == 0 {
        text::first_at_found(seq![], '\n', 0);
        assert(lines_extracted(sent(lines)).0 =~= lines);
        assert(sent(lines) =~= Seq::<char>::empty());
    } else {
        let rest = lines.drop_first();
        assert forall|i: int| 0 <= i < rest.len() implies (#[trigger] rest[i]).len() > 0
            && sse::one_line(rest[i]) by {
            assert(rest[i] == lines[i + 1]);
        }
        sent_is_received(rest);
        line_taken(lines[0], sent(rest));
        assert(seq![lines[0]] + rest =~= lines);
    }
}

/// Tells whether a text cannot stand in an environment.
pub fn contains_invalid_env_chars(value: &str) -> (r: bool)
    ensures
        r == (value@.contains('=') || value@.contains('\n') || value@.contains('\r')),
{
    text::contains_char(value, '=') || text::contains_char(value, '\n') || text::contains_char(
        value,
        '\r',
    )
}

/// Both the name and the value can stand in an environment.
pub open spec fn env_usable(name: Seq<char>, value: Seq<char>) -> bool {
    &&& !name.contains('=') && !name.contains('\n') && !name.contains('\r')
    &&& !value.contains('=') && !value.contains('\n') && !value.contains('\r')
}

/// The variables that can stand in an environment, from place `i` of the names on.
pub open spec fn usable_from(
    order: Seq<Seq<char>>,
    env: Map<Seq<char>, String>,
    i: int,
) -> Seq<(Seq<char>, Seq<char>)>
    decreases order.len() - i,
{
    if i < 0 || i >= order.len() {
        seq![]
    } else {
        let rest = usable_from(order, env, i + 1);
        if env_usable(order[i], env[order[i]]@) {
            seq![(order[i], env[order[i]]@)] + rest
        } else {
            rest
        }
    }
}

/// The variables that a program is started with: those that can stand in its
/// environment.
pub fn usable_env(env: &StringMap<String>) -> (r: Vec<(String, String)>)
    ensures
        text::pairs(r@) == usable_from(env.order(), env@, 0),
{
    let n: usize = env.len();
    let mut out: Vec<(String, String)> = Vec::new();
    let mut i: usize = 0;
    assert(text::pairs(out@) =~= seq![]);
    assert(text::pairs(out@) + usable_from(env.order(), env@, 0) =~= usable_from(env.order(), env@, 0));
    while i < n
        invariant
            i <= n,
            n == env.order().len(),
            usable_from(env.order(), env@, 0) == text::pairs(out@) + usable_from(
                env.order(),
                env@,
                i as int,
            ),
        decreases n - i,
    {
        let k = env.key_at(i);
        let v = env.value_at(i);
        let ghost before = text::pairs(out@);
        if !contains_invalid_env_chars(k) && !contains_invalid_env_chars(v.as_str()) {
            out.push((k.to_owned(), v.clone()));
            proof {
                let rest = usable_from(env.order(), env@, i + 1);
                assert(text::pairs(out@) =~= before + seq![(k@, v@)]);
                assert(before + (seq![(k@, v@)] + rest) =~= text::pairs(out@) + rest);
            }
        }
        i = i + 1;
    }
    assert(text::pairs(out@) + Seq::<(Seq<char>, Seq<char>)>::empty() =~= text::pairs(out@));
    out
}

/// The text without the carriage returns that it ends in.
pub open spec fn uncarried_all(s: Seq<char>) -> Seq<char>
    decreases s.len(),
{
    if s.len() > 0 && s.last() == '\r' {
        uncarried_all(s.drop_last())
    } else {
        s
    }
}

/// What a line that was received is.
pub enum IncomingLine {
    /// Nothing.
    Empty,
    /// A response, which is handed on before the next line is read.
    Response(Message),
    /// A call, which may take its time while more lines are read.
    Call(Message),
    /// No message.
    Invalid(MessageParseError),
}

/// Tells what a line that was received is.
pub fn incoming_line(line: &str) -> (r: IncomingLine)
    ensures
        ({
            let s = uncarried_all(line@);
            match r {
                IncomingLine::Empty => s.len() == 0,
                IncomingLine::Response(m) => s.len() > 0 && m is Response && message::message_of(s)
                    == Ok::<MessageView, ParseErrorView>(m@),
                IncomingLine::Call(m) => s.len() > 0 && !(m is Response) && message::message_of(s)
                    == Ok::<MessageView, ParseErrorView>(m@),
                IncomingLine::Invalid(e) => s.len() > 0 && message::message_of(s) == Err::<
                    MessageView,
                    ParseErrorView,
                >(e@),
            }
        }),
{
    let cs = chars_of(line);
    let mut j: usize = cs.len();
    assert(cs@.take(j as int) =~= cs@);
    while j > 0 && cs[j - 1] == '\r'
        invariant
            j <= cs.len(),
            uncarried_all(cs@) == uncarried_all(cs@.take(j as int)),
        decreases j,
    {
        assert(cs@.take(j as int).drop_last() =~= cs@.take(j - 1));
        j = j - 1;
    }
    let s = slice(&cs, 0, j);
    assert(s@ =~= cs@.take(j as int));
    if s.as_str().is_empty() {
        return IncomingLine::Empty;
    }
    match parse_message(s.as_str()) {
        Ok(m) => if m.is_response() {
            IncomingLine::Response(m)
        } else {
            IncomingLine::Call(m)
        },
        Err(e) => IncomingLine::Invalid(e),
    }
}

} // verus!
