//! Streams of events: how an event is written, and how events are read from text that
//! comes piece by piece.
use vstd::prelude::*;
use vstd::string::*;

use crate::text;
use crate::text::{chars_of, find_char, slice, str_eq};

verus! {

/// An event of a stream.
#[derive(Clone, Debug, PartialEq, Eq)]
pub struct SseEvent {
    /// The name of the event; one without a name is a message.
    pub event: Option<String>,
    pub data: String,
}

/// What an event says.
pub struct EventView {
    pub event: Option<Seq<char>>,
    pub data: Seq<char>,
}

/// A text that may be missing.
pub open spec fn text_of(s: Option<String>) -> Option<Seq<char>> {
    match s {
        Some(s) => Some(s@),
        None => None,
    }
}

impl View for SseEvent {
    type V = EventView;

    open spec fn view(&self) -> EventView {
        EventView { event: text_of(self.event), data: self.data@ }
    }
}

/// The lines of the data of an event, as they are written.
pub open spec fn data_lines(s: Seq<char>) -> Seq<char>
    decreases s.len(),
{
    match text::first_at(s, '\n', 0) {
        Some(i) => if 0 <= i < s.len() {
            "data: "@ + s.take(i) + "\n"@ + data_lines(s.skip(i + 1))
        } else {
            seq![]
        },
        None => "data: "@ + s + "\n"@,
    }
}

/// An event, as it is written.
pub open spec fn event_text(e: EventView) -> Seq<char> {
    let head = match e.event {
        Some(n) => "event: "@ + n + "\n"@,
        None => seq![],
    };
    head + data_lines(e.data) + "\n"@
}

fn write_data(s: &str) -> (r: String)
    ensures
        r@ == data_lines(s@),
{
    let cs = chars_of(s);
    let mut out = String::new();
    let mut from: usize = 0;
    assert(cs@.skip(0) =~= cs@);
    assert(out@ + data_lines(cs@.skip(0)) =~= data_lines(s@));
    loop
        invariant
            from <= cs.len(),
            cs@ == s@,
            out@ + data_lines(cs@.skip(from as int)) == data_lines(s@),
        decreases cs.len() - from,
    {
        let rest = chars_of(slice(&cs, from, cs.len()).as_str());
        assert(rest@ =~= cs@.skip(from as int));
        proof {
            text::first_at_found(rest@, '\n', 0);
        }
        let ghost before = out@;
        match find_char(&rest, '\n', 0) {
            Some(i) => {
                let line = slice(&rest, 0, i);
                assert(line@ =~= rest@.take(i as int));
                out.append("data: ");
                out.append(line.as_str());
                out.append("\n");
                assert(rest@.skip(i + 1) =~= cs@.skip(from + i + 1));
                assert(out@ + data_lines(cs@.skip(from + i + 1)) =~= before + ("data: "@
                    + rest@.take(i as int) + "\n"@ + data_lines(rest@.skip(i + 1))));
                from = from + i + 1;
            },
            None => {
                let line = slice(&rest, 0, rest.len());
                assert(line@ =~= rest@);
                out.append("data: ");
                out.append(line.as_str());
                out.append("\n");
                assert(out@ =~= before + ("data: "@ + rest@ + "\n"@));
                return out;
            },
        }
    }
}

impl SseEvent {
    /// An event with a name.
    pub fn typed(event: &str, data: String) -> (r: Self)
        ensures
            r@.event == Some(event@),
            r.data == data,
    {
        SseEvent { event: Some(event.to_owned()), data }
    }

    /// Writes the event.
    pub fn to_wire(&self) -> (r: String)
        ensures
            r@ == event_text(self@),
    {
        let mut out = String::new();
        match &self.event {
            Some(n) => {
                out = text::cat3("event: ", n.as_str(), "\n");
            },
            None => {
                assert(out@ =~= seq![]);
            },
        }
        let data = write_data(self.data.as_str());
        out.append(data.as_str());
        out.append("\n");
        out
    }
}

/// The line without the carriage return that it ends in.
pub open spec fn uncarried(s: Seq<char>) -> Seq<char> {
    if s.len() > 0 && s.last() == '\r' {
        s.drop_last()
    } else {
        s
    }
}

/// The lines that a text completes, and what is left of it.
pub open spec fn complete_lines(s: Seq<char>) -> (Seq<Seq<char>>, Seq<char>)
    decreases s.len(),
{
    match text::first_at(s, '\n', 0) {
        Some(i) => if 0 <= i < s.len() {
            let (lines, rest) = complete_lines(s.skip(i + 1));
            (seq![uncarried(s.take(i))] + lines, rest)
        } else {
            (seq![], s)
        },
        None => (seq![], s),
    }
}

/// The lines that a text completes are the same, however it is cut into pieces.
pub proof fn lines_of_pieces(a: Seq<char>, b: Seq<char>)
    ensures
        complete_lines(a + b) == ({
            let (lines, rest) = complete_lines(a);
            let (more, left) = complete_lines(rest + b);
            (lines + more, left)
        }),
    decreases a.len(),
{
    text::first_at_found(a, '\n', 0);
    text::first_at_found(a + b, '\n', 0);
    match text::first_at(a, '\n', 0) {
        Some(i) => {
            assert((a + b)[i] == a[i]);
            assert(forall|k: int| 0 <= k < i ==> (a + b)[k] == a[k]);
            let j = text::first_at(a + b, '\n', 0)->0;
            assert(j == i) by {
                if j < i {
                    assert(a[j] != '\n');
                }
                if i < j {
                    assert((a + b)[i] != '\n');
                }
            }
            assert((a + b).take(i) =~= a.take(i));
            assert((a + b).skip(i + 1) =~= a.skip(i + 1) + b);
            lines_of_pieces(a.skip(i + 1), b);
            let (l1, r1) = complete_lines(a.skip(i + 1));
            let (l2, r2) = complete_lines(r1 + b);
            let first = seq![uncarried(a.take(i))];
            assert(first + (l1 + l2) =~= (first + l1) + l2);
        },
        None => {
            assert(Seq::<Seq<char>>::empty() + complete_lines(a + b).0 =~= complete_lines(a + b).0);
        },
    }
}

/// An event that is being read.
pub struct PartView {
    pub event: Option<Seq<char>>,
    pub data: Option<Seq<char>>,
}

/// Nothing of an event is read yet.
pub open spec fn nothing() -> PartView {
    PartView { event: None, data: None }
}

/// The name of the field that a line gives.
pub open spec fn field_name(line: Seq<char>) -> Seq<char> {
    match text::first_at(line, ':', 0) {
        Some(i) => line.take(i),
        None => line,
    }
}

/// The value of the field that a line gives, without the blank that may precede it.
pub open spec fn field_value(line: Seq<char>) -> Seq<char> {
    match text::first_at(line, ':', 0) {
        Some(i) => {
            let v = line.skip(i + 1);
            if v.len() > 0 && v[0] == ' ' {
                v.drop_first()
            } else {
                v
            }
        },
        None => seq![],
    }
}

/// What a line makes of an event that is being read.
pub open spec fn line_read(p: PartView, line: Seq<char>) -> PartView {
    if field_name(line) == "event"@ {
        PartView { event: Some(field_value(line)), data: p.data }
    } else if field_name(line) == "data"@ {
        PartView {
            event: p.event,
            data: Some(
                match p.data {
                    Some(d) => d + "\n"@ + field_value(line),
                    None => field_value(line),
                },
            ),
        }
    } else {
        p
    }
}

/// The event that ends here, if it has data.
pub open spec fn ended(p: PartView) -> Seq<EventView> {
    match p.data {
        Some(d) => seq![EventView { event: p.event, data: d }],
        None => seq![],
    }
}

/// The events that lines complete, and what is read of the next.
pub open spec fn events_read(p: PartView, lines: Seq<Seq<char>>) -> (Seq<EventView>, PartView)
    decreases lines.len(),
{
    if lines.len() == 0 {
        (seq![], p)
    } else {
        let (events, q) = events_read(p, lines.drop_last());
        if lines.last().len() == 0 {
            (events + ended(q), nothing())
        } else {
            (events, line_read(q, lines.last()))
        }
    }
}

/// The event that the end of a text completes, with its last line.
pub open spec fn at_end(p: PartView, left: Seq<char>) -> Seq<EventView> {
    let line = uncarried(left);
    ended(
        if line.len() == 0 {
            p
        } else {
            line_read(p, line)
        },
    )
}

/// Reads events from text that comes piece by piece.
#[derive(Debug)]
pub struct SseParser {
    buffer: String,
    event: Option<String>,
    data: Option<String>,
}

/// The events, each by what it says.
pub open spec fn events(s: Seq<SseEvent>) -> Seq<EventView> {
    Seq::new(s.len(), |i: int| s[i]@)
}

impl SseParser {
    /// What is read of the next event.
    pub closed spec fn part(&self) -> PartView {
        PartView { event: text_of(self.event), data: text_of(self.data) }
    }

    /// The text that does not make a line yet.
    pub closed spec fn left(&self) -> Seq<char> {
        self.buffer@
    }

    /// Nothing is read yet.
    pub fn new() -> (r: Self)
        ensures
            r.part() == nothing(),
            r.left() == Seq::<char>::empty(),
    {
        SseParser { buffer: String::new(), event: None, data: None }
    }

    /// Reads a line.
    fn read_line(&mut self, line: &str) -> (r: Option<SseEvent>)
        ensures
            final(self).left() == old(self).left(),
            line@.len() == 0 ==> final(self).part() == nothing() && match r {
                Some(e) => ended(old(self).part()) == seq![e@],
                None => ended(old(self).part()) == Seq::<EventView>::empty(),
            },
            line@.len() > 0 ==> final(self).part() == line_read(old(self).part(), line@) && r is None,
    {
        if line.is_empty() {
            let event = self.event.take();
            let data = self.data.take();
            return match data {
                Some(data) => {
                    let e = SseEvent { event, data };
                    assert(ended(old(self).part()) =~= seq![e@]);
                    Some(e)
                },
                None => None,
            };
        }
        let cs = chars_of(line);
        let colon = find_char(&cs, ':', 0);
        let (name, value) = match colon {
            Some(i) => {
                let name = slice(&cs, 0, i);
                assert(name@ =~= line@.take(i as int));
                let start: usize = if i + 1 < cs.len() && cs[i + 1] == ' ' {
                    i + 2
                } else {
                    i + 1
                };
                let value = slice(&cs, start, cs.len());
                assert(value@ =~= field_value(line@)) by {
                    let v = line@.skip(i + 1);
                    if v.len() > 0 {
                        assert(v[0] == line@[i + 1]);
                    }
                }
                (name, value)
            },
            None => {
                let empty = String::new();
                assert(empty@ =~= seq![]);
                (line.to_owned(), empty)
            },
        };
        if str_eq(name.as_str(), "event") {
            self.event = Some(value);
        } else if str_eq(name.as_str(), "data") {
            let data = match self.data.take() {
                Some(d) => text::cat3(d.as_str(), "\n", value.as_str()),
                None => value,
            };
            self.data = Some(data);
        }
        None
    }

    /// Reads a piece of text, and gives the events that it completes.
    pub fn feed(&mut self, chunk: &str) -> (r: Vec<SseEvent>)
        ensures
            ({
                let (lines, rest) = complete_lines(old(self).left() + chunk@);
                let (es, p) = events_read(old(self).part(), lines);
                events(r@) == es && final(self).part() == p && final(self).left() == rest
            }),
    {
        let whole = text::cat2(self.buffer.as_str(), chunk);
        let cs = chars_of(whole.as_str());
        let ghost all = cs@;
        let ghost start_part = self.part();
        let mut out: Vec<SseEvent> = Vec::new();
        let mut from: usize = 0;
        let ghost mut done: Seq<Seq<char>> = seq![];
        assert(all.skip(0) =~= all);
        assert(done + complete_lines(all).0 =~= complete_lines(all).0);
        assert(events(out@) =~= seq![]);
        loop
            invariant
                from <= cs.len(),
                cs@ == all,
                all == old(self).left() + chunk@,
                start_part == old(self).part(),
                complete_lines(all).0 == done + complete_lines(all.skip(from as int)).0,
                complete_lines(all).1 == complete_lines(all.skip(from as int)).1,
                events(out@) == events_read(start_part, done).0,
                self.part() == events_read(start_part, done).1,
            decreases cs.len() - from,
        {
            let rest = chars_of(slice(&cs, from, cs.len()).as_str());
            assert(rest@ =~= all.skip(from as int));
            proof {
                text::first_at_found(rest@, '\n', 0);
            }
            match find_char(&rest, '\n', 0) {
                Some(i) => {
                    let end: usize = if i > 0 && rest[i - 1] == '\r' {
                        i - 1
                    } else {
                        i
                    };
                    let line = slice(&rest, 0, end);
                    assert(line@ =~= uncarried(rest@.take(i as int)));
                    assert(rest@.skip(i + 1) =~= all.skip(from + i + 1));
                    let ghost before = done;
                    let ghost evs = events(out@);
                    proof {
                        let tail = complete_lines(all.skip(from + i + 1)).0;
                        done = done.push(line@);
                        assert(before + (seq![line@] + tail) =~= done + tail);
                        assert(done.drop_last() =~= before);
                    }
                    match self.read_line(line.as_str()) {
                        Some(e) => {
                            out.push(e);
                            assert(events(out@) =~= evs + seq![e@]);
                        },
                        None => {
                            assert(evs + Seq::<EventView>::empty() =~= evs);
                        },
                    }
                    from = from + i + 1;
                },
                None => {
                    let left = slice(&rest, 0, rest.len());
                    assert(left@ =~= rest@);
                    assert(done + Seq::<Seq<char>>::empty() =~= done);
                    self.buffer = left;
                    return out;
                },
            }
        }
    }

    /// The event that the end of the text completes, if any: what is left of the text
    /// is its last line.
    pub fn finish(&mut self) -> (r: Option<SseEvent>)
        ensures
            match r {
                Some(e) => at_end(old(self).part(), old(self).left()) == seq![e@],
                None => at_end(old(self).part(), old(self).left()) == Seq::<EventView>::empty(),
            },
            final(self).part() == nothing(),
            final(self).left() == Seq::<char>::empty(),
    {
        let mut left = String::new();
        std::mem::swap(&mut left, &mut self.buffer);
        let cs = chars_of(left.as_str());
        if cs.len() > 0 {
            let end: usize = if cs[cs.len() - 1] == '\r' {
                cs.len() - 1
            } else {
                cs.len()
            };
            let line = slice(&cs, 0, end);
            assert(line@ =~= uncarried(old(self).left()));
            if !line.as_str().is_empty() {
                let _ = self.read_line(line.as_str());
            }
        }
        proof {
            reveal_strlit("");
        }
        assert(self.left() =~= seq![]);
        self.read_line("")
    }
}

/// A text on one line.
pub open spec fn one_line(s: Seq<char>) -> bool {
    forall|i: int| 0 <= i < s.len() ==> #[trigger] s[i] != '\n' && s[i] != '\r'
}

/// A line and its end, in front of more text.
proof fn line_in_front(line: Seq<char>, more: Seq<char>)
    requires
        one_line(line),
    ensures
        complete_lines(line + "\n"@ + more) == (
            seq![line] + complete_lines(more).0,
            complete_lines(more).1,
        ),
{
    reveal_strlit("\n");
    let s = line + "\n"@ + more;
    assert("\n"@ =~= seq!['\n']);
    let n = line.len() as int;
    assert(s[n] == '\n');
    text::first_at_found(s, '\n', 0);
    let i = text::first_at(s, '\n', 0)->0;
    assert(i == n) by {
        if i < n {
            assert(s[i] == line[i]);
        }
        if n < i {
            assert(s[n] != '\n');
        }
    }
    assert(s.take(n) =~= line);
    assert(s.skip(n + 1) =~= more);
}

/// A field on a line.
proof fn field_on_line(name: Seq<char>, value: Seq<char>)
    requires
        forall|i: int| 0 <= i < name.len() ==> #[trigger] name[i] != ':',
    ensures
        field_name(name + ": "@ + value) == name,
        field_value(name + ": "@ + value) == value,
{
    reveal_strlit(": ");
    assert(": "@ =~= seq![':', ' ']);
    let s = name + ": "@ + value;
    let n = name.len() as int;
    assert(s[n] == ':');
    assert(s[n + 1] == ' ');
    text::first_at_found(s, ':', 0);
    let i = text::first_at(s, ':', 0)->0;
    assert(i == n) by {
        if i < n {
            assert(s[i] == name[i]);
        }
        if n < i {
            assert(s[n] != ':');
        }
    }
    assert(s.take(n) =~= name);
    assert(s.skip(n + 1)[0] == ' ');
    assert(s.skip(n + 1).drop_first() =~= value);
}

/// An event that is written reads back as that event, and leaves nothing over, as long
/// as its name and its data each stand on one line.
pub proof fn written_event_is_read(name: Seq<char>, data: Seq<char>)
    requires
        one_line(name),
        one_line(data),
    ensures
        ({
            let e = EventView { event: Some(name), data };
            let (lines, rest) = complete_lines(event_text(e));
            &&& events_read(nothing(), lines) == (seq![e], nothing())
            &&& rest == Seq::<char>::empty()
        }),
{
    let e = EventView { event: Some(name), data };
    reveal_strlit("event: ");
    reveal_strlit("data: ");
    reveal_strlit(": ");
    reveal_strlit("\n");
    reveal_strlit("event");
    reveal_strlit("data");
    assert("event: "@ =~= "event"@ + ": "@);
    assert("data: "@ =~= "data"@ + ": "@);
    assert("event"@.len() == 5 && "data"@.len() == 4);
    text::first_at_found(data, '\n', 0);
    let l1 = "event: "@ + name;
    let l2 = "data: "@ + data;
    assert forall|i: int| 0 <= i < l1.len() implies #[trigger] l1[i] != '\n' && l1[i] != '\r' by {
        if i >= 7 {
            assert(l1[i] == name[i - 7]);
        } else {
            assert(l1[i] == "event: "@[i]);
        }
    }
    assert forall|i: int| 0 <= i < l2.len() implies #[trigger] l2[i] != '\n' && l2[i] != '\r' by {
        if i >= 6 {
            assert(l2[i] == data[i - 6]);
        } else {
            assert(l2[i] == "data: "@[i]);
        }
    }
    let empty = Seq::<char>::empty();
    assert(event_text(e) =~= l1 + "\n"@ + (l2 + "\n"@ + (empty + "\n"@ + empty)));
    line_in_front(l1, l2 + "\n"@ + (empty + "\n"@ + empty));
    line_in_front(l2, empty + "\n"@ + empty);
    line_in_front(empty, empty);
    text::first_at_found(empty, '\n', 0);
    assert(complete_lines(empty).0 =~= seq![]);
    let lines = complete_lines(event_text(e)).0;
    assert(lines =~= seq![l1, l2, empty]);
    assert(l1 =~= "event"@ + ": "@ + name);
    assert(l2 =~= "data"@ + ": "@ + data);
    assert forall|i: int| 0 <= i < 5 implies #[trigger] "event"@[i] != ':' by {}
    assert forall|i: int| 0 <= i < 4 implies #[trigger] "data"@[i] != ':' by {}
    field_on_line("event"@, name);
    field_on_line("data"@, data);
    let one = seq![l1];
    let two = seq![l1, l2];
    assert(lines.drop_last() =~= two);
    assert(two.drop_last() =~= one);
    assert(one.drop_last() =~= Seq::<Seq<char>>::empty());
    assert(events_read(nothing(), Seq::<Seq<char>>::empty()).0 =~= seq![]);
    assert(events_read(nothing(), one) == (
        Seq::<EventView>::empty(),
        PartView { event: Some(name), data: None },
    ));
    assert(events_read(nothing(), two) == (
        Seq::<EventView>::empty(),
        PartView { event: Some(name), data: Some(data) },
    ));
    assert(Seq::<EventView>::empty() + seq![e] =~= seq![e]);
}

/// The bytes of a stream that do not make a line yet. They are held back, so that no
/// character is torn where the stream comes in parts.
#[derive(Debug)]
pub struct WholeLines {
    held: Vec<u8>,
}

/// No byte is a line break.
pub open spec fn unbroken(s: Seq<u8>) -> bool {
    forall|i: int| 0 <= i < s.len() ==> #[trigger] s[i] != 10
}

impl WholeLines {
    /// The bytes that are held back.
    pub closed spec fn view(&self) -> Seq<u8> {
        self.held@
    }

    /// Nothing is held back yet.
    pub fn new() -> (r: Self)
        ensures
            r@ == Seq::<u8>::empty(),
    {
        WholeLines { held: Vec::new() }
    }

    /// Takes in a part of the stream. Gives what there is up to the last line break, and
    /// holds back the rest.
    pub fn feed(&mut self, part: &[u8]) -> (r: Vec<u8>)
        ensures
            r@ + final(self)@ == old(self)@ + part@,
            r@.len() > 0 ==> r@.last() == 10,
            unbroken(final(self)@),
    {
        let ghost before = self.held@;
        self.held.extend_from_slice(part);
        assert(self.held@ =~= before + part@);
        let mut end: usize = self.held.len();
        while end > 0 && self.held[end - 1] != 10
            invariant
                end <= self.held@.len(),
                unbroken(self.held@.skip(end as int)),
            decreases end,
        {
            assert(self.held@.skip(end - 1) =~= seq![self.held@[end - 1]] + self.held@.skip(
                end as int,
            ));
            end = end - 1;
        }
        let mut whole = self.held.split_off(end);
        std::mem::swap(&mut self.held, &mut whole);
        assert(whole@ + self.held@ =~= before + part@);
        whole
    }

    /// What is held back when the stream ends.
    pub fn finish(self) -> (r: Vec<u8>)
        ensures
            r@ == self@,
    {
        self.held
    }
}

} // verus!
