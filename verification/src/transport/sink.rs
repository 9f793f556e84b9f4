//! Where the responses to the requests in one HTTP request go.
use vstd::prelude::*;

use crate::error::McpError;
use crate::json;
use crate::json::{Json, JsonView};
use crate::protocol::status;
use crate::text;
use crate::transport::http_message::{HttpResponse, ResponseView};

verus! {

/// Collects responses into one HTTP response, or counts them on a stream of events.
#[derive(Debug)]
pub struct ResponseSink {
    json: bool,
    batch: bool,
    headers: Vec<(String, String)>,
    collected: Vec<Json>,
    sent: bool,
    expected: usize,
}

/// What a sink holds.
#[verifier::ext_equal]
pub struct SinkView {
    /// It collects; otherwise it counts.
    pub json: bool,
    /// The response is a list.
    pub batch: bool,
    /// The headers of the response.
    pub headers: Seq<(Seq<char>, Seq<char>)>,
    /// What was collected since the response was last complete.
    pub collected: Seq<JsonView>,
    /// The response was handed out.
    pub sent: bool,
    /// How many responses are to come.
    pub expected: int,
}

/// The number of responses to come, after one more came. It goes round where it was
/// zero.
pub open spec fn one_less(n: int) -> int {
    if n > 0 {
        n - 1
    } else {
        usize::MAX as int
    }
}

/// The response made of what was collected.
pub open spec fn completed(s: SinkView) -> ResponseView {
    let body = if s.batch {
        JsonView::Array(s.collected)
    } else if s.collected.len() > 0 {
        s.collected[0]
    } else {
        JsonView::Null
    };
    ResponseView { status: 200, headers: s.headers, body: json::compact_text(body.normal()) }
}

/// The sink after a value was delivered, and the response that this completes.
pub open spec fn delivered(s: SinkView, v: JsonView) -> (SinkView, Option<ResponseView>) {
    let all = SinkView { collected: s.collected.push(v), expected: one_less(s.expected), ..s };
    if s.expected > 1 {
        (all, None)
    } else {
        (
            SinkView { collected: seq![], sent: true, ..all },
            if s.sent {
                None
            } else {
                Some(completed(all))
            },
        )
    }
}

/// The response that came with a result.
pub open spec fn response_view(r: Option<HttpResponse>) -> Option<ResponseView> {
    match r {
        Some(a) => Some(a@),
        None => None,
    }
}

/// Copies headers.
pub fn copy_headers(v: &Vec<(String, String)>) -> (out: Vec<(String, String)>)
    ensures
        text::pairs(out@) == text::pairs(v@),
{
    let mut out: Vec<(String, String)> = Vec::new();
    let mut i: usize = 0;
    while i < v.len()
        invariant
            i <= v.len(),
            text::pairs(out@) == text::pairs(v@).take(i as int),
        decreases v.len() - i,
    {
        let ghost before = text::pairs(out@);
        out.push((v[i].0.clone(), v[i].1.clone()));
        assert(text::pairs(out@) =~= before.push(text::pairs(v@)[i as int]));
        assert(text::pairs(out@) =~= text::pairs(v@).take(i + 1));
        i = i + 1;
    }
    assert(text::pairs(v@).take(v.len() as int) =~= text::pairs(v@));
    out
}

impl ResponseSink {
    /// What the sink holds.
    pub closed spec fn view(&self) -> SinkView {
        SinkView {
            json: self.json,
            batch: self.batch,
            headers: text::pairs(self.headers@),
            collected: json::items(self.collected@),
            sent: self.sent,
            expected: self.expected as int,
        }
    }

    /// A sink that makes one HTTP response of this many responses.
    pub fn json(expected: usize, batch: bool, headers: Vec<(String, String)>) -> (r: Self)
        ensures
            r@ == collecting(expected as int, batch, text::pairs(headers@)),
    {
        let r = ResponseSink {
            json: true,
            batch,
            headers,
            collected: Vec::new(),
            sent: false,
            expected,
        };
        assert(r@.collected =~= seq![]);
        r
    }

    /// A sink for a stream of events that ends after this many responses.
    pub fn sse(expected: usize) -> (r: Self)
        ensures
            r@ == counting(expected as int),
    {
        let r = ResponseSink {
            json: false,
            batch: false,
            headers: Vec::new(),
            collected: Vec::new(),
            sent: false,
            expected,
        };
        assert(r@.collected =~= seq![]);
        assert(r@.headers =~= seq![]);
        r
    }

    /// A sink for a stream of events that does not end with a response.
    pub fn sse_from_sender() -> (r: Self)
        ensures
            r@ == counting(usize::MAX as int),
    {
        ResponseSink::sse(usize::MAX)
    }

    /// Tells whether the sink collects responses.
    pub fn is_json(&self) -> (r: bool)
        ensures
            r == self@.json,
    {
        self.json
    }

    /// Whether events may be written, given that the receiver still takes them.
    pub fn send_frame(&self, open: bool) -> (r: Result<(), McpError>)
        ensures
            r is Ok <==> !self@.json && open,
            r is Err ==> if self@.json {
                r->Err_0.faults_state("cannot stream to a JSON response sink"@)
            } else {
                r->Err_0.faults_transport("SSE stream is closed"@)
            },
    {
        if self.json {
            Err(McpError::state("cannot stream to a JSON response sink".to_owned()))
        } else if open {
            Ok(())
        } else {
            Err(McpError::Transport("SSE stream is closed".to_owned()))
        }
    }

    /// Counts a response. Tells whether it was the last that was to come.
    pub fn response_delivered(&mut self) -> (r: bool)
        ensures
            r == (old(self)@.expected <= 1),
            final(self)@ == (SinkView { expected: one_less(old(self)@.expected), ..old(self)@ }),
    {
        let remaining: usize = self.expected;
        self.expected = remaining.wrapping_sub(1);
        remaining <= 1
    }

    /// How many responses are to come.
    pub fn remaining(&self) -> (r: usize)
        ensures
            r == self@.expected,
    {
        self.expected
    }

    /// Takes a response in, and gives the HTTP response that this completes.
    pub fn deliver_json(&mut self, value: Json) -> (r: Result<Option<HttpResponse>, McpError>)
        ensures
            match r {
                Ok(a) => old(self)@.json && final(self)@ == delivered(old(self)@, value@).0
                    && response_view(a) == delivered(old(self)@, value@).1,
                Err(e) => !old(self)@.json && *final(self) == *old(self) && e.faults_state(
                    "cannot deliver JSON to an SSE sink"@,
                ),
            },
    {
        if !self.json {
            return Err(McpError::state("cannot deliver JSON to an SSE sink".to_owned()));
        }
        let ghost before = self@;
        self.collected.push(value);
        assert(json::items(self.collected@) =~= before.collected.push(value@));
        let ghost all = SinkView {
            collected: before.collected.push(value@),
            expected: one_less(before.expected),
            ..before
        };
        if self.response_delivered() {
            assert(self@ =~= all);
            let mut items: Vec<Json> = Vec::new();
            std::mem::swap(&mut items, &mut self.collected);
            assert(json::items(self.collected@) =~= seq![]);
            assert(json::items(items@) == all.collected);
            if self.sent {
                return Ok(None);
            }
            self.sent = true;
            let body = if self.batch {
                proof {
                    Json::array_view(items);
                }
                let all = Json::Array(items);
                all.to_text()
            } else {
                assert(all.collected[0] == items@[0]@);
                items[0].to_text()
            };
            let response = HttpResponse {
                status: status::OK,
                headers: copy_headers(&self.headers),
                body,
            };
            return Ok(Some(response));
        }
        Ok(None)
    }
}

/// The sink after values were delivered, and the responses that came of it.
pub open spec fn delivered_all(s: SinkView, vs: Seq<JsonView>) -> (SinkView, Seq<ResponseView>)
    decreases vs.len(),
{
    if vs.len() == 0 {
        (s, seq![])
    } else {
        let (t, out) = delivered_all(s, vs.drop_last());
        let (u, r) = delivered(t, vs.last());
        (
            u,
            match r {
                Some(a) => out.push(a),
                None => out,
            },
        )
    }
}

/// A sink that collects.
pub open spec fn collecting(
    expected: int,
    batch: bool,
    headers: Seq<(Seq<char>, Seq<char>)>,
) -> SinkView {
    SinkView { json: true, batch, headers, collected: seq![], sent: false, expected }
}

/// A sink that counts.
pub open spec fn counting(expected: int) -> SinkView {
    SinkView {
        json: false,
        batch: false,
        headers: seq![],
        collected: seq![],
        sent: false,
        expected,
    }
}

proof fn not_yet(expected: int, batch: bool, headers: Seq<(Seq<char>, Seq<char>)>, vs: Seq<JsonView>)
    requires
        vs.len() < expected,
    ensures
        delivered_all(collecting(expected, batch, headers), vs) == (
            SinkView {
                collected: vs,
                expected: expected - vs.len(),
                ..collecting(expected, batch, headers)
            },
            Seq::<ResponseView>::empty(),
        ),
    decreases vs.len(),
{
    let s = collecting(expected, batch, headers);
    if vs.len() == 0 {
        assert(vs =~= seq![]);
    } else {
        not_yet(expected, batch, headers, vs.drop_last());
        assert(vs.drop_last().push(vs.last()) =~= vs);
    }
}

/// A sink that is made for some number of responses gives exactly one HTTP response:
/// when the last of them comes, of all of them in the order in which they came, and
/// never again.
pub proof fn one_response(
    expected: int,
    batch: bool,
    headers: Seq<(Seq<char>, Seq<char>)>,
    vs: Seq<JsonView>,
)
    requires
        expected >= 1,
    ensures
        delivered_all(collecting(expected, batch, headers), vs).1 == if vs.len() < expected {
            Seq::<ResponseView>::empty()
        } else {
            seq![
                completed(
                    SinkView {
                        collected: vs.take(expected),
                        ..collecting(expected, batch, headers)
                    },
                ),
            ]
        },
        vs.len() >= expected ==> delivered_all(
            collecting(expected, batch, headers),
            vs,
        ).0.sent,
    decreases vs.len(),
{
    if vs.len() < expected {
        not_yet(expected, batch, headers, vs);
    } else {
        let fresh = collecting(expected, batch, headers);
        let before = vs.drop_last();
        if vs.len() == expected {
            not_yet(expected, batch, headers, before);
            assert(before.push(vs.last()) =~= vs);
            assert(vs.take(expected) =~= vs);
            let a = completed(SinkView { collected: vs, ..fresh });
            assert(Seq::<ResponseView>::empty().push(a) =~= seq![a]);
        } else {
            one_response(expected, batch, headers, before);
            assert(before.take(expected) =~= vs.take(expected));
        }
    }
}

} // verus!
