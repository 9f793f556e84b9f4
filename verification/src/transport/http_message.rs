//! HTTP requests, responses and headers.
use vstd::prelude::*;

use crate::protocol::headers;
use crate::string_map;
use crate::string_map::StringMap;
use crate::text;
use crate::text::eq_ignore_case;

verus! {

/// A request as a server sees it. The names of its headers are in lowercase.
#[derive(Debug, Clone, PartialEq, Eq)]
pub struct HttpRequest {
    /// The method, in capitals.
    pub method: String,
    /// The path.
    pub url: String,
    pub headers: StringMap<String>,
    pub body: String,
}

/// What a request says.
pub struct RequestView {
    pub method: Seq<char>,
    pub url: Seq<char>,
    pub headers: Map<Seq<char>, Seq<char>>,
    pub body: Seq<char>,
}

impl RequestView {
    /// The value of a header, and an empty text where it is missing.
    pub open spec fn given(self, name: Seq<char>) -> Seq<char> {
        if self.headers.dom().contains(name) {
            self.headers[name]
        } else {
            seq![]
        }
    }
}

impl View for HttpRequest {
    type V = RequestView;

    open spec fn view(&self) -> RequestView {
        RequestView {
            method: self.method@,
            url: self.url@,
            headers: string_map::texts(self.headers@),
            body: self.body@,
        }
    }
}

impl Default for HttpRequest {
    fn default() -> (r: Self)
        ensures
            r.method@.len() == 0,
            r.url@.len() == 0,
            r.headers@ == Map::<Seq<char>, String>::empty(),
            r.body@.len() == 0,
    {
        HttpRequest {
            method: String::new(),
            url: String::new(),
            headers: StringMap::new(),
            body: String::new(),
        }
    }
}

impl HttpRequest {
    /// A request without a path.
    pub fn new(method: &str, headers: StringMap<String>, body: String) -> (r: Self)
        ensures
            r.method@ == method@,
            r.url@ == Seq::<char>::empty(),
            r.headers == headers,
            r.body == body,
    {
        let url = String::new();
        assert(url@ =~= seq![]);
        HttpRequest { method: method.to_owned(), url, headers, body }
    }

    /// A request as it arrived. A method is a word of ASCII characters, and is put in
    /// capitals.
    pub fn received(method: &str, url: String, headers: StringMap<String>, body: String) -> (r: Self)
        ensures
            r.method@ == text::raised(method@),
            r.url == url,
            r.headers == headers,
            r.body == body,
    {
        HttpRequest { method: text::to_uppercase(method), url, headers, body }
    }

    /// The value of a header, by its name in lowercase.
    pub fn header(&self, name: &str) -> (r: Option<&str>)
        ensures
            match r {
                Some(v) => self@.headers.dom().contains(name@) && v@ == self@.headers[name@],
                None => !self@.headers.dom().contains(name@),
            },
    {
        match self.headers.get(name) {
            Some(v) => Some(v.as_str()),
            None => None,
        }
    }

    /// The value of a header, and an empty text where it is missing.
    pub fn header_or_empty(&self, name: &str) -> (r: &str)
        ensures
            r@ == self@.given(name@),
    {
        match self.header(name) {
            Some(v) => v,
            None => {
                proof {
                    reveal_strlit("");
                }
                assert(""@ =~= seq![]);
                ""
            },
        }
    }
}

/// A response.
#[derive(Clone, Debug, PartialEq, Eq)]
pub struct HttpResponse {
    pub status: u16,
    /// The headers, in the order in which they were added.
    pub headers: Vec<(String, String)>,
    pub body: String,
}

/// What a response says.
#[verifier::ext_equal]
pub struct ResponseView {
    pub status: int,
    pub headers: Seq<(Seq<char>, Seq<char>)>,
    pub body: Seq<char>,
}

impl View for HttpResponse {
    type V = ResponseView;

    open spec fn view(&self) -> ResponseView {
        ResponseView {
            status: self.status as int,
            headers: text::pairs(self.headers@),
            body: self.body@,
        }
    }
}

/// The first value of a header, whatever the case of the letters in its name.
pub open spec fn first_value(
    headers: Seq<(Seq<char>, Seq<char>)>,
    name: Seq<char>,
    from: int,
) -> Option<Seq<char>>
    decreases headers.len() - from,
{
    if from < 0 || from >= headers.len() {
        None
    } else if text::lowered(headers[from].0) == text::lowered(name) {
        Some(headers[from].1)
    } else {
        first_value(headers, name, from + 1)
    }
}

/// The value that was found, or that there is none.
pub open spec fn found(r: Option<&str>) -> Option<Seq<char>> {
    match r {
        Some(v) => Some(v@),
        None => None,
    }
}

fn find_header<'a>(headers: &'a Vec<(String, String)>, name: &str) -> (r: Option<&'a str>)
    ensures
        found(r) == first_value(text::pairs(headers@), name@, 0),
{
    let mut i: usize = 0;
    while i < headers.len()
        invariant
            i <= headers.len(),
            first_value(text::pairs(headers@), name@, 0) == first_value(
                text::pairs(headers@),
                name@,
                i as int,
            ),
        decreases headers.len() - i,
    {
        if eq_ignore_case(headers[i].0.as_str(), name) {
            return Some(headers[i].1.as_str());
        }
        i = i + 1;
    }
    None
}

impl Default for HttpResponse {
    fn default() -> (r: Self)
        ensures
            r.status == 0,
            r.headers@.len() == 0,
            r.body@.len() == 0,
    {
        HttpResponse { status: 0, headers: Vec::new(), body: String::new() }
    }
}

impl HttpResponse {
    /// A response with a status, and nothing else.
    pub fn new(status: u16) -> (r: Self)
        ensures
            r@ == (ResponseView { status: status as int, headers: seq![], body: seq![] }),
    {
        let r = HttpResponse { status, headers: Vec::new(), body: String::new() };
        assert(r@.headers =~= seq![]);
        assert(r@.body =~= seq![]);
        r
    }

    /// The response with one more header.
    pub fn header(self, name: &str, value: &str) -> (r: Self)
        ensures
            r@ == (ResponseView { headers: self@.headers.push((name@, value@)), ..self@ }),
    {
        let mut r = self;
        r.headers.push((name.to_owned(), value.to_owned()));
        assert(text::pairs(r.headers@) =~= self@.headers.push((name@, value@)));
        r
    }

    /// The response with this body.
    pub fn body(self, body: String) -> (r: Self)
        ensures
            r@ == (ResponseView { body: body@, ..self@ }),
    {
        HttpResponse { status: self.status, headers: self.headers, body }
    }

    /// The first value of a header, whatever the case of the letters in its name.
    pub fn header_value(&self, name: &str) -> (r: Option<&str>)
        ensures
            found(r) == first_value(self@.headers, name@, 0),
    {
        find_header(&self.headers, name)
    }

    /// The type of the content.
    pub fn content_type(&self) -> (r: Option<&str>)
        ensures
            found(r) == first_value(self@.headers, headers::CONTENT_TYPE@, 0),
    {
        self.header_value(headers::CONTENT_TYPE)
    }
}

/// How a request is answered.
#[derive(Debug, PartialEq, Eq)]
pub enum HttpReply {
    /// By a response.
    Full(HttpResponse),
    /// By a response that follows when every request in it has been answered.
    Deferred,
    /// By a stream of events.
    Stream { status: u16, headers: Vec<(String, String)> },
}

/// How a request is answered.
pub enum ReplyView {
    Full(ResponseView),
    Deferred,
    Stream { status: int, headers: Seq<(Seq<char>, Seq<char>)> },
}

impl View for HttpReply {
    type V = ReplyView;

    open spec fn view(&self) -> ReplyView {
        match self {
            HttpReply::Full(a) => ReplyView::Full(a@),
            HttpReply::Deferred => ReplyView::Deferred,
            HttpReply::Stream { status, headers } => ReplyView::Stream {
                status: *status as int,
                headers: text::pairs(headers@),
            },
        }
    }
}

impl HttpReply {
    /// The response, if it is complete.
    pub fn as_full(&self) -> (r: Option<&HttpResponse>)
        ensures
            match r {
                Some(a) => *self == HttpReply::Full(*a),
                None => !(*self is Full),
            },
    {
        match self {
            HttpReply::Full(a) => Some(a),
            _ => None,
        }
    }

    /// The status, if it is known.
    pub fn status(&self) -> (r: Option<u16>)
        ensures
            match self@ {
                ReplyView::Full(a) => r is Some && r->0 == a.status,
                ReplyView::Deferred => r is None,
                ReplyView::Stream { status, headers } => r is Some && r->0 == status,
            },
    {
        match self {
            HttpReply::Full(a) => Some(a.status),
            HttpReply::Stream { status, headers } => Some(*status),
            HttpReply::Deferred => None,
        }
    }

    /// The first value of a header, if the headers are known.
    pub fn header_value(&self, name: &str) -> (r: Option<&str>)
        ensures
            found(r) == match self@ {
                ReplyView::Full(a) => first_value(a.headers, name@, 0),
                ReplyView::Deferred => None,
                ReplyView::Stream { status, headers } => first_value(headers, name@, 0),
            },
    {
        match self {
            HttpReply::Full(a) => a.header_value(name),
            HttpReply::Stream { status, headers } => find_header(headers, name),
            HttpReply::Deferred => None,
        }
    }
}

/// The value of a header, in bytes.
#[verifier::external_type_specification]
#[verifier::external_body]
pub struct ExHeaderValue(http::HeaderValue);

/// Headers by their names, which may each have several values.
#[verifier::external_type_specification]
#[verifier::external_body]
#[verifier::reject_recursive_types(T)]
pub struct ExHeaderMap<T>(http::HeaderMap<T>);

/// The fields of the headers: each name with each of its values, where the value is
/// text.
pub uninterp spec fn fields(h: http::HeaderMap<http::HeaderValue>) -> Seq<(Seq<char>, Option<Seq<char>>)>;

/// A field that was listed.
pub open spec fn field(f: (String, Option<String>)) -> (Seq<char>, Option<Seq<char>>) {
    (
        f.0@,
        match f.1 {
            Some(v) => Some(v@),
            None => None,
        },
    )
}

/// The fields that were listed.
pub open spec fn listed_fields(v: Seq<(String, Option<String>)>) -> Seq<(Seq<char>, Option<Seq<char>>)> {
    Seq::new(v.len(), |i: int| field(v[i]))
}

/// Calls `http::HeaderMap::iter` and, on each value, `http::HeaderValue::to_str`.
/// The list has each name with each of its values, in the order of the walk, and
/// nothing for a value that is not visible ASCII text.
#[verifier::external_body]
fn list_fields(h: &http::HeaderMap<http::HeaderValue>) -> (r: Vec<(String, Option<String>)>)
    ensures
        listed_fields(r@) == fields(*h),
{
    h.iter().map(|(n, v)| (n.as_str().to_owned(), v.to_str().ok().map(str::to_owned))).collect()
}

/// The first text of each name, trimmed, under the name in lowercase.
pub open spec fn first_texts(fields: Seq<(Seq<char>, Option<Seq<char>>)>) -> Map<
    Seq<char>,
    Seq<char>,
>
    decreases fields.len(),
{
    if fields.len() == 0 {
        Map::empty()
    } else {
        let before = first_texts(fields.drop_last());
        let name = text::lowered(fields.last().0);
        match fields.last().1 {
            Some(v) => if before.dom().contains(name) {
                before
            } else {
                before.insert(name, text::trimmed(v))
            },
            None => before,
        }
    }
}

/// The first text of each name among fields.
pub fn lowercase_fields(all: &Vec<(String, Option<String>)>) -> (r: StringMap<String>)
    ensures
        string_map::texts(r@) == first_texts(listed_fields(all@)),
{
    let mut out: StringMap<String> = StringMap::new();
    let ghost fs = listed_fields(all@);
    let mut i: usize = 0;
    assert(string_map::texts(out@) =~= Map::empty());
    assert(fs.take(0) =~= seq![]);
    while i < all.len()
        invariant
            i <= all.len(),
            fs == listed_fields(all@),
            string_map::texts(out@) == first_texts(fs.take(i as int)),
        decreases all.len() - i,
    {
        let ghost before = out@;
        assert(fs.take(i + 1).drop_last() =~= fs.take(i as int));
        assert(fs.take(i + 1).last() == field(all@[i as int]));
        let name = text::to_lowercase(all[i].0.as_str());
        match &all[i].1 {
            Some(v) => {
                if !out.contains_key(name.as_str()) {
                    let v = text::trim(v.as_str());
                    let _ = out.insert(name, v);
                    assert(string_map::texts(out@) =~= string_map::texts(before).insert(
                        name@,
                        v@,
                    ));
                }
            },
            None => {},
        }
        i = i + 1;
    }
    assert(fs.take(all.len() as int) =~= fs);
    out
}

/// The headers of a request, each under its name in lowercase with its first text.
pub fn lowercase_headers(headers: &http::HeaderMap<http::HeaderValue>) -> (r: StringMap<String>)
    ensures
        string_map::texts(r@) == first_texts(fields(*headers)),
{
    let all = list_fields(headers);
    lowercase_fields(&all)
}

/// A character that may stand in the value of a header.
pub open spec fn header_char(c: char) -> bool {
    (c >= ' ' && c != '\u{7f}') || c == '\t'
}

/// `http::HeaderValue::from_str`: it takes a text without control characters, where a
/// tab is none.
#[verifier::external_body]
fn is_header_value(s: &str) -> (r: bool)
    ensures
        r == (forall|i: int| 0 <= i < s@.len() ==> header_char(#[trigger] s@[i])),
{
    http::HeaderValue::from_str(s).is_ok()
}

/// The character can stand in the name of a header.
pub open spec fn name_char(c: char) -> bool {
    ||| 'a' <= c <= 'z'
    ||| 'A' <= c <= 'Z'
    ||| '0' <= c <= '9'
    ||| "!#$%&'*+-.^_`|~"@.contains(c)
}

/// The text can be the name of a header.
pub open spec fn header_name_taken(s: Seq<char>) -> bool {
    0 < s.len() <= 65535 && forall|i: int| 0 <= i < s.len() ==> name_char(#[trigger] s[i])
}

/// `http::HeaderName::from_bytes`: it takes a text of at most 65535 letters, digits and
/// certain marks that is not empty.
#[verifier::external_body]
fn is_header_name(s: &str) -> (r: bool)
    ensures
        r == header_name_taken(s@),
{
    http::HeaderName::from_bytes(s.as_bytes()).is_ok()
}

/// A header that can be sent.
pub open spec fn sendable(name: Seq<char>, value: Seq<char>) -> bool {
    header_name_taken(name) && forall|i: int|
        0 <= i < value.len() ==> header_char(#[trigger] value[i])
}

/// Tells whether a header can be sent.
pub fn is_sendable(name: &str, value: &str) -> (r: bool)
    ensures
        r == sendable(name@, value@),
{
    is_header_name(name) && is_header_value(value)
}

} // verus!
