//! Where a server is reached, and where it listens.
use vstd::prelude::*;
use vstd::string::*;

use crate::text;
use crate::text::{chars_of, find_char, slice, str_eq};

verus! {

/// The most bytes that the URL of an endpoint may have.
pub const MAX_STREAMABLE_HTTP_URL_LENGTH: usize = 2048;

/// The text before the first `c`, all of it where there is none.
pub open spec fn before(s: Seq<char>, c: char) -> Seq<char> {
    match text::first_at(s, c, 0) {
        Some(i) => s.take(i),
        None => s,
    }
}

/// The text from the first `c` on.
pub open spec fn from(s: Seq<char>, c: char) -> Seq<char> {
    match text::first_at(s, c, 0) {
        Some(i) => s.skip(i),
        None => seq![],
    }
}

/// The text after the first `c`, if there is one.
pub open spec fn after(s: Seq<char>, c: char) -> Option<Seq<char>> {
    match text::first_at(s, c, 0) {
        Some(i) => Some(s.skip(i + 1)),
        None => None,
    }
}

/// What follows the scheme of an HTTP URL.
pub open spec fn after_scheme(s: Seq<char>) -> Option<Seq<char>> {
    if "http://"@.is_prefix_of(s) {
        Some(s.skip(7))
    } else if "https://"@.is_prefix_of(s) {
        Some(s.skip(8))
    } else {
        None
    }
}

/// Characters that may stand in a host and port.
pub open spec fn clean_authority(s: Seq<char>) -> bool {
    forall|i: int|
        0 <= i < s.len() ==> !text::is_space(#[trigger] s[i]) && s[i] != '?' && s[i] != '#'
}

/// Characters that may stand in a path.
pub open spec fn clean_path(s: Seq<char>) -> bool {
    forall|i: int| 0 <= i < s.len() ==> !text::is_space(#[trigger] s[i]) && s[i] != '#'
}

/// One digit or more.
pub open spec fn all_digits(s: Seq<char>) -> bool {
    s.len() > 0 && forall|i: int| 0 <= i < s.len() ==> '0' <= #[trigger] s[i] <= '9'
}

/// The host of an HTTP URL, and the text of its port where it has one.
pub open spec fn split_endpoint(s: Seq<char>) -> Option<(Seq<char>, Option<Seq<char>>)> {
    match after_scheme(s) {
        None => None,
        Some(rest) => {
            let authority = before(rest, '/');
            let host = before(authority, ':');
            let port = after(authority, ':');
            if !clean_authority(authority) || !clean_path(from(rest, '/')) || host.len() == 0 || (
            port is Some && !all_digits(port->0)) {
                None
            } else {
                Some((host, port))
            }
        },
    }
}

/// What is wrong with the URL of an endpoint, if anything is.
pub open spec fn endpoint_fault(s: Seq<char>) -> Option<Seq<char>> {
    if s.len() == 0 {
        Some("endpoint is empty"@)
    } else if s.contains(' ') {
        Some("endpoint contains spaces"@)
    } else if vstd::utf8::encode_utf8(s).len() > MAX_STREAMABLE_HTTP_URL_LENGTH {
        Some("url length more than max url length"@)
    } else {
        match split_endpoint(s) {
            None => Some("url is not valid"@),
            Some((host, None)) => None,
            Some((host, Some(port))) => match text::parsed_i64(port) {
                None => Some("invalid port"@),
                Some(p) => if 1 <= p <= 65535 {
                    None
                } else {
                    Some("port out of range"@)
                },
            },
        }
    }
}

/// Splits the URL of an endpoint into its host and the text of its port.
fn split_http_endpoint(endpoint: &str) -> (r: Option<(String, Option<String>)>)
    ensures
        match r {
            Some((host, port)) => split_endpoint(endpoint@) == Some(
                (
                    host@,
                    match port {
                        Some(p) => Some(p@),
                        None => None,
                    },
                ),
            ),
            None => split_endpoint(endpoint@) is None,
        },
{
    proof {
        reveal_strlit("http://");
        reveal_strlit("https://");
    }
    let cs = chars_of(endpoint);
    let start: usize = if text::starts_with(endpoint, "http://") {
        assert("http://"@.len() == 7);
        7
    } else if text::starts_with(endpoint, "https://") {
        assert("https://"@.len() == 8);
        8
    } else {
        return None;
    };
    let rest = chars_of(slice(&cs, start, cs.len()).as_str());
    assert(rest@ =~= endpoint@.skip(start as int));
    let end: usize = match find_char(&rest, '/', 0) {
        Some(i) => i,
        None => rest.len(),
    };
    let ghost authority = before(rest@, '/');
    let ghost path = from(rest@, '/');
    assert(authority =~= rest@.take(end as int));
    assert(path =~= rest@.skip(end as int));
    let mut i: usize = 0;
    while i < rest.len()
        invariant
            i <= rest.len(),
            end <= rest.len(),
            authority == rest@.take(end as int),
            path == rest@.skip(end as int),
            authority == before(rest@, '/'),
            path == from(rest@, '/'),
            after_scheme(endpoint@) == Some(rest@),
            forall|k: int|
                0 <= k < i ==> !text::is_space(#[trigger] rest@[k]) && rest@[k] != '#' && (k < end
                    ==> rest@[k] != '?'),
        decreases rest.len() - i,
    {
        let c = rest[i];
        if text::is_whitespace(c) || c == '#' || (i < end && c == '?') {
            proof {
                if i < end {
                    assert(authority[i as int] == c);
                } else {
                    assert(path[i - end] == c);
                }
            }
            return None;
        }
        i = i + 1;
    }
    proof {
        assert forall|k: int| 0 <= k < authority.len() implies !text::is_space(
            #[trigger] authority[k],
        ) && authority[k] != '?' && authority[k] != '#' by {
            assert(authority[k] == rest@[k]);
        }
        assert forall|k: int| 0 <= k < path.len() implies !text::is_space(#[trigger] path[k])
            && path[k] != '#' by {
            assert(path[k] == rest@[end + k]);
        }
    }
    let auth = chars_of(slice(&rest, 0, end).as_str());
    assert(auth@ =~= authority);
    let colon = find_char(&auth, ':', 0);
    match colon {
        Some(c) => {
            if c == 0 {
                return None;
            }
            let port = slice(&auth, c + 1, auth.len());
            assert(port@ =~= auth@.skip(c + 1));
            if !digits_only(port.as_str()) {
                return None;
            }
            let host = slice(&auth, 0, c);
            assert(host@ =~= auth@.take(c as int));
            Some((host, Some(port)))
        },
        None => {
            if auth.len() == 0 {
                return None;
            }
            let host = slice(&auth, 0, auth.len());
            assert(host@ =~= auth@);
            Some((host, None))
        },
    }
}

fn digits_only(s: &str) -> (r: bool)
    ensures
        r == all_digits(s@),
{
    let cs = chars_of(s);
    if cs.len() == 0 {
        return false;
    }
    let mut i: usize = 0;
    while i < cs.len()
        invariant
            i <= cs.len(),
            cs@ == s@,
            forall|k: int| 0 <= k < i ==> '0' <= #[trigger] cs@[k] <= '9',
        decreases cs.len() - i,
    {
        if cs[i] < '0' || cs[i] > '9' {
            return false;
        }
        i = i + 1;
    }
    true
}

/// Tells whether the URL of an endpoint will do: it has the scheme `http` or
/// `https`, a host, and no port or one from 1 to 65535; it has no white space and no
/// fragment, and is not too long.
pub fn is_valid_streamable_http_endpoint(endpoint: &str) -> (r: Result<(), String>)
    ensures
        match r {
            Ok(()) => endpoint_fault(endpoint@) is None,
            Err(e) => endpoint_fault(endpoint@) == Some(e@),
        },
{
    if endpoint.is_empty() {
        return Err("endpoint is empty".to_owned());
    }
    if text::contains_char(endpoint, ' ') {
        return Err("endpoint contains spaces".to_owned());
    }
    if endpoint.as_bytes().len() > MAX_STREAMABLE_HTTP_URL_LENGTH {
        return Err("url length more than max url length".to_owned());
    }
    match split_http_endpoint(endpoint) {
        None => Err("url is not valid".to_owned()),
        Some((_host, None)) => Ok(()),
        Some((_host, Some(port))) => match text::parse_i64(port.as_str()) {
            None => Err("invalid port".to_owned()),
            Some(p) => if 1 <= p && p <= 65535 {
                Ok(())
            } else {
                Err("port out of range".to_owned())
            },
        },
    }
}

/// Where an HTTP server listens.
#[derive(Debug, Clone, PartialEq, Eq)]
pub struct ServerEndpoint {
    /// `http` or `https`.
    pub scheme: String,
    /// The host, without brackets.
    pub host: String,
    /// The port, 80 or 443 where none is given.
    pub port: u16,
    /// The path, `/` where none is given.
    pub path: String,
}

/// The parts of a URL that matter for an endpoint.
pub struct UrlParts {
    pub scheme: String,
    pub host: Option<String>,
    pub port: Option<u16>,
    pub path: String,
}

/// The parts of a URL that matter for an endpoint.
pub struct UrlView {
    pub scheme: Seq<char>,
    pub host: Option<Seq<char>>,
    pub port: Option<int>,
    pub path: Seq<char>,
}

impl View for UrlParts {
    type V = UrlView;

    open spec fn view(&self) -> UrlView {
        UrlView {
            scheme: self.scheme@,
            host: match self.host {
                Some(h) => Some(h@),
                None => None,
            },
            port: match self.port {
                Some(p) => Some(p as int),
                None => None,
            },
            path: self.path@,
        }
    }
}

/// The parts of the URL that a text is, or what is wrong with it.
pub uninterp spec fn url_parts(text: Seq<char>) -> Result<UrlView, Seq<char>>;

/// `url::Url::parse`, and of what it gives `scheme`, `host_str`, `port` and `path`:
/// named by `url_parts`, the text of the error too.
#[verifier::external_body]
pub(crate) fn parse_url(text: &str) -> (r: Result<UrlParts, String>)
    ensures
        match r {
            Ok(u) => url_parts(text@) == Ok::<UrlView, Seq<char>>(u@),
            Err(e) => url_parts(text@) == Err::<UrlView, Seq<char>>(e@),
        },
{
    match url::Url::parse(text) {
        Ok(u) => Ok(
            UrlParts {
                scheme: u.scheme().to_string(),
                host: u.host_str().map(|h| h.to_string()),
                port: u.port(),
                path: u.path().to_string(),
            },
        ),
        Err(e) => Err(e.to_string()),
    }
}

/// The text without the brackets that it starts with.
pub open spec fn unbracket_start(s: Seq<char>) -> Seq<char>
    decreases s.len(),
{
    if s.len() > 0 && s[0] == '[' {
        unbracket_start(s.drop_first())
    } else {
        s
    }
}

/// The text without the brackets that it ends with.
pub open spec fn unbracket_end(s: Seq<char>) -> Seq<char>
    decreases s.len(),
{
    if s.len() > 0 && s.last() == ']' {
        unbracket_end(s.drop_last())
    } else {
        s
    }
}

fn unbracket(s: &str) -> (r: String)
    ensures
        r@ == unbracket_end(unbracket_start(s@)),
{
    let cs = chars_of(s);
    let mut i: usize = 0;
    assert(cs@.skip(0) =~= cs@);
    while i < cs.len() && cs[i] == '['
        invariant
            i <= cs.len(),
            unbracket_start(cs@) == unbracket_start(cs@.skip(i as int)),
        decreases cs.len() - i,
    {
        assert(cs@.skip(i as int).drop_first() =~= cs@.skip(i + 1));
        i = i + 1;
    }
    let ghost front = cs@.skip(i as int);
    let mut j: usize = cs.len();
    assert(cs@.subrange(i as int, j as int) =~= front);
    while j > i && cs[j - 1] == ']'
        invariant
            i <= j <= cs.len(),
            unbracket_end(front) == unbracket_end(cs@.subrange(i as int, j as int)),
        decreases j,
    {
        assert(cs@.subrange(i as int, j as int).drop_last() =~= cs@.subrange(i as int, j - 1));
        j = j - 1;
    }
    slice(&cs, i, j)
}

/// The endpoint that a URL is, of the text it was read from.
pub open spec fn endpoint_of(u: UrlView, text: Seq<char>) -> Result<
    (Seq<char>, Seq<char>, int, Seq<char>),
    Seq<char>,
> {
    let host = match u.host {
        Some(h) => unbracket_end(unbracket_start(h)),
        None => seq![],
    };
    if u.scheme != "http"@ && u.scheme != "https"@ {
        Err("Unsupported scheme in endpoint: "@ + text)
    } else if host.len() == 0 {
        Err("Host is required in endpoint: "@ + text)
    } else {
        let port = match u.port {
            Some(p) => p,
            None => if u.scheme == "https"@ {
                443
            } else {
                80
            },
        };
        Ok(
            (
                u.scheme,
                host,
                port,
                if u.path.len() == 0 {
                    "/"@
                } else {
                    u.path
                },
            ),
        )
    }
}

/// What an endpoint says.
pub open spec fn endpoint_view(e: ServerEndpoint) -> (Seq<char>, Seq<char>, int, Seq<char>) {
    (e.scheme@, e.host@, e.port as int, e.path@)
}

/// The endpoint that a URL is, of the text it was read from.
pub fn endpoint_from_url(u: UrlParts, endpoint: &str) -> (r: Result<ServerEndpoint, String>)
    ensures
        match r {
            Ok(e) => endpoint_of(u@, endpoint@) == Ok::<_, Seq<char>>(endpoint_view(e)),
            Err(m) => endpoint_of(u@, endpoint@) == Err::<
                (Seq<char>, Seq<char>, int, Seq<char>),
                Seq<char>,
            >(m@),
        },
{
    let https = str_eq(u.scheme.as_str(), "https");
    if !https && !str_eq(u.scheme.as_str(), "http") {
        return Err(text::cat2("Unsupported scheme in endpoint: ", endpoint));
    }
    let host = match &u.host {
        Some(h) => unbracket(h.as_str()),
        None => String::new(),
    };
    if host.as_str().is_empty() {
        return Err(text::cat2("Host is required in endpoint: ", endpoint));
    }
    let port: u16 = match u.port {
        Some(p) => p,
        None => if https {
            443
        } else {
            80
        },
    };
    let path = if u.path.as_str().is_empty() {
        "/".to_owned()
    } else {
        u.path
    };
    Ok(ServerEndpoint { scheme: u.scheme, host, port, path })
}

/// The endpoint of a server, of its text: a host alone is reached over `http`.
pub open spec fn server_endpoint(s: Seq<char>) -> Result<
    (Seq<char>, Seq<char>, int, Seq<char>),
    Seq<char>,
> {
    let full = if text::occurs(s, "://"@) {
        s
    } else {
        "http://"@ + s
    };
    if s.len() == 0 {
        Err("No endpoint specified for transport"@)
    } else {
        match url_parts(full) {
            Err(e) => Err("Failed to parse endpoint '"@ + s + "': "@ + e),
            Ok(u) => endpoint_of(u, s),
        }
    }
}

/// Reads where a server is to listen.
pub fn parse_server_endpoint(endpoint: &str) -> (r: Result<ServerEndpoint, String>)
    ensures
        match r {
            Ok(e) => server_endpoint(endpoint@) == Ok::<_, Seq<char>>(endpoint_view(e)),
            Err(m) => server_endpoint(endpoint@) == Err::<
                (Seq<char>, Seq<char>, int, Seq<char>),
                Seq<char>,
            >(m@),
        },
{
    if endpoint.is_empty() {
        return Err("No endpoint specified for transport".to_owned());
    }
    let full = if text::contains(endpoint, "://") {
        endpoint.to_owned()
    } else {
        text::cat2("http://", endpoint)
    };
    match parse_url(full.as_str()) {
        Ok(u) => endpoint_from_url(u, endpoint),
        Err(e) => Err(text::cat4("Failed to parse endpoint '", endpoint, "': ", e.as_str())),
    }
}

/// An endpoint that was read has one of the two schemes, a host and a path.
pub proof fn endpoint_read(u: UrlView, text: Seq<char>)
    ensures
        match endpoint_of(u, text) {
            Ok(e) => (e.0 == "http"@ || e.0 == "https"@) && e.1.len() > 0 && e.3.len() > 0,
            Err(_) => true,
        },
{
    reveal_strlit("/");
    assert("/"@.len() == 1);
}

} // verus!
