//! How messages are written and told apart, and which endpoints are taken.
use vstd::prelude::*;

use crate::json;
use crate::json::{Json, JsonView, NumberView};
use crate::jsonrpc::{Message, Notification, Request, RequestId, Response, RpcError};
use crate::laws::forms;
use crate::protocol::endpoint;
use crate::protocol::endpoint::UrlView;
use crate::protocol::message;
use crate::protocol::message::{
    ErrorView, MessageParseError, MessageView, ParseErrorView, PayloadView,
};
use crate::text;
use crate::wire;
use crate::wire::Wire;

verus! {

proof fn member_names()
    ensures
        "jsonrpc"@.len() == 7,
        "id"@.len() == 2,
        "method"@.len() == 6 && "method"@[0] == 'm',
        "params"@.len() == 6 && "params"@[0] == 'p',
        "result"@.len() == 6 && "result"@[0] == 'r',
        "error"@.len() == 5,
        "code"@.len() == 4 && "code"@[0] == 'c',
        "message"@.len() == 7,
        "data"@.len() == 4 && "data"@[0] == 'd',
{
    reveal_strlit("jsonrpc");
    reveal_strlit("id");
    reveal_strlit("method");
    reveal_strlit("params");
    reveal_strlit("result");
    reveal_strlit("error");
    reveal_strlit("code");
    reveal_strlit("message");
    reveal_strlit("data");
}

/// Every message says which version of the format it is of. A request is written with its
/// identity, its method and its parameters, a notification without an identity, and a response
/// with the identity of the request and its result or its error.
pub proof fn message_is_written(m: MessageView)
    ensures
        ({
            let j = message::written(m);
            &&& j is Object
            &&& j.get("jsonrpc"@) == Some(JsonView::String("2.0"@))
            &&& m matches MessageView::Request { id, method, params } ==> j.get("id"@) == Some(id)
                && j.get("method"@) == Some(JsonView::String(method)) && j.get("params"@) == params
                && j.get("result"@) is None && j.get("error"@) is None
            &&& m matches MessageView::Notification { method, params } ==> j.get("id"@) is None
                && j.get("method"@) == Some(JsonView::String(method)) && j.get("params"@) == params
            &&& m matches MessageView::Response { to, result, error } ==> j.get("id"@) == Some(
                match to {
                    Some(id) => id,
                    None => JsonView::Null,
                },
            ) && j.get("method"@) is None && j.get("result"@) == result && (j.get("error"@) is Some
                <==> error is Some)
            &&& m is Response && m->error is Some ==> {
                let e = j.get("error"@)->0;
                let x = m->error->0;
                &&& e.get("code"@) == Some(JsonView::Number(NumberView::Whole(x.code)))
                &&& e.get("message"@) == Some(JsonView::String(x.message))
                &&& e.get("data"@) == x.data
            }
        }),
{
    broadcast use crate::wire::group_lookup;

    member_names();
}

/// The error of a response is written with its number, its words and its data.
pub proof fn error_is_written(e: RpcError)
    ensures
        e.wire().get("code"@) == Some(JsonView::Number(NumberView::Whole(e.code as int))),
        e.wire().get("message"@) == Some(JsonView::String(e.message@)),
        e.wire().get("data"@) == wire::opt(e.data),
        forms::only_named(e.wire(), seq!["code"@, "message"@, "data"@]),
{
    broadcast use crate::wire::group_lookup;

    member_names();
    let names = seq!["code"@, "message"@, "data"@];
    assert forall|k: Seq<char>| e.wire().get(k) is Some implies #[trigger] names.contains(k) by {
        if k != "code"@ && k != "message"@ && k != "data"@ {
            assert(e.wire().get(k) is None);
        }
        assert(names[0] == "code"@ && names[1] == "message"@ && names[2] == "data"@);
    }
}

/// An identity that a message may have: a text or a whole number.
pub open spec fn identifies(j: JsonView) -> bool {
    j is String || (j matches JsonView::Number(n) && n is Whole)
}

/// The payload is no message, for this reason. It is told to the identity that it gives, and to
/// zero where it gives none that can be told.
pub open spec fn misread(j: JsonView, why: Seq<char>) -> bool {
    let r = message::classified(j);
    &&& r is Err
    &&& r->Err_0 is InvalidMessage
    &&& r->Err_0->message == "Deserialization Failed: "@ + why
    &&& r->Err_0->has_method == (j.get("method"@) is Some)
    &&& r->Err_0->id == match j.get("id"@) {
        Some(JsonView::String(s)) => JsonView::String(s),
        Some(JsonView::Number(NumberView::Whole(n))) => if n <= 0x7fff_ffff_ffff_ffff {
            JsonView::Number(NumberView::Whole(n))
        } else {
            JsonView::Number(NumberView::Whole(0))
        },
        _ => JsonView::Number(NumberView::Whole(0)),
    }
}

/// A payload is a message only if it says so, in the version of the format, and with an
/// identity that may be one.
pub proof fn message_is_recognized(j: JsonView)
    ensures
        !(j is Object) ==> misread(j, "No matching message type"@),
        j is Object && j.get("jsonrpc"@) != Some(JsonView::String("2.0"@)) ==> misread(
            j,
            "jsonrpc must be \"2.0\""@,
        ),
        j.get("jsonrpc"@) == Some(JsonView::String("2.0"@)) && j.get("id"@) is Some && !identifies(
            j.get("id"@)->0,
        ) ==> misread(j, "id must be a string or an integer"@),
        message::classified(j) is Ok ==> j.get("jsonrpc"@) == Some(JsonView::String("2.0"@)),
{
}

/// A payload with a method is a request where it has an identity and a notification where it
/// has none; the method must be a text.
pub proof fn calls_are_recognized(j: JsonView)
    requires
        j.get("jsonrpc"@) == Some(JsonView::String("2.0"@)),
        j.get("id"@) is Some ==> identifies(j.get("id"@)->0),
        j.get("method"@) is Some,
    ensures
        !(j.get("method"@)->0 is String) ==> misread(j, "method must be a string"@),
        j.get("method"@)->0 is String && j.get("id"@) is None ==> message::classified(j) == Ok::<
            MessageView,
            ParseErrorView,
        >(
            MessageView::Notification {
                method: j.get("method"@)->0->String_0,
                params: j.get("params"@),
            },
        ),
        j.get("method"@)->0 is String && j.get("id"@) is Some ==> {
            let r = message::classified(j);
            &&& r is Ok
            &&& r->Ok_0 is Request
            &&& r->Ok_0->Request_method == j.get("method"@)->0->String_0
            &&& r->Ok_0->Request_params == j.get("params"@)
            &&& RequestId::canon(j.get("id"@)->0) is Some ==> r->Ok_0->Request_id == j.get(
                "id"@,
            )->0
        },
{
}

/// A payload with an identity and no method is a response: one that fails where it has an error
/// with a number, which must be whole and have words with it, and one that succeeds otherwise.
pub proof fn responses_are_recognized(j: JsonView)
    requires
        j.get("jsonrpc"@) == Some(JsonView::String("2.0"@)),
        j.get("id"@) is Some ==> identifies(j.get("id"@)->0),
        j.get("method"@) is None,
    ensures
        j.get("id"@) is None ==> misread(j, "No matching message type"@),
        j.get("id"@) is Some ==> {
            let r = message::classified(j);
            let e = j.get("error"@)->0;
            let failed = j.get("error"@) is Some && e.get("code"@) is Some;
            let code = e.get("code"@)->0.whole();
            let words = e.get("message"@);
            &&& !failed ==> r is Ok && r->Ok_0 is Response && r->Ok_0->result == j.get("result"@)
                && r->Ok_0->error is None
            &&& failed && code is None ==> misread(j, "error.code must be an integer"@)
            &&& failed && code is Some && (words is None || !(words->0 is String)) ==> misread(
                j,
                "error.message must be a string"@,
            )
            &&& failed && code is Some && words is Some && words->0 is String ==> r is Ok
                && r->Ok_0 is Response && r->Ok_0->result is None && r->Ok_0->error == Some(
                ErrorView {
                    code: code->0,
                    message: words->0->String_0,
                    data: e.get("data"@),
                },
            )
            &&& r is Ok && RequestId::canon(j.get("id"@)->0) is Some ==> r->Ok_0->to == j.get("id"@)
        },
{
}

/// Several messages come in an array that is not empty, and are taken only if each of them is
/// one, in order.
pub proof fn batches_are_read(items: Seq<JsonView>)
    ensures
        ({
            let r = message::payload(JsonView::Array(items));
            &&& items.len() == 0 ==> r is Err && r->Err_0 == (ParseErrorView::InvalidMessage {
                id: JsonView::Number(NumberView::Whole(0)),
                message: "Deserialization Failed: empty batch"@,
                has_method: false,
            })
            &&& items.len() > 0 ==> (r is Ok <==> forall|i: int|
                0 <= i < items.len() ==> message::classified(#[trigger] items[i]) is Ok)
            &&& r is Ok ==> r->Ok_0 is Batch && r->Ok_0->Batch_0.len() == items.len() && forall|
                i: int,
            |
                0 <= i < items.len() ==> message::classified(#[trigger] items[i]) == Ok::<
                    MessageView,
                    ParseErrorView,
                >(r->Ok_0->Batch_0[i])
        }),
{
    items_read(items, 0);
}

proof fn items_read(items: Seq<JsonView>, i: int)
    requires
        0 <= i <= items.len(),
    ensures
        ({
            let r = message::classified_from(items, i);
            &&& r is Ok <==> forall|k: int|
                i <= k < items.len() ==> message::classified(#[trigger] items[k]) is Ok
            &&& r is Ok ==> r->Ok_0.len() == items.len() - i && forall|k: int|
                i <= k < items.len() ==> message::classified(#[trigger] items[k]) == Ok::<
                    MessageView,
                    ParseErrorView,
                >(r->Ok_0[k - i])
        }),
    decreases items.len() - i,
{
    if i < items.len() {
        items_read(items, i + 1);
    }
}

/// A single payload is taken as the message that it is.
pub proof fn single_is_read(j: JsonView)
    requires
        !(j is Array),
    ensures
        match message::classified(j) {
            Ok(m) => message::payload(j) == Ok::<PayloadView, ParseErrorView>(
                PayloadView::Single(m),
            ),
            Err(e) => message::payload(j) == Err::<PayloadView, ParseErrorView>(e),
        },
{
}

/// A text that is no JSON is told as such, to nobody in particular, and a payload that is no
/// message with the identity that it gave.
pub proof fn faults_are_told(e: MessageParseError, a: RpcError, b: Response)
    requires
        call_ensures(MessageParseError::to_rpc_error, (&e,), a),
        call_ensures(MessageParseError::to_error_response, (&e,), b),
    ensures
        e matches MessageParseError::InvalidJson(m) ==> a.code == -32700 && a.message@ == m@,
        e matches MessageParseError::InvalidMessage { id, message, has_method } ==> a.code == -32600
            && a.message@ == message@,
        a.data is None,
        b.result is None,
        b.error is Some && b.error->0.code == a.code && b.error->0.message@ == a.message@,
        b.id is Some,
        e is InvalidJson ==> b.id->0.wire() == JsonView::Number(NumberView::Whole(0)),
        e matches MessageParseError::InvalidMessage { id, message, has_method } ==> b.id->0.wire()
            == id.wire(),
{
    let m = Message::Response(b)@;
    assert(m->to == wire::opt(b.id));
    assert(m->error == message::error_view(b.error));
}

/// A text is read as JSON and then as a message or as several.
pub proof fn texts_are_read(s: Seq<char>)
    ensures
        json::parsed(s) matches Err(e) ==> message::message_of(s) == Err::<
            MessageView,
            ParseErrorView,
        >(ParseErrorView::InvalidJson(e)) && message::payload_of(s) == Err::<
            PayloadView,
            ParseErrorView,
        >(ParseErrorView::InvalidJson(e)),
        json::parsed(s) matches Ok(j) ==> message::message_of(s) == message::classified(j)
            && message::payload_of(s) == message::payload(j),
{
}

/// Two identities are the same where both are the same number or the same text.
pub proof fn identities_compared(a: RequestId, b: RequestId, r: bool)
    requires
        call_ensures(RequestId::same, (&a, &b), r),
    ensures
        r <==> match (a, b) {
            (RequestId::Number(m), RequestId::Number(n)) => m == n,
            (RequestId::String(s), RequestId::String(t)) => s@ == t@,
            _ => false,
        },
{
}

/// Messages tell their kind, their identity and their method.
pub proof fn messages_told_apart(
    m: Message,
    q: bool,
    n: bool,
    a: bool,
    method: Option<&str>,
    id: Option<&RequestId>,
)
    requires
        call_ensures(Message::is_request, (&m,), q),
        call_ensures(Message::is_notification, (&m,), n),
        call_ensures(Message::is_response, (&m,), a),
        call_ensures(Message::method, (&m,), method),
        call_ensures(Message::id, (&m,), id),
    ensures
        q <==> m is Request,
        n <==> m is Notification,
        a <==> m is Response,
        m matches Message::Request(x) ==> method is Some && method->0@ == x.method@ && id is Some
            && *id->0 == x.id,
        m matches Message::Notification(x) ==> method is Some && method->0@ == x.method@
            && id is None,
        m matches Message::Response(x) ==> method is None && (id is Some <==> x.id is Some) && (
        id is Some ==> x.id == Some(*id->0)),
{
}

/// What a message is made of is what it holds.
pub proof fn messages_made(
    id: RequestId,
    method: String,
    params: Option<Json>,
    result: Json,
    e: RpcError,
    to: Option<RequestId>,
    q: Request,
    n: Notification,
    a: Response,
    b: Response,
)
    requires
        call_ensures(Request::new, (id, method, params), q),
        call_ensures(Notification::new, (method, params), n),
        call_ensures(Response::success, (id, result), a),
        call_ensures(Response::error, (to, e), b),
    ensures
        q.id == id && q.method == method && q.params == params,
        n.method == method && n.params == params,
        a.id == Some(id) && a.result == Some(result) && a.error is None,
        b.id == to && b.result is None && b.error == Some(e),
{
}

/// Errors are made with the number of their kind.
pub proof fn errors_made(code: i64, m: String, a: RpcError, b: RpcError, c: RpcError)
    requires
        call_ensures(RpcError::new, (code, m), a),
        call_ensures(RpcError::invalid_params, (m,), b),
        call_ensures(RpcError::internal_error, (m,), c),
    ensures
        a.code == code && a.message == m && a.data is None,
        b.code == -32602 && b.message == m && b.data is None,
        c.code == -32603 && c.message == m && c.data is None,
{
}

/// An endpoint is taken that is a URL of HTTP, encrypted or not, with a host, without blanks,
/// of at most 2048 bytes, and whose port, where it gives one, is from 1 to 65535.
pub proof fn endpoints_taken(s: Seq<char>)
    ensures
        endpoint::endpoint_fault(s) is None ==> {
            &&& s.len() > 0
            &&& !s.contains(' ')
            &&& vstd::utf8::encode_utf8(s).len() <= 2048
            &&& "http://"@.is_prefix_of(s) || "https://"@.is_prefix_of(s)
        },
        s.len() == 0 ==> endpoint::endpoint_fault(s) == Some("endpoint is empty"@),
        s.len() > 0 && s.contains(' ') ==> endpoint::endpoint_fault(s) == Some(
            "endpoint contains spaces"@,
        ),
        s.len() > 0 && !s.contains(' ') && vstd::utf8::encode_utf8(s).len() > 2048
            ==> endpoint::endpoint_fault(s) == Some("url length more than max url length"@),
        s.len() > 0 && !s.contains(' ') && vstd::utf8::encode_utf8(s).len() <= 2048
            && !"http://"@.is_prefix_of(s) && !"https://"@.is_prefix_of(s)
            ==> endpoint::endpoint_fault(s) == Some("url is not valid"@),
{
}

/// What stands between the scheme and the path of an endpoint is its host, and its port after a
/// colon; neither may be cut short by white space, a query or a fragment.
pub proof fn endpoints_split(authority: Seq<char>, path: Seq<char>, secure: bool)
    requires
        path.len() == 0 || path[0] == '/',
        !authority.contains('/'),
    ensures
        ({
            let s = (if secure {
                "https://"@
            } else {
                "http://"@
            }) + authority + path;
            let host = endpoint::before(authority, ':');
            let port = endpoint::after(authority, ':');
            let fit = endpoint::clean_authority(authority) && endpoint::clean_path(path)
                && host.len() > 0 && (port is Some ==> endpoint::all_digits(port->0));
            endpoint::split_endpoint(s) == if fit {
                Some((host, port))
            } else {
                None
            }
        }),
{
    reveal_strlit("http://");
    reveal_strlit("https://");
    let head = if secure {
        "https://"@
    } else {
        "http://"@
    };
    let s = head + authority + path;
    let rest = authority + path;
    assert("http://"@.len() == 7 && "https://"@.len() == 8);
    if secure {
        assert(s[4] == 's');
        assert(!"http://"@.is_prefix_of(s)) by {
            assert("http://"@[4] == ':');
        }
        assert("https://"@.is_prefix_of(s));
        assert(s.skip(8) =~= rest);
    } else {
        assert("http://"@.is_prefix_of(s));
        assert(s.skip(7) =~= rest);
    }
    text::first_at_found(rest, '/', 0);
    match text::first_at(rest, '/', 0) {
        Some(i) => {
            assert(i >= authority.len()) by {
                if i < authority.len() {
                    assert(authority[i] == rest[i]);
                    assert(authority.contains('/'));
                }
            }
            if path.len() > 0 {
                assert(rest[authority.len() as int] == '/');
            }
            assert(i == authority.len());
            assert(rest.take(i) =~= authority);
            assert(rest.skip(i) =~= path);
        },
        None => {
            if path.len() > 0 {
                assert(rest[authority.len() as int] == '/');
            }
            assert(path.len() == 0);
            assert(rest =~= authority);
            assert(path =~= seq![]);
        },
    }
}

/// The port of an endpoint is a number from 1 to 65535.
pub proof fn ports_taken(s: Seq<char>, host: Seq<char>, port: Seq<char>)
    requires
        s.len() > 0,
        !s.contains(' '),
        vstd::utf8::encode_utf8(s).len() <= 2048,
        endpoint::split_endpoint(s) == Some((host, Some(port))),
    ensures
        ({
            let f = endpoint::endpoint_fault(s);
            match text::parsed_i64(port) {
                None => f == Some("invalid port"@),
                Some(p) => if p < 1 || p > 65535 {
                    f == Some("port out of range"@)
                } else {
                    f is None
                },
            }
        }),
{
}

/// A server listens where its endpoint says: at the host without brackets, at the port that it
/// gives or that of its scheme, under the path that it gives or the root.
pub proof fn endpoint_is_listened_at(u: UrlView, s: Seq<char>)
    ensures
        ({
            let r = endpoint::endpoint_of(u, s);
            let host = endpoint::unbracket_end(endpoint::unbracket_start(u.host->0));
            &&& u.scheme != "http"@ && u.scheme != "https"@ ==> r is Err && r->Err_0
                == "Unsupported scheme in endpoint: "@ + s
            &&& (u.scheme == "http"@ || u.scheme == "https"@) && (u.host is None || host.len() == 0)
                ==> r is Err && r->Err_0 == "Host is required in endpoint: "@ + s
            &&& (u.scheme == "http"@ || u.scheme == "https"@) && u.host is Some && host.len() > 0
                ==> r is Ok && (r->Ok_0).0 == u.scheme && (r->Ok_0).1 == host && (u.port matches Some(p)
                ==> (r->Ok_0).2 == p) && (u.port is None && u.scheme == "http"@ ==> (r->Ok_0).2 == 80)
                && (u.port is None && u.scheme == "https"@ ==> (r->Ok_0).2 == 443) && (r->Ok_0).3
                == if u.path.len() > 0 {
                u.path
            } else {
                "/"@
            }
        }),
{
    reveal_strlit("http");
    reveal_strlit("https");
    assert("http"@.len() == 4 && "https"@.len() == 5);
}

/// An endpoint without a scheme is taken as one of HTTP, and an empty one is none.
pub proof fn endpoint_is_completed(s: Seq<char>)
    ensures
        s.len() == 0 ==> endpoint::server_endpoint(s) == Err::<
            (Seq<char>, Seq<char>, int, Seq<char>),
            Seq<char>,
        >("No endpoint specified for transport"@),
        s.len() > 0 && text::occurs(s, "://"@) ==> match endpoint::url_parts(s) {
            Ok(u) => endpoint::server_endpoint(s) == endpoint::endpoint_of(u, s),
            Err(e) => endpoint::server_endpoint(s) == Err::<
                (Seq<char>, Seq<char>, int, Seq<char>),
                Seq<char>,
            >("Failed to parse endpoint '"@ + s + "': "@ + e),
        },
        s.len() > 0 && !text::occurs(s, "://"@) ==> match endpoint::url_parts("http://"@ + s) {
            Ok(u) => endpoint::server_endpoint(s) == endpoint::endpoint_of(u, s),
            Err(e) => endpoint::server_endpoint(s) == Err::<
                (Seq<char>, Seq<char>, int, Seq<char>),
                Seq<char>,
            >("Failed to parse endpoint '"@ + s + "': "@ + e),
        },
{
}

} // verus!
