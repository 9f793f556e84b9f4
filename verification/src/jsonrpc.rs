//! Messages between peers: requests, notifications and responses.
use vstd::prelude::*;

use crate::json::{Json, JsonView, MemberView, NumberView};
use crate::text::str_eq;
use crate::wire::{Malformed, Wire};
use crate::wire;

verus! {

/// The identity of a request.
#[derive(Debug, PartialEq, Eq)]
pub enum RequestId {
    Number(i64),
    String(String),
}

impl RequestId {
    /// Tells whether two identities are the same.
    pub fn same(&self, other: &RequestId) -> (r: bool)
        ensures
            r == (self.wire() == other.wire()),
    {
        match (self, other) {
            (RequestId::Number(a), RequestId::Number(b)) => *a == *b,
            (RequestId::String(a), RequestId::String(b)) => str_eq(a.as_str(), b.as_str()),
            _ => false,
        }
    }
}

impl Clone for RequestId {
    fn clone(&self) -> (r: Self)
        ensures
            r.wire() == self.wire(),
    {
        self.duplicate()
    }
}

impl Wire for RequestId {
    open spec fn wire(&self) -> JsonView {
        match self {
            RequestId::Number(n) => JsonView::Number(NumberView::Whole(*n as int)),
            RequestId::String(s) => JsonView::String(s@),
        }
    }

    open spec fn canon(j: JsonView) -> Option<JsonView> {
        match j {
            JsonView::String(s) => Some(JsonView::String(s)),
            _ => match j.whole() {
                Some(n) => Some(JsonView::Number(NumberView::Whole(n))),
                None => None,
            },
        }
    }

    open spec fn faithful(&self) -> bool {
        true
    }

    fn to_json(&self) -> (r: Json) {
        match self {
            RequestId::Number(n) => Json::integer(*n),
            RequestId::String(s) => Json::String(s.clone()),
        }
    }

    fn from_json(j: &Json) -> (r: Result<Self, Malformed>) {
        match j {
            Json::String(s) => Ok(RequestId::String(s.clone())),
            _ => match j.as_i64() {
                Some(n) => Ok(RequestId::Number(n)),
                None => Err(Malformed),
            },
        }
    }

    fn duplicate(&self) -> (r: Self) {
        match self {
            RequestId::Number(n) => RequestId::Number(*n),
            RequestId::String(s) => RequestId::String(s.clone()),
        }
    }

    proof fn round_trip(&self) {
    }
}

/// Why a request failed.
#[derive(Debug, PartialEq)]
pub struct RpcError {
    pub code: i64,
    pub message: String,
    pub data: Option<Json>,
}

impl Clone for RpcError {
    fn clone(&self) -> (r: Self)
        ensures
            r.wire() == self.wire(),
    {
        self.duplicate()
    }
}

impl Wire for RpcError {
    open spec fn wire(&self) -> JsonView {
        let o = wire::none();
        let o = wire::with(o, "code"@, self.code.wire());
        let o = wire::with(o, "message"@, self.message.wire());
        let o = wire::with_opt(o, "data"@, wire::opt(self.data));
        JsonView::Object(o)
    }

    open spec fn canon(j: JsonView) -> Option<JsonView> {
        let code = wire::get::<i64>(j, "code"@, 0);
        let message = wire::get::<String>(j, "message"@, 1);
        let data = wire::get_opt::<Json>(j, "data"@, 2);
        if wire::record(j, 3) && code is Some && message is Some && data is Some {
            let o = wire::none();
            let o = wire::with(o, "code"@, code->0);
            let o = wire::with(o, "message"@, message->0);
            let o = wire::with_opt(o, "data"@, data->0);
            Some(JsonView::Object(o))
        } else {
            None
        }
    }

    open spec fn faithful(&self) -> bool {
        &&& self.code.faithful()
        &&& self.message.faithful()
        &&& wire::opt_faithful(self.data)
    }

    fn to_json(&self) -> (r: Json) {
        let mut o = wire::start();
        wire::put(&mut o, "code", &self.code);
        wire::put(&mut o, "message", &self.message);
        wire::put_opt(&mut o, "data", &self.data);
        Json::object(o)
    }

    fn from_json(j: &Json) -> (r: Result<Self, Malformed>)
        ensures
            match r {
                Ok(x) => {
                    &&& wire::get::<i64>(j@, "code"@, 0) == Some(x.code.wire())
                    &&& wire::get::<String>(j@, "message"@, 1) == Some(x.message.wire())
                    &&& wire::get_opt::<Json>(j@, "data"@, 2) == Some(wire::opt(x.data))
                },
                Err(_) => true,
            },
    {
        if !wire::is_record(j, 3) {
            return Err(Malformed);
        }
        let code = wire::read::<i64>(j, "code", 0)?;
        let message = wire::read::<String>(j, "message", 1)?;
        let data = wire::read_opt::<Json>(j, "data", 2)?;
        Ok(RpcError { code, message, data })
    }

    fn duplicate(&self) -> (r: Self)
        ensures
            r.code.wire() == self.code.wire(),
            r.message.wire() == self.message.wire(),
            wire::opt(r.data) == wire::opt(self.data),
    {
        RpcError {
            code: self.code.duplicate(),
            message: self.message.duplicate(),
            data: wire::duplicate_opt(&self.data),
        }
    }

    proof fn round_trip(&self) {
        broadcast use crate::wire::group_lookup;

        reveal_strlit("code");
        reveal_strlit("message");
        reveal_strlit("data");
        assert("code"@.len() == 4 && "message"@.len() == 7 && "data"@.len() == 4);
        assert("code"@[0] != "data"@[0]);
        wire::opt_round_trip(self.data);
    }
}

impl RpcError {
    /// An error with a code and a message.
    pub fn new(code: i64, message: String) -> (r: Self)
        ensures
            r.code == code,
            r.message == message,
            r.data is None,
    {
        RpcError { code, message, data: None }
    }

    /// The parameters do not do.
    pub fn invalid_params(message: String) -> (r: Self)
        ensures
            r.code == -32602,
            r.message == message,
            r.data is None,
    {
        RpcError::new(-32602, message)
    }

    /// Something went wrong on the side that answers.
    pub fn internal_error(message: String) -> (r: Self)
        ensures
            r.code == -32603,
            r.message == message,
            r.data is None,
    {
        RpcError::new(-32603, message)
    }
}

/// A request: a call that is to be answered.
#[derive(Debug, PartialEq)]
pub struct Request {
    pub id: RequestId,
    pub method: String,
    pub params: Option<Json>,
}

/// A notification: a call that is not answered.
#[derive(Debug, PartialEq)]
pub struct Notification {
    pub method: String,
    pub params: Option<Json>,
}

/// The answer to a request.
#[derive(Debug, PartialEq)]
pub struct Response {
    pub id: Option<RequestId>,
    pub result: Option<Json>,
    pub error: Option<RpcError>,
}

/// A message between peers.
#[derive(Debug, PartialEq)]
pub enum Message {
    Request(Request),
    Notification(Notification),
    Response(Response),
}

/// The members that every message starts with.
pub open spec fn envelope() -> Seq<MemberView> {
    wire::with(wire::none(), "jsonrpc"@, JsonView::String("2.0"@))
}

impl Request {
    /// A request.
    pub fn new(id: RequestId, method: String, params: Option<Json>) -> (r: Self)
        ensures
            r.id == id,
            r.method == method,
            r.params == params,
    {
        Request { id, method, params }
    }

    /// The JSON form.
    pub open spec fn wire(&self) -> JsonView {
        let o = wire::with(envelope(), "id"@, self.id.wire());
        let o = wire::with(o, "method"@, JsonView::String(self.method@));
        JsonView::Object(wire::with_opt(o, "params"@, wire::opt(self.params)))
    }

    /// A copy of the request.
    pub fn duplicate(&self) -> (r: Self)
        ensures
            r.wire() == self.wire(),
            r.id.wire() == self.id.wire(),
            r.method == self.method,
            wire::opt(r.params) == wire::opt(self.params),
    {
        Request {
            id: self.id.duplicate(),
            method: self.method.clone(),
            params: wire::duplicate_opt(&self.params),
        }
    }
}

impl Notification {
    /// A notification.
    pub fn new(method: String, params: Option<Json>) -> (r: Self)
        ensures
            r.method == method,
            r.params == params,
    {
        Notification { method, params }
    }

    /// The JSON form.
    pub open spec fn wire(&self) -> JsonView {
        let o = wire::with(envelope(), "method"@, JsonView::String(self.method@));
        JsonView::Object(wire::with_opt(o, "params"@, wire::opt(self.params)))
    }

    /// A copy of the notification.
    pub fn duplicate(&self) -> (r: Self)
        ensures
            r.wire() == self.wire(),
            r.method == self.method,
            wire::opt(r.params) == wire::opt(self.params),
    {
        Notification { method: self.method.clone(), params: wire::duplicate_opt(&self.params) }
    }
}

impl Response {
    /// The answer that a request succeeded.
    pub fn success(id: RequestId, result: Json) -> (r: Self)
        ensures
            r.id == Some(id),
            r.result == Some(result),
            r.error is None,
    {
        Response { id: Some(id), result: Some(result), error: None }
    }

    /// The answer that a request failed.
    pub fn error(id: Option<RequestId>, error: RpcError) -> (r: Self)
        ensures
            r.id == id,
            r.result is None,
            r.error == Some(error),
    {
        Response { id, result: None, error: Some(error) }
    }

    /// The form of the identity, null where it is not known.
    pub open spec fn id_wire(&self) -> JsonView {
        match self.id {
            Some(id) => id.wire(),
            None => JsonView::Null,
        }
    }

    /// The JSON form.
    pub open spec fn wire(&self) -> JsonView {
        let o = wire::with(envelope(), "id"@, self.id_wire());
        let o = wire::with_opt(o, "result"@, wire::opt(self.result));
        JsonView::Object(wire::with_opt(o, "error"@, wire::opt(self.error)))
    }

    /// A copy of the response.
    pub fn duplicate(&self) -> (r: Self)
        ensures
            r.wire() == self.wire(),
            wire::opt(r.id) == wire::opt(self.id),
            wire::opt(r.result) == wire::opt(self.result),
            wire::opt(r.error) == wire::opt(self.error),
    {
        Response {
            id: wire::duplicate_opt(&self.id),
            result: wire::duplicate_opt(&self.result),
            error: wire::duplicate_opt(&self.error),
        }
    }
}

impl Message {
    /// The JSON form.
    pub open spec fn wire(&self) -> JsonView {
        match self {
            Message::Request(r) => r.wire(),
            Message::Notification(n) => n.wire(),
            Message::Response(r) => r.wire(),
        }
    }

    /// The identity of a request, or of the request that is answered.
    pub fn id(&self) -> (r: Option<&RequestId>)
        ensures
            match r {
                Some(id) => match self {
                    Message::Request(q) => *id == q.id,
                    Message::Notification(_) => false,
                    Message::Response(a) => a.id == Some(*id),
                },
                None => match self {
                    Message::Request(_) => false,
                    Message::Notification(_) => true,
                    Message::Response(a) => a.id is None,
                },
            },
    {
        match self {
            Message::Request(q) => Some(&q.id),
            Message::Notification(_) => None,
            Message::Response(a) => match &a.id {
                Some(id) => Some(id),
                None => None,
            },
        }
    }

    /// The method that is called.
    pub fn method(&self) -> (r: Option<&str>)
        ensures
            match r {
                Some(m) => match self {
                    Message::Request(q) => m@ == q.method@,
                    Message::Notification(n) => m@ == n.method@,
                    Message::Response(_) => false,
                },
                None => *self is Response,
            },
    {
        match self {
            Message::Request(q) => Some(q.method.as_str()),
            Message::Notification(n) => Some(n.method.as_str()),
            Message::Response(_) => None,
        }
    }

    /// A copy of the message.
    pub fn duplicate(&self) -> (r: Self)
        ensures
            r.wire() == self.wire(),
            r@ == self@,
    {
        match self {
            Message::Request(q) => Message::Request(q.duplicate()),
            Message::Notification(n) => Message::Notification(n.duplicate()),
            Message::Response(a) => {
                let b = a.duplicate();
                proof {
                    if a.error is Some {
                        crate::protocol::message::error_from_form(a.error->0, b.error->0);
                    }
                }
                Message::Response(b)
            },
        }
    }

    /// Tells whether this is a request.
    pub fn is_request(&self) -> (r: bool)
        ensures
            r == (*self is Request),
    {
        match self {
            Message::Request(_) => true,
            _ => false,
        }
    }

    /// Tells whether this is a notification.
    pub fn is_notification(&self) -> (r: bool)
        ensures
            r == (*self is Notification),
    {
        match self {
            Message::Notification(_) => true,
            _ => false,
        }
    }

    /// Tells whether this is a response.
    pub fn is_response(&self) -> (r: bool)
        ensures
            r == (*self is Response),
    {
        match self {
            Message::Response(_) => true,
            _ => false,
        }
    }

    /// Writes the JSON form.
    pub fn to_value(&self) -> (r: Json)
        ensures
            r@ == self.wire(),
    {
        let mut o = wire::start();
        wire::put_json(&mut o, "jsonrpc", Json::string("2.0"));
        match self {
            Message::Request(q) => {
                wire::put(&mut o, "id", &q.id);
                wire::put(&mut o, "method", &q.method);
                wire::put_opt(&mut o, "params", &q.params);
            },
            Message::Notification(n) => {
                wire::put(&mut o, "method", &n.method);
                wire::put_opt(&mut o, "params", &n.params);
            },
            Message::Response(a) => {
                let id = match &a.id {
                    Some(id) => id.to_json(),
                    None => Json::Null,
                };
                wire::put_json(&mut o, "id", id);
                wire::put_opt(&mut o, "result", &a.result);
                wire::put_opt(&mut o, "error", &a.error);
            },
        }
        Json::object(o)
    }
}

impl Clone for Request {
    fn clone(&self) -> (r: Self)
        ensures
            r.wire() == self.wire(),
    {
        self.duplicate()
    }
}

impl Clone for Notification {
    fn clone(&self) -> (r: Self)
        ensures
            r.wire() == self.wire(),
    {
        self.duplicate()
    }
}

impl Clone for Response {
    fn clone(&self) -> (r: Self)
        ensures
            r.wire() == self.wire(),
    {
        self.duplicate()
    }
}

impl Clone for Message {
    fn clone(&self) -> (r: Self)
        ensures
            r.wire() == self.wire(),
    {
        self.duplicate()
    }
}

} // verus!
