//! Telling requests, notifications and responses apart.
use vstd::prelude::*;

use crate::error::JsonRpcErrorCode;
use crate::json;
use crate::json::{Json, JsonView, NumberView};
use crate::jsonrpc::{Message, Notification, Request, RequestId, Response, RpcError};
use crate::text;
use crate::text::str_eq;
use crate::wire;
use crate::wire::Wire;

verus! {

/// What an error says.
pub struct ErrorView {
    pub code: int,
    pub message: Seq<char>,
    pub data: Option<JsonView>,
}

/// What a message says.
pub enum MessageView {
    Request { id: JsonView, method: Seq<char>, params: Option<JsonView> },
    Notification { method: Seq<char>, params: Option<JsonView> },
    Response { to: Option<JsonView>, result: Option<JsonView>, error: Option<ErrorView> },
}

/// What an error says.
pub open spec fn error_view(e: Option<RpcError>) -> Option<ErrorView> {
    match e {
        Some(e) => Some(
            ErrorView { code: e.code as int, message: e.message@, data: wire::opt(e.data) },
        ),
        None => None,
    }
}

impl View for Message {
    type V = MessageView;

    open spec fn view(&self) -> MessageView {
        match self {
            Message::Request(q) => MessageView::Request {
                id: q.id.wire(),
                method: q.method@,
                params: wire::opt(q.params),
            },
            Message::Notification(n) => MessageView::Notification {
                method: n.method@,
                params: wire::opt(n.params),
            },
            Message::Response(a) => MessageView::Response {
                to: wire::opt(a.id),
                result: wire::opt(a.result),
                error: error_view(a.error),
            },
        }
    }
}

/// Why a payload was not taken.
#[derive(Debug, Clone, PartialEq)]
pub enum MessageParseError {
    /// It is not JSON.
    InvalidJson(String),
    /// It is no message. The identity is that of the payload where it gives one, and
    /// zero where it does not.
    InvalidMessage { id: RequestId, message: String, has_method: bool },
}

/// Why a payload was not taken.
pub enum ParseErrorView {
    InvalidJson(Seq<char>),
    InvalidMessage { id: JsonView, message: Seq<char>, has_method: bool },
}

impl View for MessageParseError {
    type V = ParseErrorView;

    open spec fn view(&self) -> ParseErrorView {
        match self {
            MessageParseError::InvalidJson(m) => ParseErrorView::InvalidJson(m@),
            MessageParseError::InvalidMessage { id, message, has_method } =>
                ParseErrorView::InvalidMessage {
                id: id.wire(),
                message: message@,
                has_method: *has_method,
            },
        }
    }
}

/// The identity zero.
pub open spec fn zero_id() -> JsonView {
    JsonView::Number(NumberView::Whole(0))
}

impl ParseErrorView {
    /// What the peer is told.
    pub open spec fn told(self) -> ErrorView {
        match self {
            ParseErrorView::InvalidJson(m) => ErrorView { code: -32700, message: m, data: None },
            ParseErrorView::InvalidMessage { id, message, has_method } => ErrorView {
                code: -32600,
                message,
                data: None,
            },
        }
    }

    /// The identity under which the peer is told.
    pub open spec fn told_id(self) -> JsonView {
        match self {
            ParseErrorView::InvalidJson(_) => zero_id(),
            ParseErrorView::InvalidMessage { id, message, has_method } => id,
        }
    }
}

impl MessageParseError {
    /// The error that the peer is told.
    pub fn to_rpc_error(&self) -> (r: RpcError)
        ensures
            error_view(Some(r)) == Some(self@.told()),
            r.data is None,
    {
        match self {
            MessageParseError::InvalidJson(m) => RpcError::new(
                JsonRpcErrorCode::ParseError.code(),
                m.clone(),
            ),
            MessageParseError::InvalidMessage { id, message, has_method } => RpcError::new(
                JsonRpcErrorCode::InvalidRequest.code(),
                message.clone(),
            ),
        }
    }

    /// The response that the peer gets.
    pub fn to_error_response(&self) -> (r: Response)
        ensures
            Message::Response(r)@ == (MessageView::Response {
                to: Some(self@.told_id()),
                result: None,
                error: Some(self@.told()),
            }),
    {
        let id = match self {
            MessageParseError::InvalidJson(_) => RequestId::Number(0),
            MessageParseError::InvalidMessage { id, message, has_method } => id.duplicate(),
        };
        Response::error(Some(id), self.to_rpc_error())
    }

    /// The reason in words.
    pub fn message(&self) -> (r: String)
        ensures
            r@ == match self@ {
                ParseErrorView::InvalidJson(m) => "invalid JSON: "@ + m,
                ParseErrorView::InvalidMessage { id, message, has_method } => message,
            },
    {
        match self {
            MessageParseError::InvalidJson(m) => text::cat2("invalid JSON: ", m.as_str()),
            MessageParseError::InvalidMessage { id, message, has_method } => message.clone(),
        }
    }
}

/// The identity that a payload gives: text, or a whole number that fits, and zero
/// for anything else.
pub open spec fn id_given(id: Option<JsonView>) -> JsonView {
    match id {
        Some(JsonView::String(s)) => JsonView::String(s),
        Some(j) => match j.whole() {
            Some(n) => JsonView::Number(NumberView::Whole(n)),
            None => zero_id(),
        },
        None => zero_id(),
    }
}

/// Whether an identity is text or a whole number.
pub open spec fn id_valid(id: Option<JsonView>) -> bool {
    match id {
        Some(JsonView::String(_)) => true,
        Some(JsonView::Number(NumberView::Whole(_))) => true,
        _ => false,
    }
}

/// Whether a payload holds an error with a code.
pub open spec fn has_code(j: JsonView) -> bool {
    match j.get("error"@) {
        Some(e) => e.get("code"@) is Some,
        None => false,
    }
}

/// The refusal of a payload.
pub open spec fn refused(j: JsonView, detail: Seq<char>) -> Result<MessageView, ParseErrorView> {
    Err(
        ParseErrorView::InvalidMessage {
            id: id_given(j.get("id"@)),
            message: "Deserialization Failed: "@ + detail,
            has_method: j.get("method"@) is Some,
        },
    )
}

/// The message that a payload is, or why it is none.
///
/// A method makes it a call: a request where there is an identity, and a
/// notification where there is none. An identity without a method makes it a
/// response: a failure where there is an error with a code, and a success
/// otherwise.
pub open spec fn classified(j: JsonView) -> Result<MessageView, ParseErrorView> {
    let id = j.get("id"@);
    let method = j.get("method"@);
    if j.get("jsonrpc"@) != Some(JsonView::String("2.0"@)) {
        if j is Object {
            refused(j, "jsonrpc must be \"2.0\""@)
        } else {
            refused(j, "No matching message type"@)
        }
    } else if id is Some && !id_valid(id) {
        refused(j, "id must be a string or an integer"@)
    } else if method is Some {
        match method->0 {
            JsonView::String(m) => if id is Some {
                Ok(MessageView::Request { id: id_given(id), method: m, params: j.get("params"@) })
            } else {
                Ok(MessageView::Notification { method: m, params: j.get("params"@) })
            },
            _ => refused(j, "method must be a string"@),
        }
    } else if id is None {
        refused(j, "No matching message type"@)
    } else if !has_code(j) {
        Ok(
            MessageView::Response {
                to: Some(id_given(id)),
                result: j.get("result"@),
                error: None,
            },
        )
    } else {
        let e = j.get("error"@)->0;
        match e.get("code"@)->0.whole() {
            None => refused(j, "error.code must be an integer"@),
            Some(code) => match e.get("message"@) {
                Some(JsonView::String(message)) => Ok(
                    MessageView::Response {
                        to: Some(id_given(id)),
                        result: None,
                        error: Some(ErrorView { code, message, data: e.get("data"@) }),
                    },
                ),
                _ => refused(j, "error.message must be a string"@),
            },
        }
    }
}

fn id_from_value(v: Option<&Json>) -> (r: RequestId)
    ensures
        r.wire() == id_given(
            match v {
                Some(j) => Some(j@),
                None => None,
            },
        ),
{
    match v {
        Some(Json::String(s)) => RequestId::String(s.clone()),
        Some(j) => match j.as_i64() {
            Some(n) => RequestId::Number(n),
            None => RequestId::Number(0),
        },
        None => RequestId::Number(0),
    }
}

fn invalid(j: &Json, detail: &str) -> (r: MessageParseError)
    ensures
        refused(j@, detail@) == Err::<MessageView, ParseErrorView>(r@),
{
    MessageParseError::InvalidMessage {
        id: id_from_value(j.get("id")),
        message: text::cat2("Deserialization Failed: ", detail),
        has_method: j.get("method").is_some(),
    }
}

/// A copy of a member.
fn copied(j: &Json, k: &str) -> (r: Option<Json>)
    ensures
        wire::opt(r) == j@.get(k@),
{
    match j.get(k) {
        Some(v) => Some(v.duplicate()),
        None => None,
    }
}

/// Tells what message a payload is.
pub fn classify_message(value: Json) -> (r: Result<Message, MessageParseError>)
    ensures
        match r {
            Ok(m) => classified(value@) == Ok::<MessageView, ParseErrorView>(m@),
            Err(e) => classified(value@) == Err::<MessageView, ParseErrorView>(e@),
        },
{
    let j = &value;
    if !j.is_object() {
        return Err(invalid(j, "No matching message type"));
    }
    let version_ok = match j.get("jsonrpc") {
        Some(Json::String(s)) => str_eq(s.as_str(), "2.0"),
        _ => false,
    };
    if !version_ok {
        return Err(invalid(j, "jsonrpc must be \"2.0\""));
    }
    let id = j.get("id");
    let has_id = id.is_some();
    let valid_id = match id {
        Some(Json::String(_)) => true,
        Some(Json::Number(n)) => match n {
            json::JsonNumber::Float(_) => false,
            _ => true,
        },
        _ => false,
    };
    if has_id && !valid_id {
        return Err(invalid(j, "id must be a string or an integer"));
    }
    match j.get("method") {
        Some(Json::String(m)) => {
            let params = copied(j, "params");
            if has_id {
                return Ok(Message::Request(Request::new(id_from_value(id), m.clone(), params)));
            }
            return Ok(Message::Notification(Notification::new(m.clone(), params)));
        },
        Some(_) => {
            return Err(invalid(j, "method must be a string"));
        },
        None => {},
    }
    if !has_id {
        return Err(invalid(j, "No matching message type"));
    }
    let error = match j.get("error") {
        Some(e) => match e.get("code") {
            Some(code) => Some((e, code)),
            None => None,
        },
        None => None,
    };
    match error {
        None => Ok(
            Message::Response(
                Response { id: Some(id_from_value(id)), result: copied(j, "result"), error: None },
            ),
        ),
        Some((e, code)) => {
            let code: i64 = match code.as_i64() {
                Some(code) => code,
                None => {
                    return Err(invalid(j, "error.code must be an integer"));
                },
            };
            let message = match e.get("message") {
                Some(Json::String(m)) => m.clone(),
                _ => {
                    return Err(invalid(j, "error.message must be a string"));
                },
            };
            let rpc = RpcError { code, message, data: copied(e, "data") };
            Ok(Message::Response(Response::error(Some(id_from_value(id)), rpc)))
        },
    }
}

/// The message that a text is, or why it is none.
pub open spec fn message_of(text: Seq<char>) -> Result<MessageView, ParseErrorView> {
    match json::parsed(text) {
        Ok(j) => classified(j),
        Err(e) => Err(ParseErrorView::InvalidJson(e)),
    }
}

/// Reads a message from its text.
pub fn parse_message(text: &str) -> (r: Result<Message, MessageParseError>)
    ensures
        match r {
            Ok(m) => message_of(text@) == Ok::<MessageView, ParseErrorView>(m@),
            Err(e) => message_of(text@) == Err::<MessageView, ParseErrorView>(e@),
        },
{
    match Json::parse(text) {
        Ok(j) => classify_message(j),
        Err(e) => Err(MessageParseError::InvalidJson(e)),
    }
}

/// What was posted: one message, or several at once.
#[derive(Debug, Clone, PartialEq)]
pub enum IncomingPayload {
    Single(Message),
    Batch(Vec<Message>),
}

/// What was posted.
pub enum PayloadView {
    Single(MessageView),
    Batch(Seq<MessageView>),
}

/// The messages, each by what it says.
pub open spec fn messages(s: Seq<Message>) -> Seq<MessageView> {
    Seq::new(s.len(), |i: int| s[i]@)
}

impl View for IncomingPayload {
    type V = PayloadView;

    open spec fn view(&self) -> PayloadView {
        match self {
            IncomingPayload::Single(m) => PayloadView::Single(m@),
            IncomingPayload::Batch(v) => PayloadView::Batch(messages(v@)),
        }
    }
}

/// The messages of a batch from its place `i` on, or why the first that is none is
/// none.
pub open spec fn classified_from(
    items: Seq<JsonView>,
    i: int,
) -> Result<Seq<MessageView>, ParseErrorView>
    decreases items.len() - i,
{
    if i < 0 || i >= items.len() {
        Ok(seq![])
    } else {
        match classified(items[i]) {
            Err(e) => Err(e),
            Ok(m) => match classified_from(items, i + 1) {
                Err(e) => Err(e),
                Ok(rest) => Ok(seq![m] + rest),
            },
        }
    }
}

/// What a value that was posted is: an array is a batch, which must not be empty.
pub open spec fn payload(j: JsonView) -> Result<PayloadView, ParseErrorView> {
    match j {
        JsonView::Array(items) => if items.len() == 0 {
            Err(
                ParseErrorView::InvalidMessage {
                    id: zero_id(),
                    message: "Deserialization Failed: empty batch"@,
                    has_method: false,
                },
            )
        } else {
            match classified_from(items, 0) {
                Ok(ms) => Ok(PayloadView::Batch(ms)),
                Err(e) => Err(e),
            }
        },
        _ => match classified(j) {
            Ok(m) => Ok(PayloadView::Single(m)),
            Err(e) => Err(e),
        },
    }
}

/// Tells what a value that was posted is.
pub fn classify_payload(value: Json) -> (r: Result<IncomingPayload, MessageParseError>)
    ensures
        match r {
            Ok(p) => payload(value@) == Ok::<PayloadView, ParseErrorView>(p@),
            Err(e) => payload(value@) == Err::<PayloadView, ParseErrorView>(e@),
        },
{
    match value {
        Json::Array(items) => {
            proof {
                Json::array_view(items);
            }
            if items.len() == 0 {
                return Err(
                    MessageParseError::InvalidMessage {
                        id: RequestId::Number(0),
                        message: "Deserialization Failed: empty batch".to_owned(),
                        has_method: false,
                    },
                );
            }
            let ghost all = json::items(items@);
            let mut out: Vec<Message> = Vec::new();
            let mut i: usize = 0;
            assert(messages(out@) =~= seq![]);
            assert(forall|s: Seq<MessageView>| #[trigger] (Seq::<MessageView>::empty() + s) =~= s);
            while i < items.len()
                invariant
                    i <= items.len(),
                    items.len() > 0,
                    value@ == JsonView::Array(all),
                    all == json::items(items@),
                    out.len() == i,
                    classified_from(all, 0) == match classified_from(all, i as int) {
                        Ok(rest) => Ok::<Seq<MessageView>, ParseErrorView>(messages(out@) + rest),
                        Err(e) => Err::<Seq<MessageView>, ParseErrorView>(e),
                    },
                decreases items.len() - i,
            {
                assert(all[i as int] == items@[i as int]@);
                let ghost before = messages(out@);
                match classify_message(items[i].duplicate()) {
                    Ok(m) => {
                        out.push(m);
                        assert(messages(out@) =~= before.push(m@));
                        assert(forall|rest: Seq<MessageView>| #[trigger]
                            (before + (seq![m@] + rest)) =~= messages(out@) + rest);
                    },
                    Err(e) => {
                        return Err(e);
                    },
                }
                i = i + 1;
            }
            assert(messages(out@) + Seq::<MessageView>::empty() =~= messages(out@));
            Ok(IncomingPayload::Batch(out))
        },
        other => match classify_message(other) {
            Ok(m) => Ok(IncomingPayload::Single(m)),
            Err(e) => Err(e),
        },
    }
}

/// What a text that was posted is.
pub open spec fn payload_of(text: Seq<char>) -> Result<PayloadView, ParseErrorView> {
    match json::parsed(text) {
        Ok(j) => payload(j),
        Err(e) => Err(ParseErrorView::InvalidJson(e)),
    }
}

/// Reads what was posted.
pub fn parse_payload(text: &str) -> (r: Result<IncomingPayload, MessageParseError>)
    ensures
        match r {
            Ok(p) => payload_of(text@) == Ok::<PayloadView, ParseErrorView>(p@),
            Err(e) => payload_of(text@) == Err::<PayloadView, ParseErrorView>(e@),
        },
{
    match Json::parse(text) {
        Ok(j) => classify_payload(j),
        Err(e) => Err(MessageParseError::InvalidJson(e)),
    }
}

/// The compact text of a message.
pub open spec fn message_text(m: MessageView) -> Seq<char> {
    json::compact_text(written(m).normal())
}

/// A value in its normal form, if there is one.
pub open spec fn normal_opt(j: Option<JsonView>) -> Option<JsonView> {
    match j {
        Some(v) => Some(v.normal()),
        None => None,
    }
}

/// The message with each value in its normal form.
pub open spec fn normal_message(m: MessageView) -> MessageView {
    match m {
        MessageView::Request { id, method, params } => MessageView::Request {
            id,
            method,
            params: normal_opt(params),
        },
        MessageView::Notification { method, params } => MessageView::Notification {
            method,
            params: normal_opt(params),
        },
        MessageView::Response { to, result, error } => MessageView::Response {
            to,
            result: normal_opt(result),
            error: match error {
                Some(e) => Some(ErrorView { data: normal_opt(e.data), ..e }),
                None => None,
            },
        },
    }
}

/// The text is read as this message.
pub open spec fn received_as(text: Seq<char>, m: MessageView) -> bool {
    message_of(text) == Ok::<MessageView, ParseErrorView>(m)
}

/// The compact text of a message, on a single line. It is read as that message, as
/// long as it holds whole numbers only and is nested no deeper than the parser follows.
pub fn serialize_message(message: &Message) -> (r: String)
    ensures
        r@ == message_text(message@),
        r@.len() > 0,
        forall|i: int| 0 <= i < r@.len() ==> #[trigger] r@[i] >= ' ',
        complete(*message) && written(message@).normal().readable() ==> received_as(
            r@,
            normal_message(message@),
        ),
{
    proof {
        form_follows(*message);
        if complete(*message) {
            normal_form_classified(*message);
        }
    }
    message.to_value().to_text()
}

/// The form in which an error is written.
pub open spec fn written_error(e: ErrorView) -> JsonView {
    let o = wire::with(wire::none(), "code"@, JsonView::Number(NumberView::Whole(e.code)));
    let o = wire::with(o, "message"@, JsonView::String(e.message));
    JsonView::Object(wire::with_opt(o, "data"@, e.data))
}

/// The form in which a message is written.
pub open spec fn written(m: MessageView) -> JsonView {
    let start = wire::with(wire::none(), "jsonrpc"@, JsonView::String("2.0"@));
    match m {
        MessageView::Request { id, method, params } => {
            let o = wire::with(start, "id"@, id);
            let o = wire::with(o, "method"@, JsonView::String(method));
            JsonView::Object(wire::with_opt(o, "params"@, params))
        },
        MessageView::Notification { method, params } => {
            let o = wire::with(start, "method"@, JsonView::String(method));
            JsonView::Object(wire::with_opt(o, "params"@, params))
        },
        MessageView::Response { to, result, error } => {
            let id = match to {
                Some(id) => id,
                None => JsonView::Null,
            };
            let o = wire::with(start, "id"@, id);
            let o = wire::with_opt(o, "result"@, result);
            let e = match error {
                Some(e) => Some(written_error(e)),
                None => None,
            };
            JsonView::Object(wire::with_opt(o, "error"@, e))
        },
    }
}

/// What an error says follows from its form.
pub proof fn error_from_form(a: RpcError, b: RpcError)
    requires
        a.wire() == b.wire(),
    ensures
        error_view(Some(a)) == error_view(Some(b)),
{
    let x = a.wire()->Object_0;
    let y = b.wire()->Object_0;
    assert(x[0].value == a.code.wire());
    assert(y[0].value == b.code.wire());
    assert(x[1].value == a.message.wire());
    assert(y[1].value == b.message.wire());
    assert(a.data is Some ==> x.len() == 3 && x[2].value == a.data->0.wire());
    assert(b.data is Some ==> y.len() == 3 && y[2].value == b.data->0.wire());
    assert(a.data is None ==> x.len() == 2);
    assert(b.data is None ==> y.len() == 2);
}

/// The form of a message follows from what it says.
pub proof fn form_follows(m: Message)
    ensures
        m.wire() == written(m@),
{
}

/// Messages as peers write them: a response has an identity, and fails or succeeds,
/// not both.
pub open spec fn complete(m: Message) -> bool {
    match m {
        Message::Response(a) => a.id is Some && !(a.result is Some && a.error is Some),
        _ => true,
    }
}

/// What is written of a message is told apart as that message.
pub proof fn written_message_classified(m: Message)
    requires
        complete(m),
    ensures
        classified(m.wire()) == Ok::<MessageView, ParseErrorView>(m@),
{
    broadcast use crate::wire::group_lookup;

    reveal_strlit("jsonrpc");
    reveal_strlit("id");
    reveal_strlit("method");
    reveal_strlit("params");
    reveal_strlit("result");
    reveal_strlit("error");
    reveal_strlit("code");
    reveal_strlit("message");
    reveal_strlit("data");
    assert("jsonrpc"@.len() == 7 && "id"@.len() == 2 && "method"@.len() == 6 && "params"@.len() == 6
        && "result"@.len() == 6 && "error"@.len() == 5);
    assert("method"@[0] != "params"@[0]);
    assert("method"@[0] != "result"@[0]);
    assert("params"@[0] != "result"@[0]);
    assert("code"@.len() == 4 && "message"@.len() == 7 && "data"@.len() == 4);
    assert("code"@[0] != "data"@[0]);
    let j = m.wire();
    assert(j.get("jsonrpc"@) == Some(JsonView::String("2.0"@)));
    match m {
        Message::Request(q) => {
            q.id.round_trip();
            assert(j.get("id"@) == Some(q.id.wire()));
            assert(j.get("method"@) == Some(JsonView::String(q.method@)));
            assert(j.get("params"@) == wire::opt(q.params));
        },
        Message::Notification(n) => {
            assert(j.get("id"@) is None);
            assert(j.get("method"@) == Some(JsonView::String(n.method@)));
            assert(j.get("params"@) == wire::opt(n.params));
        },
        Message::Response(a) => {
            a.id->0.round_trip();
            assert(j.get("id"@) == Some(a.id->0.wire()));
            assert(j.get("method"@) is None);
            assert(j.get("result"@) == wire::opt(a.result));
            assert(j.get("error"@) == wire::opt(a.error));
            match a.error {
                Some(e) => {
                    assert(e.wire().get("code"@) == Some(e.code.wire()));
                    assert(e.wire().get("message"@) == Some(e.message.wire()));
                    assert(e.wire().get("data"@) == wire::opt(e.data));
                },
                None => {},
            }
        },
    }
}

/// The normal form of what is written of a message is told apart as that message, each
/// value in its normal form.
pub proof fn normal_form_classified(m: Message)
    requires
        complete(m),
    ensures
        classified(written(m@).normal()) == Ok::<MessageView, ParseErrorView>(normal_message(m@)),
{
    broadcast use crate::wire::group_lookup;

    reveal_strlit("jsonrpc");
    reveal_strlit("id");
    reveal_strlit("method");
    reveal_strlit("params");
    reveal_strlit("result");
    reveal_strlit("error");
    reveal_strlit("code");
    reveal_strlit("message");
    reveal_strlit("data");
    assert("jsonrpc"@.len() == 7 && "id"@.len() == 2 && "method"@.len() == 6 && "params"@.len() == 6
        && "result"@.len() == 6 && "error"@.len() == 5);
    assert("method"@[0] != "params"@[0]);
    assert("method"@[0] != "result"@[0]);
    assert("params"@[0] != "result"@[0]);
    assert("code"@.len() == 4 && "message"@.len() == 7 && "data"@.len() == 4);
    assert("code"@[0] != "data"@[0]);
    form_follows(m);
    let j = written(m@);
    json::get_normal(j, "jsonrpc"@);
    json::get_normal(j, "id"@);
    json::get_normal(j, "method"@);
    json::get_normal(j, "params"@);
    json::get_normal(j, "result"@);
    json::get_normal(j, "error"@);
    assert(j.get("jsonrpc"@) == Some(JsonView::String("2.0"@)));
    match m {
        Message::Request(q) => {
            q.id.round_trip();
            assert(j.get("id"@) == Some(q.id.wire()));
            assert(j.get("method"@) == Some(JsonView::String(q.method@)));
            assert(j.get("params"@) == wire::opt(q.params));
        },
        Message::Notification(n) => {
            assert(j.get("id"@) is None);
            assert(j.get("method"@) == Some(JsonView::String(n.method@)));
            assert(j.get("params"@) == wire::opt(n.params));
        },
        Message::Response(a) => {
            a.id->0.round_trip();
            assert(j.get("id"@) == Some(a.id->0.wire()));
            assert(j.get("method"@) is None);
            assert(j.get("result"@) == wire::opt(a.result));
            assert(j.get("error"@) == wire::opt(a.error));
            match a.error {
                Some(e) => {
                    let w = e.wire();
                    json::get_normal(w, "code"@);
                    json::get_normal(w, "message"@);
                    json::get_normal(w, "data"@);
                    assert(w.get("code"@) == Some(e.code.wire()));
                    assert(w.get("message"@) == Some(e.message.wire()));
                    assert(w.get("data"@) == wire::opt(e.data));
                },
                None => {},
            }
        },
    }
}

} // verus!
