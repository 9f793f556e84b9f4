//! Progress tokens, and what a request says about itself.
use vstd::prelude::*;

use crate::json::{Json, JsonView, NumberView};
use crate::jsonrpc::RequestId;
use crate::wire::{Malformed, Wire};
use crate::{text, wire};

verus! {

/// A token by which progress is told apart.
#[derive(Debug, PartialEq, Eq, Hash)]
pub enum ProgressToken {
    Number(i64),
    String(String),
}

impl From<i64> for ProgressToken {
    fn from(v: i64) -> (r: Self) {
        ProgressToken::Number(v)
    }
}

impl vstd::std_specs::convert::FromSpecImpl<i64> for ProgressToken {
    open spec fn obeys_from_spec() -> bool {
        true
    }

    open spec fn from_spec(v: i64) -> Self {
        ProgressToken::Number(v)
    }
}

impl From<&str> for ProgressToken {
    fn from(v: &str) -> (r: Self)
        ensures
            r matches ProgressToken::String(s) && s@ == v@,
    {
        ProgressToken::String(v.to_owned())
    }
}

impl vstd::std_specs::convert::FromSpecImpl<&str> for ProgressToken {
    /// There is no term for the string of a text; the contract of `from` says what it holds.
    open spec fn obeys_from_spec() -> bool {
        false
    }

    open spec fn from_spec(v: &str) -> Self {
        arbitrary()
    }
}

impl From<String> for ProgressToken {
    fn from(v: String) -> (r: Self) {
        ProgressToken::String(v)
    }
}

impl vstd::std_specs::convert::FromSpecImpl<String> for ProgressToken {
    open spec fn obeys_from_spec() -> bool {
        true
    }

    open spec fn from_spec(v: String) -> Self {
        ProgressToken::String(v)
    }
}

impl From<RequestId> for ProgressToken {
    fn from(v: RequestId) -> (r: Self) {
        match v {
            RequestId::Number(n) => ProgressToken::Number(n),
            RequestId::String(s) => ProgressToken::String(s),
        }
    }
}

impl vstd::std_specs::convert::FromSpecImpl<RequestId> for ProgressToken {
    open spec fn obeys_from_spec() -> bool {
        true
    }

    open spec fn from_spec(v: RequestId) -> Self {
        match v {
            RequestId::Number(n) => ProgressToken::Number(n),
            RequestId::String(s) => ProgressToken::String(s),
        }
    }
}

impl ProgressToken {
    /// The token that stands for a request.
    pub fn from_request_id(id: &RequestId) -> (r: Self)
        ensures
            r.wire() == id.wire(),
    {
        match id {
            RequestId::Number(n) => ProgressToken::Number(*n),
            RequestId::String(s) => ProgressToken::String(s.clone()),
        }
    }

    /// The form of the request that a token stands for: text that is a number stands
    /// for that number.
    pub open spec fn request(&self) -> JsonView {
        match self {
            ProgressToken::Number(n) => JsonView::Number(NumberView::Whole(*n as int)),
            ProgressToken::String(s) => match text::parsed_i64(s@) {
                Some(n) => JsonView::Number(NumberView::Whole(n)),
                None => JsonView::String(s@),
            },
        }
    }

    /// The request that a token stands for.
    pub fn to_request_id(&self) -> (r: RequestId)
        ensures
            r.wire() == self.request(),
    {
        match self {
            ProgressToken::Number(n) => RequestId::Number(*n),
            ProgressToken::String(s) => match text::parse_i64(s.as_str()) {
                Some(n) => RequestId::Number(n),
                None => RequestId::String(s.clone()),
            },
        }
    }

    /// The token as text.
    pub open spec fn written(&self) -> Seq<char> {
        match self {
            ProgressToken::Number(n) => text::decimal(*n as int),
            ProgressToken::String(s) => s@,
        }
    }

    /// The token as text.
    pub fn to_text(&self) -> (r: String)
        ensures
            r@ == self.written(),
    {
        match self {
            ProgressToken::Number(n) => text::int_text(*n as i128),
            ProgressToken::String(s) => s.clone(),
        }
    }
}

/// A token made of a request, or of its text, stands for the request: for one whose
/// identity is a number always, for one whose identity is text if that is no number.
pub proof fn token_text_stands_for_request(t: ProgressToken, u: ProgressToken)
    requires
        u is String,
        u->String_0@ == t.written(),
        t is String ==> text::parsed_i64(t->String_0@) is None,
    ensures
        t.request() == t.wire(),
        u.request() == t.wire(),
{
    match t {
        ProgressToken::Number(n) => text::decimal_round_trip(n as int),
        ProgressToken::String(_) => {},
    }
}

impl Clone for ProgressToken {
    fn clone(&self) -> (r: Self)
        ensures
            r.wire() == self.wire(),
    {
        self.duplicate()
    }
}

impl Wire for ProgressToken {
    open spec fn wire(&self) -> JsonView {
        match self {
            ProgressToken::Number(n) => JsonView::Number(NumberView::Whole(*n as int)),
            ProgressToken::String(s) => JsonView::String(s@),
        }
    }

    open spec fn canon(j: JsonView) -> Option<JsonView> {
        match j {
            JsonView::String(s) => Some(JsonView::String(s)),
            _ => match j.whole() {
                Some(n) => Some(JsonView::Number(NumberView::Whole(n))),
                None => None,
            },
        }
    }

    open spec fn faithful(&self) -> bool {
        true
    }

    fn to_json(&self) -> (r: Json) {
        match self {
            ProgressToken::Number(n) => Json::integer(*n),
            ProgressToken::String(s) => Json::String(s.clone()),
        }
    }

    fn from_json(j: &Json) -> (r: Result<Self, Malformed>) {
        match j {
            Json::String(s) => Ok(ProgressToken::String(s.clone())),
            _ => match j.as_i64() {
                Some(n) => Ok(ProgressToken::Number(n)),
                None => Err(Malformed),
            },
        }
    }

    fn duplicate(&self) -> (r: Self) {
        match self {
            ProgressToken::Number(n) => ProgressToken::Number(*n),
            ProgressToken::String(s) => ProgressToken::String(s.clone()),
        }
    }

    proof fn round_trip(&self) {
    }
}

/// What a request says about itself.
#[derive(Debug, PartialEq)]
pub struct RequestParamsMeta {
    pub progress_token: Option<ProgressToken>,
}

impl RequestParamsMeta {
    /// Every member has its default.
    pub open spec fn is_default(&self) -> bool {
        &&& self.progress_token is None
    }
}

impl Default for RequestParamsMeta {
    fn default() -> (r: Self)
        ensures
            r.is_default(),
    {
        RequestParamsMeta {
            progress_token: None,
        }
    }
}

impl Clone for RequestParamsMeta {
    fn clone(&self) -> (r: Self)
        ensures
            r.wire() == self.wire(),
    {
        self.duplicate()
    }
}

impl Wire for RequestParamsMeta {
    open spec fn wire(&self) -> JsonView {
        let o = wire::none();
        let o = wire::with_opt(o, "progressToken"@, wire::opt(self.progress_token));
        JsonView::Object(o)
    }

    open spec fn canon(j: JsonView) -> Option<JsonView> {
        let progress_token = wire::get_opt::<ProgressToken>(j, "progressToken"@, 0);
        if wire::record(j, 1) && progress_token is Some {
            let o = wire::none();
            let o = wire::with_opt(o, "progressToken"@, progress_token->0);
            Some(JsonView::Object(o))
        } else {
            None
        }
    }

    open spec fn faithful(&self) -> bool {
        &&& wire::opt_faithful(self.progress_token)
    }

    fn to_json(&self) -> (r: Json) {
        let mut o = wire::start();
        wire::put_opt(&mut o, "progressToken", &self.progress_token);
        Json::object(o)
    }

    fn from_json(j: &Json) -> (r: Result<Self, Malformed>)
        ensures
            match r {
                Ok(x) => {
                    &&& wire::get_opt::<ProgressToken>(j@, "progressToken"@, 0)
                        == Some(wire::opt(x.progress_token))
                },
                Err(_) => true,
            },
    {
        if !wire::is_record(j, 1) {
            return Err(Malformed);
        }
        let progress_token = wire::read_opt::<ProgressToken>(j, "progressToken", 0)?;
        Ok(RequestParamsMeta { progress_token })
    }

    fn duplicate(&self) -> (r: Self)
        ensures
            wire::opt(r.progress_token) == wire::opt(self.progress_token),
    {
        RequestParamsMeta {
            progress_token: wire::duplicate_opt(&self.progress_token),
        }
    }

    proof fn round_trip(&self) {
        broadcast use crate::wire::group_lookup;

        wire::opt_round_trip(self.progress_token);
    }
}

} // verus!
