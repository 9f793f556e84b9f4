//! The parameters of requests and notifications.
use vstd::prelude::*;

use crate::json::{Json, JsonView, NumberView};
use crate::jsonrpc::RequestId;
use crate::text::str_eq;
use crate::types::completion::{CompleteReference, CompletionArgument, CompletionContext};
use crate::types::meta::{ProgressToken, RequestParamsMeta};
use crate::wire::{Malformed, MetaMap, Real, Wire};
use crate::wire;

verus! {

/// The parameters of a call of a tool.
#[derive(Debug, PartialEq)]
pub struct CallToolParams {
    pub name: String,
    pub arguments: Option<Json>,
    pub meta: Option<RequestParamsMeta>,
}

impl CallToolParams {
    /// Every member has its default.
    pub open spec fn is_default(&self) -> bool {
        &&& self.name@.len() == 0
        &&& self.arguments is None
        &&& self.meta is None
    }
}

impl Default for CallToolParams {
    fn default() -> (r: Self)
        ensures
            r.is_default(),
    {
        CallToolParams {
            name: String::new(),
            arguments: None,
            meta: None,
        }
    }
}

impl Clone for CallToolParams {
    fn clone(&self) -> (r: Self)
        ensures
            r.wire() == self.wire(),
    {
        self.duplicate()
    }
}

impl Wire for CallToolParams {
    open spec fn wire(&self) -> JsonView {
        let o = wire::none();
        let o = wire::with(o, "name"@, self.name.wire());
        let o = wire::with_opt(o, "arguments"@, wire::opt(self.arguments));
        let o = wire::with_opt(o, "_meta"@, wire::opt(self.meta));
        JsonView::Object(o)
    }

    open spec fn canon(j: JsonView) -> Option<JsonView> {
        let name = wire::get::<String>(j, "name"@, 0);
        let arguments = wire::get_opt::<Json>(j, "arguments"@, 1);
        let meta = wire::get_opt::<RequestParamsMeta>(j, "_meta"@, 2);
        if wire::record(j, 3) && name is Some && arguments is Some && meta is Some {
            let o = wire::none();
            let o = wire::with(o, "name"@, name->0);
            let o = wire::with_opt(o, "arguments"@, arguments->0);
            let o = wire::with_opt(o, "_meta"@, meta->0);
            Some(JsonView::Object(o))
        } else {
            None
        }
    }

    open spec fn faithful(&self) -> bool {
        &&& self.name.faithful()
        &&& wire::opt_faithful(self.arguments)
        &&& wire::opt_faithful(self.meta)
    }

    fn to_json(&self) -> (r: Json) {
        let mut o = wire::start();
        wire::put(&mut o, "name", &self.name);
        wire::put_opt(&mut o, "arguments", &self.arguments);
        wire::put_opt(&mut o, "_meta", &self.meta);
        Json::object(o)
    }

    fn from_json(j: &Json) -> (r: Result<Self, Malformed>)
        ensures
            match r {
                Ok(x) => {
                    &&& wire::get::<String>(j@, "name"@, 0) == Some(x.name.wire())
                    &&& wire::get_opt::<Json>(j@, "arguments"@, 1) == Some(wire::opt(x.arguments))
                    &&& wire::get_opt::<RequestParamsMeta>(j@, "_meta"@, 2)
                        == Some(wire::opt(x.meta))
                },
                Err(_) => true,
            },
    {
        if !wire::is_record(j, 3) {
            return Err(Malformed);
        }
        let name = wire::read::<String>(j, "name", 0)?;
        let arguments = wire::read_opt::<Json>(j, "arguments", 1)?;
        let meta = wire::read_opt::<RequestParamsMeta>(j, "_meta", 2)?;
        Ok(CallToolParams { name, arguments, meta })
    }

    fn duplicate(&self) -> (r: Self)
        ensures
            r.name.wire() == self.name.wire(),
            wire::opt(r.arguments) == wire::opt(self.arguments),
            wire::opt(r.meta) == wire::opt(self.meta),
    {
        CallToolParams {
            name: self.name.duplicate(),
            arguments: wire::duplicate_opt(&self.arguments),
            meta: wire::duplicate_opt(&self.meta),
        }
    }

    proof fn round_trip(&self) {
        broadcast use crate::wire::group_lookup;

        reveal_strlit("name");
        reveal_strlit("arguments");
        reveal_strlit("_meta");
        assert("name"@.len() == 4 && "arguments"@.len() == 9 && "_meta"@.len() == 5);
        wire::opt_round_trip(self.arguments);
        wire::opt_round_trip(self.meta);
    }
}

/// The parameters of a request for a prompt.
#[derive(Debug, PartialEq)]
pub struct GetPromptParams {
    pub name: String,
    pub arguments: Option<Json>,
    pub meta: Option<RequestParamsMeta>,
}

impl GetPromptParams {
    /// Every member has its default.
    pub open spec fn is_default(&self) -> bool {
        &&& self.name@.len() == 0
        &&& self.arguments is None
        &&& self.meta is None
    }
}

impl Default for GetPromptParams {
    fn default() -> (r: Self)
        ensures
            r.is_default(),
    {
        GetPromptParams {
            name: String::new(),
            arguments: None,
            meta: None,
        }
    }
}

impl Clone for GetPromptParams {
    fn clone(&self) -> (r: Self)
        ensures
            r.wire() == self.wire(),
    {
        self.duplicate()
    }
}

impl Wire for GetPromptParams {
    open spec fn wire(&self) -> JsonView {
        let o = wire::none();
        let o = wire::with(o, "name"@, self.name.wire());
        let o = wire::with_opt(o, "arguments"@, wire::opt(self.arguments));
        let o = wire::with_opt(o, "_meta"@, wire::opt(self.meta));
        JsonView::Object(o)
    }

    open spec fn canon(j: JsonView) -> Option<JsonView> {
        let name = wire::get::<String>(j, "name"@, 0);
        let arguments = wire::get_opt::<Json>(j, "arguments"@, 1);
        let meta = wire::get_opt::<RequestParamsMeta>(j, "_meta"@, 2);
        if wire::record(j, 3) && name is Some && arguments is Some && meta is Some {
            let o = wire::none();
            let o = wire::with(o, "name"@, name->0);
            let o = wire::with_opt(o, "arguments"@, arguments->0);
            let o = wire::with_opt(o, "_meta"@, meta->0);
            Some(JsonView::Object(o))
        } else {
            None
        }
    }

    open spec fn faithful(&self) -> bool {
        &&& self.name.faithful()
        &&& wire::opt_faithful(self.arguments)
        &&& wire::opt_faithful(self.meta)
    }

    fn to_json(&self) -> (r: Json) {
        let mut o = wire::start();
        wire::put(&mut o, "name", &self.name);
        wire::put_opt(&mut o, "arguments", &self.arguments);
        wire::put_opt(&mut o, "_meta", &self.meta);
        Json::object(o)
    }

    fn from_json(j: &Json) -> (r: Result<Self, Malformed>)
        ensures
            match r {
                Ok(x) => {
                    &&& wire::get::<String>(j@, "name"@, 0) == Some(x.name.wire())
                    &&& wire::get_opt::<Json>(j@, "arguments"@, 1) == Some(wire::opt(x.arguments))
                    &&& wire::get_opt::<RequestParamsMeta>(j@, "_meta"@, 2)
                        == Some(wire::opt(x.meta))
                },
                Err(_) => true,
            },
    {
        if !wire::is_record(j, 3) {
            return Err(Malformed);
        }
        let name = wire::read::<String>(j, "name", 0)?;
        let arguments = wire::read_opt::<Json>(j, "arguments", 1)?;
        let meta = wire::read_opt::<RequestParamsMeta>(j, "_meta", 2)?;
        Ok(GetPromptParams { name, arguments, meta })
    }

    fn duplicate(&self) -> (r: Self)
        ensures
            r.name.wire() == self.name.wire(),
            wire::opt(r.arguments) == wire::opt(self.arguments),
            wire::opt(r.meta) == wire::opt(self.meta),
    {
        GetPromptParams {
            name: self.name.duplicate(),
            arguments: wire::duplicate_opt(&self.arguments),
            meta: wire::duplicate_opt(&self.meta),
        }
    }

    proof fn round_trip(&self) {
        broadcast use crate::wire::group_lookup;

        reveal_strlit("name");
        reveal_strlit("arguments");
        reveal_strlit("_meta");
        assert("name"@.len() == 4 && "arguments"@.len() == 9 && "_meta"@.len() == 5);
        wire::opt_round_trip(self.arguments);
        wire::opt_round_trip(self.meta);
    }
}

/// The parameters of a request about a resource.
#[derive(Debug, PartialEq)]
pub struct UriParams {
    pub uri: String,
    pub meta: Option<RequestParamsMeta>,
}

impl UriParams {
    /// Every member has its default.
    pub open spec fn is_default(&self) -> bool {
        &&& self.uri@.len() == 0
        &&& self.meta is None
    }
}

impl Default for UriParams {
    fn default() -> (r: Self)
        ensures
            r.is_default(),
    {
        UriParams {
            uri: String::new(),
            meta: None,
        }
    }
}

impl Clone for UriParams {
    fn clone(&self) -> (r: Self)
        ensures
            r.wire() == self.wire(),
    {
        self.duplicate()
    }
}

impl Wire for UriParams {
    open spec fn wire(&self) -> JsonView {
        let o = wire::none();
        let o = wire::with(o, "uri"@, self.uri.wire());
        let o = wire::with_opt(o, "_meta"@, wire::opt(self.meta));
        JsonView::Object(o)
    }

    open spec fn canon(j: JsonView) -> Option<JsonView> {
        let uri = wire::get::<String>(j, "uri"@, 0);
        let meta = wire::get_opt::<RequestParamsMeta>(j, "_meta"@, 1);
        if wire::record(j, 2) && uri is Some && meta is Some {
            let o = wire::none();
            let o = wire::with(o, "uri"@, uri->0);
            let o = wire::with_opt(o, "_meta"@, meta->0);
            Some(JsonView::Object(o))
        } else {
            None
        }
    }

    open spec fn faithful(&self) -> bool {
        &&& self.uri.faithful()
        &&& wire::opt_faithful(self.meta)
    }

    fn to_json(&self) -> (r: Json) {
        let mut o = wire::start();
        wire::put(&mut o, "uri", &self.uri);
        wire::put_opt(&mut o, "_meta", &self.meta);
        Json::object(o)
    }

    fn from_json(j: &Json) -> (r: Result<Self, Malformed>)
        ensures
            match r {
                Ok(x) => {
                    &&& wire::get::<String>(j@, "uri"@, 0) == Some(x.uri.wire())
                    &&& wire::get_opt::<RequestParamsMeta>(j@, "_meta"@, 1)
                        == Some(wire::opt(x.meta))
                },
                Err(_) => true,
            },
    {
        if !wire::is_record(j, 2) {
            return Err(Malformed);
        }
        let uri = wire::read::<String>(j, "uri", 0)?;
        let meta = wire::read_opt::<RequestParamsMeta>(j, "_meta", 1)?;
        Ok(UriParams { uri, meta })
    }

    fn duplicate(&self) -> (r: Self)
        ensures
            r.uri.wire() == self.uri.wire(),
            wire::opt(r.meta) == wire::opt(self.meta),
    {
        UriParams {
            uri: self.uri.duplicate(),
            meta: wire::duplicate_opt(&self.meta),
        }
    }

    proof fn round_trip(&self) {
        broadcast use crate::wire::group_lookup;

        reveal_strlit("uri");
        reveal_strlit("_meta");
        assert("uri"@.len() == 3 && "_meta"@.len() == 5);
        wire::opt_round_trip(self.meta);
    }
}

/// The parameters of a request to read a resource.
pub type ReadResourceParams = UriParams;

/// The parameters of a request to hear of changes of a resource.
pub type SubscribeParams = UriParams;

/// The parameters of a request to hear no more of a resource.
pub type UnsubscribeParams = UriParams;

/// The parameters of a request for one page of a list.
#[derive(Debug, PartialEq)]
pub struct PaginatedParams {
    pub cursor: Option<String>,
    pub meta: Option<RequestParamsMeta>,
}

impl PaginatedParams {
    /// Every member has its default.
    pub open spec fn is_default(&self) -> bool {
        &&& self.cursor is None
        &&& self.meta is None
    }
}

impl Default for PaginatedParams {
    fn default() -> (r: Self)
        ensures
            r.is_default(),
    {
        PaginatedParams {
            cursor: None,
            meta: None,
        }
    }
}

impl Clone for PaginatedParams {
    fn clone(&self) -> (r: Self)
        ensures
            r.wire() == self.wire(),
    {
        self.duplicate()
    }
}

impl Wire for PaginatedParams {
    open spec fn wire(&self) -> JsonView {
        let o = wire::none();
        let o = wire::with_opt(o, "cursor"@, wire::opt(self.cursor));
        let o = wire::with_opt(o, "_meta"@, wire::opt(self.meta));
        JsonView::Object(o)
    }

    open spec fn canon(j: JsonView) -> Option<JsonView> {
        let cursor = wire::get_opt::<String>(j, "cursor"@, 0);
        let meta = wire::get_opt::<RequestParamsMeta>(j, "_meta"@, 1);
        if wire::record(j, 2) && cursor is Some && meta is Some {
            let o = wire::none();
            let o = wire::with_opt(o, "cursor"@, cursor->0);
            let o = wire::with_opt(o, "_meta"@, meta->0);
            Some(JsonView::Object(o))
        } else {
            None
        }
    }

    open spec fn faithful(&self) -> bool {
        &&& wire::opt_faithful(self.cursor)
        &&& wire::opt_faithful(self.meta)
    }

    fn to_json(&self) -> (r: Json) {
        let mut o = wire::start();
        wire::put_opt(&mut o, "cursor", &self.cursor);
        wire::put_opt(&mut o, "_meta", &self.meta);
        Json::object(o)
    }

    fn from_json(j: &Json) -> (r: Result<Self, Malformed>)
        ensures
            match r {
                Ok(x) => {
                    &&& wire::get_opt::<String>(j@, "cursor"@, 0) == Some(wire::opt(x.cursor))
                    &&& wire::get_opt::<RequestParamsMeta>(j@, "_meta"@, 1)
                        == Some(wire::opt(x.meta))
                },
                Err(_) => true,
            },
    {
        if !wire::is_record(j, 2) {
            return Err(Malformed);
        }
        let cursor = wire::read_opt::<String>(j, "cursor", 0)?;
        let meta = wire::read_opt::<RequestParamsMeta>(j, "_meta", 1)?;
        Ok(PaginatedParams { cursor, meta })
    }

    fn duplicate(&self) -> (r: Self)
        ensures
            wire::opt(r.cursor) == wire::opt(self.cursor),
            wire::opt(r.meta) == wire::opt(self.meta),
    {
        PaginatedParams {
            cursor: wire::duplicate_opt(&self.cursor),
            meta: wire::duplicate_opt(&self.meta),
        }
    }

    proof fn round_trip(&self) {
        broadcast use crate::wire::group_lookup;

        reveal_strlit("cursor");
        reveal_strlit("_meta");
        assert("cursor"@.len() == 6 && "_meta"@.len() == 5);
        wire::opt_round_trip(self.cursor);
        wire::opt_round_trip(self.meta);
    }
}

/// The parameters of a request for log messages.
#[derive(Debug, PartialEq)]
pub struct SetLoggingLevelParams {
    pub level: String,
}

impl SetLoggingLevelParams {
    /// Every member has its default.
    pub open spec fn is_default(&self) -> bool {
        &&& self.level@.len() == 0
    }
}

impl Default for SetLoggingLevelParams {
    fn default() -> (r: Self)
        ensures
            r.is_default(),
    {
        SetLoggingLevelParams {
            level: String::new(),
        }
    }
}

impl Clone for SetLoggingLevelParams {
    fn clone(&self) -> (r: Self)
        ensures
            r.wire() == self.wire(),
    {
        self.duplicate()
    }
}

impl Wire for SetLoggingLevelParams {
    open spec fn wire(&self) -> JsonView {
        let o = wire::none();
        let o = wire::with(o, "level"@, self.level.wire());
        JsonView::Object(o)
    }

    open spec fn canon(j: JsonView) -> Option<JsonView> {
        let level = wire::get::<String>(j, "level"@, 0);
        if wire::record(j, 1) && level is Some {
            let o = wire::none();
            let o = wire::with(o, "level"@, level->0);
            Some(JsonView::Object(o))
        } else {
            None
        }
    }

    open spec fn faithful(&self) -> bool {
        &&& self.level.faithful()
    }

    fn to_json(&self) -> (r: Json) {
        let mut o = wire::start();
        wire::put(&mut o, "level", &self.level);
        Json::object(o)
    }

    fn from_json(j: &Json) -> (r: Result<Self, Malformed>)
        ensures
            match r {
                Ok(x) => {
                    &&& wire::get::<String>(j@, "level"@, 0) == Some(x.level.wire())
                },
                Err(_) => true,
            },
    {
        if !wire::is_record(j, 1) {
            return Err(Malformed);
        }
        let level = wire::read::<String>(j, "level", 0)?;
        Ok(SetLoggingLevelParams { level })
    }

    fn duplicate(&self) -> (r: Self)
        ensures
            r.level.wire() == self.level.wire(),
    {
        SetLoggingLevelParams {
            level: self.level.duplicate(),
        }
    }

    proof fn round_trip(&self) {
        broadcast use crate::wire::group_lookup;

    }
}

/// What a user is asked.
#[derive(Debug, PartialEq)]
pub enum ElicitParams {
    /// To fill in a form.
    Form { message: String, requested_schema: MetaMap },
    /// To visit a page.
    Url { message: String, url: String, elicitation_id: String },
}

impl Clone for ElicitParams {
    fn clone(&self) -> (r: Self)
        ensures
            r.wire() == self.wire(),
    {
        self.duplicate()
    }
}

impl Wire for ElicitParams {
    open spec fn wire(&self) -> JsonView {
        match self {
            ElicitParams::Form { message, requested_schema } => {
                let o = wire::with(wire::none(), "mode"@, JsonView::String("form"@));
                let o = wire::with(o, "message"@, message.wire());
                let o = wire::with(o, "requestedSchema"@, requested_schema.wire());
                JsonView::Object(o)
            },
            ElicitParams::Url { message, url, elicitation_id } => {
                let o = wire::with(wire::none(), "mode"@, JsonView::String("url"@));
                let o = wire::with(o, "message"@, message.wire());
                let o = wire::with(o, "url"@, url.wire());
                let o = wire::with(o, "elicitationId"@, elicitation_id.wire());
                JsonView::Object(o)
            },
        }
    }

    open spec fn canon(j: JsonView) -> Option<JsonView> {
        let b = wire::untagged(j);
        let message = wire::get::<String>(b, "message"@, 0);
        let requested_schema = wire::get::<MetaMap>(b, "requestedSchema"@, 1);
        let url = wire::get::<String>(b, "url"@, 1);
        let elicitation_id = wire::get::<String>(b, "elicitationId"@, 2);
        match wire::tag(j, "mode"@) {
            Some(t) => if t == "form"@ {
                if wire::record(b, 2) && message is Some && requested_schema is Some {
                    let o = wire::with(wire::none(), "mode"@, JsonView::String("form"@));
                    let o = wire::with(o, "message"@, message->0);
                    let o = wire::with(o, "requestedSchema"@, requested_schema->0);
                    Some(JsonView::Object(o))
                } else {
                    None
                }
            } else if t == "url"@ {
                if wire::record(b, 3) && message is Some && url is Some && elicitation_id is Some {
                    let o = wire::with(wire::none(), "mode"@, JsonView::String("url"@));
                    let o = wire::with(o, "message"@, message->0);
                    let o = wire::with(o, "url"@, url->0);
                    let o = wire::with(o, "elicitationId"@, elicitation_id->0);
                    Some(JsonView::Object(o))
                } else {
                    None
                }
            } else {
                None
            },
            None => None,
        }
    }

    open spec fn faithful(&self) -> bool {
        true
    }

    fn to_json(&self) -> (r: Json) {
        let mut o = wire::start();
        match self {
            ElicitParams::Form { message, requested_schema } => {
                wire::put_json(&mut o, "mode", Json::string("form"));
                wire::put(&mut o, "message", message);
                wire::put(&mut o, "requestedSchema", requested_schema);
            },
            ElicitParams::Url { message, url, elicitation_id } => {
                wire::put_json(&mut o, "mode", Json::string("url"));
                wire::put(&mut o, "message", message);
                wire::put(&mut o, "url", url);
                wire::put(&mut o, "elicitationId", elicitation_id);
            },
        }
        Json::object(o)
    }

    fn from_json(j: &Json) -> (r: Result<Self, Malformed>)
        ensures
            match r {
                Ok(x) => {
                    let b = wire::untagged(j@);
                    match x {
                        ElicitParams::Form { message, requested_schema } => {
                            &&& wire::tag(j@, "mode"@) == Some("form"@)
                            &&& wire::get::<String>(b, "message"@, 0) == Some(message.wire())
                            &&& wire::get::<MetaMap>(b, "requestedSchema"@, 1) == Some(
                                requested_schema.wire(),
                            )
                        },
                        ElicitParams::Url { message, url, elicitation_id } => {
                            &&& wire::tag(j@, "mode"@) == Some("url"@)
                            &&& wire::get::<String>(b, "message"@, 0) == Some(message.wire())
                            &&& wire::get::<String>(b, "url"@, 1) == Some(url.wire())
                            &&& wire::get::<String>(b, "elicitationId"@, 2) == Some(
                                elicitation_id.wire(),
                            )
                        },
                    }
                },
                Err(_) => true,
            },
    {
        let t = match wire::read_tag(j, "mode") {
            Some(t) => t,
            None => {
                return Err(Malformed);
            },
        };
        let b = wire::read_untagged(j);
        if str_eq(t.as_str(), "form") {
            if !wire::is_record(&b, 2) {
                return Err(Malformed);
            }
            let message = wire::read::<String>(&b, "message", 0)?;
            let requested_schema = wire::read::<MetaMap>(&b, "requestedSchema", 1)?;
            Ok(ElicitParams::Form { message, requested_schema })
        } else if str_eq(t.as_str(), "url") {
            if !wire::is_record(&b, 3) {
                return Err(Malformed);
            }
            let message = wire::read::<String>(&b, "message", 0)?;
            let url = wire::read::<String>(&b, "url", 1)?;
            let elicitation_id = wire::read::<String>(&b, "elicitationId", 2)?;
            Ok(ElicitParams::Url { message, url, elicitation_id })
        } else {
            Err(Malformed)
        }
    }

    fn duplicate(&self) -> (r: Self) {
        match self {
            ElicitParams::Form { message, requested_schema } => ElicitParams::Form {
                message: message.clone(),
                requested_schema: requested_schema.duplicate(),
            },
            ElicitParams::Url { message, url, elicitation_id } => ElicitParams::Url {
                message: message.clone(),
                url: url.clone(),
                elicitation_id: elicitation_id.clone(),
            },
        }
    }

    proof fn round_trip(&self) {
        broadcast use crate::wire::group_lookup;

        reveal_strlit("form");
        reveal_strlit("url");
        reveal_strlit("mode");
        reveal_strlit("message");
        reveal_strlit("requestedSchema");
        reveal_strlit("elicitationId");
        assert("form"@.len() == 4 && "url"@.len() == 3 && "mode"@.len() == 4
            && "message"@.len() == 7
            && "requestedSchema"@.len() == 15 && "elicitationId"@.len() == 13);
    }
}

/// The parameters of a request for completions.
#[derive(Debug, PartialEq)]
pub struct CompleteRequestParams {
    pub reference: CompleteReference,
    pub argument: CompletionArgument,
    pub context: Option<CompletionContext>,
}

impl Clone for CompleteRequestParams {
    fn clone(&self) -> (r: Self)
        ensures
            r.wire() == self.wire(),
    {
        self.duplicate()
    }
}

impl Wire for CompleteRequestParams {
    open spec fn wire(&self) -> JsonView {
        let o = wire::none();
        let o = wire::with(o, "ref"@, self.reference.wire());
        let o = wire::with(o, "argument"@, self.argument.wire());
        let o = wire::with_opt(o, "context"@, wire::opt(self.context));
        JsonView::Object(o)
    }

    open spec fn canon(j: JsonView) -> Option<JsonView> {
        let reference = wire::get::<CompleteReference>(j, "ref"@, 0);
        let argument = wire::get::<CompletionArgument>(j, "argument"@, 1);
        let context = wire::get_opt::<CompletionContext>(j, "context"@, 2);
        if wire::record(j, 3) && reference is Some && argument is Some && context is Some {
            let o = wire::none();
            let o = wire::with(o, "ref"@, reference->0);
            let o = wire::with(o, "argument"@, argument->0);
            let o = wire::with_opt(o, "context"@, context->0);
            Some(JsonView::Object(o))
        } else {
            None
        }
    }

    open spec fn faithful(&self) -> bool {
        &&& self.reference.faithful()
        &&& self.argument.faithful()
        &&& wire::opt_faithful(self.context)
    }

    fn to_json(&self) -> (r: Json) {
        let mut o = wire::start();
        wire::put(&mut o, "ref", &self.reference);
        wire::put(&mut o, "argument", &self.argument);
        wire::put_opt(&mut o, "context", &self.context);
        Json::object(o)
    }

    fn from_json(j: &Json) -> (r: Result<Self, Malformed>)
        ensures
            match r {
                Ok(x) => {
                    &&& wire::get::<CompleteReference>(j@, "ref"@, 0) == Some(x.reference.wire())
                    &&& wire::get::<CompletionArgument>(j@, "argument"@, 1)
                        == Some(x.argument.wire())
                    &&& wire::get_opt::<CompletionContext>(j@, "context"@, 2)
                        == Some(wire::opt(x.context))
                },
                Err(_) => true,
            },
    {
        if !wire::is_record(j, 3) {
            return Err(Malformed);
        }
        let reference = wire::read::<CompleteReference>(j, "ref", 0)?;
        let argument = wire::read::<CompletionArgument>(j, "argument", 1)?;
        let context = wire::read_opt::<CompletionContext>(j, "context", 2)?;
        Ok(CompleteRequestParams { reference, argument, context })
    }

    fn duplicate(&self) -> (r: Self)
        ensures
            r.reference.wire() == self.reference.wire(),
            r.argument.wire() == self.argument.wire(),
            wire::opt(r.context) == wire::opt(self.context),
    {
        CompleteRequestParams {
            reference: self.reference.duplicate(),
            argument: self.argument.duplicate(),
            context: wire::duplicate_opt(&self.context),
        }
    }

    proof fn round_trip(&self) {
        broadcast use crate::wire::group_lookup;

        reveal_strlit("ref");
        reveal_strlit("argument");
        reveal_strlit("context");
        assert("ref"@.len() == 3 && "argument"@.len() == 8 && "context"@.len() == 7);
        self.reference.round_trip();
        self.argument.round_trip();
        wire::opt_round_trip(self.context);
    }
}

/// The parameters of the word that a request is given up.
#[derive(Debug, PartialEq)]
pub struct CancelledNotificationParams {
    pub request_id: RequestId,
    pub reason: String,
}

impl Clone for CancelledNotificationParams {
    fn clone(&self) -> (r: Self)
        ensures
            r.wire() == self.wire(),
    {
        self.duplicate()
    }
}

impl Wire for CancelledNotificationParams {
    open spec fn wire(&self) -> JsonView {
        let o = wire::none();
        let o = wire::with(o, "requestId"@, self.request_id.wire());
        let o = wire::with(o, "reason"@, self.reason.wire());
        JsonView::Object(o)
    }

    open spec fn canon(j: JsonView) -> Option<JsonView> {
        let request_id = wire::get::<RequestId>(j, "requestId"@, 0);
        let reason = wire::get_or::<String>(j, "reason"@, 1, JsonView::String(seq![]));
        if wire::record(j, 2) && request_id is Some && reason is Some {
            let o = wire::none();
            let o = wire::with(o, "requestId"@, request_id->0);
            let o = wire::with(o, "reason"@, reason->0);
            Some(JsonView::Object(o))
        } else {
            None
        }
    }

    open spec fn faithful(&self) -> bool {
        &&& self.request_id.faithful()
        &&& self.reason.faithful()
    }

    fn to_json(&self) -> (r: Json) {
        let mut o = wire::start();
        wire::put(&mut o, "requestId", &self.request_id);
        wire::put(&mut o, "reason", &self.reason);
        Json::object(o)
    }

    fn from_json(j: &Json) -> (r: Result<Self, Malformed>)
        ensures
            match r {
                Ok(x) => {
                    &&& wire::get::<RequestId>(j@, "requestId"@, 0) == Some(x.request_id.wire())
                    &&& wire::get_or::<String>(j@, "reason"@, 1, JsonView::String(seq![]))
                        == Some(x.reason.wire())
                },
                Err(_) => true,
            },
    {
        if !wire::is_record(j, 2) {
            return Err(Malformed);
        }
        let request_id = wire::read::<RequestId>(j, "requestId", 0)?;
        let d_reason: String = String::new();
        assert(d_reason@ =~= seq![]);
        let reason = wire::read_or::<String>(j, "reason", 1, d_reason)?;
        Ok(CancelledNotificationParams { request_id, reason })
    }

    fn duplicate(&self) -> (r: Self)
        ensures
            r.request_id.wire() == self.request_id.wire(),
            r.reason.wire() == self.reason.wire(),
    {
        CancelledNotificationParams {
            request_id: self.request_id.duplicate(),
            reason: self.reason.duplicate(),
        }
    }

    proof fn round_trip(&self) {
        broadcast use crate::wire::group_lookup;

        reveal_strlit("requestId");
        reveal_strlit("reason");
        assert("requestId"@.len() == 9 && "reason"@.len() == 6);
        self.request_id.round_trip();
    }
}

/// The parameters of the word on how far a request has come.
#[derive(Debug, PartialEq)]
pub struct ProgressNotificationParams {
    pub progress_token: ProgressToken,
    pub progress: Real,
    pub total: Option<Real>,
    pub message: Option<String>,
}

impl Clone for ProgressNotificationParams {
    fn clone(&self) -> (r: Self)
        ensures
            r.wire() == self.wire(),
    {
        self.duplicate()
    }
}

impl Wire for ProgressNotificationParams {
    open spec fn wire(&self) -> JsonView {
        let o = wire::none();
        let o = wire::with(o, "progressToken"@, self.progress_token.wire());
        let o = wire::with(o, "progress"@, self.progress.wire());
        let o = wire::with_opt(o, "total"@, wire::opt(self.total));
        let o = wire::with_opt(o, "message"@, wire::opt(self.message));
        JsonView::Object(o)
    }

    open spec fn canon(j: JsonView) -> Option<JsonView> {
        let progress_token = wire::get::<ProgressToken>(j, "progressToken"@, 0);
        let progress = wire::get_or::<Real>(j, "progress"@, 1, JsonView::Number(NumberView::Double(0)));
        let total = wire::get_opt::<Real>(j, "total"@, 2);
        let message = wire::get_opt::<String>(j, "message"@, 3);
        if wire::record(j, 4) && progress_token is Some && progress is Some && total is Some
            && message is Some {
            let o = wire::none();
            let o = wire::with(o, "progressToken"@, progress_token->0);
            let o = wire::with(o, "progress"@, progress->0);
            let o = wire::with_opt(o, "total"@, total->0);
            let o = wire::with_opt(o, "message"@, message->0);
            Some(JsonView::Object(o))
        } else {
            None
        }
    }

    open spec fn faithful(&self) -> bool {
        &&& self.progress_token.faithful()
        &&& self.progress.faithful()
        &&& wire::opt_faithful(self.total)
        &&& wire::opt_faithful(self.message)
    }

    fn to_json(&self) -> (r: Json) {
        let mut o = wire::start();
        wire::put(&mut o, "progressToken", &self.progress_token);
        wire::put(&mut o, "progress", &self.progress);
        wire::put_opt(&mut o, "total", &self.total);
        wire::put_opt(&mut o, "message", &self.message);
        Json::object(o)
    }

    fn from_json(j: &Json) -> (r: Result<Self, Malformed>)
        ensures
            match r {
                Ok(x) => {
                    &&& wire::get::<ProgressToken>(j@, "progressToken"@, 0)
                        == Some(x.progress_token.wire())
                    &&& wire::get_or::<Real>(j@, "progress"@, 1, JsonView::Number(NumberView::Double(0)))
                        == Some(x.progress.wire())
                    &&& wire::get_opt::<Real>(j@, "total"@, 2) == Some(wire::opt(x.total))
                    &&& wire::get_opt::<String>(j@, "message"@, 3) == Some(wire::opt(x.message))
                },
                Err(_) => true,
            },
    {
        if !wire::is_record(j, 4) {
            return Err(Malformed);
        }
        let progress_token = wire::read::<ProgressToken>(j, "progressToken", 0)?;
        let d_progress: Real = Real { bits: 0 };
        
        let progress = wire::read_or::<Real>(j, "progress", 1, d_progress)?;
        let total = wire::read_opt::<Real>(j, "total", 2)?;
        let message = wire::read_opt::<String>(j, "message", 3)?;
        Ok(ProgressNotificationParams { progress_token, progress, total, message })
    }

    fn duplicate(&self) -> (r: Self)
        ensures
            r.progress_token.wire() == self.progress_token.wire(),
            r.progress.wire() == self.progress.wire(),
            wire::opt(r.total) == wire::opt(self.total),
            wire::opt(r.message) == wire::opt(self.message),
    {
        ProgressNotificationParams {
            progress_token: self.progress_token.duplicate(),
            progress: self.progress.duplicate(),
            total: wire::duplicate_opt(&self.total),
            message: wire::duplicate_opt(&self.message),
        }
    }

    proof fn round_trip(&self) {
        broadcast use crate::wire::group_lookup;

        reveal_strlit("progressToken");
        reveal_strlit("progress");
        reveal_strlit("total");
        reveal_strlit("message");
        assert("progressToken"@.len() == 13 && "progress"@.len() == 8 && "total"@.len() == 5
            && "message"@.len() == 7);
        self.progress_token.round_trip();
        wire::opt_round_trip(self.total);
        wire::opt_round_trip(self.message);
    }
}

/// The parameters of a log message.
#[derive(Debug, PartialEq)]
pub struct LoggingMessageNotificationParams {
    pub level: String,
    pub logger: String,
    pub data: Json,
}

impl LoggingMessageNotificationParams {
    /// Every member has its default.
    pub open spec fn is_default(&self) -> bool {
        &&& self.level@.len() == 0
        &&& self.logger@.len() == 0
        &&& self.data@ is Null
    }
}

impl Default for LoggingMessageNotificationParams {
    fn default() -> (r: Self)
        ensures
            r.is_default(),
    {
        LoggingMessageNotificationParams {
            level: String::new(),
            logger: String::new(),
            data: Json::Null,
        }
    }
}

impl Clone for LoggingMessageNotificationParams {
    fn clone(&self) -> (r: Self)
        ensures
            r.wire() == self.wire(),
    {
        self.duplicate()
    }
}

impl Wire for LoggingMessageNotificationParams {
    open spec fn wire(&self) -> JsonView {
        let o = wire::none();
        let o = wire::with(o, "level"@, self.level.wire());
        let o = wire::with(o, "logger"@, self.logger.wire());
        let o = wire::with(o, "data"@, self.data.wire());
        JsonView::Object(o)
    }

    open spec fn canon(j: JsonView) -> Option<JsonView> {
        let level = wire::get_or::<String>(j, "level"@, 0, JsonView::String(seq![]));
        let logger = wire::get_or::<String>(j, "logger"@, 1, JsonView::String(seq![]));
        let data = wire::get_or::<Json>(j, "data"@, 2, JsonView::Null);
        if wire::record(j, 3) && level is Some && logger is Some && data is Some {
            let o = wire::none();
            let o = wire::with(o, "level"@, level->0);
            let o = wire::with(o, "logger"@, logger->0);
            let o = wire::with(o, "data"@, data->0);
            Some(JsonView::Object(o))
        } else {
            None
        }
    }

    open spec fn faithful(&self) -> bool {
        &&& self.level.faithful()
        &&& self.logger.faithful()
        &&& self.data.faithful()
    }

    fn to_json(&self) -> (r: Json) {
        let mut o = wire::start();
        wire::put(&mut o, "level", &self.level);
        wire::put(&mut o, "logger", &self.logger);
        wire::put(&mut o, "data", &self.data);
        Json::object(o)
    }

    fn from_json(j: &Json) -> (r: Result<Self, Malformed>)
        ensures
            match r {
                Ok(x) => {
                    &&& wire::get_or::<String>(j@, "level"@, 0, JsonView::String(seq![]))
                        == Some(x.level.wire())
                    &&& wire::get_or::<String>(j@, "logger"@, 1, JsonView::String(seq![]))
                        == Some(x.logger.wire())
                    &&& wire::get_or::<Json>(j@, "data"@, 2, JsonView::Null) == Some(x.data.wire())
                },
                Err(_) => true,
            },
    {
        if !wire::is_record(j, 3) {
            return Err(Malformed);
        }
        let d_level: String = String::new();
        assert(d_level@ =~= seq![]);
        let level = wire::read_or::<String>(j, "level", 0, d_level)?;
        let d_logger: String = String::new();
        assert(d_logger@ =~= seq![]);
        let logger = wire::read_or::<String>(j, "logger", 1, d_logger)?;
        let d_data: Json = Json::Null;
        let data = wire::read_or::<Json>(j, "data", 2, d_data)?;
        Ok(LoggingMessageNotificationParams { level, logger, data })
    }

    fn duplicate(&self) -> (r: Self)
        ensures
            r.level.wire() == self.level.wire(),
            r.logger.wire() == self.logger.wire(),
            r.data.wire() == self.data.wire(),
    {
        LoggingMessageNotificationParams {
            level: self.level.duplicate(),
            logger: self.logger.duplicate(),
            data: self.data.duplicate(),
        }
    }

    proof fn round_trip(&self) {
        broadcast use crate::wire::group_lookup;

        reveal_strlit("level");
        reveal_strlit("logger");
        reveal_strlit("data");
        assert("level"@.len() == 5 && "logger"@.len() == 6 && "data"@.len() == 4);
    }
}

/// The parameters of the word that a resource has changed.
#[derive(Debug, PartialEq)]
pub struct ResourceUpdatedNotificationParams {
    pub uri: String,
}

impl ResourceUpdatedNotificationParams {
    /// Every member has its default.
    pub open spec fn is_default(&self) -> bool {
        &&& self.uri@.len() == 0
    }
}

impl Default for ResourceUpdatedNotificationParams {
    fn default() -> (r: Self)
        ensures
            r.is_default(),
    {
        ResourceUpdatedNotificationParams {
            uri: String::new(),
        }
    }
}

impl Clone for ResourceUpdatedNotificationParams {
    fn clone(&self) -> (r: Self)
        ensures
            r.wire() == self.wire(),
    {
        self.duplicate()
    }
}

impl Wire for ResourceUpdatedNotificationParams {
    open spec fn wire(&self) -> JsonView {
        let o = wire::none();
        let o = wire::with(o, "uri"@, self.uri.wire());
        JsonView::Object(o)
    }

    open spec fn canon(j: JsonView) -> Option<JsonView> {
        let uri = wire::get_or::<String>(j, "uri"@, 0, JsonView::String(seq![]));
        if wire::record(j, 1) && uri is Some {
            let o = wire::none();
            let o = wire::with(o, "uri"@, uri->0);
            Some(JsonView::Object(o))
        } else {
            None
        }
    }

    open spec fn faithful(&self) -> bool {
        &&& self.uri.faithful()
    }

    fn to_json(&self) -> (r: Json) {
        let mut o = wire::start();
        wire::put(&mut o, "uri", &self.uri);
        Json::object(o)
    }

    fn from_json(j: &Json) -> (r: Result<Self, Malformed>)
        ensures
            match r {
                Ok(x) => {
                    &&& wire::get_or::<String>(j@, "uri"@, 0, JsonView::String(seq![]))
                        == Some(x.uri.wire())
                },
                Err(_) => true,
            },
    {
        if !wire::is_record(j, 1) {
            return Err(Malformed);
        }
        let d_uri: String = String::new();
        assert(d_uri@ =~= seq![]);
        let uri = wire::read_or::<String>(j, "uri", 0, d_uri)?;
        Ok(ResourceUpdatedNotificationParams { uri })
    }

    fn duplicate(&self) -> (r: Self)
        ensures
            r.uri.wire() == self.uri.wire(),
    {
        ResourceUpdatedNotificationParams {
            uri: self.uri.duplicate(),
        }
    }

    proof fn round_trip(&self) {
        broadcast use crate::wire::group_lookup;

    }
}

} // verus!
