//! Completing what a user types.
use vstd::prelude::*;

use crate::json::{Json, JsonView};
use crate::text::str_eq;
use crate::types::content;
use crate::wire::TextMap;
use crate::wire::{Malformed, MetaMap, Wire};
use crate::{json, wire};

verus! {

/// A template for resources, by its text.
#[derive(Debug, PartialEq, Eq)]
pub struct ResourceTemplateReference {
    pub uri: String,
}

impl ResourceTemplateReference {
    /// Every member has its default.
    pub open spec fn is_default(&self) -> bool {
        &&& self.uri@.len() == 0
    }
}

impl Default for ResourceTemplateReference {
    fn default() -> (r: Self)
        ensures
            r.is_default(),
    {
        ResourceTemplateReference {
            uri: String::new(),
        }
    }
}

impl Clone for ResourceTemplateReference {
    fn clone(&self) -> (r: Self)
        ensures
            r.wire() == self.wire(),
    {
        self.duplicate()
    }
}

impl Wire for ResourceTemplateReference {
    open spec fn wire(&self) -> JsonView {
        let o = wire::none();
        let o = wire::with(o, "uri"@, self.uri.wire());
        JsonView::Object(o)
    }

    open spec fn canon(j: JsonView) -> Option<JsonView> {
        let uri = wire::get::<String>(j, "uri"@, 0);
        if wire::record(j, 1) && uri is Some {
            let o = wire::none();
            let o = wire::with(o, "uri"@, uri->0);
            Some(JsonView::Object(o))
        } else {
            None
        }
    }

    open spec fn faithful(&self) -> bool {
        &&& self.uri.faithful()
    }

    fn to_json(&self) -> (r: Json) {
        let mut o = wire::start();
        wire::put(&mut o, "uri", &self.uri);
        Json::object(o)
    }

    fn from_json(j: &Json) -> (r: Result<Self, Malformed>)
        ensures
            match r {
                Ok(x) => {
                    &&& wire::get::<String>(j@, "uri"@, 0) == Some(x.uri.wire())
                },
                Err(_) => true,
            },
    {
        if !wire::is_record(j, 1) {
            return Err(Malformed);
        }
        let uri = wire::read::<String>(j, "uri", 0)?;
        Ok(ResourceTemplateReference { uri })
    }

    fn duplicate(&self) -> (r: Self)
        ensures
            r.uri.wire() == self.uri.wire(),
    {
        ResourceTemplateReference {
            uri: self.uri.duplicate(),
        }
    }

    proof fn round_trip(&self) {
        broadcast use crate::wire::group_lookup;

    }
}

/// A prompt, by its name.
#[derive(Debug, PartialEq, Eq)]
pub struct PromptReference {
    pub name: String,
}

impl PromptReference {
    /// Every member has its default.
    pub open spec fn is_default(&self) -> bool {
        &&& self.name@.len() == 0
    }
}

impl Default for PromptReference {
    fn default() -> (r: Self)
        ensures
            r.is_default(),
    {
        PromptReference {
            name: String::new(),
        }
    }
}

impl Clone for PromptReference {
    fn clone(&self) -> (r: Self)
        ensures
            r.wire() == self.wire(),
    {
        self.duplicate()
    }
}

impl Wire for PromptReference {
    open spec fn wire(&self) -> JsonView {
        let o = wire::none();
        let o = wire::with(o, "name"@, self.name.wire());
        JsonView::Object(o)
    }

    open spec fn canon(j: JsonView) -> Option<JsonView> {
        let name = wire::get::<String>(j, "name"@, 0);
        if wire::record(j, 1) && name is Some {
            let o = wire::none();
            let o = wire::with(o, "name"@, name->0);
            Some(JsonView::Object(o))
        } else {
            None
        }
    }

    open spec fn faithful(&self) -> bool {
        &&& self.name.faithful()
    }

    fn to_json(&self) -> (r: Json) {
        let mut o = wire::start();
        wire::put(&mut o, "name", &self.name);
        Json::object(o)
    }

    fn from_json(j: &Json) -> (r: Result<Self, Malformed>)
        ensures
            match r {
                Ok(x) => {
                    &&& wire::get::<String>(j@, "name"@, 0) == Some(x.name.wire())
                },
                Err(_) => true,
            },
    {
        if !wire::is_record(j, 1) {
            return Err(Malformed);
        }
        let name = wire::read::<String>(j, "name", 0)?;
        Ok(PromptReference { name })
    }

    fn duplicate(&self) -> (r: Self)
        ensures
            r.name.wire() == self.name.wire(),
    {
        PromptReference {
            name: self.name.duplicate(),
        }
    }

    proof fn round_trip(&self) {
        broadcast use crate::wire::group_lookup;

    }
}

/// What a completion is asked for.
#[derive(Debug, PartialEq, Eq)]
pub enum CompleteReference {
    Resource(ResourceTemplateReference),
    Prompt(PromptReference),
}

impl Clone for CompleteReference {
    fn clone(&self) -> (r: Self)
        ensures
            r.wire() == self.wire(),
    {
        self.duplicate()
    }
}

impl Wire for CompleteReference {
    open spec fn wire(&self) -> JsonView {
        match self {
            CompleteReference::Resource(x) => content::typed("ref/resource"@, x.wire()),
            CompleteReference::Prompt(x) => content::typed("ref/prompt"@, x.wire()),
        }
    }

    open spec fn canon(j: JsonView) -> Option<JsonView> {
        match wire::tag(j, "type"@) {
            Some(t) => if t == "ref/resource"@ {
                content::typed_canon(t, ResourceTemplateReference::canon(wire::untagged(j)))
            } else if t == "ref/prompt"@ {
                content::typed_canon(t, PromptReference::canon(wire::untagged(j)))
            } else {
                None
            },
            None => None,
        }
    }

    open spec fn faithful(&self) -> bool {
        true
    }

    fn to_json(&self) -> (r: Json) {
        proof {
            self.no_kind();
        }
        match self {
            CompleteReference::Resource(x) => content::with_type(x.to_json(), "ref/resource"),
            CompleteReference::Prompt(x) => content::with_type(x.to_json(), "ref/prompt"),
        }
    }

    fn from_json(j: &Json) -> (r: Result<Self, Malformed>)
        ensures
            match r {
                Ok(x) => match wire::tag(j@, "type"@) {
                    Some(t) => match x {
                        CompleteReference::Resource(q) => t == "ref/resource"@
                            && ResourceTemplateReference::canon(wire::untagged(j@)) == Some(q.wire()),
                        CompleteReference::Prompt(q) => t == "ref/prompt"@
                            && PromptReference::canon(wire::untagged(j@)) == Some(q.wire()),
                    },
                    None => false,
                },
                Err(_) => true,
            },
    {
        match wire::read_tag(j, "type") {
            Some(t) => {
                let body = wire::read_untagged(j);
                if str_eq(t.as_str(), "ref/resource") {
                    let x = ResourceTemplateReference::from_json(&body)?;
                    Ok(CompleteReference::Resource(x))
                } else if str_eq(t.as_str(), "ref/prompt") {
                    let x = PromptReference::from_json(&body)?;
                    Ok(CompleteReference::Prompt(x))
                } else {
                    Err(Malformed)
                }
            },
            None => Err(Malformed),
        }
    }

    fn duplicate(&self) -> (r: Self) {
        match self {
            CompleteReference::Resource(x) => CompleteReference::Resource(x.duplicate()),
            CompleteReference::Prompt(x) => CompleteReference::Prompt(x.duplicate()),
        }
    }

    proof fn round_trip(&self) {
        reveal_strlit("ref/resource");
        reveal_strlit("ref/prompt");
        assert("ref/resource"@.len() == 12 && "ref/prompt"@.len() == 10);
        self.no_kind();
        match self {
            CompleteReference::Resource(x) => {
                x.round_trip();
                content::typed_lookup("ref/resource"@, x.wire()->Object_0, "type"@);
                content::typed_lookup("ref/resource"@, x.wire()->Object_0, "uri"@);
                reveal_strlit("uri");
                reveal_strlit("type");
                assert("uri"@.len() == 3 && "type"@.len() == 4);
            },
            CompleteReference::Prompt(x) => {
                x.round_trip();
                content::typed_lookup("ref/prompt"@, x.wire()->Object_0, "type"@);
                content::typed_lookup("ref/prompt"@, x.wire()->Object_0, "name"@);
                reveal_strlit("name");
                reveal_strlit("type");
                assert("name"@[0] == 'n' && "type"@[0] == 't');
            },
        }
    }
}

impl CompleteReference {
    /// No member of the form without its kind is named like the kind.
    proof fn no_kind(&self)
        ensures
            match self {
                CompleteReference::Resource(x) => json::lookup(x.wire()->Object_0, "type"@) is None,
                CompleteReference::Prompt(x) => json::lookup(x.wire()->Object_0, "type"@) is None,
            },
    {
        broadcast use crate::wire::group_lookup;

        reveal_strlit("type");
        reveal_strlit("uri");
        reveal_strlit("name");
        assert("uri"@.len() == 3 && "type"@.len() == 4);
        assert("name"@[0] == 'n' && "type"@[0] == 't');
    }
}

/// What is being typed, and for which argument.
#[derive(Debug, PartialEq, Eq)]
pub struct CompletionArgument {
    pub name: String,
    pub value: String,
}

impl CompletionArgument {
    /// Every member has its default.
    pub open spec fn is_default(&self) -> bool {
        &&& self.name@.len() == 0
        &&& self.value@.len() == 0
    }
}

impl Default for CompletionArgument {
    fn default() -> (r: Self)
        ensures
            r.is_default(),
    {
        CompletionArgument {
            name: String::new(),
            value: String::new(),
        }
    }
}

impl Clone for CompletionArgument {
    fn clone(&self) -> (r: Self)
        ensures
            r.wire() == self.wire(),
    {
        self.duplicate()
    }
}

impl Wire for CompletionArgument {
    open spec fn wire(&self) -> JsonView {
        let o = wire::none();
        let o = wire::with(o, "name"@, self.name.wire());
        let o = wire::with(o, "value"@, self.value.wire());
        JsonView::Object(o)
    }

    open spec fn canon(j: JsonView) -> Option<JsonView> {
        let name = wire::get::<String>(j, "name"@, 0);
        let value = wire::get::<String>(j, "value"@, 1);
        if wire::record(j, 2) && name is Some && value is Some {
            let o = wire::none();
            let o = wire::with(o, "name"@, name->0);
            let o = wire::with(o, "value"@, value->0);
            Some(JsonView::Object(o))
        } else {
            None
        }
    }

    open spec fn faithful(&self) -> bool {
        &&& self.name.faithful()
        &&& self.value.faithful()
    }

    fn to_json(&self) -> (r: Json) {
        let mut o = wire::start();
        wire::put(&mut o, "name", &self.name);
        wire::put(&mut o, "value", &self.value);
        Json::object(o)
    }

    fn from_json(j: &Json) -> (r: Result<Self, Malformed>)
        ensures
            match r {
                Ok(x) => {
                    &&& wire::get::<String>(j@, "name"@, 0) == Some(x.name.wire())
                    &&& wire::get::<String>(j@, "value"@, 1) == Some(x.value.wire())
                },
                Err(_) => true,
            },
    {
        if !wire::is_record(j, 2) {
            return Err(Malformed);
        }
        let name = wire::read::<String>(j, "name", 0)?;
        let value = wire::read::<String>(j, "value", 1)?;
        Ok(CompletionArgument { name, value })
    }

    fn duplicate(&self) -> (r: Self)
        ensures
            r.name.wire() == self.name.wire(),
            r.value.wire() == self.value.wire(),
    {
        CompletionArgument {
            name: self.name.duplicate(),
            value: self.value.duplicate(),
        }
    }

    proof fn round_trip(&self) {
        broadcast use crate::wire::group_lookup;

        reveal_strlit("name");
        reveal_strlit("value");
        assert("name"@.len() == 4 && "value"@.len() == 5);
    }
}

/// The arguments that are settled already.
#[derive(Debug, PartialEq, Eq)]
pub struct CompletionContext {
    pub arguments: Option<TextMap>,
}

impl CompletionContext {
    /// Every member has its default.
    pub open spec fn is_default(&self) -> bool {
        &&& self.arguments is None
    }
}

impl Default for CompletionContext {
    fn default() -> (r: Self)
        ensures
            r.is_default(),
    {
        CompletionContext {
            arguments: None,
        }
    }
}

impl Clone for CompletionContext {
    fn clone(&self) -> (r: Self)
        ensures
            r.wire() == self.wire(),
    {
        self.duplicate()
    }
}

impl Wire for CompletionContext {
    open spec fn wire(&self) -> JsonView {
        let o = wire::none();
        let o = wire::with_opt(o, "arguments"@, wire::opt(self.arguments));
        JsonView::Object(o)
    }

    open spec fn canon(j: JsonView) -> Option<JsonView> {
        let arguments = wire::get_opt::<TextMap>(j, "arguments"@, 0);
        if wire::record(j, 1) && arguments is Some {
            let o = wire::none();
            let o = wire::with_opt(o, "arguments"@, arguments->0);
            Some(JsonView::Object(o))
        } else {
            None
        }
    }

    open spec fn faithful(&self) -> bool {
        &&& wire::opt_faithful(self.arguments)
    }

    fn to_json(&self) -> (r: Json) {
        let mut o = wire::start();
        wire::put_opt(&mut o, "arguments", &self.arguments);
        Json::object(o)
    }

    fn from_json(j: &Json) -> (r: Result<Self, Malformed>)
        ensures
            match r {
                Ok(x) => {
                    &&& wire::get_opt::<TextMap>(j@, "arguments"@, 0)
                        == Some(wire::opt(x.arguments))
                },
                Err(_) => true,
            },
    {
        if !wire::is_record(j, 1) {
            return Err(Malformed);
        }
        let arguments = wire::read_opt::<TextMap>(j, "arguments", 0)?;
        Ok(CompletionContext { arguments })
    }

    fn duplicate(&self) -> (r: Self)
        ensures
            wire::opt(r.arguments) == wire::opt(self.arguments),
    {
        CompletionContext {
            arguments: wire::duplicate_opt(&self.arguments),
        }
    }

    proof fn round_trip(&self) {
        broadcast use crate::wire::group_lookup;

        wire::opt_round_trip(self.arguments);
    }
}

/// What the text can be completed to.
#[derive(Debug, PartialEq, Eq)]
pub struct Completion {
    pub values: Vec<String>,
    pub total: Option<i64>,
    pub has_more: Option<bool>,
}

impl Completion {
    /// Every member has its default.
    pub open spec fn is_default(&self) -> bool {
        &&& self.values@.len() == 0
        &&& self.total is None
        &&& self.has_more is None
    }
}

impl Default for Completion {
    fn default() -> (r: Self)
        ensures
            r.is_default(),
    {
        Completion {
            values: Vec::new(),
            total: None,
            has_more: None,
        }
    }
}

impl Clone for Completion {
    fn clone(&self) -> (r: Self)
        ensures
            r.wire() == self.wire(),
    {
        self.duplicate()
    }
}

impl Wire for Completion {
    open spec fn wire(&self) -> JsonView {
        let o = wire::none();
        let o = wire::with(o, "values"@, self.values.wire());
        let o = wire::with_opt(o, "total"@, wire::opt(self.total));
        let o = wire::with_opt(o, "hasMore"@, wire::opt(self.has_more));
        JsonView::Object(o)
    }

    open spec fn canon(j: JsonView) -> Option<JsonView> {
        let values = wire::get::<Vec<String>>(j, "values"@, 0);
        let total = wire::get_opt::<i64>(j, "total"@, 1);
        let has_more = wire::get_opt::<bool>(j, "hasMore"@, 2);
        if wire::record(j, 3) && values is Some && total is Some && has_more is Some {
            let o = wire::none();
            let o = wire::with(o, "values"@, values->0);
            let o = wire::with_opt(o, "total"@, total->0);
            let o = wire::with_opt(o, "hasMore"@, has_more->0);
            Some(JsonView::Object(o))
        } else {
            None
        }
    }

    open spec fn faithful(&self) -> bool {
        &&& self.values.faithful()
        &&& wire::opt_faithful(self.total)
        &&& wire::opt_faithful(self.has_more)
    }

    fn to_json(&self) -> (r: Json) {
        let mut o = wire::start();
        wire::put(&mut o, "values", &self.values);
        wire::put_opt(&mut o, "total", &self.total);
        wire::put_opt(&mut o, "hasMore", &self.has_more);
        Json::object(o)
    }

    fn from_json(j: &Json) -> (r: Result<Self, Malformed>)
        ensures
            match r {
                Ok(x) => {
                    &&& wire::get::<Vec<String>>(j@, "values"@, 0) == Some(x.values.wire())
                    &&& wire::get_opt::<i64>(j@, "total"@, 1) == Some(wire::opt(x.total))
                    &&& wire::get_opt::<bool>(j@, "hasMore"@, 2) == Some(wire::opt(x.has_more))
                },
                Err(_) => true,
            },
    {
        if !wire::is_record(j, 3) {
            return Err(Malformed);
        }
        let values = wire::read::<Vec<String>>(j, "values", 0)?;
        let total = wire::read_opt::<i64>(j, "total", 1)?;
        let has_more = wire::read_opt::<bool>(j, "hasMore", 2)?;
        Ok(Completion { values, total, has_more })
    }

    fn duplicate(&self) -> (r: Self)
        ensures
            r.values.wire() == self.values.wire(),
            wire::opt(r.total) == wire::opt(self.total),
            wire::opt(r.has_more) == wire::opt(self.has_more),
    {
        Completion {
            values: self.values.duplicate(),
            total: wire::duplicate_opt(&self.total),
            has_more: wire::duplicate_opt(&self.has_more),
        }
    }

    proof fn round_trip(&self) {
        broadcast use crate::wire::group_lookup;

        reveal_strlit("values");
        reveal_strlit("total");
        reveal_strlit("hasMore");
        assert("values"@.len() == 6 && "total"@.len() == 5 && "hasMore"@.len() == 7);
        self.values.round_trip();
        wire::opt_round_trip(self.total);
        wire::opt_round_trip(self.has_more);
    }
}

/// The answer to what can be completed.
#[derive(Debug, PartialEq)]
pub struct CompleteResult {
    pub completion: Completion,
    pub meta: Option<MetaMap>,
}

impl CompleteResult {
    /// Every member has its default.
    pub open spec fn is_default(&self) -> bool {
        &&& self.completion.is_default()
        &&& self.meta is None
    }
}

impl Default for CompleteResult {
    fn default() -> (r: Self)
        ensures
            r.is_default(),
    {
        CompleteResult {
            completion: Completion::default(),
            meta: None,
        }
    }
}

impl Clone for CompleteResult {
    fn clone(&self) -> (r: Self)
        ensures
            r.wire() == self.wire(),
    {
        self.duplicate()
    }
}

impl Wire for CompleteResult {
    open spec fn wire(&self) -> JsonView {
        let o = wire::none();
        let o = wire::with(o, "completion"@, self.completion.wire());
        let o = wire::with_opt(o, "_meta"@, wire::opt(self.meta));
        JsonView::Object(o)
    }

    open spec fn canon(j: JsonView) -> Option<JsonView> {
        let completion = wire::get::<Completion>(j, "completion"@, 0);
        let meta = wire::get_opt::<MetaMap>(j, "_meta"@, 1);
        if wire::record(j, 2) && completion is Some && meta is Some {
            let o = wire::none();
            let o = wire::with(o, "completion"@, completion->0);
            let o = wire::with_opt(o, "_meta"@, meta->0);
            Some(JsonView::Object(o))
        } else {
            None
        }
    }

    open spec fn faithful(&self) -> bool {
        &&& self.completion.faithful()
        &&& wire::opt_faithful(self.meta)
    }

    fn to_json(&self) -> (r: Json) {
        let mut o = wire::start();
        wire::put(&mut o, "completion", &self.completion);
        wire::put_opt(&mut o, "_meta", &self.meta);
        Json::object(o)
    }

    fn from_json(j: &Json) -> (r: Result<Self, Malformed>)
        ensures
            match r {
                Ok(x) => {
                    &&& wire::get::<Completion>(j@, "completion"@, 0) == Some(x.completion.wire())
                    &&& wire::get_opt::<MetaMap>(j@, "_meta"@, 1) == Some(wire::opt(x.meta))
                },
                Err(_) => true,
            },
    {
        if !wire::is_record(j, 2) {
            return Err(Malformed);
        }
        let completion = wire::read::<Completion>(j, "completion", 0)?;
        let meta = wire::read_opt::<MetaMap>(j, "_meta", 1)?;
        Ok(CompleteResult { completion, meta })
    }

    fn duplicate(&self) -> (r: Self)
        ensures
            r.completion.wire() == self.completion.wire(),
            wire::opt(r.meta) == wire::opt(self.meta),
    {
        CompleteResult {
            completion: self.completion.duplicate(),
            meta: wire::duplicate_opt(&self.meta),
        }
    }

    proof fn round_trip(&self) {
        broadcast use crate::wire::group_lookup;

        reveal_strlit("completion");
        reveal_strlit("_meta");
        assert("completion"@.len() == 10 && "_meta"@.len() == 5);
        self.completion.round_trip();
        wire::opt_round_trip(self.meta);
    }
}

} // verus!
