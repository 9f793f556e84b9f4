//! Prompts, and the messages they give.
use vstd::prelude::*;

use crate::json::{Json, JsonView};
use crate::types::content;
use crate::types::content::{ContentBlock, Icon, RoleType};
use crate::wire::{Malformed, MetaMap, Wire};
use crate::{json, wire};

verus! {

/// What is kept of the content of a prompt's message: of a list its first block,
/// and an empty text where there is no block.
pub open spec fn prompt_content_canon(j: JsonView) -> Option<JsonView> {
    match j {
        JsonView::Array(a) => if a.len() == 0 {
            Some(empty_text())
        } else {
            ContentBlock::canon(a[0])
        },
        JsonView::Object(_) => ContentBlock::canon(j),
        _ => Some(empty_text()),
    }
}

/// A block of empty text.
pub open spec fn empty_text() -> JsonView {
    content::typed(
        "text"@,
        JsonView::Object(wire::with(wire::none(), "text"@, JsonView::String(seq![]))),
    )
}

/// A block of empty text.
fn empty_block() -> (r: ContentBlock)
    ensures
        r.is_default(),
        r.wire() == empty_text(),
{
    let b = ContentBlock::default();
    assert(b->Text_0.text@ =~= seq![]);
    b
}

/// Reads the content of a prompt's message.
fn deserialize_prompt_content(j: &Json) -> (r: Result<ContentBlock, Malformed>)
    ensures
        match r {
            Ok(b) => prompt_content_canon(j@) == Some(b.wire()),
            Err(_) => prompt_content_canon(j@) is None,
        },
{
    match j {
        Json::Array(a) => {
            proof {
                Json::array_view(*a);
            }
            if a.len() == 0 {
                Ok(empty_block())
            } else {
                assert(json::items(a@)[0] == a@[0]@);
                ContentBlock::from_json(&a[0])
            }
        },
        Json::Object(_) => ContentBlock::from_json(j),
        _ => Ok(empty_block()),
    }
}

/// What is written of a block reads back as the content of a message.
proof fn prompt_content_round_trip(b: ContentBlock)
    requires
        b.faithful(),
    ensures
        prompt_content_canon(b.wire()) == Some(b.wire()),
{
    b.no_kind();
    b.round_trip();
}

/// A message of a prompt.
#[derive(Debug, PartialEq)]
pub struct PromptMessage {
    pub role: RoleType,
    pub content: ContentBlock,
}

impl PromptMessage {
    /// Every member has its default.
    pub open spec fn is_default(&self) -> bool {
        &&& self.role.is_default()
        &&& self.content.is_default()
    }
}

impl Default for PromptMessage {
    fn default() -> (r: Self)
        ensures
            r.is_default(),
    {
        PromptMessage {
            role: RoleType::User,
            content: empty_block(),
        }
    }
}

impl Clone for PromptMessage {
    fn clone(&self) -> (r: Self)
        ensures
            r.wire() == self.wire(),
    {
        self.duplicate()
    }
}

impl Wire for PromptMessage {
    open spec fn wire(&self) -> JsonView {
        let o = wire::none();
        let o = wire::with(o, "role"@, self.role.wire());
        let o = wire::with(o, "content"@, self.content.wire());
        JsonView::Object(o)
    }

    open spec fn canon(j: JsonView) -> Option<JsonView> {
        let role = wire::get_or::<RoleType>(j, "role"@, 0, JsonView::String("user"@));
        let content = match wire::at(j, "content"@, 1) {
            Some(v) => prompt_content_canon(v),
            None => Some(empty_text()),
        };
        if wire::record(j, 2) && role is Some && content is Some {
            let o = wire::none();
            let o = wire::with(o, "role"@, role->0);
            let o = wire::with(o, "content"@, content->0);
            Some(JsonView::Object(o))
        } else {
            None
        }
    }

    open spec fn faithful(&self) -> bool {
        &&& self.role.faithful()
        &&& self.content.faithful()
    }

    fn to_json(&self) -> (r: Json) {
        let mut o = wire::start();
        wire::put(&mut o, "role", &self.role);
        wire::put(&mut o, "content", &self.content);
        Json::object(o)
    }

    fn from_json(j: &Json) -> (r: Result<Self, Malformed>)
        ensures
            match r {
                Ok(x) => {
                    &&& wire::get_or::<RoleType>(j@, "role"@, 0, JsonView::String("user"@))
                        == Some(x.role.wire())
                },
                Err(_) => true,
            },
    {
        if !wire::is_record(j, 2) {
            return Err(Malformed);
        }
        let d_role: RoleType = RoleType::User;
        
        let role = wire::read_or::<RoleType>(j, "role", 0, d_role)?;
        let content = match wire::part(j, "content", 1) {
            Some(v) => deserialize_prompt_content(v)?,
            None => empty_block(),
        };
        Ok(PromptMessage { role, content })
    }

    fn duplicate(&self) -> (r: Self)
        ensures
            r.role.wire() == self.role.wire(),
            r.content.wire() == self.content.wire(),
    {
        PromptMessage {
            role: self.role.duplicate(),
            content: self.content.duplicate(),
        }
    }

    proof fn round_trip(&self) {
        broadcast use crate::wire::group_lookup;

        reveal_strlit("role");
        reveal_strlit("content");
        assert("role"@.len() == 4 && "content"@.len() == 7);
        self.role.round_trip();
        prompt_content_round_trip(self.content);
    }
}

/// An argument that a prompt takes.
#[derive(Debug, PartialEq, Eq)]
pub struct PromptArgument {
    pub name: String,
    pub description: Option<String>,
    pub required: Option<bool>,
    pub title: Option<String>,
}

impl PromptArgument {
    /// Every member has its default.
    pub open spec fn is_default(&self) -> bool {
        &&& self.name@.len() == 0
        &&& self.description is None
        &&& self.required is None
        &&& self.title is None
    }
}

impl Default for PromptArgument {
    fn default() -> (r: Self)
        ensures
            r.is_default(),
    {
        PromptArgument {
            name: String::new(),
            description: None,
            required: None,
            title: None,
        }
    }
}

impl Clone for PromptArgument {
    fn clone(&self) -> (r: Self)
        ensures
            r.wire() == self.wire(),
    {
        self.duplicate()
    }
}

impl Wire for PromptArgument {
    open spec fn wire(&self) -> JsonView {
        let o = wire::none();
        let o = wire::with(o, "name"@, self.name.wire());
        let o = wire::with_opt(o, "description"@, wire::opt(self.description));
        let o = wire::with_opt(o, "required"@, wire::opt(self.required));
        let o = wire::with_opt(o, "title"@, wire::opt(self.title));
        JsonView::Object(o)
    }

    open spec fn canon(j: JsonView) -> Option<JsonView> {
        let name = wire::get::<String>(j, "name"@, 0);
        let description = wire::get_opt::<String>(j, "description"@, 1);
        let required = wire::get_opt::<bool>(j, "required"@, 2);
        let title = wire::get_opt::<String>(j, "title"@, 3);
        if wire::record(j, 4) && name is Some && description is Some && required is Some
            && title is Some {
            let o = wire::none();
            let o = wire::with(o, "name"@, name->0);
            let o = wire::with_opt(o, "description"@, description->0);
            let o = wire::with_opt(o, "required"@, required->0);
            let o = wire::with_opt(o, "title"@, title->0);
            Some(JsonView::Object(o))
        } else {
            None
        }
    }

    open spec fn faithful(&self) -> bool {
        &&& self.name.faithful()
        &&& wire::opt_faithful(self.description)
        &&& wire::opt_faithful(self.required)
        &&& wire::opt_faithful(self.title)
    }

    fn to_json(&self) -> (r: Json) {
        let mut o = wire::start();
        wire::put(&mut o, "name", &self.name);
        wire::put_opt(&mut o, "description", &self.description);
        wire::put_opt(&mut o, "required", &self.required);
        wire::put_opt(&mut o, "title", &self.title);
        Json::object(o)
    }

    fn from_json(j: &Json) -> (r: Result<Self, Malformed>)
        ensures
            match r {
                Ok(x) => {
                    &&& wire::get::<String>(j@, "name"@, 0) == Some(x.name.wire())
                    &&& wire::get_opt::<String>(j@, "description"@, 1)
                        == Some(wire::opt(x.description))
                    &&& wire::get_opt::<bool>(j@, "required"@, 2) == Some(wire::opt(x.required))
                    &&& wire::get_opt::<String>(j@, "title"@, 3) == Some(wire::opt(x.title))
                },
                Err(_) => true,
            },
    {
        if !wire::is_record(j, 4) {
            return Err(Malformed);
        }
        let name = wire::read::<String>(j, "name", 0)?;
        let description = wire::read_opt::<String>(j, "description", 1)?;
        let required = wire::read_opt::<bool>(j, "required", 2)?;
        let title = wire::read_opt::<String>(j, "title", 3)?;
        Ok(PromptArgument { name, description, required, title })
    }

    fn duplicate(&self) -> (r: Self)
        ensures
            r.name.wire() == self.name.wire(),
            wire::opt(r.description) == wire::opt(self.description),
            wire::opt(r.required) == wire::opt(self.required),
            wire::opt(r.title) == wire::opt(self.title),
    {
        PromptArgument {
            name: self.name.duplicate(),
            description: wire::duplicate_opt(&self.description),
            required: wire::duplicate_opt(&self.required),
            title: wire::duplicate_opt(&self.title),
        }
    }

    proof fn round_trip(&self) {
        broadcast use crate::wire::group_lookup;

        reveal_strlit("name");
        reveal_strlit("description");
        reveal_strlit("required");
        reveal_strlit("title");
        assert("name"@.len() == 4 && "description"@.len() == 11 && "required"@.len() == 8
            && "title"@.len() == 5);
        wire::opt_round_trip(self.description);
        wire::opt_round_trip(self.required);
        wire::opt_round_trip(self.title);
    }
}

impl PromptArgument {
    /// An argument with a description.
    pub fn new(name: String, description: String, required: bool) -> (r: Self)
        ensures
            r.name == name,
            r.description == Some(description),
            r.required == Some(required),
            r.title is None,
    {
        PromptArgument { name, description: Some(description), required: Some(required), title: None }
    }
}

/// The messages of a prompt.
#[derive(Debug, PartialEq)]
pub struct GetPromptResult {
    pub description: Option<String>,
    pub messages: Vec<PromptMessage>,
    pub meta: Option<MetaMap>,
}

impl GetPromptResult {
    /// Every member has its default.
    pub open spec fn is_default(&self) -> bool {
        &&& self.description is None
        &&& self.messages@.len() == 0
        &&& self.meta is None
    }
}

impl Default for GetPromptResult {
    fn default() -> (r: Self)
        ensures
            r.is_default(),
    {
        GetPromptResult {
            description: None,
            messages: Vec::new(),
            meta: None,
        }
    }
}

impl Clone for GetPromptResult {
    fn clone(&self) -> (r: Self)
        ensures
            r.wire() == self.wire(),
    {
        self.duplicate()
    }
}

impl Wire for GetPromptResult {
    open spec fn wire(&self) -> JsonView {
        let o = wire::none();
        let o = wire::with_opt(o, "description"@, wire::opt(self.description));
        let o = wire::with(o, "messages"@, self.messages.wire());
        let o = wire::with_opt(o, "_meta"@, wire::opt(self.meta));
        JsonView::Object(o)
    }

    open spec fn canon(j: JsonView) -> Option<JsonView> {
        let description = wire::get_opt::<String>(j, "description"@, 0);
        let messages = wire::get::<Vec<PromptMessage>>(j, "messages"@, 1);
        let meta = wire::get_opt::<MetaMap>(j, "_meta"@, 2);
        if wire::record(j, 3) && description is Some && messages is Some && meta is Some {
            let o = wire::none();
            let o = wire::with_opt(o, "description"@, description->0);
            let o = wire::with(o, "messages"@, messages->0);
            let o = wire::with_opt(o, "_meta"@, meta->0);
            Some(JsonView::Object(o))
        } else {
            None
        }
    }

    open spec fn faithful(&self) -> bool {
        &&& wire::opt_faithful(self.description)
        &&& self.messages.faithful()
        &&& wire::opt_faithful(self.meta)
    }

    fn to_json(&self) -> (r: Json) {
        let mut o = wire::start();
        wire::put_opt(&mut o, "description", &self.description);
        wire::put(&mut o, "messages", &self.messages);
        wire::put_opt(&mut o, "_meta", &self.meta);
        Json::object(o)
    }

    fn from_json(j: &Json) -> (r: Result<Self, Malformed>)
        ensures
            match r {
                Ok(x) => {
                    &&& wire::get_opt::<String>(j@, "description"@, 0)
                        == Some(wire::opt(x.description))
                    &&& wire::get::<Vec<PromptMessage>>(j@, "messages"@, 1)
                        == Some(x.messages.wire())
                    &&& wire::get_opt::<MetaMap>(j@, "_meta"@, 2) == Some(wire::opt(x.meta))
                },
                Err(_) => true,
            },
    {
        if !wire::is_record(j, 3) {
            return Err(Malformed);
        }
        let description = wire::read_opt::<String>(j, "description", 0)?;
        let messages = wire::read::<Vec<PromptMessage>>(j, "messages", 1)?;
        let meta = wire::read_opt::<MetaMap>(j, "_meta", 2)?;
        Ok(GetPromptResult { description, messages, meta })
    }

    fn duplicate(&self) -> (r: Self)
        ensures
            wire::opt(r.description) == wire::opt(self.description),
            r.messages.wire() == self.messages.wire(),
            wire::opt(r.meta) == wire::opt(self.meta),
    {
        GetPromptResult {
            description: wire::duplicate_opt(&self.description),
            messages: self.messages.duplicate(),
            meta: wire::duplicate_opt(&self.meta),
        }
    }

    proof fn round_trip(&self) {
        broadcast use crate::wire::group_lookup;

        reveal_strlit("description");
        reveal_strlit("messages");
        reveal_strlit("_meta");
        assert("description"@.len() == 11 && "messages"@.len() == 8 && "_meta"@.len() == 5);
        wire::opt_round_trip(self.description);
        self.messages.round_trip();
        wire::opt_round_trip(self.meta);
    }
}

/// A prompt, as it is listed.
#[derive(Debug, PartialEq, Eq)]
pub struct PromptInfo {
    pub name: String,
    pub description: Option<String>,
    pub title: Option<String>,
    pub icons: Option<Vec<Icon>>,
    pub arguments: Option<Vec<PromptArgument>>,
}

impl PromptInfo {
    /// Every member has its default.
    pub open spec fn is_default(&self) -> bool {
        &&& self.name@.len() == 0
        &&& self.description is None
        &&& self.title is None
        &&& self.icons is None
        &&& self.arguments is None
    }
}

impl Default for PromptInfo {
    fn default() -> (r: Self)
        ensures
            r.is_default(),
    {
        PromptInfo {
            name: String::new(),
            description: None,
            title: None,
            icons: None,
            arguments: None,
        }
    }
}

impl Clone for PromptInfo {
    fn clone(&self) -> (r: Self)
        ensures
            r.wire() == self.wire(),
    {
        self.duplicate()
    }
}

impl Wire for PromptInfo {
    open spec fn wire(&self) -> JsonView {
        let o = wire::none();
        let o = wire::with(o, "name"@, self.name.wire());
        let o = wire::with_opt(o, "description"@, wire::opt(self.description));
        let o = wire::with_opt(o, "title"@, wire::opt(self.title));
        let o = wire::with_opt(o, "icons"@, wire::opt(self.icons));
        let o = wire::with_opt(o, "arguments"@, wire::opt(self.arguments));
        JsonView::Object(o)
    }

    open spec fn canon(j: JsonView) -> Option<JsonView> {
        let name = wire::get::<String>(j, "name"@, 0);
        let description = wire::get_opt::<String>(j, "description"@, 1);
        let title = wire::get_opt::<String>(j, "title"@, 2);
        let icons = wire::get_opt::<Vec<Icon>>(j, "icons"@, 3);
        let arguments = wire::get_opt::<Vec<PromptArgument>>(j, "arguments"@, 4);
        if wire::record(j, 5) && name is Some && description is Some && title is Some
            && icons is Some && arguments is Some {
            let o = wire::none();
            let o = wire::with(o, "name"@, name->0);
            let o = wire::with_opt(o, "description"@, description->0);
            let o = wire::with_opt(o, "title"@, title->0);
            let o = wire::with_opt(o, "icons"@, icons->0);
            let o = wire::with_opt(o, "arguments"@, arguments->0);
            Some(JsonView::Object(o))
        } else {
            None
        }
    }

    open spec fn faithful(&self) -> bool {
        &&& self.name.faithful()
        &&& wire::opt_faithful(self.description)
        &&& wire::opt_faithful(self.title)
        &&& wire::opt_faithful(self.icons)
        &&& wire::opt_faithful(self.arguments)
    }

    fn to_json(&self) -> (r: Json) {
        let mut o = wire::start();
        wire::put(&mut o, "name", &self.name);
        wire::put_opt(&mut o, "description", &self.description);
        wire::put_opt(&mut o, "title", &self.title);
        wire::put_opt(&mut o, "icons", &self.icons);
        wire::put_opt(&mut o, "arguments", &self.arguments);
        Json::object(o)
    }

    fn from_json(j: &Json) -> (r: Result<Self, Malformed>)
        ensures
            match r {
                Ok(x) => {
                    &&& wire::get::<String>(j@, "name"@, 0) == Some(x.name.wire())
                    &&& wire::get_opt::<String>(j@, "description"@, 1)
                        == Some(wire::opt(x.description))
                    &&& wire::get_opt::<String>(j@, "title"@, 2) == Some(wire::opt(x.title))
                    &&& wire::get_opt::<Vec<Icon>>(j@, "icons"@, 3) == Some(wire::opt(x.icons))
                    &&& wire::get_opt::<Vec<PromptArgument>>(j@, "arguments"@, 4)
                        == Some(wire::opt(x.arguments))
                },
                Err(_) => true,
            },
    {
        if !wire::is_record(j, 5) {
            return Err(Malformed);
        }
        let name = wire::read::<String>(j, "name", 0)?;
        let description = wire::read_opt::<String>(j, "description", 1)?;
        let title = wire::read_opt::<String>(j, "title", 2)?;
        let icons = wire::read_opt::<Vec<Icon>>(j, "icons", 3)?;
        let arguments = wire::read_opt::<Vec<PromptArgument>>(j, "arguments", 4)?;
        Ok(PromptInfo { name, description, title, icons, arguments })
    }

    fn duplicate(&self) -> (r: Self)
        ensures
            r.name.wire() == self.name.wire(),
            wire::opt(r.description) == wire::opt(self.description),
            wire::opt(r.title) == wire::opt(self.title),
            wire::opt(r.icons) == wire::opt(self.icons),
            wire::opt(r.arguments) == wire::opt(self.arguments),
    {
        PromptInfo {
            name: self.name.duplicate(),
            description: wire::duplicate_opt(&self.description),
            title: wire::duplicate_opt(&self.title),
            icons: wire::duplicate_opt(&self.icons),
            arguments: wire::duplicate_opt(&self.arguments),
        }
    }

    proof fn round_trip(&self) {
        broadcast use crate::wire::group_lookup;

        reveal_strlit("name");
        reveal_strlit("description");
        reveal_strlit("title");
        reveal_strlit("icons");
        reveal_strlit("arguments");
        assert("name"@.len() == 4 && "description"@.len() == 11 && "title"@.len() == 5
            && "icons"@.len() == 5 && "arguments"@.len() == 9);
        assert("title"@[0] != "icons"@[0]);
        wire::opt_round_trip(self.description);
        wire::opt_round_trip(self.title);
        wire::opt_round_trip(self.icons);
        wire::opt_round_trip(self.arguments);
    }
}

/// One page of the prompts.
#[derive(Debug, PartialEq)]
pub struct ListPromptsResult {
    pub prompts: Vec<PromptInfo>,
    pub next_cursor: Option<String>,
    pub meta: Option<MetaMap>,
}

impl ListPromptsResult {
    /// Every member has its default.
    pub open spec fn is_default(&self) -> bool {
        &&& self.prompts@.len() == 0
        &&& self.next_cursor is None
        &&& self.meta is None
    }
}

impl Default for ListPromptsResult {
    fn default() -> (r: Self)
        ensures
            r.is_default(),
    {
        ListPromptsResult {
            prompts: Vec::new(),
            next_cursor: None,
            meta: None,
        }
    }
}

impl Clone for ListPromptsResult {
    fn clone(&self) -> (r: Self)
        ensures
            r.wire() == self.wire(),
    {
        self.duplicate()
    }
}

impl Wire for ListPromptsResult {
    open spec fn wire(&self) -> JsonView {
        let o = wire::none();
        let o = wire::with(o, "prompts"@, self.prompts.wire());
        let o = wire::with_opt(o, "nextCursor"@, wire::opt(self.next_cursor));
        let o = wire::with_opt(o, "_meta"@, wire::opt(self.meta));
        JsonView::Object(o)
    }

    open spec fn canon(j: JsonView) -> Option<JsonView> {
        let prompts = wire::get_or::<Vec<PromptInfo>>(j, "prompts"@, 0, JsonView::Array(seq![]));
        let next_cursor = wire::get_opt::<String>(j, "nextCursor"@, 1);
        let meta = wire::get_opt::<MetaMap>(j, "_meta"@, 2);
        if wire::record(j, 3) && prompts is Some && next_cursor is Some && meta is Some {
            let o = wire::none();
            let o = wire::with(o, "prompts"@, prompts->0);
            let o = wire::with_opt(o, "nextCursor"@, next_cursor->0);
            let o = wire::with_opt(o, "_meta"@, meta->0);
            Some(JsonView::Object(o))
        } else {
            None
        }
    }

    open spec fn faithful(&self) -> bool {
        &&& self.prompts.faithful()
        &&& wire::opt_faithful(self.next_cursor)
        &&& wire::opt_faithful(self.meta)
    }

    fn to_json(&self) -> (r: Json) {
        let mut o = wire::start();
        wire::put(&mut o, "prompts", &self.prompts);
        wire::put_opt(&mut o, "nextCursor", &self.next_cursor);
        wire::put_opt(&mut o, "_meta", &self.meta);
        Json::object(o)
    }

    fn from_json(j: &Json) -> (r: Result<Self, Malformed>)
        ensures
            match r {
                Ok(x) => {
                    &&& wire::get_or::<Vec<PromptInfo>>(j@, "prompts"@, 0, JsonView::Array(seq![]))
                        == Some(x.prompts.wire())
                    &&& wire::get_opt::<String>(j@, "nextCursor"@, 1)
                        == Some(wire::opt(x.next_cursor))
                    &&& wire::get_opt::<MetaMap>(j@, "_meta"@, 2) == Some(wire::opt(x.meta))
                },
                Err(_) => true,
            },
    {
        if !wire::is_record(j, 3) {
            return Err(Malformed);
        }
        let d_prompts: Vec<PromptInfo> = Vec::new();
        assert(wire::wires(d_prompts@) =~= seq![]);
        let prompts = wire::read_or::<Vec<PromptInfo>>(j, "prompts", 0, d_prompts)?;
        let next_cursor = wire::read_opt::<String>(j, "nextCursor", 1)?;
        let meta = wire::read_opt::<MetaMap>(j, "_meta", 2)?;
        Ok(ListPromptsResult { prompts, next_cursor, meta })
    }

    fn duplicate(&self) -> (r: Self)
        ensures
            r.prompts.wire() == self.prompts.wire(),
            wire::opt(r.next_cursor) == wire::opt(self.next_cursor),
            wire::opt(r.meta) == wire::opt(self.meta),
    {
        ListPromptsResult {
            prompts: self.prompts.duplicate(),
            next_cursor: wire::duplicate_opt(&self.next_cursor),
            meta: wire::duplicate_opt(&self.meta),
        }
    }

    proof fn round_trip(&self) {
        broadcast use crate::wire::group_lookup;

        reveal_strlit("prompts");
        reveal_strlit("nextCursor");
        reveal_strlit("_meta");
        assert("prompts"@.len() == 7 && "nextCursor"@.len() == 10 && "_meta"@.len() == 5);
        self.prompts.round_trip();
        wire::opt_round_trip(self.next_cursor);
        wire::opt_round_trip(self.meta);
    }
}

} // verus!
