//! Tools, and what calling one comes to.
use vstd::prelude::*;

use crate::json::{Json, JsonView};
use crate::types::content;
use crate::types::content::{ContentBlock, Icon};
use crate::wire::{Malformed, MetaMap, Wire};
use crate::{json, wire};

verus! {

/// Hints on how a tool behaves.
#[derive(Debug, PartialEq, Eq)]
pub struct ToolAnnotations {
    pub title: Option<String>,
    pub read_only_hint: Option<bool>,
    pub destructive_hint: Option<bool>,
    pub idempotent_hint: Option<bool>,
    pub open_world_hint: Option<bool>,
}

impl ToolAnnotations {
    /// Every member has its default.
    pub open spec fn is_default(&self) -> bool {
        &&& self.title is None
        &&& self.read_only_hint is None
        &&& self.destructive_hint is None
        &&& self.idempotent_hint is None
        &&& self.open_world_hint is None
    }
}

impl Default for ToolAnnotations {
    fn default() -> (r: Self)
        ensures
            r.is_default(),
    {
        ToolAnnotations {
            title: None,
            read_only_hint: None,
            destructive_hint: None,
            idempotent_hint: None,
            open_world_hint: None,
        }
    }
}

impl Clone for ToolAnnotations {
    fn clone(&self) -> (r: Self)
        ensures
            r.wire() == self.wire(),
    {
        self.duplicate()
    }
}

impl Wire for ToolAnnotations {
    open spec fn wire(&self) -> JsonView {
        let o = wire::none();
        let o = wire::with_opt(o, "title"@, wire::opt(self.title));
        let o = wire::with_opt(o, "readOnlyHint"@, wire::opt(self.read_only_hint));
        let o = wire::with_opt(o, "destructiveHint"@, wire::opt(self.destructive_hint));
        let o = wire::with_opt(o, "idempotentHint"@, wire::opt(self.idempotent_hint));
        let o = wire::with_opt(o, "openWorldHint"@, wire::opt(self.open_world_hint));
        JsonView::Object(o)
    }

    open spec fn canon(j: JsonView) -> Option<JsonView> {
        let title = wire::get_opt::<String>(j, "title"@, 0);
        let read_only_hint = wire::get_opt::<bool>(j, "readOnlyHint"@, 1);
        let destructive_hint = wire::get_opt::<bool>(j, "destructiveHint"@, 2);
        let idempotent_hint = wire::get_opt::<bool>(j, "idempotentHint"@, 3);
        let open_world_hint = wire::get_opt::<bool>(j, "openWorldHint"@, 4);
        if wire::record(j, 5) && title is Some && read_only_hint is Some && destructive_hint is Some
            && idempotent_hint is Some && open_world_hint is Some {
            let o = wire::none();
            let o = wire::with_opt(o, "title"@, title->0);
            let o = wire::with_opt(o, "readOnlyHint"@, read_only_hint->0);
            let o = wire::with_opt(o, "destructiveHint"@, destructive_hint->0);
            let o = wire::with_opt(o, "idempotentHint"@, idempotent_hint->0);
            let o = wire::with_opt(o, "openWorldHint"@, open_world_hint->0);
            Some(JsonView::Object(o))
        } else {
            None
        }
    }

    open spec fn faithful(&self) -> bool {
        &&& wire::opt_faithful(self.title)
        &&& wire::opt_faithful(self.read_only_hint)
        &&& wire::opt_faithful(self.destructive_hint)
        &&& wire::opt_faithful(self.idempotent_hint)
        &&& wire::opt_faithful(self.open_world_hint)
    }

    fn to_json(&self) -> (r: Json) {
        let mut o = wire::start();
        wire::put_opt(&mut o, "title", &self.title);
        wire::put_opt(&mut o, "readOnlyHint", &self.read_only_hint);
        wire::put_opt(&mut o, "destructiveHint", &self.destructive_hint);
        wire::put_opt(&mut o, "idempotentHint", &self.idempotent_hint);
        wire::put_opt(&mut o, "openWorldHint", &self.open_world_hint);
        Json::object(o)
    }

    fn from_json(j: &Json) -> (r: Result<Self, Malformed>)
        ensures
            match r {
                Ok(x) => {
                    &&& wire::get_opt::<String>(j@, "title"@, 0) == Some(wire::opt(x.title))
                    &&& wire::get_opt::<bool>(j@, "readOnlyHint"@, 1)
                        == Some(wire::opt(x.read_only_hint))
                    &&& wire::get_opt::<bool>(j@, "destructiveHint"@, 2)
                        == Some(wire::opt(x.destructive_hint))
                    &&& wire::get_opt::<bool>(j@, "idempotentHint"@, 3)
                        == Some(wire::opt(x.idempotent_hint))
                    &&& wire::get_opt::<bool>(j@, "openWorldHint"@, 4)
                        == Some(wire::opt(x.open_world_hint))
                },
                Err(_) => true,
            },
    {
        if !wire::is_record(j, 5) {
            return Err(Malformed);
        }
        let title = wire::read_opt::<String>(j, "title", 0)?;
        let read_only_hint = wire::read_opt::<bool>(j, "readOnlyHint", 1)?;
        let destructive_hint = wire::read_opt::<bool>(j, "destructiveHint", 2)?;
        let idempotent_hint = wire::read_opt::<bool>(j, "idempotentHint", 3)?;
        let open_world_hint = wire::read_opt::<bool>(j, "openWorldHint", 4)?;
        Ok(ToolAnnotations { title, read_only_hint, destructive_hint, idempotent_hint, open_world_hint })
    }

    fn duplicate(&self) -> (r: Self)
        ensures
            wire::opt(r.title) == wire::opt(self.title),
            wire::opt(r.read_only_hint) == wire::opt(self.read_only_hint),
            wire::opt(r.destructive_hint) == wire::opt(self.destructive_hint),
            wire::opt(r.idempotent_hint) == wire::opt(self.idempotent_hint),
            wire::opt(r.open_world_hint) == wire::opt(self.open_world_hint),
    {
        ToolAnnotations {
            title: wire::duplicate_opt(&self.title),
            read_only_hint: wire::duplicate_opt(&self.read_only_hint),
            destructive_hint: wire::duplicate_opt(&self.destructive_hint),
            idempotent_hint: wire::duplicate_opt(&self.idempotent_hint),
            open_world_hint: wire::duplicate_opt(&self.open_world_hint),
        }
    }

    proof fn round_trip(&self) {
        broadcast use crate::wire::group_lookup;

        reveal_strlit("title");
        reveal_strlit("readOnlyHint");
        reveal_strlit("destructiveHint");
        reveal_strlit("idempotentHint");
        reveal_strlit("openWorldHint");
        assert("title"@.len() == 5 && "readOnlyHint"@.len() == 12 && "destructiveHint"@.len() == 15
            && "idempotentHint"@.len() == 14 && "openWorldHint"@.len() == 13);
        wire::opt_round_trip(self.title);
        wire::opt_round_trip(self.read_only_hint);
        wire::opt_round_trip(self.destructive_hint);
        wire::opt_round_trip(self.idempotent_hint);
        wire::opt_round_trip(self.open_world_hint);
    }
}

/// A tool, as it is listed.
#[derive(Debug, PartialEq)]
pub struct Tool {
    pub name: String,
    pub title: Option<String>,
    pub description: Option<String>,
    pub input_schema: Option<Json>,
    pub output_schema: Option<Json>,
    pub annotations: Option<ToolAnnotations>,
    pub icons: Option<Vec<Icon>>,
}

impl Tool {
    /// Every member has its default.
    pub open spec fn is_default(&self) -> bool {
        &&& self.name@.len() == 0
        &&& self.title is None
        &&& self.description is None
        &&& self.input_schema is None
        &&& self.output_schema is None
        &&& self.annotations is None
        &&& self.icons is None
    }
}

impl Default for Tool {
    fn default() -> (r: Self)
        ensures
            r.is_default(),
    {
        Tool {
            name: String::new(),
            title: None,
            description: None,
            input_schema: None,
            output_schema: None,
            annotations: None,
            icons: None,
        }
    }
}

impl Clone for Tool {
    fn clone(&self) -> (r: Self)
        ensures
            r.wire() == self.wire(),
    {
        self.duplicate()
    }
}

impl Wire for Tool {
    open spec fn wire(&self) -> JsonView {
        let o = wire::none();
        let o = wire::with(o, "name"@, self.name.wire());
        let o = wire::with_opt(o, "title"@, wire::opt(self.title));
        let o = wire::with_opt(o, "description"@, wire::opt(self.description));
        let o = wire::with_opt(o, "inputSchema"@, wire::opt(self.input_schema));
        let o = wire::with_opt(o, "outputSchema"@, wire::opt(self.output_schema));
        let o = wire::with_opt(o, "annotations"@, wire::opt(self.annotations));
        let o = wire::with_opt(o, "icons"@, wire::opt(self.icons));
        JsonView::Object(o)
    }

    open spec fn canon(j: JsonView) -> Option<JsonView> {
        let name = wire::get::<String>(j, "name"@, 0);
        let title = wire::get_opt::<String>(j, "title"@, 1);
        let description = wire::get_opt::<String>(j, "description"@, 2);
        let input_schema = wire::get_opt::<Json>(j, "inputSchema"@, 3);
        let output_schema = wire::get_opt::<Json>(j, "outputSchema"@, 4);
        let annotations = wire::get_opt::<ToolAnnotations>(j, "annotations"@, 5);
        let icons = wire::get_opt::<Vec<Icon>>(j, "icons"@, 6);
        if wire::record(j, 7) && name is Some && title is Some && description is Some
            && input_schema is Some && output_schema is Some && annotations is Some
            && icons is Some {
            let o = wire::none();
            let o = wire::with(o, "name"@, name->0);
            let o = wire::with_opt(o, "title"@, title->0);
            let o = wire::with_opt(o, "description"@, description->0);
            let o = wire::with_opt(o, "inputSchema"@, input_schema->0);
            let o = wire::with_opt(o, "outputSchema"@, output_schema->0);
            let o = wire::with_opt(o, "annotations"@, annotations->0);
            let o = wire::with_opt(o, "icons"@, icons->0);
            Some(JsonView::Object(o))
        } else {
            None
        }
    }

    open spec fn faithful(&self) -> bool {
        &&& self.name.faithful()
        &&& wire::opt_faithful(self.title)
        &&& wire::opt_faithful(self.description)
        &&& wire::opt_faithful(self.input_schema)
        &&& wire::opt_faithful(self.output_schema)
        &&& wire::opt_faithful(self.annotations)
        &&& wire::opt_faithful(self.icons)
    }

    fn to_json(&self) -> (r: Json) {
        let mut o = wire::start();
        wire::put(&mut o, "name", &self.name);
        wire::put_opt(&mut o, "title", &self.title);
        wire::put_opt(&mut o, "description", &self.description);
        wire::put_opt(&mut o, "inputSchema", &self.input_schema);
        wire::put_opt(&mut o, "outputSchema", &self.output_schema);
        wire::put_opt(&mut o, "annotations", &self.annotations);
        wire::put_opt(&mut o, "icons", &self.icons);
        Json::object(o)
    }

    fn from_json(j: &Json) -> (r: Result<Self, Malformed>)
        ensures
            match r {
                Ok(x) => {
                    &&& wire::get::<String>(j@, "name"@, 0) == Some(x.name.wire())
                    &&& wire::get_opt::<String>(j@, "title"@, 1) == Some(wire::opt(x.title))
                    &&& wire::get_opt::<String>(j@, "description"@, 2)
                        == Some(wire::opt(x.description))
                    &&& wire::get_opt::<Json>(j@, "inputSchema"@, 3)
                        == Some(wire::opt(x.input_schema))
                    &&& wire::get_opt::<Json>(j@, "outputSchema"@, 4)
                        == Some(wire::opt(x.output_schema))
                    &&& wire::get_opt::<ToolAnnotations>(j@, "annotations"@, 5)
                        == Some(wire::opt(x.annotations))
                    &&& wire::get_opt::<Vec<Icon>>(j@, "icons"@, 6) == Some(wire::opt(x.icons))
                },
                Err(_) => true,
            },
    {
        if !wire::is_record(j, 7) {
            return Err(Malformed);
        }
        let name = wire::read::<String>(j, "name", 0)?;
        let title = wire::read_opt::<String>(j, "title", 1)?;
        let description = wire::read_opt::<String>(j, "description", 2)?;
        let input_schema = wire::read_opt::<Json>(j, "inputSchema", 3)?;
        let output_schema = wire::read_opt::<Json>(j, "outputSchema", 4)?;
        let annotations = wire::read_opt::<ToolAnnotations>(j, "annotations", 5)?;
        let icons = wire::read_opt::<Vec<Icon>>(j, "icons", 6)?;
        Ok(Tool { name, title, description, input_schema, output_schema, annotations, icons })
    }

    fn duplicate(&self) -> (r: Self)
        ensures
            r.name.wire() == self.name.wire(),
            wire::opt(r.title) == wire::opt(self.title),
            wire::opt(r.description) == wire::opt(self.description),
            wire::opt(r.input_schema) == wire::opt(self.input_schema),
            wire::opt(r.output_schema) == wire::opt(self.output_schema),
            wire::opt(r.annotations) == wire::opt(self.annotations),
            wire::opt(r.icons) == wire::opt(self.icons),
    {
        Tool {
            name: self.name.duplicate(),
            title: wire::duplicate_opt(&self.title),
            description: wire::duplicate_opt(&self.description),
            input_schema: wire::duplicate_opt(&self.input_schema),
            output_schema: wire::duplicate_opt(&self.output_schema),
            annotations: wire::duplicate_opt(&self.annotations),
            icons: wire::duplicate_opt(&self.icons),
        }
    }

    proof fn round_trip(&self) {
        broadcast use crate::wire::group_lookup;

        reveal_strlit("name");
        reveal_strlit("title");
        reveal_strlit("description");
        reveal_strlit("inputSchema");
        reveal_strlit("outputSchema");
        reveal_strlit("annotations");
        reveal_strlit("icons");
        assert("name"@.len() == 4 && "title"@.len() == 5 && "description"@.len() == 11
            && "inputSchema"@.len() == 11 && "outputSchema"@.len() == 12
            && "annotations"@.len() == 11 && "icons"@.len() == 5);
        assert("title"@[0] != "icons"@[0]);
        assert("description"@[0] != "inputSchema"@[0]);
        assert("description"@[0] != "annotations"@[0]);
        assert("inputSchema"@[0] != "annotations"@[0]);
        wire::opt_round_trip(self.title);
        wire::opt_round_trip(self.description);
        wire::opt_round_trip(self.input_schema);
        wire::opt_round_trip(self.output_schema);
        wire::opt_round_trip(self.annotations);
        wire::opt_round_trip(self.icons);
    }
}

/// What is kept of a list of content: text on its own stands for a block of text,
/// and anything but a list or text for no content.
pub open spec fn content_list_canon(j: JsonView) -> Option<JsonView> {
    match j {
        JsonView::Array(a) => if wire::all_accepted::<ContentBlock>(a) {
            Some(JsonView::Array(wire::canons::<ContentBlock>(a)))
        } else {
            None
        },
        JsonView::String(s) => Some(JsonView::Array(seq![text_block(s)])),
        _ => Some(JsonView::Array(seq![])),
    }
}

/// A block of plain text.
pub open spec fn text_block(s: Seq<char>) -> JsonView {
    content::typed("text"@, JsonView::Object(wire::with(wire::none(), "text"@, JsonView::String(s))))
}

/// Reads a list of content.
fn deserialize_content_list(j: &Json) -> (r: Result<Vec<ContentBlock>, Malformed>)
    ensures
        match r {
            Ok(v) => content_list_canon(j@) == Some(v.wire()),
            Err(_) => content_list_canon(j@) is None,
        },
{
    match j {
        Json::Array(a) => {
            proof {
                Json::array_view(*a);
            }
            wire::read_items(a)
        },
        Json::String(s) => {
            let b = ContentBlock::text(s.clone());
            let v = vec![b];
            assert(wire::wires(v@) =~= seq![text_block(s@)]);
            Ok(v)
        },
        _ => {
            let v: Vec<ContentBlock> = Vec::new();
            assert(wire::wires(v@) =~= seq![]);
            Ok(v)
        },
    }
}

/// What is written of a list of content reads back.
proof fn content_list_round_trip(v: Vec<ContentBlock>)
    requires
        v.faithful(),
    ensures
        content_list_canon(v.wire()) == Some(v.wire()),
{
    wire::list_round_trip(v@);
}

/// What a call of a tool came to.
#[derive(Debug, PartialEq)]
pub struct CallToolResult {
    pub content: Vec<ContentBlock>,
    pub structured_content: Option<Json>,
    pub is_error: bool,
    pub meta: Option<MetaMap>,
}

impl CallToolResult {
    /// Every member has its default.
    pub open spec fn is_default(&self) -> bool {
        &&& self.content@.len() == 0
        &&& self.structured_content is None
        &&& !self.is_error
        &&& self.meta is None
    }
}

impl Default for CallToolResult {
    fn default() -> (r: Self)
        ensures
            r.is_default(),
    {
        CallToolResult {
            content: Vec::new(),
            structured_content: None,
            is_error: false,
            meta: None,
        }
    }
}

impl Clone for CallToolResult {
    fn clone(&self) -> (r: Self)
        ensures
            r.wire() == self.wire(),
    {
        self.duplicate()
    }
}

impl Wire for CallToolResult {
    open spec fn wire(&self) -> JsonView {
        let o = wire::none();
        let o = wire::with(o, "content"@, self.content.wire());
        let o = wire::with_opt(o, "structuredContent"@, wire::opt(self.structured_content));
        let o = wire::with(o, "isError"@, self.is_error.wire());
        let o = wire::with_opt(o, "_meta"@, wire::opt(self.meta));
        JsonView::Object(o)
    }

    open spec fn canon(j: JsonView) -> Option<JsonView> {
        let content = match wire::at(j, "content"@, 0) {
            Some(v) => content_list_canon(v),
            None => Some(JsonView::Array(seq![])),
        };
        let structured_content = wire::get_opt::<Json>(j, "structuredContent"@, 1);
        let is_error = wire::get_or::<bool>(j, "isError"@, 2, JsonView::Bool(false));
        let meta = wire::get_opt::<MetaMap>(j, "_meta"@, 3);
        if wire::record(j, 4) && content is Some && structured_content is Some && is_error is Some
            && meta is Some {
            let o = wire::none();
            let o = wire::with(o, "content"@, content->0);
            let o = wire::with_opt(o, "structuredContent"@, structured_content->0);
            let o = wire::with(o, "isError"@, is_error->0);
            let o = wire::with_opt(o, "_meta"@, meta->0);
            Some(JsonView::Object(o))
        } else {
            None
        }
    }

    open spec fn faithful(&self) -> bool {
        &&& self.content.faithful()
        &&& wire::opt_faithful(self.structured_content)
        &&& self.is_error.faithful()
        &&& wire::opt_faithful(self.meta)
    }

    fn to_json(&self) -> (r: Json) {
        let mut o = wire::start();
        wire::put(&mut o, "content", &self.content);
        wire::put_opt(&mut o, "structuredContent", &self.structured_content);
        wire::put(&mut o, "isError", &self.is_error);
        wire::put_opt(&mut o, "_meta", &self.meta);
        Json::object(o)
    }

    fn from_json(j: &Json) -> (r: Result<Self, Malformed>)
        ensures
            match r {
                Ok(x) => {
                    &&& wire::get_opt::<Json>(j@, "structuredContent"@, 1)
                        == Some(wire::opt(x.structured_content))
                    &&& wire::get_or::<bool>(j@, "isError"@, 2, JsonView::Bool(false))
                        == Some(x.is_error.wire())
                    &&& wire::get_opt::<MetaMap>(j@, "_meta"@, 3) == Some(wire::opt(x.meta))
                },
                Err(_) => true,
            },
    {
        if !wire::is_record(j, 4) {
            return Err(Malformed);
        }
        let content = match wire::part(j, "content", 0) {
            Some(v) => deserialize_content_list(v)?,
            None => Vec::new(),
        };
        assert(wire::wires(Seq::<ContentBlock>::empty()) =~= seq![]);
        let structured_content = wire::read_opt::<Json>(j, "structuredContent", 1)?;
        let d_is_error: bool = false;
        let is_error = wire::read_or::<bool>(j, "isError", 2, d_is_error)?;
        let meta = wire::read_opt::<MetaMap>(j, "_meta", 3)?;
        Ok(CallToolResult { content, structured_content, is_error, meta })
    }

    fn duplicate(&self) -> (r: Self)
        ensures
            r.content.wire() == self.content.wire(),
            wire::opt(r.structured_content) == wire::opt(self.structured_content),
            r.is_error.wire() == self.is_error.wire(),
            wire::opt(r.meta) == wire::opt(self.meta),
    {
        CallToolResult {
            content: self.content.duplicate(),
            structured_content: wire::duplicate_opt(&self.structured_content),
            is_error: self.is_error.duplicate(),
            meta: wire::duplicate_opt(&self.meta),
        }
    }

    proof fn round_trip(&self) {
        broadcast use crate::wire::group_lookup;

        reveal_strlit("content");
        reveal_strlit("structuredContent");
        reveal_strlit("isError");
        reveal_strlit("_meta");
        assert("content"@.len() == 7 && "structuredContent"@.len() == 17 && "isError"@.len() == 7
            && "_meta"@.len() == 5);
        assert("content"@[0] != "isError"@[0]);
        content_list_round_trip(self.content);
        wire::opt_round_trip(self.structured_content);
        wire::opt_round_trip(self.meta);
    }
}

impl CallToolResult {
    /// The result holds one block, of plain text.
    pub open spec fn holds_text(&self, s: Seq<char>) -> bool {
        &&& self.content@.len() == 1
        &&& self.content@[0] is Text
        &&& self.content@[0]->Text_0.text@ == s
        &&& self.content@[0]->Text_0.annotations is None
    }

    /// A result of plain text.
    pub fn text(text: String) -> (r: Self)
        ensures
            r.holds_text(text@),
            r.structured_content is None,
            !r.is_error,
            r.meta is None,
    {
        CallToolResult {
            content: vec![ContentBlock::text(text)],
            structured_content: None,
            is_error: false,
            meta: None,
        }
    }

    /// A failure, told in plain text.
    pub fn error(text: String) -> (r: Self)
        ensures
            r.holds_text(text@),
            r.structured_content is None,
            r.is_error,
            r.meta is None,
    {
        CallToolResult {
            content: vec![ContentBlock::text(text)],
            structured_content: None,
            is_error: true,
            meta: None,
        }
    }

    /// A result that is JSON, repeated as text: a string as it is, anything else by
    /// its JSON text.
    pub fn from_structured(value: Json) -> (r: Self)
        ensures
            r.holds_text(match value@ {
                JsonView::String(s) => s,
                other => json::compact_text(other.normal()),
            }),
            r.structured_content == Some(value),
            !r.is_error,
            r.meta is None,
    {
        let text = match &value {
            Json::String(s) => s.clone(),
            other => other.to_text(),
        };
        CallToolResult {
            content: vec![ContentBlock::text(text)],
            structured_content: Some(value),
            is_error: false,
            meta: None,
        }
    }
}

/// One page of the tools.
#[derive(Debug, PartialEq)]
pub struct ListToolsResult {
    pub tools: Vec<Tool>,
    pub next_cursor: Option<String>,
    pub meta: Option<MetaMap>,
}

impl ListToolsResult {
    /// Every member has its default.
    pub open spec fn is_default(&self) -> bool {
        &&& self.tools@.len() == 0
        &&& self.next_cursor is None
        &&& self.meta is None
    }
}

impl Default for ListToolsResult {
    fn default() -> (r: Self)
        ensures
            r.is_default(),
    {
        ListToolsResult {
            tools: Vec::new(),
            next_cursor: None,
            meta: None,
        }
    }
}

impl Clone for ListToolsResult {
    fn clone(&self) -> (r: Self)
        ensures
            r.wire() == self.wire(),
    {
        self.duplicate()
    }
}

impl Wire for ListToolsResult {
    open spec fn wire(&self) -> JsonView {
        let o = wire::none();
        let o = wire::with(o, "tools"@, self.tools.wire());
        let o = wire::with_opt(o, "nextCursor"@, wire::opt(self.next_cursor));
        let o = wire::with_opt(o, "_meta"@, wire::opt(self.meta));
        JsonView::Object(o)
    }

    open spec fn canon(j: JsonView) -> Option<JsonView> {
        let tools = wire::get_or::<Vec<Tool>>(j, "tools"@, 0, JsonView::Array(seq![]));
        let next_cursor = wire::get_opt::<String>(j, "nextCursor"@, 1);
        let meta = wire::get_opt::<MetaMap>(j, "_meta"@, 2);
        if wire::record(j, 3) && tools is Some && next_cursor is Some && meta is Some {
            let o = wire::none();
            let o = wire::with(o, "tools"@, tools->0);
            let o = wire::with_opt(o, "nextCursor"@, next_cursor->0);
            let o = wire::with_opt(o, "_meta"@, meta->0);
            Some(JsonView::Object(o))
        } else {
            None
        }
    }

    open spec fn faithful(&self) -> bool {
        &&& self.tools.faithful()
        &&& wire::opt_faithful(self.next_cursor)
        &&& wire::opt_faithful(self.meta)
    }

    fn to_json(&self) -> (r: Json) {
        let mut o = wire::start();
        wire::put(&mut o, "tools", &self.tools);
        wire::put_opt(&mut o, "nextCursor", &self.next_cursor);
        wire::put_opt(&mut o, "_meta", &self.meta);
        Json::object(o)
    }

    fn from_json(j: &Json) -> (r: Result<Self, Malformed>)
        ensures
            match r {
                Ok(x) => {
                    &&& wire::get_or::<Vec<Tool>>(j@, "tools"@, 0, JsonView::Array(seq![]))
                        == Some(x.tools.wire())
                    &&& wire::get_opt::<String>(j@, "nextCursor"@, 1)
                        == Some(wire::opt(x.next_cursor))
                    &&& wire::get_opt::<MetaMap>(j@, "_meta"@, 2) == Some(wire::opt(x.meta))
                },
                Err(_) => true,
            },
    {
        if !wire::is_record(j, 3) {
            return Err(Malformed);
        }
        let d_tools: Vec<Tool> = Vec::new();
        assert(wire::wires(d_tools@) =~= seq![]);
        let tools = wire::read_or::<Vec<Tool>>(j, "tools", 0, d_tools)?;
        let next_cursor = wire::read_opt::<String>(j, "nextCursor", 1)?;
        let meta = wire::read_opt::<MetaMap>(j, "_meta", 2)?;
        Ok(ListToolsResult { tools, next_cursor, meta })
    }

    fn duplicate(&self) -> (r: Self)
        ensures
            r.tools.wire() == self.tools.wire(),
            wire::opt(r.next_cursor) == wire::opt(self.next_cursor),
            wire::opt(r.meta) == wire::opt(self.meta),
    {
        ListToolsResult {
            tools: self.tools.duplicate(),
            next_cursor: wire::duplicate_opt(&self.next_cursor),
            meta: wire::duplicate_opt(&self.meta),
        }
    }

    proof fn round_trip(&self) {
        broadcast use crate::wire::group_lookup;

        reveal_strlit("tools");
        reveal_strlit("nextCursor");
        reveal_strlit("_meta");
        assert("tools"@.len() == 5 && "nextCursor"@.len() == 10 && "_meta"@.len() == 5);
        assert("tools"@[0] != "_meta"@[0]);
        self.tools.round_trip();
        wire::opt_round_trip(self.next_cursor);
        wire::opt_round_trip(self.meta);
    }
}

} // verus!
