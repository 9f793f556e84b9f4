//! Asking a model for a message.
use vstd::prelude::*;

use crate::json::{Json, JsonView, NumberView};
use crate::text::str_eq;
use crate::types::content;
use crate::types::content::{AudioContent, ContentBlock, ImageContent, RoleType, TextContent};
use crate::types::tools::Tool;
use crate::wire::{Malformed, MetaMap, Real, Wire};
use crate::{json, wire};

verus! {

/// A call of a tool that a model asks for.
#[derive(Debug, PartialEq)]
pub struct ToolUseContent {
    pub id: String,
    pub name: String,
    pub input: MetaMap,
    pub meta: Option<MetaMap>,
}

impl ToolUseContent {
    /// Every member has its default.
    pub open spec fn is_default(&self) -> bool {
        &&& self.id@.len() == 0
        &&& self.name@.len() == 0
        &&& self.input@ == wire::none()
        &&& self.meta is None
    }
}

impl Default for ToolUseContent {
    fn default() -> (r: Self)
        ensures
            r.is_default(),
    {
        ToolUseContent {
            id: String::new(),
            name: String::new(),
            input: MetaMap::new(),
            meta: None,
        }
    }
}

impl Clone for ToolUseContent {
    fn clone(&self) -> (r: Self)
        ensures
            r.wire() == self.wire(),
    {
        self.duplicate()
    }
}

impl Wire for ToolUseContent {
    open spec fn wire(&self) -> JsonView {
        let o = wire::none();
        let o = wire::with(o, "id"@, self.id.wire());
        let o = wire::with(o, "name"@, self.name.wire());
        let o = wire::with(o, "input"@, self.input.wire());
        let o = wire::with_opt(o, "_meta"@, wire::opt(self.meta));
        JsonView::Object(o)
    }

    open spec fn canon(j: JsonView) -> Option<JsonView> {
        let id = wire::get_or::<String>(j, "id"@, 0, JsonView::String(seq![]));
        let name = wire::get_or::<String>(j, "name"@, 1, JsonView::String(seq![]));
        let input = wire::get_or::<MetaMap>(j, "input"@, 2, JsonView::Object(wire::none()));
        let meta = wire::get_opt::<MetaMap>(j, "_meta"@, 3);
        if wire::record(j, 4) && id is Some && name is Some && input is Some && meta is Some {
            let o = wire::none();
            let o = wire::with(o, "id"@, id->0);
            let o = wire::with(o, "name"@, name->0);
            let o = wire::with(o, "input"@, input->0);
            let o = wire::with_opt(o, "_meta"@, meta->0);
            Some(JsonView::Object(o))
        } else {
            None
        }
    }

    open spec fn faithful(&self) -> bool {
        &&& self.id.faithful()
        &&& self.name.faithful()
        &&& self.input.faithful()
        &&& wire::opt_faithful(self.meta)
    }

    fn to_json(&self) -> (r: Json) {
        let mut o = wire::start();
        wire::put(&mut o, "id", &self.id);
        wire::put(&mut o, "name", &self.name);
        wire::put(&mut o, "input", &self.input);
        wire::put_opt(&mut o, "_meta", &self.meta);
        Json::object(o)
    }

    fn from_json(j: &Json) -> (r: Result<Self, Malformed>)
        ensures
            match r {
                Ok(x) => {
                    &&& wire::get_or::<String>(j@, "id"@, 0, JsonView::String(seq![]))
                        == Some(x.id.wire())
                    &&& wire::get_or::<String>(j@, "name"@, 1, JsonView::String(seq![]))
                        == Some(x.name.wire())
                    &&& wire::get_or::<MetaMap>(j@, "input"@, 2, JsonView::Object(wire::none()))
                        == Some(x.input.wire())
                    &&& wire::get_opt::<MetaMap>(j@, "_meta"@, 3) == Some(wire::opt(x.meta))
                },
                Err(_) => true,
            },
    {
        if !wire::is_record(j, 4) {
            return Err(Malformed);
        }
        let d_id: String = String::new();
        assert(d_id@ =~= seq![]);
        let id = wire::read_or::<String>(j, "id", 0, d_id)?;
        let d_name: String = String::new();
        assert(d_name@ =~= seq![]);
        let name = wire::read_or::<String>(j, "name", 1, d_name)?;
        let d_input: MetaMap = MetaMap::new();
        let input = wire::read_or::<MetaMap>(j, "input", 2, d_input)?;
        let meta = wire::read_opt::<MetaMap>(j, "_meta", 3)?;
        Ok(ToolUseContent { id, name, input, meta })
    }

    fn duplicate(&self) -> (r: Self)
        ensures
            r.id.wire() == self.id.wire(),
            r.name.wire() == self.name.wire(),
            r.input.wire() == self.input.wire(),
            wire::opt(r.meta) == wire::opt(self.meta),
    {
        ToolUseContent {
            id: self.id.duplicate(),
            name: self.name.duplicate(),
            input: self.input.duplicate(),
            meta: wire::duplicate_opt(&self.meta),
        }
    }

    proof fn round_trip(&self) {
        broadcast use crate::wire::group_lookup;

        reveal_strlit("id");
        reveal_strlit("name");
        reveal_strlit("input");
        reveal_strlit("_meta");
        assert("id"@.len() == 2 && "name"@.len() == 4 && "input"@.len() == 5
            && "_meta"@.len() == 5);
        assert("input"@[0] != "_meta"@[0]);
        wire::opt_round_trip(self.meta);
    }
}

/// What a call of a tool came to.
#[derive(Debug, PartialEq)]
pub struct ToolResultContent {
    pub tool_use_id: String,
    pub content: Vec<ContentBlock>,
    pub structured_content: Option<Json>,
    pub is_error: Option<bool>,
    pub meta: Option<MetaMap>,
}

impl ToolResultContent {
    /// Every member has its default.
    pub open spec fn is_default(&self) -> bool {
        &&& self.tool_use_id@.len() == 0
        &&& self.content@.len() == 0
        &&& self.structured_content is None
        &&& self.is_error is None
        &&& self.meta is None
    }
}

impl Default for ToolResultContent {
    fn default() -> (r: Self)
        ensures
            r.is_default(),
    {
        ToolResultContent {
            tool_use_id: String::new(),
            content: Vec::new(),
            structured_content: None,
            is_error: None,
            meta: None,
        }
    }
}

impl Clone for ToolResultContent {
    fn clone(&self) -> (r: Self)
        ensures
            r.wire() == self.wire(),
    {
        self.duplicate()
    }
}

impl Wire for ToolResultContent {
    open spec fn wire(&self) -> JsonView {
        let o = wire::none();
        let o = wire::with(o, "toolUseId"@, self.tool_use_id.wire());
        let o = wire::with(o, "content"@, self.content.wire());
        let o = wire::with_opt(o, "structuredContent"@, wire::opt(self.structured_content));
        let o = wire::with_opt(o, "isError"@, wire::opt(self.is_error));
        let o = wire::with_opt(o, "_meta"@, wire::opt(self.meta));
        JsonView::Object(o)
    }

    open spec fn canon(j: JsonView) -> Option<JsonView> {
        let tool_use_id = wire::get_or::<String>(j, "toolUseId"@, 0, JsonView::String(seq![]));
        let content = wire::get_or::<Vec<ContentBlock>>(j, "content"@, 1, JsonView::Array(seq![]));
        let structured_content = wire::get_opt::<Json>(j, "structuredContent"@, 2);
        let is_error = wire::get_opt::<bool>(j, "isError"@, 3);
        let meta = wire::get_opt::<MetaMap>(j, "_meta"@, 4);
        if wire::record(j, 5) && tool_use_id is Some && content is Some
            && structured_content is Some && is_error is Some && meta is Some {
            let o = wire::none();
            let o = wire::with(o, "toolUseId"@, tool_use_id->0);
            let o = wire::with(o, "content"@, content->0);
            let o = wire::with_opt(o, "structuredContent"@, structured_content->0);
            let o = wire::with_opt(o, "isError"@, is_error->0);
            let o = wire::with_opt(o, "_meta"@, meta->0);
            Some(JsonView::Object(o))
        } else {
            None
        }
    }

    open spec fn faithful(&self) -> bool {
        &&& self.tool_use_id.faithful()
        &&& self.content.faithful()
        &&& wire::opt_faithful(self.structured_content)
        &&& wire::opt_faithful(self.is_error)
        &&& wire::opt_faithful(self.meta)
    }

    fn to_json(&self) -> (r: Json) {
        let mut o = wire::start();
        wire::put(&mut o, "toolUseId", &self.tool_use_id);
        wire::put(&mut o, "content", &self.content);
        wire::put_opt(&mut o, "structuredContent", &self.structured_content);
        wire::put_opt(&mut o, "isError", &self.is_error);
        wire::put_opt(&mut o, "_meta", &self.meta);
        Json::object(o)
    }

    fn from_json(j: &Json) -> (r: Result<Self, Malformed>)
        ensures
            match r {
                Ok(x) => {
                    &&& wire::get_or::<String>(j@, "toolUseId"@, 0, JsonView::String(seq![]))
                        == Some(x.tool_use_id.wire())
                    &&& wire::get_or::<Vec<ContentBlock>>(j@, "content"@, 1, JsonView::Array(seq![]))
                        == Some(x.content.wire())
                    &&& wire::get_opt::<Json>(j@, "structuredContent"@, 2)
                        == Some(wire::opt(x.structured_content))
                    &&& wire::get_opt::<bool>(j@, "isError"@, 3) == Some(wire::opt(x.is_error))
                    &&& wire::get_opt::<MetaMap>(j@, "_meta"@, 4) == Some(wire::opt(x.meta))
                },
                Err(_) => true,
            },
    {
        if !wire::is_record(j, 5) {
            return Err(Malformed);
        }
        let d_tool_use_id: String = String::new();
        assert(d_tool_use_id@ =~= seq![]);
        let tool_use_id = wire::read_or::<String>(j, "toolUseId", 0, d_tool_use_id)?;
        let d_content: Vec<ContentBlock> = Vec::new();
        assert(wire::wires(d_content@) =~= seq![]);
        let content = wire::read_or::<Vec<ContentBlock>>(j, "content", 1, d_content)?;
        let structured_content = wire::read_opt::<Json>(j, "structuredContent", 2)?;
        let is_error = wire::read_opt::<bool>(j, "isError", 3)?;
        let meta = wire::read_opt::<MetaMap>(j, "_meta", 4)?;
        Ok(ToolResultContent { tool_use_id, content, structured_content, is_error, meta })
    }

    fn duplicate(&self) -> (r: Self)
        ensures
            r.tool_use_id.wire() == self.tool_use_id.wire(),
            r.content.wire() == self.content.wire(),
            wire::opt(r.structured_content) == wire::opt(self.structured_content),
            wire::opt(r.is_error) == wire::opt(self.is_error),
            wire::opt(r.meta) == wire::opt(self.meta),
    {
        ToolResultContent {
            tool_use_id: self.tool_use_id.duplicate(),
            content: self.content.duplicate(),
            structured_content: wire::duplicate_opt(&self.structured_content),
            is_error: wire::duplicate_opt(&self.is_error),
            meta: wire::duplicate_opt(&self.meta),
        }
    }

    proof fn round_trip(&self) {
        broadcast use crate::wire::group_lookup;

        reveal_strlit("toolUseId");
        reveal_strlit("content");
        reveal_strlit("structuredContent");
        reveal_strlit("isError");
        reveal_strlit("_meta");
        assert("toolUseId"@.len() == 9 && "content"@.len() == 7 && "structuredContent"@.len() == 17
            && "isError"@.len() == 7 && "_meta"@.len() == 5);
        assert("content"@[0] != "isError"@[0]);
        self.content.round_trip();
        wire::opt_round_trip(self.structured_content);
        wire::opt_round_trip(self.is_error);
        wire::opt_round_trip(self.meta);
    }
}

impl ToolUseContent {
    /// The kind in front changes nothing of what is read.
    pub(crate) proof fn typed_round_trip(j: JsonView, kind: Seq<char>)
        requires
            j is Object,
        ensures
            Self::canon(content::typed(kind, j)) == Self::canon(j),
    {
        let o = j->Object_0;
        reveal_strlit("type");
        reveal_strlit("id");
        reveal_strlit("name");
        reveal_strlit("input");
        reveal_strlit("_meta");
        assert("type"@.len() == 4 && "id"@.len() == 2 && "name"@.len() == 4 && "input"@.len() == 5
            && "_meta"@.len() == 5);
        assert("name"@[0] != "type"@[0]);
        content::typed_lookup(kind, o, "id"@);
        content::typed_lookup(kind, o, "name"@);
        content::typed_lookup(kind, o, "input"@);
        content::typed_lookup(kind, o, "_meta"@);
    }
}

impl ToolResultContent {
    /// The kind in front changes nothing of what is read.
    pub(crate) proof fn typed_round_trip(j: JsonView, kind: Seq<char>)
        requires
            j is Object,
        ensures
            Self::canon(content::typed(kind, j)) == Self::canon(j),
    {
        let o = j->Object_0;
        reveal_strlit("type");
        reveal_strlit("toolUseId");
        reveal_strlit("content");
        reveal_strlit("structuredContent");
        reveal_strlit("isError");
        reveal_strlit("_meta");
        assert("type"@.len() == 4 && "toolUseId"@.len() == 9 && "content"@.len() == 7
            && "structuredContent"@.len() == 17 && "isError"@.len() == 7 && "_meta"@.len() == 5);
        content::typed_lookup(kind, o, "toolUseId"@);
        content::typed_lookup(kind, o, "content"@);
        content::typed_lookup(kind, o, "structuredContent"@);
        content::typed_lookup(kind, o, "isError"@);
        content::typed_lookup(kind, o, "_meta"@);
    }
}

/// A piece of content in a message to or from a model.
#[derive(Debug, PartialEq)]
pub enum SamplingMessageContentBlock {
    Text(TextContent),
    Image(ImageContent),
    Audio(AudioContent),
    ToolUse(ToolUseContent),
    ToolResult(ToolResultContent),
}

impl SamplingMessageContentBlock {
    /// The kind of the block.
    pub open spec fn kind(&self) -> Seq<char> {
        match self {
            SamplingMessageContentBlock::Text(_) => "text"@,
            SamplingMessageContentBlock::Image(_) => "image"@,
            SamplingMessageContentBlock::Audio(_) => "audio"@,
            SamplingMessageContentBlock::ToolUse(_) => "tool_use"@,
            SamplingMessageContentBlock::ToolResult(_) => "tool_result"@,
        }
    }

    /// The form of the block without its kind.
    pub open spec fn inner(&self) -> JsonView {
        match self {
            SamplingMessageContentBlock::Text(c) => c.wire(),
            SamplingMessageContentBlock::Image(c) => c.wire(),
            SamplingMessageContentBlock::Audio(c) => c.wire(),
            SamplingMessageContentBlock::ToolUse(c) => c.wire(),
            SamplingMessageContentBlock::ToolResult(c) => c.wire(),
        }
    }

    /// A block of text.
    pub fn text(text: String) -> (r: Self)
        ensures
            match r {
                SamplingMessageContentBlock::Text(t) => t.text == text && t.annotations is None,
                _ => false,
            },
    {
        SamplingMessageContentBlock::Text(TextContent::new(text))
    }

    /// The text, of a block of text.
    pub fn as_text(&self) -> (r: Option<&str>)
        ensures
            match r {
                Some(s) => *self is Text && s@ == self->Text_0.text@,
                None => !(*self is Text),
            },
    {
        match self {
            SamplingMessageContentBlock::Text(t) => Some(t.text.as_str()),
            _ => None,
        }
    }
}

impl Clone for SamplingMessageContentBlock {
    fn clone(&self) -> (r: Self)
        ensures
            r.wire() == self.wire(),
    {
        self.duplicate()
    }
}

impl Wire for SamplingMessageContentBlock {
    open spec fn wire(&self) -> JsonView {
        content::typed(self.kind(), self.inner())
    }

    open spec fn canon(j: JsonView) -> Option<JsonView> {
        let kind = content::kind_of(j);
        if kind == "text"@ {
            content::typed_canon("text"@, TextContent::canon(j))
        } else if kind == "image"@ {
            content::typed_canon("image"@, ImageContent::canon(j))
        } else if kind == "audio"@ {
            content::typed_canon("audio"@, AudioContent::canon(j))
        } else if kind == "tool_use"@ {
            content::typed_canon("tool_use"@, ToolUseContent::canon(j))
        } else if kind == "tool_result"@ {
            content::typed_canon("tool_result"@, ToolResultContent::canon(j))
        } else {
            Some(content::unknown_block(j))
        }
    }

    open spec fn faithful(&self) -> bool {
        match self {
            SamplingMessageContentBlock::Text(c) => c.faithful(),
            SamplingMessageContentBlock::Image(c) => c.faithful(),
            SamplingMessageContentBlock::Audio(c) => c.faithful(),
            SamplingMessageContentBlock::ToolUse(c) => c.faithful(),
            SamplingMessageContentBlock::ToolResult(c) => c.faithful(),
        }
    }

    fn to_json(&self) -> (r: Json) {
        proof {
            self.no_kind();
        }
        match self {
            SamplingMessageContentBlock::Text(c) => content::with_type(c.to_json(), "text"),
            SamplingMessageContentBlock::Image(c) => content::with_type(c.to_json(), "image"),
            SamplingMessageContentBlock::Audio(c) => content::with_type(c.to_json(), "audio"),
            SamplingMessageContentBlock::ToolUse(c) => content::with_type(c.to_json(), "tool_use"),
            SamplingMessageContentBlock::ToolResult(c) => content::with_type(c.to_json(), "tool_result"),
        }
    }

    fn from_json(j: &Json) -> (r: Result<Self, Malformed>)
        ensures
            match r {
                Ok(b) => {
                    &&& b is Image <==> content::kind_of(j@) == "image"@
                    &&& b is Audio <==> content::kind_of(j@) == "audio"@
                    &&& b is ToolUse <==> content::kind_of(j@) == "tool_use"@
                    &&& b is ToolResult <==> content::kind_of(j@) == "tool_result"@
                },
                Err(_) => true,
            },
    {
        let kind = content::read_kind(j);
        proof {
            reveal_strlit("text");
            reveal_strlit("image");
            reveal_strlit("audio");
            reveal_strlit("tool_use");
            reveal_strlit("tool_result");
            assert("text"@.len() == 4 && "image"@.len() == 5 && "audio"@.len() == 5
                && "tool_use"@.len() == 8 && "tool_result"@.len() == 11);
            assert("image"@[0] != "audio"@[0]);
        }
        if str_eq(kind.as_str(), "text") {
            let c = TextContent::from_json(j)?;
            Ok(SamplingMessageContentBlock::Text(c))
        } else if str_eq(kind.as_str(), "image") {
            let c = ImageContent::from_json(j)?;
            Ok(SamplingMessageContentBlock::Image(c))
        } else if str_eq(kind.as_str(), "audio") {
            let c = AudioContent::from_json(j)?;
            Ok(SamplingMessageContentBlock::Audio(c))
        } else if str_eq(kind.as_str(), "tool_use") {
            let c = ToolUseContent::from_json(j)?;
            Ok(SamplingMessageContentBlock::ToolUse(c))
        } else if str_eq(kind.as_str(), "tool_result") {
            let c = ToolResultContent::from_json(j)?;
            Ok(SamplingMessageContentBlock::ToolResult(c))
        } else {
            Ok(SamplingMessageContentBlock::Text(content::read_unknown(j)))
        }
    }

    fn duplicate(&self) -> (r: Self)
        ensures
            r.kind() == self.kind(),
            (r is Text) == (*self is Text),
            (r is Image) == (*self is Image),
            (r is Audio) == (*self is Audio),
            (r is ToolUse) == (*self is ToolUse),
            (r is ToolResult) == (*self is ToolResult),
    {
        match self {
            SamplingMessageContentBlock::Text(c) => SamplingMessageContentBlock::Text(c.duplicate()),
            SamplingMessageContentBlock::Image(c) => SamplingMessageContentBlock::Image(c.duplicate()),
            SamplingMessageContentBlock::Audio(c) => SamplingMessageContentBlock::Audio(c.duplicate()),
            SamplingMessageContentBlock::ToolUse(c) => SamplingMessageContentBlock::ToolUse(c.duplicate()),
            SamplingMessageContentBlock::ToolResult(c) => SamplingMessageContentBlock::ToolResult(c.duplicate()),
        }
    }

    proof fn round_trip(&self) {
        reveal_strlit("text");
        reveal_strlit("image");
        reveal_strlit("audio");
        reveal_strlit("tool_use");
        reveal_strlit("tool_result");
        assert("text"@.len() == 4 && "image"@.len() == 5 && "audio"@.len() == 5
            && "tool_use"@.len() == 8 && "tool_result"@.len() == 11);
        assert("image"@[0] != "audio"@[0]);
        self.no_kind();
        content::typed_lookup(self.kind(), self.inner()->Object_0, "type"@);
        match self {
            SamplingMessageContentBlock::Text(c) => {
                c.round_trip();
                TextContent::typed_round_trip(c.wire(), "text"@);
            },
            SamplingMessageContentBlock::Image(c) => {
                c.round_trip();
                ImageContent::typed_round_trip(c.wire(), "image"@);
            },
            SamplingMessageContentBlock::Audio(c) => {
                c.round_trip();
                AudioContent::typed_round_trip(c.wire(), "audio"@);
            },
            SamplingMessageContentBlock::ToolUse(c) => {
                c.round_trip();
                ToolUseContent::typed_round_trip(c.wire(), "tool_use"@);
            },
            SamplingMessageContentBlock::ToolResult(c) => {
                c.round_trip();
                ToolResultContent::typed_round_trip(c.wire(), "tool_result"@);
            },
        }
    }
}

impl SamplingMessageContentBlock {
    /// No member of the form without its kind is named like the kind.
    pub(crate) proof fn no_kind(&self)
        ensures
            self.inner() is Object,
            json::lookup(self.inner()->Object_0, "type"@) is None,
    {
        broadcast use crate::wire::group_lookup;

        reveal_strlit("type");
        reveal_strlit("text");
        reveal_strlit("annotations");
        reveal_strlit("data");
        reveal_strlit("mimeType");
        reveal_strlit("id");
        reveal_strlit("name");
        reveal_strlit("input");
        reveal_strlit("_meta");
        reveal_strlit("toolUseId");
        reveal_strlit("content");
        reveal_strlit("structuredContent");
        reveal_strlit("isError");
        assert("type"@.len() == 4 && "text"@.len() == 4 && "annotations"@.len() == 11
            && "data"@.len() == 4 && "mimeType"@.len() == 8 && "id"@.len() == 2
            && "name"@.len() == 4 && "input"@.len() == 5 && "_meta"@.len() == 5
            && "toolUseId"@.len() == 9 && "content"@.len() == 7 && "structuredContent"@.len() == 17
            && "isError"@.len() == 7);
        assert("text"@[1] != "type"@[1]);
        assert("data"@[0] != "type"@[0]);
        assert("name"@[0] != "type"@[0]);
    }
}

/// The content of a message to or from a model: one block, or several.
#[derive(Debug, PartialEq)]
pub enum SamplingContent {
    Single(SamplingMessageContentBlock),
    Multiple(Vec<SamplingMessageContentBlock>),
}

impl SamplingContent {
    /// There is no content unless it is given.
    pub open spec fn is_default(&self) -> bool {
        *self is Multiple && self->Multiple_0@.len() == 0
    }

    /// The blocks.
    pub open spec fn blocks(&self) -> Seq<SamplingMessageContentBlock> {
        match self {
            SamplingContent::Single(b) => seq![*b],
            SamplingContent::Multiple(v) => v@,
        }
    }

    /// The content is one block, of plain text.
    pub open spec fn holds_text(&self, s: Seq<char>) -> bool {
        &&& *self is Single
        &&& self->Single_0 is Text
        &&& self->Single_0->Text_0.text@ == s
        &&& self->Single_0->Text_0.annotations is None
    }

    /// Plain text.
    pub fn text(text: String) -> (r: Self)
        ensures
            r.holds_text(text@),
    {
        SamplingContent::Single(SamplingMessageContentBlock::text(text))
    }

    /// The blocks, in order.
    pub fn as_list(&self) -> (r: Vec<SamplingMessageContentBlock>)
        ensures
            wire::wires(r@) == wire::wires(self.blocks()),
    {
        match self {
            SamplingContent::Single(b) => {
                let v = vec![b.duplicate()];
                assert(wire::wires(v@) =~= wire::wires(self.blocks()));
                v
            },
            SamplingContent::Multiple(v) => wire::duplicate_list(v),
        }
    }

    /// How many blocks there are.
    pub fn count(&self) -> (r: usize)
        ensures
            r == self.blocks().len(),
    {
        match self {
            SamplingContent::Single(_) => 1,
            SamplingContent::Multiple(v) => v.len(),
        }
    }

    /// The block at place `i`.
    pub fn block(&self, i: usize) -> (r: &SamplingMessageContentBlock)
        requires
            i < self.blocks().len(),
        ensures
            *r == self.blocks()[i as int],
    {
        match self {
            SamplingContent::Single(b) => b,
            SamplingContent::Multiple(v) => &v[i],
        }
    }

    /// The text of the first block of text.
    pub fn first_text(&self) -> (r: Option<String>)
        ensures
            match r {
                Some(s) => exists|i: int|
                    0 <= i < self.blocks().len() && (#[trigger] self.blocks()[i]) is Text
                        && self.blocks()[i]->Text_0.text@ == s@ && forall|j: int|
                        0 <= j < i ==> !((#[trigger] self.blocks()[j]) is Text),
                None => forall|i: int|
                    0 <= i < self.blocks().len() ==> !((#[trigger] self.blocks()[i]) is Text),
            },
    {
        let n: usize = self.count();
        let mut i: usize = 0;
        while i < n
            invariant
                i <= n,
                n == self.blocks().len(),
                forall|j: int| 0 <= j < i ==> !((#[trigger] self.blocks()[j]) is Text),
            decreases n - i,
        {
            match self.block(i).as_text() {
                Some(s) => {
                    return Some(s.to_owned());
                },
                None => {},
            }
            i = i + 1;
        }
        None
    }
}

impl Default for SamplingContent {
    fn default() -> (r: Self)
        ensures
            r.is_default(),
            r.wire() == JsonView::Array(seq![]),
    {
        let v: Vec<SamplingMessageContentBlock> = Vec::new();
        assert(wire::wires(v@) =~= seq![]);
        SamplingContent::Multiple(v)
    }
}

impl Clone for SamplingContent {
    fn clone(&self) -> (r: Self)
        ensures
            r.wire() == self.wire(),
    {
        self.duplicate()
    }
}

impl Wire for SamplingContent {
    open spec fn wire(&self) -> JsonView {
        match self {
            SamplingContent::Single(b) => b.wire(),
            SamplingContent::Multiple(v) => v.wire(),
        }
    }

    open spec fn canon(j: JsonView) -> Option<JsonView> {
        match j {
            JsonView::Array(_) => <Vec<SamplingMessageContentBlock>>::canon(j),
            JsonView::Object(_) => SamplingMessageContentBlock::canon(j),
            _ => Some(JsonView::Array(seq![])),
        }
    }

    open spec fn faithful(&self) -> bool {
        match self {
            SamplingContent::Single(b) => b.faithful(),
            SamplingContent::Multiple(v) => v.faithful(),
        }
    }

    fn to_json(&self) -> (r: Json) {
        match self {
            SamplingContent::Single(b) => b.to_json(),
            SamplingContent::Multiple(v) => v.to_json(),
        }
    }

    fn from_json(j: &Json) -> (r: Result<Self, Malformed>)
        ensures
            match r {
                Ok(c) => (c is Single) == (j@ is Object),
                Err(_) => true,
            },
    {
        match j {
            Json::Array(_) => {
                let v = <Vec<SamplingMessageContentBlock>>::from_json(j)?;
                Ok(SamplingContent::Multiple(v))
            },
            Json::Object(_) => {
                let b = SamplingMessageContentBlock::from_json(j)?;
                Ok(SamplingContent::Single(b))
            },
            _ => Ok(SamplingContent::default()),
        }
    }

    fn duplicate(&self) -> (r: Self)
        ensures
            (r is Single) == (*self is Single),
    {
        match self {
            SamplingContent::Single(b) => SamplingContent::Single(b.duplicate()),
            SamplingContent::Multiple(v) => SamplingContent::Multiple(v.duplicate()),
        }
    }

    proof fn round_trip(&self) {
        match self {
            SamplingContent::Single(b) => {
                b.no_kind();
                b.round_trip();
            },
            SamplingContent::Multiple(v) => v.round_trip(),
        }
    }
}

/// A message to or from a model.
#[derive(Debug, PartialEq)]
pub struct SamplingMessage {
    pub role: RoleType,
    pub content: SamplingContent,
    pub meta: Option<MetaMap>,
}

impl SamplingMessage {
    /// Every member has its default.
    pub open spec fn is_default(&self) -> bool {
        &&& self.role.is_default()
        &&& self.content.is_default()
        &&& self.meta is None
    }
}

impl Default for SamplingMessage {
    fn default() -> (r: Self)
        ensures
            r.is_default(),
    {
        SamplingMessage {
            role: RoleType::User,
            content: SamplingContent::default(),
            meta: None,
        }
    }
}

impl Clone for SamplingMessage {
    fn clone(&self) -> (r: Self)
        ensures
            r.wire() == self.wire(),
    {
        self.duplicate()
    }
}

impl Wire for SamplingMessage {
    open spec fn wire(&self) -> JsonView {
        let o = wire::none();
        let o = wire::with(o, "role"@, self.role.wire());
        let o = wire::with(o, "content"@, self.content.wire());
        let o = wire::with_opt(o, "_meta"@, wire::opt(self.meta));
        JsonView::Object(o)
    }

    open spec fn canon(j: JsonView) -> Option<JsonView> {
        let role = wire::get_or::<RoleType>(j, "role"@, 0, JsonView::String("user"@));
        let content = wire::get_or::<SamplingContent>(j, "content"@, 1, JsonView::Array(seq![]));
        let meta = wire::get_opt::<MetaMap>(j, "_meta"@, 2);
        if wire::record(j, 3) && role is Some && content is Some && meta is Some {
            let o = wire::none();
            let o = wire::with(o, "role"@, role->0);
            let o = wire::with(o, "content"@, content->0);
            let o = wire::with_opt(o, "_meta"@, meta->0);
            Some(JsonView::Object(o))
        } else {
            None
        }
    }

    open spec fn faithful(&self) -> bool {
        &&& self.role.faithful()
        &&& self.content.faithful()
        &&& wire::opt_faithful(self.meta)
    }

    fn to_json(&self) -> (r: Json) {
        let mut o = wire::start();
        wire::put(&mut o, "role", &self.role);
        wire::put(&mut o, "content", &self.content);
        wire::put_opt(&mut o, "_meta", &self.meta);
        Json::object(o)
    }

    fn from_json(j: &Json) -> (r: Result<Self, Malformed>)
        ensures
            match r {
                Ok(x) => {
                    &&& wire::get_or::<RoleType>(j@, "role"@, 0, JsonView::String("user"@))
                        == Some(x.role.wire())
                    &&& wire::get_or::<SamplingContent>(j@, "content"@, 1, JsonView::Array(seq![]))
                        == Some(x.content.wire())
                    &&& wire::get_opt::<MetaMap>(j@, "_meta"@, 2) == Some(wire::opt(x.meta))
                },
                Err(_) => true,
            },
    {
        if !wire::is_record(j, 3) {
            return Err(Malformed);
        }
        let d_role: RoleType = RoleType::User;
        
        let role = wire::read_or::<RoleType>(j, "role", 0, d_role)?;
        let d_content: SamplingContent = SamplingContent::default();
        
        let content = wire::read_or::<SamplingContent>(j, "content", 1, d_content)?;
        let meta = wire::read_opt::<MetaMap>(j, "_meta", 2)?;
        Ok(SamplingMessage { role, content, meta })
    }

    fn duplicate(&self) -> (r: Self)
        ensures
            r.role.wire() == self.role.wire(),
            r.content.wire() == self.content.wire(),
            wire::opt(r.meta) == wire::opt(self.meta),
    {
        SamplingMessage {
            role: self.role.duplicate(),
            content: self.content.duplicate(),
            meta: wire::duplicate_opt(&self.meta),
        }
    }

    proof fn round_trip(&self) {
        broadcast use crate::wire::group_lookup;

        reveal_strlit("role");
        reveal_strlit("content");
        reveal_strlit("_meta");
        assert("role"@.len() == 4 && "content"@.len() == 7 && "_meta"@.len() == 5);
        self.role.round_trip();
        self.content.round_trip();
        wire::opt_round_trip(self.meta);
    }
}

impl SamplingMessage {
    /// A message of plain text.
    pub fn text(role: RoleType, text: String) -> (r: Self)
        ensures
            r.role == role,
            r.content.holds_text(text@),
            r.meta is None,
    {
        SamplingMessage { role, content: SamplingContent::text(text), meta: None }
    }
}

/// A hint at a model, by its name.
#[derive(Debug, PartialEq, Eq)]
pub struct ModelHint {
    pub name: Option<String>,
}

impl ModelHint {
    /// Every member has its default.
    pub open spec fn is_default(&self) -> bool {
        &&& self.name is None
    }
}

impl Default for ModelHint {
    fn default() -> (r: Self)
        ensures
            r.is_default(),
    {
        ModelHint {
            name: None,
        }
    }
}

impl Clone for ModelHint {
    fn clone(&self) -> (r: Self)
        ensures
            r.wire() == self.wire(),
    {
        self.duplicate()
    }
}

impl Wire for ModelHint {
    open spec fn wire(&self) -> JsonView {
        let o = wire::none();
        let o = wire::with_opt(o, "name"@, wire::opt(self.name));
        JsonView::Object(o)
    }

    open spec fn canon(j: JsonView) -> Option<JsonView> {
        let name = wire::get_opt::<String>(j, "name"@, 0);
        if wire::record(j, 1) && name is Some {
            let o = wire::none();
            let o = wire::with_opt(o, "name"@, name->0);
            Some(JsonView::Object(o))
        } else {
            None
        }
    }

    open spec fn faithful(&self) -> bool {
        &&& wire::opt_faithful(self.name)
    }

    fn to_json(&self) -> (r: Json) {
        let mut o = wire::start();
        wire::put_opt(&mut o, "name", &self.name);
        Json::object(o)
    }

    fn from_json(j: &Json) -> (r: Result<Self, Malformed>)
        ensures
            match r {
                Ok(x) => {
                    &&& wire::get_opt::<String>(j@, "name"@, 0) == Some(wire::opt(x.name))
                },
                Err(_) => true,
            },
    {
        if !wire::is_record(j, 1) {
            return Err(Malformed);
        }
        let name = wire::read_opt::<String>(j, "name", 0)?;
        Ok(ModelHint { name })
    }

    fn duplicate(&self) -> (r: Self)
        ensures
            wire::opt(r.name) == wire::opt(self.name),
    {
        ModelHint {
            name: wire::duplicate_opt(&self.name),
        }
    }

    proof fn round_trip(&self) {
        broadcast use crate::wire::group_lookup;

        wire::opt_round_trip(self.name);
    }
}

/// What matters in the choice of a model.
#[derive(Debug, PartialEq)]
pub struct ModelPreferences {
    pub hints: Option<Vec<ModelHint>>,
    pub cost_priority: Option<Real>,
    pub speed_priority: Option<Real>,
    pub intelligence_priority: Option<Real>,
}

impl ModelPreferences {
    /// Every member has its default.
    pub open spec fn is_default(&self) -> bool {
        &&& self.hints is None
        &&& self.cost_priority is None
        &&& self.speed_priority is None
        &&& self.intelligence_priority is None
    }
}

impl Default for ModelPreferences {
    fn default() -> (r: Self)
        ensures
            r.is_default(),
    {
        ModelPreferences {
            hints: None,
            cost_priority: None,
            speed_priority: None,
            intelligence_priority: None,
        }
    }
}

impl Clone for ModelPreferences {
    fn clone(&self) -> (r: Self)
        ensures
            r.wire() == self.wire(),
    {
        self.duplicate()
    }
}

impl Wire for ModelPreferences {
    open spec fn wire(&self) -> JsonView {
        let o = wire::none();
        let o = wire::with_opt(o, "hints"@, wire::opt(self.hints));
        let o = wire::with_opt(o, "costPriority"@, wire::opt(self.cost_priority));
        let o = wire::with_opt(o, "speedPriority"@, wire::opt(self.speed_priority));
        let o = wire::with_opt(o, "intelligencePriority"@, wire::opt(self.intelligence_priority));
        JsonView::Object(o)
    }

    open spec fn canon(j: JsonView) -> Option<JsonView> {
        let hints = wire::get_opt::<Vec<ModelHint>>(j, "hints"@, 0);
        let cost_priority = wire::get_opt::<Real>(j, "costPriority"@, 1);
        let speed_priority = wire::get_opt::<Real>(j, "speedPriority"@, 2);
        let intelligence_priority = wire::get_opt::<Real>(j, "intelligencePriority"@, 3);
        if wire::record(j, 4) && hints is Some && cost_priority is Some && speed_priority is Some
            && intelligence_priority is Some {
            let o = wire::none();
            let o = wire::with_opt(o, "hints"@, hints->0);
            let o = wire::with_opt(o, "costPriority"@, cost_priority->0);
            let o = wire::with_opt(o, "speedPriority"@, speed_priority->0);
            let o = wire::with_opt(o, "intelligencePriority"@, intelligence_priority->0);
            Some(JsonView::Object(o))
        } else {
            None
        }
    }

    open spec fn faithful(&self) -> bool {
        &&& wire::opt_faithful(self.hints)
        &&& wire::opt_faithful(self.cost_priority)
        &&& wire::opt_faithful(self.speed_priority)
        &&& wire::opt_faithful(self.intelligence_priority)
    }

    fn to_json(&self) -> (r: Json) {
        let mut o = wire::start();
        wire::put_opt(&mut o, "hints", &self.hints);
        wire::put_opt(&mut o, "costPriority", &self.cost_priority);
        wire::put_opt(&mut o, "speedPriority", &self.speed_priority);
        wire::put_opt(&mut o, "intelligencePriority", &self.intelligence_priority);
        Json::object(o)
    }

    fn from_json(j: &Json) -> (r: Result<Self, Malformed>)
        ensures
            match r {
                Ok(x) => {
                    &&& wire::get_opt::<Vec<ModelHint>>(j@, "hints"@, 0) == Some(wire::opt(x.hints))
                    &&& wire::get_opt::<Real>(j@, "costPriority"@, 1)
                        == Some(wire::opt(x.cost_priority))
                    &&& wire::get_opt::<Real>(j@, "speedPriority"@, 2)
                        == Some(wire::opt(x.speed_priority))
                    &&& wire::get_opt::<Real>(j@, "intelligencePriority"@, 3)
                        == Some(wire::opt(x.intelligence_priority))
                },
                Err(_) => true,
            },
    {
        if !wire::is_record(j, 4) {
            return Err(Malformed);
        }
        let hints = wire::read_opt::<Vec<ModelHint>>(j, "hints", 0)?;
        let cost_priority = wire::read_opt::<Real>(j, "costPriority", 1)?;
        let speed_priority = wire::read_opt::<Real>(j, "speedPriority", 2)?;
        let intelligence_priority = wire::read_opt::<Real>(j, "intelligencePriority", 3)?;
        Ok(ModelPreferences { hints, cost_priority, speed_priority, intelligence_priority })
    }

    fn duplicate(&self) -> (r: Self)
        ensures
            wire::opt(r.hints) == wire::opt(self.hints),
            wire::opt(r.cost_priority) == wire::opt(self.cost_priority),
            wire::opt(r.speed_priority) == wire::opt(self.speed_priority),
            wire::opt(r.intelligence_priority) == wire::opt(self.intelligence_priority),
    {
        ModelPreferences {
            hints: wire::duplicate_opt(&self.hints),
            cost_priority: wire::duplicate_opt(&self.cost_priority),
            speed_priority: wire::duplicate_opt(&self.speed_priority),
            intelligence_priority: wire::duplicate_opt(&self.intelligence_priority),
        }
    }

    proof fn round_trip(&self) {
        broadcast use crate::wire::group_lookup;

        reveal_strlit("hints");
        reveal_strlit("costPriority");
        reveal_strlit("speedPriority");
        reveal_strlit("intelligencePriority");
        assert("hints"@.len() == 5 && "costPriority"@.len() == 12 && "speedPriority"@.len() == 13
            && "intelligencePriority"@.len() == 20);
        wire::opt_round_trip(self.hints);
        wire::opt_round_trip(self.cost_priority);
        wire::opt_round_trip(self.speed_priority);
        wire::opt_round_trip(self.intelligence_priority);
    }
}

/// How a model may choose among tools.
#[derive(Debug, PartialEq, Eq)]
pub struct ToolChoice {
    pub mode: Option<String>,
}

impl ToolChoice {
    /// Every member has its default.
    pub open spec fn is_default(&self) -> bool {
        &&& self.mode is None
    }
}

impl Default for ToolChoice {
    fn default() -> (r: Self)
        ensures
            r.is_default(),
    {
        ToolChoice {
            mode: None,
        }
    }
}

impl Clone for ToolChoice {
    fn clone(&self) -> (r: Self)
        ensures
            r.wire() == self.wire(),
    {
        self.duplicate()
    }
}

impl Wire for ToolChoice {
    open spec fn wire(&self) -> JsonView {
        let o = wire::none();
        let o = wire::with_opt(o, "mode"@, wire::opt(self.mode));
        JsonView::Object(o)
    }

    open spec fn canon(j: JsonView) -> Option<JsonView> {
        let mode = wire::get_opt::<String>(j, "mode"@, 0);
        if wire::record(j, 1) && mode is Some {
            let o = wire::none();
            let o = wire::with_opt(o, "mode"@, mode->0);
            Some(JsonView::Object(o))
        } else {
            None
        }
    }

    open spec fn faithful(&self) -> bool {
        &&& wire::opt_faithful(self.mode)
    }

    fn to_json(&self) -> (r: Json) {
        let mut o = wire::start();
        wire::put_opt(&mut o, "mode", &self.mode);
        Json::object(o)
    }

    fn from_json(j: &Json) -> (r: Result<Self, Malformed>)
        ensures
            match r {
                Ok(x) => {
                    &&& wire::get_opt::<String>(j@, "mode"@, 0) == Some(wire::opt(x.mode))
                },
                Err(_) => true,
            },
    {
        if !wire::is_record(j, 1) {
            return Err(Malformed);
        }
        let mode = wire::read_opt::<String>(j, "mode", 0)?;
        Ok(ToolChoice { mode })
    }

    fn duplicate(&self) -> (r: Self)
        ensures
            wire::opt(r.mode) == wire::opt(self.mode),
    {
        ToolChoice {
            mode: wire::duplicate_opt(&self.mode),
        }
    }

    proof fn round_trip(&self) {
        broadcast use crate::wire::group_lookup;

        wire::opt_round_trip(self.mode);
    }
}

/// The message that a model came up with.
#[derive(Debug, PartialEq)]
pub struct CreateMessageResult {
    pub model: String,
    pub stop_reason: Option<String>,
    pub role: RoleType,
    pub content: SamplingContent,
    pub meta: Option<MetaMap>,
}

impl CreateMessageResult {
    /// Every member has its default.
    pub open spec fn is_default(&self) -> bool {
        &&& self.model@.len() == 0
        &&& self.stop_reason is None
        &&& self.role.is_default()
        &&& self.content.is_default()
        &&& self.meta is None
    }
}

impl Default for CreateMessageResult {
    fn default() -> (r: Self)
        ensures
            r.is_default(),
    {
        CreateMessageResult {
            model: String::new(),
            stop_reason: None,
            role: RoleType::User,
            content: SamplingContent::default(),
            meta: None,
        }
    }
}

impl Clone for CreateMessageResult {
    fn clone(&self) -> (r: Self)
        ensures
            r.wire() == self.wire(),
    {
        self.duplicate()
    }
}

impl Wire for CreateMessageResult {
    open spec fn wire(&self) -> JsonView {
        let o = wire::none();
        let o = wire::with(o, "model"@, self.model.wire());
        let o = wire::with_opt(o, "stopReason"@, wire::opt(self.stop_reason));
        let o = wire::with(o, "role"@, self.role.wire());
        let o = wire::with(o, "content"@, self.content.wire());
        let o = wire::with_opt(o, "_meta"@, wire::opt(self.meta));
        JsonView::Object(o)
    }

    open spec fn canon(j: JsonView) -> Option<JsonView> {
        let model = wire::get_or::<String>(j, "model"@, 0, JsonView::String(seq![]));
        let stop_reason = wire::get_opt::<String>(j, "stopReason"@, 1);
        let role = wire::get_or::<RoleType>(j, "role"@, 2, JsonView::String("assistant"@));
        let content = wire::get_or::<SamplingContent>(j, "content"@, 3, JsonView::Array(seq![]));
        let meta = wire::get_opt::<MetaMap>(j, "_meta"@, 4);
        if wire::record(j, 5) && model is Some && stop_reason is Some && role is Some
            && content is Some && meta is Some {
            let o = wire::none();
            let o = wire::with(o, "model"@, model->0);
            let o = wire::with_opt(o, "stopReason"@, stop_reason->0);
            let o = wire::with(o, "role"@, role->0);
            let o = wire::with(o, "content"@, content->0);
            let o = wire::with_opt(o, "_meta"@, meta->0);
            Some(JsonView::Object(o))
        } else {
            None
        }
    }

    open spec fn faithful(&self) -> bool {
        &&& self.model.faithful()
        &&& wire::opt_faithful(self.stop_reason)
        &&& self.role.faithful()
        &&& self.content.faithful()
        &&& wire::opt_faithful(self.meta)
    }

    fn to_json(&self) -> (r: Json) {
        let mut o = wire::start();
        wire::put(&mut o, "model", &self.model);
        wire::put_opt(&mut o, "stopReason", &self.stop_reason);
        wire::put(&mut o, "role", &self.role);
        wire::put(&mut o, "content", &self.content);
        wire::put_opt(&mut o, "_meta", &self.meta);
        Json::object(o)
    }

    fn from_json(j: &Json) -> (r: Result<Self, Malformed>)
        ensures
            match r {
                Ok(x) => {
                    &&& wire::get_or::<String>(j@, "model"@, 0, JsonView::String(seq![]))
                        == Some(x.model.wire())
                    &&& wire::get_opt::<String>(j@, "stopReason"@, 1)
                        == Some(wire::opt(x.stop_reason))
                    &&& wire::get_or::<RoleType>(j@, "role"@, 2, JsonView::String("assistant"@))
                        == Some(x.role.wire())
                    &&& wire::get_or::<SamplingContent>(j@, "content"@, 3, JsonView::Array(seq![]))
                        == Some(x.content.wire())
                    &&& wire::get_opt::<MetaMap>(j@, "_meta"@, 4) == Some(wire::opt(x.meta))
                },
                Err(_) => true,
            },
    {
        if !wire::is_record(j, 5) {
            return Err(Malformed);
        }
        let d_model: String = String::new();
        assert(d_model@ =~= seq![]);
        let model = wire::read_or::<String>(j, "model", 0, d_model)?;
        let stop_reason = wire::read_opt::<String>(j, "stopReason", 1)?;
        let d_role: RoleType = RoleType::Assistant;
        
        let role = wire::read_or::<RoleType>(j, "role", 2, d_role)?;
        let d_content: SamplingContent = SamplingContent::default();
        
        let content = wire::read_or::<SamplingContent>(j, "content", 3, d_content)?;
        let meta = wire::read_opt::<MetaMap>(j, "_meta", 4)?;
        Ok(CreateMessageResult { model, stop_reason, role, content, meta })
    }

    fn duplicate(&self) -> (r: Self)
        ensures
            r.model.wire() == self.model.wire(),
            wire::opt(r.stop_reason) == wire::opt(self.stop_reason),
            r.role.wire() == self.role.wire(),
            r.content.wire() == self.content.wire(),
            wire::opt(r.meta) == wire::opt(self.meta),
    {
        CreateMessageResult {
            model: self.model.duplicate(),
            stop_reason: wire::duplicate_opt(&self.stop_reason),
            role: self.role.duplicate(),
            content: self.content.duplicate(),
            meta: wire::duplicate_opt(&self.meta),
        }
    }

    proof fn round_trip(&self) {
        broadcast use crate::wire::group_lookup;

        reveal_strlit("model");
        reveal_strlit("stopReason");
        reveal_strlit("role");
        reveal_strlit("content");
        reveal_strlit("_meta");
        assert("model"@.len() == 5 && "stopReason"@.len() == 10 && "role"@.len() == 4
            && "content"@.len() == 7 && "_meta"@.len() == 5);
        assert("model"@[0] != "_meta"@[0]);
        wire::opt_round_trip(self.stop_reason);
        self.role.round_trip();
        self.content.round_trip();
        wire::opt_round_trip(self.meta);
    }
}

/// What a model is asked for.
#[derive(Debug, PartialEq)]
pub struct CreateMessageParams {
    pub messages: Vec<SamplingMessage>,
    pub model_preferences: Option<ModelPreferences>,
    pub system_prompt: Option<String>,
    pub include_context: Option<String>,
    pub temperature: Option<Real>,
    pub max_tokens: i64,
    pub stop_sequences: Option<Vec<String>>,
    pub metadata: Option<MetaMap>,
    pub tools: Option<Vec<Tool>>,
    pub tool_choice: Option<ToolChoice>,
}

impl CreateMessageParams {
    /// Every member has its default.
    pub open spec fn is_default(&self) -> bool {
        &&& self.messages@.len() == 0
        &&& self.model_preferences is None
        &&& self.system_prompt is None
        &&& self.include_context is None
        &&& self.temperature is None
        &&& self.max_tokens == 0
        &&& self.stop_sequences is None
        &&& self.metadata is None
        &&& self.tools is None
        &&& self.tool_choice is None
    }
}

impl Default for CreateMessageParams {
    fn default() -> (r: Self)
        ensures
            r.is_default(),
    {
        CreateMessageParams {
            messages: Vec::new(),
            model_preferences: None,
            system_prompt: None,
            include_context: None,
            temperature: None,
            max_tokens: 0,
            stop_sequences: None,
            metadata: None,
            tools: None,
            tool_choice: None,
        }
    }
}

impl Clone for CreateMessageParams {
    fn clone(&self) -> (r: Self)
        ensures
            r.wire() == self.wire(),
    {
        self.duplicate()
    }
}

impl Wire for CreateMessageParams {
    open spec fn wire(&self) -> JsonView {
        let o = wire::none();
        let o = wire::with(o, "messages"@, self.messages.wire());
        let o = wire::with_opt(o, "modelPreferences"@, wire::opt(self.model_preferences));
        let o = wire::with_opt(o, "systemPrompt"@, wire::opt(self.system_prompt));
        let o = wire::with_opt(o, "includeContext"@, wire::opt(self.include_context));
        let o = wire::with_opt(o, "temperature"@, wire::opt(self.temperature));
        let o = wire::with(o, "maxTokens"@, self.max_tokens.wire());
        let o = wire::with_opt(o, "stopSequences"@, wire::opt(self.stop_sequences));
        let o = wire::with_opt(o, "metadata"@, wire::opt(self.metadata));
        let o = wire::with_opt(o, "tools"@, wire::opt(self.tools));
        let o = wire::with_opt(o, "toolChoice"@, wire::opt(self.tool_choice));
        JsonView::Object(o)
    }

    open spec fn canon(j: JsonView) -> Option<JsonView> {
        let messages = wire::get_or::<Vec<SamplingMessage>>(j, "messages"@, 0, JsonView::Array(seq![]));
        let model_preferences = wire::get_opt::<ModelPreferences>(j, "modelPreferences"@, 1);
        let system_prompt = wire::get_opt::<String>(j, "systemPrompt"@, 2);
        let include_context = wire::get_opt::<String>(j, "includeContext"@, 3);
        let temperature = wire::get_opt::<Real>(j, "temperature"@, 4);
        let max_tokens = wire::get_or::<i64>(j, "maxTokens"@, 5, JsonView::Number(NumberView::Whole(0)));
        let stop_sequences = wire::get_opt::<Vec<String>>(j, "stopSequences"@, 6);
        let metadata = wire::get_opt::<MetaMap>(j, "metadata"@, 7);
        let tools = wire::get_opt::<Vec<Tool>>(j, "tools"@, 8);
        let tool_choice = wire::get_opt::<ToolChoice>(j, "toolChoice"@, 9);
        if wire::record(j, 10) && messages is Some && model_preferences is Some
            && system_prompt is Some && include_context is Some && temperature is Some
            && max_tokens is Some && stop_sequences is Some && metadata is Some && tools is Some
            && tool_choice is Some {
            let o = wire::none();
            let o = wire::with(o, "messages"@, messages->0);
            let o = wire::with_opt(o, "modelPreferences"@, model_preferences->0);
            let o = wire::with_opt(o, "systemPrompt"@, system_prompt->0);
            let o = wire::with_opt(o, "includeContext"@, include_context->0);
            let o = wire::with_opt(o, "temperature"@, temperature->0);
            let o = wire::with(o, "maxTokens"@, max_tokens->0);
            let o = wire::with_opt(o, "stopSequences"@, stop_sequences->0);
            let o = wire::with_opt(o, "metadata"@, metadata->0);
            let o = wire::with_opt(o, "tools"@, tools->0);
            let o = wire::with_opt(o, "toolChoice"@, tool_choice->0);
            Some(JsonView::Object(o))
        } else {
            None
        }
    }

    open spec fn faithful(&self) -> bool {
        &&& self.messages.faithful()
        &&& wire::opt_faithful(self.model_preferences)
        &&& wire::opt_faithful(self.system_prompt)
        &&& wire::opt_faithful(self.include_context)
        &&& wire::opt_faithful(self.temperature)
        &&& self.max_tokens.faithful()
        &&& wire::opt_faithful(self.stop_sequences)
        &&& wire::opt_faithful(self.metadata)
        &&& wire::opt_faithful(self.tools)
        &&& wire::opt_faithful(self.tool_choice)
    }

    fn to_json(&self) -> (r: Json) {
        let mut o = wire::start();
        wire::put(&mut o, "messages", &self.messages);
        wire::put_opt(&mut o, "modelPreferences", &self.model_preferences);
        wire::put_opt(&mut o, "systemPrompt", &self.system_prompt);
        wire::put_opt(&mut o, "includeContext", &self.include_context);
        wire::put_opt(&mut o, "temperature", &self.temperature);
        wire::put(&mut o, "maxTokens", &self.max_tokens);
        wire::put_opt(&mut o, "stopSequences", &self.stop_sequences);
        wire::put_opt(&mut o, "metadata", &self.metadata);
        wire::put_opt(&mut o, "tools", &self.tools);
        wire::put_opt(&mut o, "toolChoice", &self.tool_choice);
        Json::object(o)
    }

    fn from_json(j: &Json) -> (r: Result<Self, Malformed>)
        ensures
            match r {
                Ok(x) => {
                    &&& wire::get_or::<Vec<SamplingMessage>>(j@, "messages"@, 0, JsonView::Array(seq![]))
                        == Some(x.messages.wire())
                    &&& wire::get_opt::<ModelPreferences>(j@, "modelPreferences"@, 1)
                        == Some(wire::opt(x.model_preferences))
                    &&& wire::get_opt::<String>(j@, "systemPrompt"@, 2)
                        == Some(wire::opt(x.system_prompt))
                    &&& wire::get_opt::<String>(j@, "includeContext"@, 3)
                        == Some(wire::opt(x.include_context))
                    &&& wire::get_opt::<Real>(j@, "temperature"@, 4)
                        == Some(wire::opt(x.temperature))
                    &&& wire::get_or::<i64>(j@, "maxTokens"@, 5, JsonView::Number(NumberView::Whole(0)))
                        == Some(x.max_tokens.wire())
                    &&& wire::get_opt::<Vec<String>>(j@, "stopSequences"@, 6)
                        == Some(wire::opt(x.stop_sequences))
                    &&& wire::get_opt::<MetaMap>(j@, "metadata"@, 7) == Some(wire::opt(x.metadata))
                    &&& wire::get_opt::<Vec<Tool>>(j@, "tools"@, 8) == Some(wire::opt(x.tools))
                    &&& wire::get_opt::<ToolChoice>(j@, "toolChoice"@, 9)
                        == Some(wire::opt(x.tool_choice))
                },
                Err(_) => true,
            },
    {
        if !wire::is_record(j, 10) {
            return Err(Malformed);
        }
        let d_messages: Vec<SamplingMessage> = Vec::new();
        assert(wire::wires(d_messages@) =~= seq![]);
        let messages = wire::read_or::<Vec<SamplingMessage>>(j, "messages", 0, d_messages)?;
        let model_preferences = wire::read_opt::<ModelPreferences>(j, "modelPreferences", 1)?;
        let system_prompt = wire::read_opt::<String>(j, "systemPrompt", 2)?;
        let include_context = wire::read_opt::<String>(j, "includeContext", 3)?;
        let temperature = wire::read_opt::<Real>(j, "temperature", 4)?;
        let d_max_tokens: i64 = 0;
        let max_tokens = wire::read_or::<i64>(j, "maxTokens", 5, d_max_tokens)?;
        let stop_sequences = wire::read_opt::<Vec<String>>(j, "stopSequences", 6)?;
        let metadata = wire::read_opt::<MetaMap>(j, "metadata", 7)?;
        let tools = wire::read_opt::<Vec<Tool>>(j, "tools", 8)?;
        let tool_choice = wire::read_opt::<ToolChoice>(j, "toolChoice", 9)?;
        Ok(
            CreateMessageParams {
                messages,
                model_preferences,
                system_prompt,
                include_context,
                temperature,
                max_tokens,
                stop_sequences,
                metadata,
                tools,
                tool_choice,
            },
        )
    }

    fn duplicate(&self) -> (r: Self)
        ensures
            r.messages.wire() == self.messages.wire(),
            wire::opt(r.model_preferences) == wire::opt(self.model_preferences),
            wire::opt(r.system_prompt) == wire::opt(self.system_prompt),
            wire::opt(r.include_context) == wire::opt(self.include_context),
            wire::opt(r.temperature) == wire::opt(self.temperature),
            r.max_tokens.wire() == self.max_tokens.wire(),
            wire::opt(r.stop_sequences) == wire::opt(self.stop_sequences),
            wire::opt(r.metadata) == wire::opt(self.metadata),
            wire::opt(r.tools) == wire::opt(self.tools),
            wire::opt(r.tool_choice) == wire::opt(self.tool_choice),
    {
        CreateMessageParams {
            messages: self.messages.duplicate(),
            model_preferences: wire::duplicate_opt(&self.model_preferences),
            system_prompt: wire::duplicate_opt(&self.system_prompt),
            include_context: wire::duplicate_opt(&self.include_context),
            temperature: wire::duplicate_opt(&self.temperature),
            max_tokens: self.max_tokens.duplicate(),
            stop_sequences: wire::duplicate_opt(&self.stop_sequences),
            metadata: wire::duplicate_opt(&self.metadata),
            tools: wire::duplicate_opt(&self.tools),
            tool_choice: wire::duplicate_opt(&self.tool_choice),
        }
    }

    proof fn round_trip(&self) {
        broadcast use crate::wire::group_lookup;

        reveal_strlit("messages");
        reveal_strlit("modelPreferences");
        reveal_strlit("systemPrompt");
        reveal_strlit("includeContext");
        reveal_strlit("temperature");
        reveal_strlit("maxTokens");
        reveal_strlit("stopSequences");
        reveal_strlit("metadata");
        reveal_strlit("tools");
        reveal_strlit("toolChoice");
        assert("messages"@.len() == 8 && "modelPreferences"@.len() == 16
            && "systemPrompt"@.len() == 12 && "includeContext"@.len() == 14
            && "temperature"@.len() == 11 && "maxTokens"@.len() == 9 && "stopSequences"@.len() == 13
            && "metadata"@.len() == 8 && "tools"@.len() == 5 && "toolChoice"@.len() == 10);
        assert("messages"@[2] != "metadata"@[2]);
        self.messages.round_trip();
        wire::opt_round_trip(self.model_preferences);
        wire::opt_round_trip(self.system_prompt);
        wire::opt_round_trip(self.include_context);
        wire::opt_round_trip(self.temperature);
        wire::opt_round_trip(self.stop_sequences);
        wire::opt_round_trip(self.metadata);
        wire::opt_round_trip(self.tools);
        wire::opt_round_trip(self.tool_choice);
    }
}

} // verus!
