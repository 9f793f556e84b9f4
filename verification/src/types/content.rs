//! Content: text, pictures, sounds and resources, as they stand in messages and
//! results.
use vstd::prelude::*;

use crate::json::{Json, JsonView, MemberView};
use crate::text::str_eq;
use crate::wire::{Malformed, Real, Wire};
use crate::{json, wire};

verus! {

/// Who speaks in a message.
#[derive(Clone, Copy, Debug, PartialEq, Eq, Structural, Hash)]
pub enum RoleType {
    User,
    Assistant,
}

impl RoleType {
    /// The name of the role.
    pub open spec fn name(self) -> Seq<char> {
        match self {
            RoleType::User => "user"@,
            RoleType::Assistant => "assistant"@,
        }
    }

    /// The role of a name: every name but that of the assistant is the user's.
    pub open spec fn named(s: Seq<char>) -> RoleType {
        if s == "assistant"@ {
            RoleType::Assistant
        } else {
            RoleType::User
        }
    }

    /// A role is the user's unless it is given.
    pub open spec fn is_default(&self) -> bool {
        *self == RoleType::User
    }

    /// The name of the role.
    pub fn as_str(self) -> (r: &'static str)
        ensures
            r@ == self.name(),
    {
        match self {
            RoleType::User => "user",
            RoleType::Assistant => "assistant",
        }
    }
}

impl Default for RoleType {
    fn default() -> (r: Self)
        ensures
            r == RoleType::User,
    {
        RoleType::User
    }
}

impl Wire for RoleType {
    open spec fn wire(&self) -> JsonView {
        JsonView::String(self.name())
    }

    open spec fn canon(j: JsonView) -> Option<JsonView> {
        match j {
            JsonView::String(s) => Some(JsonView::String(RoleType::named(s).name())),
            _ => None,
        }
    }

    open spec fn faithful(&self) -> bool {
        true
    }

    fn to_json(&self) -> (r: Json) {
        Json::string(self.as_str())
    }

    fn from_json(j: &Json) -> (r: Result<Self, Malformed>)
        ensures
            match r {
                Ok(role) => match j@.text() {
                    Some(s) => role == RoleType::named(s),
                    None => false,
                },
                Err(_) => j@.text() is None,
            },
    {
        match j {
            Json::String(s) => Ok(
                if str_eq(s.as_str(), "assistant") {
                    RoleType::Assistant
                } else {
                    RoleType::User
                },
            ),
            _ => Err(Malformed),
        }
    }

    fn duplicate(&self) -> (r: Self) {
        *self
    }

    proof fn round_trip(&self) {
        reveal_strlit("user");
        reveal_strlit("assistant");
        assert("user"@.len() == 4 && "assistant"@.len() == 9);
    }
}

/// Hints on whom content is for and how it matters.
#[derive(Debug, PartialEq)]
pub struct Annotations {
    pub audience: Option<Vec<RoleType>>,
    pub last_modified: Option<String>,
    pub priority: Option<Real>,
}

impl Annotations {
    /// Every member has its default.
    pub open spec fn is_default(&self) -> bool {
        &&& self.audience is None
        &&& self.last_modified is None
        &&& self.priority is None
    }
}

impl Default for Annotations {
    fn default() -> (r: Self)
        ensures
            r.is_default(),
    {
        Annotations {
            audience: None,
            last_modified: None,
            priority: None,
        }
    }
}

impl Clone for Annotations {
    fn clone(&self) -> (r: Self)
        ensures
            r.wire() == self.wire(),
    {
        self.duplicate()
    }
}

impl Wire for Annotations {
    open spec fn wire(&self) -> JsonView {
        let o = wire::none();
        let o = wire::with_opt(o, "audience"@, wire::opt(self.audience));
        let o = wire::with_opt(o, "lastModified"@, wire::opt(self.last_modified));
        let o = wire::with_opt(o, "priority"@, wire::opt(self.priority));
        JsonView::Object(o)
    }

    open spec fn canon(j: JsonView) -> Option<JsonView> {
        let audience = wire::get_opt::<Vec<RoleType>>(j, "audience"@, 0);
        let last_modified = wire::get_opt::<String>(j, "lastModified"@, 1);
        let priority = wire::get_opt::<Real>(j, "priority"@, 2);
        if wire::record(j, 3) && audience is Some && last_modified is Some && priority is Some {
            let o = wire::none();
            let o = wire::with_opt(o, "audience"@, audience->0);
            let o = wire::with_opt(o, "lastModified"@, last_modified->0);
            let o = wire::with_opt(o, "priority"@, priority->0);
            Some(JsonView::Object(o))
        } else {
            None
        }
    }

    open spec fn faithful(&self) -> bool {
        &&& wire::opt_faithful(self.audience)
        &&& wire::opt_faithful(self.last_modified)
        &&& wire::opt_faithful(self.priority)
    }

    fn to_json(&self) -> (r: Json) {
        let mut o = wire::start();
        wire::put_opt(&mut o, "audience", &self.audience);
        wire::put_opt(&mut o, "lastModified", &self.last_modified);
        wire::put_opt(&mut o, "priority", &self.priority);
        Json::object(o)
    }

    fn from_json(j: &Json) -> (r: Result<Self, Malformed>)
        ensures
            match r {
                Ok(x) => {
                    &&& wire::get_opt::<Vec<RoleType>>(j@, "audience"@, 0)
                        == Some(wire::opt(x.audience))
                    &&& wire::get_opt::<String>(j@, "lastModified"@, 1)
                        == Some(wire::opt(x.last_modified))
                    &&& wire::get_opt::<Real>(j@, "priority"@, 2) == Some(wire::opt(x.priority))
                },
                Err(_) => true,
            },
    {
        if !wire::is_record(j, 3) {
            return Err(Malformed);
        }
        let audience = wire::read_opt::<Vec<RoleType>>(j, "audience", 0)?;
        let last_modified = wire::read_opt::<String>(j, "lastModified", 1)?;
        let priority = wire::read_opt::<Real>(j, "priority", 2)?;
        Ok(Annotations { audience, last_modified, priority })
    }

    fn duplicate(&self) -> (r: Self)
        ensures
            wire::opt(r.audience) == wire::opt(self.audience),
            wire::opt(r.last_modified) == wire::opt(self.last_modified),
            wire::opt(r.priority) == wire::opt(self.priority),
    {
        Annotations {
            audience: wire::duplicate_opt(&self.audience),
            last_modified: wire::duplicate_opt(&self.last_modified),
            priority: wire::duplicate_opt(&self.priority),
        }
    }

    proof fn round_trip(&self) {
        broadcast use crate::wire::group_lookup;

        reveal_strlit("audience");
        reveal_strlit("lastModified");
        reveal_strlit("priority");
        assert("audience"@.len() == 8 && "lastModified"@.len() == 12 && "priority"@.len() == 8);
        assert("audience"@[0] != "priority"@[0]);
        wire::opt_round_trip(self.audience);
        wire::opt_round_trip(self.last_modified);
        wire::opt_round_trip(self.priority);
    }
}

/// An icon, by where it is found.
#[derive(Debug, PartialEq, Eq)]
pub struct Icon {
    pub src: String,
    pub mime_type: Option<String>,
    pub sizes: Option<Vec<String>>,
    pub theme: Option<String>,
}

impl Icon {
    /// Every member has its default.
    pub open spec fn is_default(&self) -> bool {
        &&& self.src@.len() == 0
        &&& self.mime_type is None
        &&& self.sizes is None
        &&& self.theme is None
    }
}

impl Default for Icon {
    fn default() -> (r: Self)
        ensures
            r.is_default(),
    {
        Icon {
            src: String::new(),
            mime_type: None,
            sizes: None,
            theme: None,
        }
    }
}

impl Clone for Icon {
    fn clone(&self) -> (r: Self)
        ensures
            r.wire() == self.wire(),
    {
        self.duplicate()
    }
}

impl Wire for Icon {
    open spec fn wire(&self) -> JsonView {
        let o = wire::none();
        let o = wire::with(o, "src"@, self.src.wire());
        let o = wire::with_opt(o, "mimeType"@, wire::opt(self.mime_type));
        let o = wire::with_opt(o, "sizes"@, wire::opt(self.sizes));
        let o = wire::with_opt(o, "theme"@, wire::opt(self.theme));
        JsonView::Object(o)
    }

    open spec fn canon(j: JsonView) -> Option<JsonView> {
        let src = wire::get::<String>(j, "src"@, 0);
        let mime_type = wire::get_opt::<String>(j, "mimeType"@, 1);
        let sizes = wire::get_opt::<Vec<String>>(j, "sizes"@, 2);
        let theme = wire::get_opt::<String>(j, "theme"@, 3);
        if wire::record(j, 4) && src is Some && mime_type is Some && sizes is Some
            && theme is Some {
            let o = wire::none();
            let o = wire::with(o, "src"@, src->0);
            let o = wire::with_opt(o, "mimeType"@, mime_type->0);
            let o = wire::with_opt(o, "sizes"@, sizes->0);
            let o = wire::with_opt(o, "theme"@, theme->0);
            Some(JsonView::Object(o))
        } else {
            None
        }
    }

    open spec fn faithful(&self) -> bool {
        &&& self.src.faithful()
        &&& wire::opt_faithful(self.mime_type)
        &&& wire::opt_faithful(self.sizes)
        &&& wire::opt_faithful(self.theme)
    }

    fn to_json(&self) -> (r: Json) {
        let mut o = wire::start();
        wire::put(&mut o, "src", &self.src);
        wire::put_opt(&mut o, "mimeType", &self.mime_type);
        wire::put_opt(&mut o, "sizes", &self.sizes);
        wire::put_opt(&mut o, "theme", &self.theme);
        Json::object(o)
    }

    fn from_json(j: &Json) -> (r: Result<Self, Malformed>)
        ensures
            match r {
                Ok(x) => {
                    &&& wire::get::<String>(j@, "src"@, 0) == Some(x.src.wire())
                    &&& wire::get_opt::<String>(j@, "mimeType"@, 1) == Some(wire::opt(x.mime_type))
                    &&& wire::get_opt::<Vec<String>>(j@, "sizes"@, 2) == Some(wire::opt(x.sizes))
                    &&& wire::get_opt::<String>(j@, "theme"@, 3) == Some(wire::opt(x.theme))
                },
                Err(_) => true,
            },
    {
        if !wire::is_record(j, 4) {
            return Err(Malformed);
        }
        let src = wire::read::<String>(j, "src", 0)?;
        let mime_type = wire::read_opt::<String>(j, "mimeType", 1)?;
        let sizes = wire::read_opt::<Vec<String>>(j, "sizes", 2)?;
        let theme = wire::read_opt::<String>(j, "theme", 3)?;
        Ok(Icon { src, mime_type, sizes, theme })
    }

    fn duplicate(&self) -> (r: Self)
        ensures
            r.src.wire() == self.src.wire(),
            wire::opt(r.mime_type) == wire::opt(self.mime_type),
            wire::opt(r.sizes) == wire::opt(self.sizes),
            wire::opt(r.theme) == wire::opt(self.theme),
    {
        Icon {
            src: self.src.duplicate(),
            mime_type: wire::duplicate_opt(&self.mime_type),
            sizes: wire::duplicate_opt(&self.sizes),
            theme: wire::duplicate_opt(&self.theme),
        }
    }

    proof fn round_trip(&self) {
        broadcast use crate::wire::group_lookup;

        reveal_strlit("src");
        reveal_strlit("mimeType");
        reveal_strlit("sizes");
        reveal_strlit("theme");
        assert("src"@.len() == 3 && "mimeType"@.len() == 8 && "sizes"@.len() == 5
            && "theme"@.len() == 5);
        assert("sizes"@[0] != "theme"@[0]);
        wire::opt_round_trip(self.mime_type);
        wire::opt_round_trip(self.sizes);
        wire::opt_round_trip(self.theme);
    }
}

/// Text.
#[derive(Debug, PartialEq)]
pub struct TextContent {
    pub text: String,
    pub annotations: Option<Annotations>,
}

impl TextContent {
    /// Every member has its default.
    pub open spec fn is_default(&self) -> bool {
        &&& self.text@.len() == 0
        &&& self.annotations is None
    }
}

impl Default for TextContent {
    fn default() -> (r: Self)
        ensures
            r.is_default(),
    {
        TextContent {
            text: String::new(),
            annotations: None,
        }
    }
}

impl Clone for TextContent {
    fn clone(&self) -> (r: Self)
        ensures
            r.wire() == self.wire(),
    {
        self.duplicate()
    }
}

impl Wire for TextContent {
    open spec fn wire(&self) -> JsonView {
        let o = wire::none();
        let o = wire::with(o, "text"@, self.text.wire());
        let o = wire::with_opt(o, "annotations"@, wire::opt(self.annotations));
        JsonView::Object(o)
    }

    open spec fn canon(j: JsonView) -> Option<JsonView> {
        let text = wire::get_or::<String>(j, "text"@, 0, JsonView::String(seq![]));
        let annotations = wire::get_opt::<Annotations>(j, "annotations"@, 1);
        if wire::record(j, 2) && text is Some && annotations is Some {
            let o = wire::none();
            let o = wire::with(o, "text"@, text->0);
            let o = wire::with_opt(o, "annotations"@, annotations->0);
            Some(JsonView::Object(o))
        } else {
            None
        }
    }

    open spec fn faithful(&self) -> bool {
        &&& self.text.faithful()
        &&& wire::opt_faithful(self.annotations)
    }

    fn to_json(&self) -> (r: Json) {
        let mut o = wire::start();
        wire::put(&mut o, "text", &self.text);
        wire::put_opt(&mut o, "annotations", &self.annotations);
        Json::object(o)
    }

    fn from_json(j: &Json) -> (r: Result<Self, Malformed>)
        ensures
            match r {
                Ok(x) => {
                    &&& wire::get_or::<String>(j@, "text"@, 0, JsonView::String(seq![]))
                        == Some(x.text.wire())
                    &&& wire::get_opt::<Annotations>(j@, "annotations"@, 1)
                        == Some(wire::opt(x.annotations))
                },
                Err(_) => true,
            },
    {
        if !wire::is_record(j, 2) {
            return Err(Malformed);
        }
        let d_text: String = String::new();
        assert(d_text@ =~= seq![]);
        let text = wire::read_or::<String>(j, "text", 0, d_text)?;
        let annotations = wire::read_opt::<Annotations>(j, "annotations", 1)?;
        Ok(TextContent { text, annotations })
    }

    fn duplicate(&self) -> (r: Self)
        ensures
            r.text.wire() == self.text.wire(),
            wire::opt(r.annotations) == wire::opt(self.annotations),
    {
        TextContent {
            text: self.text.duplicate(),
            annotations: wire::duplicate_opt(&self.annotations),
        }
    }

    proof fn round_trip(&self) {
        broadcast use crate::wire::group_lookup;

        reveal_strlit("text");
        reveal_strlit("annotations");
        assert("text"@.len() == 4 && "annotations"@.len() == 11);
        wire::opt_round_trip(self.annotations);
    }
}

impl TextContent {
    /// Plain text.
    pub fn new(text: String) -> (r: Self)
        ensures
            r.text == text,
            r.annotations is None,
    {
        TextContent { text, annotations: None }
    }
}

/// A picture, its bytes in base64.
#[derive(Debug, PartialEq)]
pub struct ImageContent {
    pub data: String,
    pub mime_type: String,
    pub annotations: Option<Annotations>,
}

impl ImageContent {
    /// Every member has its default.
    pub open spec fn is_default(&self) -> bool {
        &&& self.data@.len() == 0
        &&& self.mime_type@.len() == 0
        &&& self.annotations is None
    }
}

impl Default for ImageContent {
    fn default() -> (r: Self)
        ensures
            r.is_default(),
    {
        ImageContent {
            data: String::new(),
            mime_type: String::new(),
            annotations: None,
        }
    }
}

impl Clone for ImageContent {
    fn clone(&self) -> (r: Self)
        ensures
            r.wire() == self.wire(),
    {
        self.duplicate()
    }
}

impl Wire for ImageContent {
    open spec fn wire(&self) -> JsonView {
        let o = wire::none();
        let o = wire::with(o, "data"@, self.data.wire());
        let o = wire::with(o, "mimeType"@, self.mime_type.wire());
        let o = wire::with_opt(o, "annotations"@, wire::opt(self.annotations));
        JsonView::Object(o)
    }

    open spec fn canon(j: JsonView) -> Option<JsonView> {
        let data = wire::get_or::<String>(j, "data"@, 0, JsonView::String(seq![]));
        let mime_type = wire::get::<String>(j, "mimeType"@, 1);
        let annotations = wire::get_opt::<Annotations>(j, "annotations"@, 2);
        if wire::record(j, 3) && data is Some && mime_type is Some && annotations is Some {
            let o = wire::none();
            let o = wire::with(o, "data"@, data->0);
            let o = wire::with(o, "mimeType"@, mime_type->0);
            let o = wire::with_opt(o, "annotations"@, annotations->0);
            Some(JsonView::Object(o))
        } else {
            None
        }
    }

    open spec fn faithful(&self) -> bool {
        &&& self.data.faithful()
        &&& self.mime_type.faithful()
        &&& wire::opt_faithful(self.annotations)
    }

    fn to_json(&self) -> (r: Json) {
        let mut o = wire::start();
        wire::put(&mut o, "data", &self.data);
        wire::put(&mut o, "mimeType", &self.mime_type);
        wire::put_opt(&mut o, "annotations", &self.annotations);
        Json::object(o)
    }

    fn from_json(j: &Json) -> (r: Result<Self, Malformed>)
        ensures
            match r {
                Ok(x) => {
                    &&& wire::get_or::<String>(j@, "data"@, 0, JsonView::String(seq![]))
                        == Some(x.data.wire())
                    &&& wire::get::<String>(j@, "mimeType"@, 1) == Some(x.mime_type.wire())
                    &&& wire::get_opt::<Annotations>(j@, "annotations"@, 2)
                        == Some(wire::opt(x.annotations))
                },
                Err(_) => true,
            },
    {
        if !wire::is_record(j, 3) {
            return Err(Malformed);
        }
        let d_data: String = String::new();
        assert(d_data@ =~= seq![]);
        let data = wire::read_or::<String>(j, "data", 0, d_data)?;
        let mime_type = wire::read::<String>(j, "mimeType", 1)?;
        let annotations = wire::read_opt::<Annotations>(j, "annotations", 2)?;
        Ok(ImageContent { data, mime_type, annotations })
    }

    fn duplicate(&self) -> (r: Self)
        ensures
            r.data.wire() == self.data.wire(),
            r.mime_type.wire() == self.mime_type.wire(),
            wire::opt(r.annotations) == wire::opt(self.annotations),
    {
        ImageContent {
            data: self.data.duplicate(),
            mime_type: self.mime_type.duplicate(),
            annotations: wire::duplicate_opt(&self.annotations),
        }
    }

    proof fn round_trip(&self) {
        broadcast use crate::wire::group_lookup;

        reveal_strlit("data");
        reveal_strlit("mimeType");
        reveal_strlit("annotations");
        assert("data"@.len() == 4 && "mimeType"@.len() == 8 && "annotations"@.len() == 11);
        wire::opt_round_trip(self.annotations);
    }
}

/// A sound, its bytes in base64.
#[derive(Debug, PartialEq)]
pub struct AudioContent {
    pub data: String,
    pub mime_type: String,
    pub annotations: Option<Annotations>,
}

impl AudioContent {
    /// Every member has its default.
    pub open spec fn is_default(&self) -> bool {
        &&& self.data@.len() == 0
        &&& self.mime_type@.len() == 0
        &&& self.annotations is None
    }
}

impl Default for AudioContent {
    fn default() -> (r: Self)
        ensures
            r.is_default(),
    {
        AudioContent {
            data: String::new(),
            mime_type: String::new(),
            annotations: None,
        }
    }
}

impl Clone for AudioContent {
    fn clone(&self) -> (r: Self)
        ensures
            r.wire() == self.wire(),
    {
        self.duplicate()
    }
}

impl Wire for AudioContent {
    open spec fn wire(&self) -> JsonView {
        let o = wire::none();
        let o = wire::with(o, "data"@, self.data.wire());
        let o = wire::with(o, "mimeType"@, self.mime_type.wire());
        let o = wire::with_opt(o, "annotations"@, wire::opt(self.annotations));
        JsonView::Object(o)
    }

    open spec fn canon(j: JsonView) -> Option<JsonView> {
        let data = wire::get_or::<String>(j, "data"@, 0, JsonView::String(seq![]));
        let mime_type = wire::get::<String>(j, "mimeType"@, 1);
        let annotations = wire::get_opt::<Annotations>(j, "annotations"@, 2);
        if wire::record(j, 3) && data is Some && mime_type is Some && annotations is Some {
            let o = wire::none();
            let o = wire::with(o, "data"@, data->0);
            let o = wire::with(o, "mimeType"@, mime_type->0);
            let o = wire::with_opt(o, "annotations"@, annotations->0);
            Some(JsonView::Object(o))
        } else {
            None
        }
    }

    open spec fn faithful(&self) -> bool {
        &&& self.data.faithful()
        &&& self.mime_type.faithful()
        &&& wire::opt_faithful(self.annotations)
    }

    fn to_json(&self) -> (r: Json) {
        let mut o = wire::start();
        wire::put(&mut o, "data", &self.data);
        wire::put(&mut o, "mimeType", &self.mime_type);
        wire::put_opt(&mut o, "annotations", &self.annotations);
        Json::object(o)
    }

    fn from_json(j: &Json) -> (r: Result<Self, Malformed>)
        ensures
            match r {
                Ok(x) => {
                    &&& wire::get_or::<String>(j@, "data"@, 0, JsonView::String(seq![]))
                        == Some(x.data.wire())
                    &&& wire::get::<String>(j@, "mimeType"@, 1) == Some(x.mime_type.wire())
                    &&& wire::get_opt::<Annotations>(j@, "annotations"@, 2)
                        == Some(wire::opt(x.annotations))
                },
                Err(_) => true,
            },
    {
        if !wire::is_record(j, 3) {
            return Err(Malformed);
        }
        let d_data: String = String::new();
        assert(d_data@ =~= seq![]);
        let data = wire::read_or::<String>(j, "data", 0, d_data)?;
        let mime_type = wire::read::<String>(j, "mimeType", 1)?;
        let annotations = wire::read_opt::<Annotations>(j, "annotations", 2)?;
        Ok(AudioContent { data, mime_type, annotations })
    }

    fn duplicate(&self) -> (r: Self)
        ensures
            r.data.wire() == self.data.wire(),
            r.mime_type.wire() == self.mime_type.wire(),
            wire::opt(r.annotations) == wire::opt(self.annotations),
    {
        AudioContent {
            data: self.data.duplicate(),
            mime_type: self.mime_type.duplicate(),
            annotations: wire::duplicate_opt(&self.annotations),
        }
    }

    proof fn round_trip(&self) {
        broadcast use crate::wire::group_lookup;

        reveal_strlit("data");
        reveal_strlit("mimeType");
        reveal_strlit("annotations");
        assert("data"@.len() == 4 && "mimeType"@.len() == 8 && "annotations"@.len() == 11);
        wire::opt_round_trip(self.annotations);
    }
}

/// The contents of a resource, as text.
#[derive(Debug, PartialEq)]
pub struct TextResourceContents {
    pub uri: String,
    pub text: String,
    pub mime_type: Option<String>,
}

impl TextResourceContents {
    /// Every member has its default.
    pub open spec fn is_default(&self) -> bool {
        &&& self.uri@.len() == 0
        &&& self.text@.len() == 0
        &&& self.mime_type is None
    }
}

impl Default for TextResourceContents {
    fn default() -> (r: Self)
        ensures
            r.is_default(),
    {
        TextResourceContents {
            uri: String::new(),
            text: String::new(),
            mime_type: None,
        }
    }
}

impl Clone for TextResourceContents {
    fn clone(&self) -> (r: Self)
        ensures
            r.wire() == self.wire(),
    {
        self.duplicate()
    }
}

impl Wire for TextResourceContents {
    open spec fn wire(&self) -> JsonView {
        let o = wire::none();
        let o = wire::with(o, "uri"@, self.uri.wire());
        let o = wire::with(o, "text"@, self.text.wire());
        let o = wire::with_opt(o, "mimeType"@, wire::opt(self.mime_type));
        JsonView::Object(o)
    }

    open spec fn canon(j: JsonView) -> Option<JsonView> {
        let uri = wire::get::<String>(j, "uri"@, 0);
        let text = wire::get_or::<String>(j, "text"@, 1, JsonView::String(seq![]));
        let mime_type = wire::get_opt::<String>(j, "mimeType"@, 2);
        if wire::record(j, 3) && uri is Some && text is Some && mime_type is Some {
            let o = wire::none();
            let o = wire::with(o, "uri"@, uri->0);
            let o = wire::with(o, "text"@, text->0);
            let o = wire::with_opt(o, "mimeType"@, mime_type->0);
            Some(JsonView::Object(o))
        } else {
            None
        }
    }

    open spec fn faithful(&self) -> bool {
        &&& self.uri.faithful()
        &&& self.text.faithful()
        &&& wire::opt_faithful(self.mime_type)
    }

    fn to_json(&self) -> (r: Json) {
        let mut o = wire::start();
        wire::put(&mut o, "uri", &self.uri);
        wire::put(&mut o, "text", &self.text);
        wire::put_opt(&mut o, "mimeType", &self.mime_type);
        Json::object(o)
    }

    fn from_json(j: &Json) -> (r: Result<Self, Malformed>)
        ensures
            match r {
                Ok(x) => {
                    &&& wire::get::<String>(j@, "uri"@, 0) == Some(x.uri.wire())
                    &&& wire::get_or::<String>(j@, "text"@, 1, JsonView::String(seq![]))
                        == Some(x.text.wire())
                    &&& wire::get_opt::<String>(j@, "mimeType"@, 2) == Some(wire::opt(x.mime_type))
                },
                Err(_) => true,
            },
    {
        if !wire::is_record(j, 3) {
            return Err(Malformed);
        }
        let uri = wire::read::<String>(j, "uri", 0)?;
        let d_text: String = String::new();
        assert(d_text@ =~= seq![]);
        let text = wire::read_or::<String>(j, "text", 1, d_text)?;
        let mime_type = wire::read_opt::<String>(j, "mimeType", 2)?;
        Ok(TextResourceContents { uri, text, mime_type })
    }

    fn duplicate(&self) -> (r: Self)
        ensures
            r.uri.wire() == self.uri.wire(),
            r.text.wire() == self.text.wire(),
            wire::opt(r.mime_type) == wire::opt(self.mime_type),
    {
        TextResourceContents {
            uri: self.uri.duplicate(),
            text: self.text.duplicate(),
            mime_type: wire::duplicate_opt(&self.mime_type),
        }
    }

    proof fn round_trip(&self) {
        broadcast use crate::wire::group_lookup;

        reveal_strlit("uri");
        reveal_strlit("text");
        reveal_strlit("mimeType");
        assert("uri"@.len() == 3 && "text"@.len() == 4 && "mimeType"@.len() == 8);
        wire::opt_round_trip(self.mime_type);
    }
}

/// The contents of a resource, its bytes in base64.
#[derive(Debug, PartialEq)]
pub struct BlobResourceContents {
    pub uri: String,
    pub blob: String,
    pub mime_type: Option<String>,
}

impl BlobResourceContents {
    /// Every member has its default.
    pub open spec fn is_default(&self) -> bool {
        &&& self.uri@.len() == 0
        &&& self.blob@.len() == 0
        &&& self.mime_type is None
    }
}

impl Default for BlobResourceContents {
    fn default() -> (r: Self)
        ensures
            r.is_default(),
    {
        BlobResourceContents {
            uri: String::new(),
            blob: String::new(),
            mime_type: None,
        }
    }
}

impl Clone for BlobResourceContents {
    fn clone(&self) -> (r: Self)
        ensures
            r.wire() == self.wire(),
    {
        self.duplicate()
    }
}

impl Wire for BlobResourceContents {
    open spec fn wire(&self) -> JsonView {
        let o = wire::none();
        let o = wire::with(o, "uri"@, self.uri.wire());
        let o = wire::with(o, "blob"@, self.blob.wire());
        let o = wire::with_opt(o, "mimeType"@, wire::opt(self.mime_type));
        JsonView::Object(o)
    }

    open spec fn canon(j: JsonView) -> Option<JsonView> {
        let uri = wire::get::<String>(j, "uri"@, 0);
        let blob = wire::get_or::<String>(j, "blob"@, 1, JsonView::String(seq![]));
        let mime_type = wire::get_opt::<String>(j, "mimeType"@, 2);
        if wire::record(j, 3) && uri is Some && blob is Some && mime_type is Some {
            let o = wire::none();
            let o = wire::with(o, "uri"@, uri->0);
            let o = wire::with(o, "blob"@, blob->0);
            let o = wire::with_opt(o, "mimeType"@, mime_type->0);
            Some(JsonView::Object(o))
        } else {
            None
        }
    }

    open spec fn faithful(&self) -> bool {
        &&& self.uri.faithful()
        &&& self.blob.faithful()
        &&& wire::opt_faithful(self.mime_type)
    }

    fn to_json(&self) -> (r: Json) {
        let mut o = wire::start();
        wire::put(&mut o, "uri", &self.uri);
        wire::put(&mut o, "blob", &self.blob);
        wire::put_opt(&mut o, "mimeType", &self.mime_type);
        Json::object(o)
    }

    fn from_json(j: &Json) -> (r: Result<Self, Malformed>)
        ensures
            match r {
                Ok(x) => {
                    &&& wire::get::<String>(j@, "uri"@, 0) == Some(x.uri.wire())
                    &&& wire::get_or::<String>(j@, "blob"@, 1, JsonView::String(seq![]))
                        == Some(x.blob.wire())
                    &&& wire::get_opt::<String>(j@, "mimeType"@, 2) == Some(wire::opt(x.mime_type))
                },
                Err(_) => true,
            },
    {
        if !wire::is_record(j, 3) {
            return Err(Malformed);
        }
        let uri = wire::read::<String>(j, "uri", 0)?;
        let d_blob: String = String::new();
        assert(d_blob@ =~= seq![]);
        let blob = wire::read_or::<String>(j, "blob", 1, d_blob)?;
        let mime_type = wire::read_opt::<String>(j, "mimeType", 2)?;
        Ok(BlobResourceContents { uri, blob, mime_type })
    }

    fn duplicate(&self) -> (r: Self)
        ensures
            r.uri.wire() == self.uri.wire(),
            r.blob.wire() == self.blob.wire(),
            wire::opt(r.mime_type) == wire::opt(self.mime_type),
    {
        BlobResourceContents {
            uri: self.uri.duplicate(),
            blob: self.blob.duplicate(),
            mime_type: wire::duplicate_opt(&self.mime_type),
        }
    }

    proof fn round_trip(&self) {
        broadcast use crate::wire::group_lookup;

        reveal_strlit("uri");
        reveal_strlit("blob");
        reveal_strlit("mimeType");
        assert("uri"@.len() == 3 && "blob"@.len() == 4 && "mimeType"@.len() == 8);
        wire::opt_round_trip(self.mime_type);
    }
}

/// The contents of a resource.
#[derive(Debug, PartialEq)]
pub enum ResourceContents {
    Text(TextResourceContents),
    Blob(BlobResourceContents),
}

impl ResourceContents {
    /// Contents are an empty text unless they are given.
    pub open spec fn is_default(&self) -> bool {
        match self {
            ResourceContents::Text(t) => t.is_default(),
            ResourceContents::Blob(_) => false,
        }
    }
}

impl Default for ResourceContents {
    fn default() -> (r: Self)
        ensures
            r.is_default(),
    {
        ResourceContents::Text(TextResourceContents::default())
    }
}

/// Contents of which neither the text nor the bytes are given: the place they come
/// from, where it is given as text.
pub open spec fn bare_contents(j: JsonView) -> JsonView {
    let uri = match j.get("uri"@) {
        Some(JsonView::String(s)) => s,
        _ => seq![],
    };
    let o = wire::with(wire::none(), "uri"@, JsonView::String(uri));
    JsonView::Object(wire::with(o, "text"@, JsonView::String(seq![])))
}

impl Clone for ResourceContents {
    fn clone(&self) -> (r: Self)
        ensures
            r.wire() == self.wire(),
    {
        self.duplicate()
    }
}

impl Wire for ResourceContents {
    open spec fn wire(&self) -> JsonView {
        match self {
            ResourceContents::Text(t) => t.wire(),
            ResourceContents::Blob(b) => b.wire(),
        }
    }

    open spec fn canon(j: JsonView) -> Option<JsonView> {
        if j.get("text"@) is Some {
            TextResourceContents::canon(j)
        } else if j.get("blob"@) is Some {
            BlobResourceContents::canon(j)
        } else {
            Some(bare_contents(j))
        }
    }

    open spec fn faithful(&self) -> bool {
        match self {
            ResourceContents::Text(t) => t.faithful(),
            ResourceContents::Blob(b) => b.faithful(),
        }
    }

    fn to_json(&self) -> (r: Json) {
        match self {
            ResourceContents::Text(t) => t.to_json(),
            ResourceContents::Blob(b) => b.to_json(),
        }
    }

    fn from_json(j: &Json) -> (r: Result<Self, Malformed>)
        ensures
            match r {
                Ok(c) => (c is Blob) == (j@.get("text"@) is None && j@.get("blob"@) is Some),
                Err(_) => true,
            },
    {
        if j.get("text").is_some() {
            let t = TextResourceContents::from_json(j)?;
            Ok(ResourceContents::Text(t))
        } else if j.get("blob").is_some() {
            let b = BlobResourceContents::from_json(j)?;
            Ok(ResourceContents::Blob(b))
        } else {
            let uri = match j.get("uri") {
                Some(Json::String(s)) => s.clone(),
                _ => String::new(),
            };
            let t = TextResourceContents { uri, text: String::new(), mime_type: None };
            assert(t.text@ =~= seq![]);
            assert(t.uri@ =~= match j@.get("uri"@) {
                Some(JsonView::String(s)) => s,
                _ => seq![],
            });
            Ok(ResourceContents::Text(t))
        }
    }

    fn duplicate(&self) -> (r: Self)
        ensures
            (r is Blob) == (*self is Blob),
    {
        match self {
            ResourceContents::Text(t) => ResourceContents::Text(t.duplicate()),
            ResourceContents::Blob(b) => ResourceContents::Blob(b.duplicate()),
        }
    }

    proof fn round_trip(&self) {
        broadcast use crate::wire::group_lookup;

        reveal_strlit("uri");
        reveal_strlit("text");
        reveal_strlit("blob");
        reveal_strlit("mimeType");
        assert("uri"@.len() == 3 && "text"@.len() == 4 && "blob"@.len() == 4 && "mimeType"@.len()
            == 8);
        assert("text"@[0] != "blob"@[0]);
        match self {
            ResourceContents::Text(t) => {
                t.round_trip();
                assert(t.wire().get("text"@) is Some);
            },
            ResourceContents::Blob(b) => {
                b.round_trip();
                assert(b.wire().get("text"@) is None);
                assert(b.wire().get("blob"@) is Some);
            },
        }
    }
}

/// A resource, contents and all.
#[derive(Debug, PartialEq)]
pub struct EmbeddedResource {
    pub resource: ResourceContents,
    pub annotations: Option<Annotations>,
}

impl EmbeddedResource {
    /// Every member has its default.
    pub open spec fn is_default(&self) -> bool {
        &&& self.resource.is_default()
        &&& self.annotations is None
    }
}

impl Default for EmbeddedResource {
    fn default() -> (r: Self)
        ensures
            r.is_default(),
    {
        EmbeddedResource {
            resource: ResourceContents::default(),
            annotations: None,
        }
    }
}

impl Clone for EmbeddedResource {
    fn clone(&self) -> (r: Self)
        ensures
            r.wire() == self.wire(),
    {
        self.duplicate()
    }
}

impl Wire for EmbeddedResource {
    open spec fn wire(&self) -> JsonView {
        let o = wire::none();
        let o = wire::with(o, "resource"@, self.resource.wire());
        let o = wire::with_opt(o, "annotations"@, wire::opt(self.annotations));
        JsonView::Object(o)
    }

    open spec fn canon(j: JsonView) -> Option<JsonView> {
        let resource = wire::get::<ResourceContents>(j, "resource"@, 0);
        let annotations = wire::get_opt::<Annotations>(j, "annotations"@, 1);
        if wire::record(j, 2) && resource is Some && annotations is Some {
            let o = wire::none();
            let o = wire::with(o, "resource"@, resource->0);
            let o = wire::with_opt(o, "annotations"@, annotations->0);
            Some(JsonView::Object(o))
        } else {
            None
        }
    }

    open spec fn faithful(&self) -> bool {
        &&& self.resource.faithful()
        &&& wire::opt_faithful(self.annotations)
    }

    fn to_json(&self) -> (r: Json) {
        let mut o = wire::start();
        wire::put(&mut o, "resource", &self.resource);
        wire::put_opt(&mut o, "annotations", &self.annotations);
        Json::object(o)
    }

    fn from_json(j: &Json) -> (r: Result<Self, Malformed>)
        ensures
            match r {
                Ok(x) => {
                    &&& wire::get::<ResourceContents>(j@, "resource"@, 0) == Some(x.resource.wire())
                    &&& wire::get_opt::<Annotations>(j@, "annotations"@, 1)
                        == Some(wire::opt(x.annotations))
                },
                Err(_) => true,
            },
    {
        if !wire::is_record(j, 2) {
            return Err(Malformed);
        }
        let resource = wire::read::<ResourceContents>(j, "resource", 0)?;
        let annotations = wire::read_opt::<Annotations>(j, "annotations", 1)?;
        Ok(EmbeddedResource { resource, annotations })
    }

    fn duplicate(&self) -> (r: Self)
        ensures
            r.resource.wire() == self.resource.wire(),
            wire::opt(r.annotations) == wire::opt(self.annotations),
    {
        EmbeddedResource {
            resource: self.resource.duplicate(),
            annotations: wire::duplicate_opt(&self.annotations),
        }
    }

    proof fn round_trip(&self) {
        broadcast use crate::wire::group_lookup;

        reveal_strlit("resource");
        reveal_strlit("annotations");
        assert("resource"@.len() == 8 && "annotations"@.len() == 11);
        self.resource.round_trip();
        wire::opt_round_trip(self.annotations);
    }
}

/// A link to a resource.
#[derive(Debug, PartialEq)]
pub struct ResourceLink {
    pub uri: String,
    pub name: String,
    pub title: Option<String>,
    pub description: Option<String>,
    pub mime_type: Option<String>,
    pub size: Option<i64>,
    pub icons: Option<Vec<Icon>>,
    pub annotations: Option<Annotations>,
}

impl ResourceLink {
    /// Every member has its default.
    pub open spec fn is_default(&self) -> bool {
        &&& self.uri@.len() == 0
        &&& self.name@.len() == 0
        &&& self.title is None
        &&& self.description is None
        &&& self.mime_type is None
        &&& self.size is None
        &&& self.icons is None
        &&& self.annotations is None
    }
}

impl Default for ResourceLink {
    fn default() -> (r: Self)
        ensures
            r.is_default(),
    {
        ResourceLink {
            uri: String::new(),
            name: String::new(),
            title: None,
            description: None,
            mime_type: None,
            size: None,
            icons: None,
            annotations: None,
        }
    }
}

impl Clone for ResourceLink {
    fn clone(&self) -> (r: Self)
        ensures
            r.wire() == self.wire(),
    {
        self.duplicate()
    }
}

impl Wire for ResourceLink {
    open spec fn wire(&self) -> JsonView {
        let o = wire::none();
        let o = wire::with(o, "uri"@, self.uri.wire());
        let o = wire::with(o, "name"@, self.name.wire());
        let o = wire::with_opt(o, "title"@, wire::opt(self.title));
        let o = wire::with_opt(o, "description"@, wire::opt(self.description));
        let o = wire::with_opt(o, "mimeType"@, wire::opt(self.mime_type));
        let o = wire::with_opt(o, "size"@, wire::opt(self.size));
        let o = wire::with_opt(o, "icons"@, wire::opt(self.icons));
        let o = wire::with_opt(o, "annotations"@, wire::opt(self.annotations));
        JsonView::Object(o)
    }

    open spec fn canon(j: JsonView) -> Option<JsonView> {
        let uri = wire::get::<String>(j, "uri"@, 0);
        let name = wire::get::<String>(j, "name"@, 1);
        let title = wire::get_opt::<String>(j, "title"@, 2);
        let description = wire::get_opt::<String>(j, "description"@, 3);
        let mime_type = wire::get_opt::<String>(j, "mimeType"@, 4);
        let size = wire::get_opt::<i64>(j, "size"@, 5);
        let icons = wire::get_opt::<Vec<Icon>>(j, "icons"@, 6);
        let annotations = wire::get_opt::<Annotations>(j, "annotations"@, 7);
        if wire::record(j, 8) && uri is Some && name is Some && title is Some && description is Some
            && mime_type is Some && size is Some && icons is Some && annotations is Some {
            let o = wire::none();
            let o = wire::with(o, "uri"@, uri->0);
            let o = wire::with(o, "name"@, name->0);
            let o = wire::with_opt(o, "title"@, title->0);
            let o = wire::with_opt(o, "description"@, description->0);
            let o = wire::with_opt(o, "mimeType"@, mime_type->0);
            let o = wire::with_opt(o, "size"@, size->0);
            let o = wire::with_opt(o, "icons"@, icons->0);
            let o = wire::with_opt(o, "annotations"@, annotations->0);
            Some(JsonView::Object(o))
        } else {
            None
        }
    }

    open spec fn faithful(&self) -> bool {
        &&& self.uri.faithful()
        &&& self.name.faithful()
        &&& wire::opt_faithful(self.title)
        &&& wire::opt_faithful(self.description)
        &&& wire::opt_faithful(self.mime_type)
        &&& wire::opt_faithful(self.size)
        &&& wire::opt_faithful(self.icons)
        &&& wire::opt_faithful(self.annotations)
    }

    fn to_json(&self) -> (r: Json) {
        let mut o = wire::start();
        wire::put(&mut o, "uri", &self.uri);
        wire::put(&mut o, "name", &self.name);
        wire::put_opt(&mut o, "title", &self.title);
        wire::put_opt(&mut o, "description", &self.description);
        wire::put_opt(&mut o, "mimeType", &self.mime_type);
        wire::put_opt(&mut o, "size", &self.size);
        wire::put_opt(&mut o, "icons", &self.icons);
        wire::put_opt(&mut o, "annotations", &self.annotations);
        Json::object(o)
    }

    fn from_json(j: &Json) -> (r: Result<Self, Malformed>)
        ensures
            match r {
                Ok(x) => {
                    &&& wire::get::<String>(j@, "uri"@, 0) == Some(x.uri.wire())
                    &&& wire::get::<String>(j@, "name"@, 1) == Some(x.name.wire())
                    &&& wire::get_opt::<String>(j@, "title"@, 2) == Some(wire::opt(x.title))
                    &&& wire::get_opt::<String>(j@, "description"@, 3)
                        == Some(wire::opt(x.description))
                    &&& wire::get_opt::<String>(j@, "mimeType"@, 4) == Some(wire::opt(x.mime_type))
                    &&& wire::get_opt::<i64>(j@, "size"@, 5) == Some(wire::opt(x.size))
                    &&& wire::get_opt::<Vec<Icon>>(j@, "icons"@, 6) == Some(wire::opt(x.icons))
                    &&& wire::get_opt::<Annotations>(j@, "annotations"@, 7)
                        == Some(wire::opt(x.annotations))
                },
                Err(_) => true,
            },
    {
        if !wire::is_record(j, 8) {
            return Err(Malformed);
        }
        let uri = wire::read::<String>(j, "uri", 0)?;
        let name = wire::read::<String>(j, "name", 1)?;
        let title = wire::read_opt::<String>(j, "title", 2)?;
        let description = wire::read_opt::<String>(j, "description", 3)?;
        let mime_type = wire::read_opt::<String>(j, "mimeType", 4)?;
        let size = wire::read_opt::<i64>(j, "size", 5)?;
        let icons = wire::read_opt::<Vec<Icon>>(j, "icons", 6)?;
        let annotations = wire::read_opt::<Annotations>(j, "annotations", 7)?;
        Ok(ResourceLink { uri, name, title, description, mime_type, size, icons, annotations })
    }

    fn duplicate(&self) -> (r: Self)
        ensures
            r.uri.wire() == self.uri.wire(),
            r.name.wire() == self.name.wire(),
            wire::opt(r.title) == wire::opt(self.title),
            wire::opt(r.description) == wire::opt(self.description),
            wire::opt(r.mime_type) == wire::opt(self.mime_type),
            wire::opt(r.size) == wire::opt(self.size),
            wire::opt(r.icons) == wire::opt(self.icons),
            wire::opt(r.annotations) == wire::opt(self.annotations),
    {
        ResourceLink {
            uri: self.uri.duplicate(),
            name: self.name.duplicate(),
            title: wire::duplicate_opt(&self.title),
            description: wire::duplicate_opt(&self.description),
            mime_type: wire::duplicate_opt(&self.mime_type),
            size: wire::duplicate_opt(&self.size),
            icons: wire::duplicate_opt(&self.icons),
            annotations: wire::duplicate_opt(&self.annotations),
        }
    }

    proof fn round_trip(&self) {
        broadcast use crate::wire::group_lookup;

        reveal_strlit("uri");
        reveal_strlit("name");
        reveal_strlit("title");
        reveal_strlit("description");
        reveal_strlit("mimeType");
        reveal_strlit("size");
        reveal_strlit("icons");
        reveal_strlit("annotations");
        assert("uri"@.len() == 3 && "name"@.len() == 4 && "title"@.len() == 5
            && "description"@.len() == 11 && "mimeType"@.len() == 8 && "size"@.len() == 4
            && "icons"@.len() == 5 && "annotations"@.len() == 11);
        assert("name"@[0] != "size"@[0]);
        assert("title"@[0] != "icons"@[0]);
        assert("description"@[0] != "annotations"@[0]);
        wire::opt_round_trip(self.title);
        wire::opt_round_trip(self.description);
        wire::opt_round_trip(self.mime_type);
        wire::opt_round_trip(self.size);
        wire::opt_round_trip(self.icons);
        wire::opt_round_trip(self.annotations);
    }
}

/// A record to which its kind is added, in front.
pub open spec fn typed(kind: Seq<char>, j: JsonView) -> JsonView {
    match j {
        JsonView::Object(o) => JsonView::Object(seq![json::member("type"@, JsonView::String(kind))] + o),
        _ => j,
    }
}

/// The kind that a record gives, empty where it gives none.
pub open spec fn kind_of(j: JsonView) -> Seq<char> {
    match j.get("type"@) {
        Some(JsonView::String(s)) => s,
        _ => seq![],
    }
}

/// The kind in front changes nothing of what is found under the other names.
pub proof fn typed_lookup(kind: Seq<char>, o: Seq<MemberView>, k: Seq<char>)
    ensures
        json::lookup(seq![json::member("type"@, JsonView::String(kind))] + o, k) == match json::lookup(
            o,
            k,
        ) {
            Some(v) => Some(v),
            None => if k == "type"@ {
                Some(JsonView::String(kind))
            } else {
                None
            },
        },
    decreases o.len(),
{
    let m = seq![json::member("type"@, JsonView::String(kind))];
    if o.len() > 0 {
        assert((m + o).drop_last() =~= m + o.drop_last());
        assert((m + o).last() == o.last());
        typed_lookup(kind, o.drop_last(), k);
    } else {
        assert(m + o =~= m);
        assert(m.drop_last() =~= seq![]);
        assert(json::lookup(m.drop_last(), k) is None);
    }
}

/// Adds its kind to a record.
pub(crate) fn with_type(j: Json, kind: &str) -> (r: Json)
    requires
        j@ is Object,
        json::lookup(j@->Object_0, "type"@) is None,
    ensures
        r@ == typed(kind@, j@),
{
    match j {
        Json::Object(members) => {
            proof {
                Json::object_view(members);
            }
            let mut members = members;
            let ghost before = members@;
            members.insert(0, ("type".to_owned(), Json::string(kind)));
            assert(json::entries(members@) =~= seq![json::member("type"@, JsonView::String(kind@))]
                + json::entries(before));
            Json::object(members)
        },
        other => other,
    }
}

/// The kind that a record gives.
pub(crate) fn read_kind(j: &Json) -> (r: String)
    ensures
        r@ == kind_of(j@),
{
    match j.get("type") {
        Some(Json::String(s)) => s.clone(),
        _ => {
            let s = String::new();
            assert(s@ =~= seq![]);
            s
        },
    }
}

/// A text that holds JSON of a kind that is not known.
pub open spec fn unknown_block(j: JsonView) -> JsonView {
    let o = wire::with(wire::none(), "text"@, JsonView::String(json::compact_text(j.normal())));
    typed("text"@, JsonView::Object(o))
}

pub(crate) fn read_unknown(j: &Json) -> (r: TextContent)
    ensures
        typed("text"@, r.wire()) == unknown_block(j@),
{
    TextContent::new(j.to_text())
}

/// What is kept of a record of a kind.
pub open spec fn typed_canon(kind: Seq<char>, c: Option<JsonView>) -> Option<JsonView> {
    match c {
        Some(v) => Some(typed(kind, v)),
        None => None,
    }
}

impl TextContent {
    /// The kind in front changes nothing of what is read.
    pub(crate) proof fn typed_round_trip(j: JsonView, kind: Seq<char>)
        requires
            j is Object,
        ensures
            Self::canon(typed(kind, j)) == Self::canon(j),
    {
        let o = j->Object_0;
        reveal_strlit("type");
        reveal_strlit("text");
        reveal_strlit("annotations");
        assert("type"@.len() == 4 && "text"@.len() == 4 && "annotations"@.len() == 11);
        assert("text"@[1] != "type"@[1]);
        typed_lookup(kind, o, "text"@);
        typed_lookup(kind, o, "annotations"@);
    }
}

impl ImageContent {
    /// The kind in front changes nothing of what is read.
    pub(crate) proof fn typed_round_trip(j: JsonView, kind: Seq<char>)
        requires
            j is Object,
        ensures
            Self::canon(typed(kind, j)) == Self::canon(j),
    {
        let o = j->Object_0;
        reveal_strlit("type");
        reveal_strlit("data");
        reveal_strlit("mimeType");
        reveal_strlit("annotations");
        assert("type"@.len() == 4 && "data"@.len() == 4 && "mimeType"@.len() == 8
            && "annotations"@.len() == 11);
        assert("data"@[0] != "type"@[0]);
        typed_lookup(kind, o, "data"@);
        typed_lookup(kind, o, "mimeType"@);
        typed_lookup(kind, o, "annotations"@);
    }
}

impl AudioContent {
    /// The kind in front changes nothing of what is read.
    pub(crate) proof fn typed_round_trip(j: JsonView, kind: Seq<char>)
        requires
            j is Object,
        ensures
            Self::canon(typed(kind, j)) == Self::canon(j),
    {
        let o = j->Object_0;
        reveal_strlit("type");
        reveal_strlit("data");
        reveal_strlit("mimeType");
        reveal_strlit("annotations");
        assert("type"@.len() == 4 && "data"@.len() == 4 && "mimeType"@.len() == 8
            && "annotations"@.len() == 11);
        assert("data"@[0] != "type"@[0]);
        typed_lookup(kind, o, "data"@);
        typed_lookup(kind, o, "mimeType"@);
        typed_lookup(kind, o, "annotations"@);
    }
}

impl ResourceLink {
    /// The kind in front changes nothing of what is read.
    pub(crate) proof fn typed_round_trip(j: JsonView, kind: Seq<char>)
        requires
            j is Object,
        ensures
            Self::canon(typed(kind, j)) == Self::canon(j),
    {
        let o = j->Object_0;
        reveal_strlit("type");
        reveal_strlit("uri");
        reveal_strlit("name");
        reveal_strlit("title");
        reveal_strlit("description");
        reveal_strlit("mimeType");
        reveal_strlit("size");
        reveal_strlit("icons");
        reveal_strlit("annotations");
        assert("type"@.len() == 4 && "uri"@.len() == 3 && "name"@.len() == 4 && "title"@.len() == 5
            && "description"@.len() == 11 && "mimeType"@.len() == 8 && "size"@.len() == 4
            && "icons"@.len() == 5 && "annotations"@.len() == 11);
        assert("name"@[0] != "type"@[0]);
        assert("size"@[0] != "type"@[0]);
        typed_lookup(kind, o, "uri"@);
        typed_lookup(kind, o, "name"@);
        typed_lookup(kind, o, "title"@);
        typed_lookup(kind, o, "description"@);
        typed_lookup(kind, o, "mimeType"@);
        typed_lookup(kind, o, "size"@);
        typed_lookup(kind, o, "icons"@);
        typed_lookup(kind, o, "annotations"@);
    }
}

impl EmbeddedResource {
    /// The kind in front changes nothing of what is read.
    pub(crate) proof fn typed_round_trip(j: JsonView, kind: Seq<char>)
        requires
            j is Object,
        ensures
            Self::canon(typed(kind, j)) == Self::canon(j),
    {
        let o = j->Object_0;
        reveal_strlit("type");
        reveal_strlit("resource");
        reveal_strlit("annotations");
        assert("type"@.len() == 4 && "resource"@.len() == 8 && "annotations"@.len() == 11);
        typed_lookup(kind, o, "resource"@);
        typed_lookup(kind, o, "annotations"@);
    }
}

/// A piece of content.
#[derive(Debug, PartialEq)]
pub enum ContentBlock {
    Text(TextContent),
    Image(ImageContent),
    Audio(AudioContent),
    ResourceLink(ResourceLink),
    EmbeddedResource(EmbeddedResource),
}

impl ContentBlock {
    /// The kind of the block.
    pub open spec fn kind(&self) -> Seq<char> {
        match self {
            ContentBlock::Text(_) => "text"@,
            ContentBlock::Image(_) => "image"@,
            ContentBlock::Audio(_) => "audio"@,
            ContentBlock::ResourceLink(_) => "resource_link"@,
            ContentBlock::EmbeddedResource(_) => "resource"@,
        }
    }

    /// The form of the block without its kind.
    pub open spec fn inner(&self) -> JsonView {
        match self {
            ContentBlock::Text(c) => c.wire(),
            ContentBlock::Image(c) => c.wire(),
            ContentBlock::Audio(c) => c.wire(),
            ContentBlock::ResourceLink(c) => c.wire(),
            ContentBlock::EmbeddedResource(c) => c.wire(),
        }
    }

    /// A block of text.
    pub fn text(text: String) -> (r: Self)
        ensures
            match r {
                ContentBlock::Text(t) => t.text == text && t.annotations is None,
                _ => false,
            },
    {
        ContentBlock::Text(TextContent::new(text))
    }

    /// The text, of a block of text.
    pub fn as_text(&self) -> (r: Option<&str>)
        ensures
            match r {
                Some(s) => *self is Text && s@ == self->Text_0.text@,
                None => !(*self is Text),
            },
    {
        match self {
            ContentBlock::Text(t) => Some(t.text.as_str()),
            _ => None,
        }
    }

    /// The kind of the block.
    pub fn kind_name(&self) -> (r: &'static str)
        ensures
            r@ == self.kind(),
    {
        match self {
            ContentBlock::Text(_) => "text",
            ContentBlock::Image(_) => "image",
            ContentBlock::Audio(_) => "audio",
            ContentBlock::ResourceLink(_) => "resource_link",
            ContentBlock::EmbeddedResource(_) => "resource",
        }
    }

    /// A block is an empty text unless it is given.
    pub open spec fn is_default(&self) -> bool {
        match self {
            ContentBlock::Text(t) => t.is_default(),
            _ => false,
        }
    }
}

impl Clone for ContentBlock {
    fn clone(&self) -> (r: Self)
        ensures
            r.wire() == self.wire(),
    {
        self.duplicate()
    }
}

impl Wire for ContentBlock {
    open spec fn wire(&self) -> JsonView {
        typed(self.kind(), self.inner())
    }

    open spec fn canon(j: JsonView) -> Option<JsonView> {
        let kind = kind_of(j);
        if kind == "text"@ {
            typed_canon("text"@, TextContent::canon(j))
        } else if kind == "image"@ {
            typed_canon("image"@, ImageContent::canon(j))
        } else if kind == "audio"@ {
            typed_canon("audio"@, AudioContent::canon(j))
        } else if kind == "resource_link"@ {
            typed_canon("resource_link"@, ResourceLink::canon(j))
        } else if kind == "resource"@ {
            typed_canon("resource"@, EmbeddedResource::canon(j))
        } else {
            Some(unknown_block(j))
        }
    }

    open spec fn faithful(&self) -> bool {
        match self {
            ContentBlock::Text(c) => c.faithful(),
            ContentBlock::Image(c) => c.faithful(),
            ContentBlock::Audio(c) => c.faithful(),
            ContentBlock::ResourceLink(c) => c.faithful(),
            ContentBlock::EmbeddedResource(c) => c.faithful(),
        }
    }

    fn to_json(&self) -> (r: Json) {
        proof {
            self.no_kind();
        }
        match self {
            ContentBlock::Text(c) => with_type(c.to_json(), "text"),
            ContentBlock::Image(c) => with_type(c.to_json(), "image"),
            ContentBlock::Audio(c) => with_type(c.to_json(), "audio"),
            ContentBlock::ResourceLink(c) => with_type(c.to_json(), "resource_link"),
            ContentBlock::EmbeddedResource(c) => with_type(c.to_json(), "resource"),
        }
    }

    fn from_json(j: &Json) -> (r: Result<Self, Malformed>)
        ensures
            match r {
                Ok(b) => {
                    &&& b is Image <==> kind_of(j@) == "image"@
                    &&& b is Audio <==> kind_of(j@) == "audio"@
                    &&& b is ResourceLink <==> kind_of(j@) == "resource_link"@
                    &&& b is EmbeddedResource <==> kind_of(j@) == "resource"@
                },
                Err(_) => true,
            },
    {
        let kind = read_kind(j);
        proof {
            reveal_strlit("text");
            reveal_strlit("image");
            reveal_strlit("audio");
            reveal_strlit("resource_link");
            reveal_strlit("resource");
            assert("text"@.len() == 4 && "image"@.len() == 5 && "audio"@.len() == 5
                && "resource_link"@.len() == 13 && "resource"@.len() == 8);
            assert("image"@[0] != "audio"@[0]);
        }
        if str_eq(kind.as_str(), "text") {
            let c = TextContent::from_json(j)?;
            Ok(ContentBlock::Text(c))
        } else if str_eq(kind.as_str(), "image") {
            let c = ImageContent::from_json(j)?;
            Ok(ContentBlock::Image(c))
        } else if str_eq(kind.as_str(), "audio") {
            let c = AudioContent::from_json(j)?;
            Ok(ContentBlock::Audio(c))
        } else if str_eq(kind.as_str(), "resource_link") {
            let c = ResourceLink::from_json(j)?;
            Ok(ContentBlock::ResourceLink(c))
        } else if str_eq(kind.as_str(), "resource") {
            let c = EmbeddedResource::from_json(j)?;
            Ok(ContentBlock::EmbeddedResource(c))
        } else {
            Ok(ContentBlock::Text(read_unknown(j)))
        }
    }

    fn duplicate(&self) -> (r: Self)
        ensures
            r.kind() == self.kind(),
            (r is Text) == (*self is Text),
            (r is Image) == (*self is Image),
            (r is Audio) == (*self is Audio),
            (r is ResourceLink) == (*self is ResourceLink),
            (r is EmbeddedResource) == (*self is EmbeddedResource),
    {
        match self {
            ContentBlock::Text(c) => ContentBlock::Text(c.duplicate()),
            ContentBlock::Image(c) => ContentBlock::Image(c.duplicate()),
            ContentBlock::Audio(c) => ContentBlock::Audio(c.duplicate()),
            ContentBlock::ResourceLink(c) => ContentBlock::ResourceLink(c.duplicate()),
            ContentBlock::EmbeddedResource(c) => ContentBlock::EmbeddedResource(c.duplicate()),
        }
    }

    proof fn round_trip(&self) {
        reveal_strlit("text");
        reveal_strlit("image");
        reveal_strlit("audio");
        reveal_strlit("resource_link");
        reveal_strlit("resource");
        assert("text"@.len() == 4 && "image"@.len() == 5 && "audio"@.len() == 5
            && "resource_link"@.len() == 13 && "resource"@.len() == 8);
        assert("image"@[0] != "audio"@[0]);
        self.no_kind();
        typed_lookup(self.kind(), self.inner()->Object_0, "type"@);
        match self {
            ContentBlock::Text(c) => {
                c.round_trip();
                TextContent::typed_round_trip(c.wire(), "text"@);
            },
            ContentBlock::Image(c) => {
                c.round_trip();
                ImageContent::typed_round_trip(c.wire(), "image"@);
            },
            ContentBlock::Audio(c) => {
                c.round_trip();
                AudioContent::typed_round_trip(c.wire(), "audio"@);
            },
            ContentBlock::ResourceLink(c) => {
                c.round_trip();
                ResourceLink::typed_round_trip(c.wire(), "resource_link"@);
            },
            ContentBlock::EmbeddedResource(c) => {
                c.round_trip();
                EmbeddedResource::typed_round_trip(c.wire(), "resource"@);
            },
        }
    }
}

impl ContentBlock {
    /// No member of the form without its kind is named like the kind.
    pub(crate) proof fn no_kind(&self)
        ensures
            self.inner() is Object,
            json::lookup(self.inner()->Object_0, "type"@) is None,
    {
        broadcast use crate::wire::group_lookup;

        reveal_strlit("type");
        reveal_strlit("text");
        reveal_strlit("annotations");
        reveal_strlit("data");
        reveal_strlit("mimeType");
        reveal_strlit("uri");
        reveal_strlit("name");
        reveal_strlit("title");
        reveal_strlit("description");
        reveal_strlit("size");
        reveal_strlit("icons");
        reveal_strlit("resource");
        assert("type"@.len() == 4 && "text"@.len() == 4 && "annotations"@.len() == 11
            && "data"@.len() == 4 && "mimeType"@.len() == 8 && "uri"@.len() == 3
            && "name"@.len() == 4 && "title"@.len() == 5 && "description"@.len() == 11
            && "size"@.len() == 4 && "icons"@.len() == 5 && "resource"@.len() == 8);
        assert("text"@[1] != "type"@[1]);
        assert("data"@[0] != "type"@[0]);
        assert("name"@[0] != "type"@[0]);
        assert("size"@[0] != "type"@[0]);
    }
}

impl Default for ContentBlock {
    fn default() -> (r: Self)
        ensures
            r.is_default(),
    {
        ContentBlock::Text(TextContent::default())
    }
}

} // verus!
