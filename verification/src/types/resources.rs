//! Resources, templates for them, and what reading one gives.
use vstd::prelude::*;

use crate::json::{Json, JsonView};
use crate::types::content::{Annotations, Icon, ResourceContents};
use crate::wire::{Malformed, MetaMap, Wire};
use crate::wire;

verus! {

/// A resource, as it is listed.
#[derive(Debug, PartialEq)]
pub struct ResourceInfo {
    pub uri: String,
    pub name: String,
    pub title: Option<String>,
    pub description: Option<String>,
    pub mime_type: Option<String>,
    pub size: Option<i64>,
    pub icons: Option<Vec<Icon>>,
    pub annotations: Option<Annotations>,
}

impl ResourceInfo {
    /// Every member has its default.
    pub open spec fn is_default(&self) -> bool {
        &&& self.uri@.len() == 0
        &&& self.name@.len() == 0
        &&& self.title is None
        &&& self.description is None
        &&& self.mime_type is None
        &&& self.size is None
        &&& self.icons is None
        &&& self.annotations is None
    }
}

impl Default for ResourceInfo {
    fn default() -> (r: Self)
        ensures
            r.is_default(),
    {
        ResourceInfo {
            uri: String::new(),
            name: String::new(),
            title: None,
            description: None,
            mime_type: None,
            size: None,
            icons: None,
            annotations: None,
        }
    }
}

impl Clone for ResourceInfo {
    fn clone(&self) -> (r: Self)
        ensures
            r.wire() == self.wire(),
    {
        self.duplicate()
    }
}

impl Wire for ResourceInfo {
    open spec fn wire(&self) -> JsonView {
        let o = wire::none();
        let o = wire::with(o, "uri"@, self.uri.wire());
        let o = wire::with(o, "name"@, self.name.wire());
        let o = wire::with_opt(o, "title"@, wire::opt(self.title));
        let o = wire::with_opt(o, "description"@, wire::opt(self.description));
        let o = wire::with_opt(o, "mimeType"@, wire::opt(self.mime_type));
        let o = wire::with_opt(o, "size"@, wire::opt(self.size));
        let o = wire::with_opt(o, "icons"@, wire::opt(self.icons));
        let o = wire::with_opt(o, "annotations"@, wire::opt(self.annotations));
        JsonView::Object(o)
    }

    open spec fn canon(j: JsonView) -> Option<JsonView> {
        let uri = wire::get::<String>(j, "uri"@, 0);
        let name = wire::get::<String>(j, "name"@, 1);
        let title = wire::get_opt::<String>(j, "title"@, 2);
        let description = wire::get_opt::<String>(j, "description"@, 3);
        let mime_type = wire::get_opt::<String>(j, "mimeType"@, 4);
        let size = wire::get_opt::<i64>(j, "size"@, 5);
        let icons = wire::get_opt::<Vec<Icon>>(j, "icons"@, 6);
        let annotations = wire::get_opt::<Annotations>(j, "annotations"@, 7);
        if wire::record(j, 8) && uri is Some && name is Some && title is Some && description is Some
            && mime_type is Some && size is Some && icons is Some && annotations is Some {
            let o = wire::none();
            let o = wire::with(o, "uri"@, uri->0);
            let o = wire::with(o, "name"@, name->0);
            let o = wire::with_opt(o, "title"@, title->0);
            let o = wire::with_opt(o, "description"@, description->0);
            let o = wire::with_opt(o, "mimeType"@, mime_type->0);
            let o = wire::with_opt(o, "size"@, size->0);
            let o = wire::with_opt(o, "icons"@, icons->0);
            let o = wire::with_opt(o, "annotations"@, annotations->0);
            Some(JsonView::Object(o))
        } else {
            None
        }
    }

    open spec fn faithful(&self) -> bool {
        &&& self.uri.faithful()
        &&& self.name.faithful()
        &&& wire::opt_faithful(self.title)
        &&& wire::opt_faithful(self.description)
        &&& wire::opt_faithful(self.mime_type)
        &&& wire::opt_faithful(self.size)
        &&& wire::opt_faithful(self.icons)
        &&& wire::opt_faithful(self.annotations)
    }

    fn to_json(&self) -> (r: Json) {
        let mut o = wire::start();
        wire::put(&mut o, "uri", &self.uri);
        wire::put(&mut o, "name", &self.name);
        wire::put_opt(&mut o, "title", &self.title);
        wire::put_opt(&mut o, "description", &self.description);
        wire::put_opt(&mut o, "mimeType", &self.mime_type);
        wire::put_opt(&mut o, "size", &self.size);
        wire::put_opt(&mut o, "icons", &self.icons);
        wire::put_opt(&mut o, "annotations", &self.annotations);
        Json::object(o)
    }

    fn from_json(j: &Json) -> (r: Result<Self, Malformed>)
        ensures
            match r {
                Ok(x) => {
                    &&& wire::get::<String>(j@, "uri"@, 0) == Some(x.uri.wire())
                    &&& wire::get::<String>(j@, "name"@, 1) == Some(x.name.wire())
                    &&& wire::get_opt::<String>(j@, "title"@, 2) == Some(wire::opt(x.title))
                    &&& wire::get_opt::<String>(j@, "description"@, 3)
                        == Some(wire::opt(x.description))
                    &&& wire::get_opt::<String>(j@, "mimeType"@, 4) == Some(wire::opt(x.mime_type))
                    &&& wire::get_opt::<i64>(j@, "size"@, 5) == Some(wire::opt(x.size))
                    &&& wire::get_opt::<Vec<Icon>>(j@, "icons"@, 6) == Some(wire::opt(x.icons))
                    &&& wire::get_opt::<Annotations>(j@, "annotations"@, 7)
                        == Some(wire::opt(x.annotations))
                },
                Err(_) => true,
            },
    {
        if !wire::is_record(j, 8) {
            return Err(Malformed);
        }
        let uri = wire::read::<String>(j, "uri", 0)?;
        let name = wire::read::<String>(j, "name", 1)?;
        let title = wire::read_opt::<String>(j, "title", 2)?;
        let description = wire::read_opt::<String>(j, "description", 3)?;
        let mime_type = wire::read_opt::<String>(j, "mimeType", 4)?;
        let size = wire::read_opt::<i64>(j, "size", 5)?;
        let icons = wire::read_opt::<Vec<Icon>>(j, "icons", 6)?;
        let annotations = wire::read_opt::<Annotations>(j, "annotations", 7)?;
        Ok(ResourceInfo { uri, name, title, description, mime_type, size, icons, annotations })
    }

    fn duplicate(&self) -> (r: Self)
        ensures
            r.uri.wire() == self.uri.wire(),
            r.name.wire() == self.name.wire(),
            wire::opt(r.title) == wire::opt(self.title),
            wire::opt(r.description) == wire::opt(self.description),
            wire::opt(r.mime_type) == wire::opt(self.mime_type),
            wire::opt(r.size) == wire::opt(self.size),
            wire::opt(r.icons) == wire::opt(self.icons),
            wire::opt(r.annotations) == wire::opt(self.annotations),
    {
        ResourceInfo {
            uri: self.uri.duplicate(),
            name: self.name.duplicate(),
            title: wire::duplicate_opt(&self.title),
            description: wire::duplicate_opt(&self.description),
            mime_type: wire::duplicate_opt(&self.mime_type),
            size: wire::duplicate_opt(&self.size),
            icons: wire::duplicate_opt(&self.icons),
            annotations: wire::duplicate_opt(&self.annotations),
        }
    }

    proof fn round_trip(&self) {
        broadcast use crate::wire::group_lookup;

        reveal_strlit("uri");
        reveal_strlit("name");
        reveal_strlit("title");
        reveal_strlit("description");
        reveal_strlit("mimeType");
        reveal_strlit("size");
        reveal_strlit("icons");
        reveal_strlit("annotations");
        assert("uri"@.len() == 3 && "name"@.len() == 4 && "title"@.len() == 5
            && "description"@.len() == 11 && "mimeType"@.len() == 8 && "size"@.len() == 4
            && "icons"@.len() == 5 && "annotations"@.len() == 11);
        assert("name"@[0] != "size"@[0]);
        assert("title"@[0] != "icons"@[0]);
        assert("description"@[0] != "annotations"@[0]);
        wire::opt_round_trip(self.title);
        wire::opt_round_trip(self.description);
        wire::opt_round_trip(self.mime_type);
        wire::opt_round_trip(self.size);
        wire::opt_round_trip(self.icons);
        wire::opt_round_trip(self.annotations);
    }
}

/// A template for resources, as it is listed.
#[derive(Debug, PartialEq)]
pub struct ResourceTemplate {
    pub uri_template: String,
    pub name: String,
    pub title: Option<String>,
    pub description: Option<String>,
    pub mime_type: Option<String>,
    pub icons: Option<Vec<Icon>>,
    pub annotations: Option<Annotations>,
}

impl ResourceTemplate {
    /// Every member has its default.
    pub open spec fn is_default(&self) -> bool {
        &&& self.uri_template@.len() == 0
        &&& self.name@.len() == 0
        &&& self.title is None
        &&& self.description is None
        &&& self.mime_type is None
        &&& self.icons is None
        &&& self.annotations is None
    }
}

impl Default for ResourceTemplate {
    fn default() -> (r: Self)
        ensures
            r.is_default(),
    {
        ResourceTemplate {
            uri_template: String::new(),
            name: String::new(),
            title: None,
            description: None,
            mime_type: None,
            icons: None,
            annotations: None,
        }
    }
}

impl Clone for ResourceTemplate {
    fn clone(&self) -> (r: Self)
        ensures
            r.wire() == self.wire(),
    {
        self.duplicate()
    }
}

impl Wire for ResourceTemplate {
    open spec fn wire(&self) -> JsonView {
        let o = wire::none();
        let o = wire::with(o, "uriTemplate"@, self.uri_template.wire());
        let o = wire::with(o, "name"@, self.name.wire());
        let o = wire::with_opt(o, "title"@, wire::opt(self.title));
        let o = wire::with_opt(o, "description"@, wire::opt(self.description));
        let o = wire::with_opt(o, "mimeType"@, wire::opt(self.mime_type));
        let o = wire::with_opt(o, "icons"@, wire::opt(self.icons));
        let o = wire::with_opt(o, "annotations"@, wire::opt(self.annotations));
        JsonView::Object(o)
    }

    open spec fn canon(j: JsonView) -> Option<JsonView> {
        let uri_template = wire::get::<String>(j, "uriTemplate"@, 0);
        let name = wire::get::<String>(j, "name"@, 1);
        let title = wire::get_opt::<String>(j, "title"@, 2);
        let description = wire::get_opt::<String>(j, "description"@, 3);
        let mime_type = wire::get_opt::<String>(j, "mimeType"@, 4);
        let icons = wire::get_opt::<Vec<Icon>>(j, "icons"@, 5);
        let annotations = wire::get_opt::<Annotations>(j, "annotations"@, 6);
        if wire::record(j, 7) && uri_template is Some && name is Some && title is Some
            && description is Some && mime_type is Some && icons is Some && annotations is Some {
            let o = wire::none();
            let o = wire::with(o, "uriTemplate"@, uri_template->0);
            let o = wire::with(o, "name"@, name->0);
            let o = wire::with_opt(o, "title"@, title->0);
            let o = wire::with_opt(o, "description"@, description->0);
            let o = wire::with_opt(o, "mimeType"@, mime_type->0);
            let o = wire::with_opt(o, "icons"@, icons->0);
            let o = wire::with_opt(o, "annotations"@, annotations->0);
            Some(JsonView::Object(o))
        } else {
            None
        }
    }

    open spec fn faithful(&self) -> bool {
        &&& self.uri_template.faithful()
        &&& self.name.faithful()
        &&& wire::opt_faithful(self.title)
        &&& wire::opt_faithful(self.description)
        &&& wire::opt_faithful(self.mime_type)
        &&& wire::opt_faithful(self.icons)
        &&& wire::opt_faithful(self.annotations)
    }

    fn to_json(&self) -> (r: Json) {
        let mut o = wire::start();
        wire::put(&mut o, "uriTemplate", &self.uri_template);
        wire::put(&mut o, "name", &self.name);
        wire::put_opt(&mut o, "title", &self.title);
        wire::put_opt(&mut o, "description", &self.description);
        wire::put_opt(&mut o, "mimeType", &self.mime_type);
        wire::put_opt(&mut o, "icons", &self.icons);
        wire::put_opt(&mut o, "annotations", &self.annotations);
        Json::object(o)
    }

    fn from_json(j: &Json) -> (r: Result<Self, Malformed>)
        ensures
            match r {
                Ok(x) => {
                    &&& wire::get::<String>(j@, "uriTemplate"@, 0) == Some(x.uri_template.wire())
                    &&& wire::get::<String>(j@, "name"@, 1) == Some(x.name.wire())
                    &&& wire::get_opt::<String>(j@, "title"@, 2) == Some(wire::opt(x.title))
                    &&& wire::get_opt::<String>(j@, "description"@, 3)
                        == Some(wire::opt(x.description))
                    &&& wire::get_opt::<String>(j@, "mimeType"@, 4) == Some(wire::opt(x.mime_type))
                    &&& wire::get_opt::<Vec<Icon>>(j@, "icons"@, 5) == Some(wire::opt(x.icons))
                    &&& wire::get_opt::<Annotations>(j@, "annotations"@, 6)
                        == Some(wire::opt(x.annotations))
                },
                Err(_) => true,
            },
    {
        if !wire::is_record(j, 7) {
            return Err(Malformed);
        }
        let uri_template = wire::read::<String>(j, "uriTemplate", 0)?;
        let name = wire::read::<String>(j, "name", 1)?;
        let title = wire::read_opt::<String>(j, "title", 2)?;
        let description = wire::read_opt::<String>(j, "description", 3)?;
        let mime_type = wire::read_opt::<String>(j, "mimeType", 4)?;
        let icons = wire::read_opt::<Vec<Icon>>(j, "icons", 5)?;
        let annotations = wire::read_opt::<Annotations>(j, "annotations", 6)?;
        Ok(ResourceTemplate { uri_template, name, title, description, mime_type, icons, annotations })
    }

    fn duplicate(&self) -> (r: Self)
        ensures
            r.uri_template.wire() == self.uri_template.wire(),
            r.name.wire() == self.name.wire(),
            wire::opt(r.title) == wire::opt(self.title),
            wire::opt(r.description) == wire::opt(self.description),
            wire::opt(r.mime_type) == wire::opt(self.mime_type),
            wire::opt(r.icons) == wire::opt(self.icons),
            wire::opt(r.annotations) == wire::opt(self.annotations),
    {
        ResourceTemplate {
            uri_template: self.uri_template.duplicate(),
            name: self.name.duplicate(),
            title: wire::duplicate_opt(&self.title),
            description: wire::duplicate_opt(&self.description),
            mime_type: wire::duplicate_opt(&self.mime_type),
            icons: wire::duplicate_opt(&self.icons),
            annotations: wire::duplicate_opt(&self.annotations),
        }
    }

    proof fn round_trip(&self) {
        broadcast use crate::wire::group_lookup;

        reveal_strlit("uriTemplate");
        reveal_strlit("name");
        reveal_strlit("title");
        reveal_strlit("description");
        reveal_strlit("mimeType");
        reveal_strlit("icons");
        reveal_strlit("annotations");
        assert("uriTemplate"@.len() == 11 && "name"@.len() == 4 && "title"@.len() == 5
            && "description"@.len() == 11 && "mimeType"@.len() == 8 && "icons"@.len() == 5
            && "annotations"@.len() == 11);
        assert("uriTemplate"@[0] != "description"@[0]);
        assert("uriTemplate"@[0] != "annotations"@[0]);
        assert("title"@[0] != "icons"@[0]);
        assert("description"@[0] != "annotations"@[0]);
        wire::opt_round_trip(self.title);
        wire::opt_round_trip(self.description);
        wire::opt_round_trip(self.mime_type);
        wire::opt_round_trip(self.icons);
        wire::opt_round_trip(self.annotations);
    }
}

/// One page of the resources.
#[derive(Debug, PartialEq)]
pub struct ListResourcesResult {
    pub resources: Vec<ResourceInfo>,
    pub next_cursor: Option<String>,
    pub meta: Option<MetaMap>,
}

impl ListResourcesResult {
    /// Every member has its default.
    pub open spec fn is_default(&self) -> bool {
        &&& self.resources@.len() == 0
        &&& self.next_cursor is None
        &&& self.meta is None
    }
}

impl Default for ListResourcesResult {
    fn default() -> (r: Self)
        ensures
            r.is_default(),
    {
        ListResourcesResult {
            resources: Vec::new(),
            next_cursor: None,
            meta: None,
        }
    }
}

impl Clone for ListResourcesResult {
    fn clone(&self) -> (r: Self)
        ensures
            r.wire() == self.wire(),
    {
        self.duplicate()
    }
}

impl Wire for ListResourcesResult {
    open spec fn wire(&self) -> JsonView {
        let o = wire::none();
        let o = wire::with(o, "resources"@, self.resources.wire());
        let o = wire::with_opt(o, "nextCursor"@, wire::opt(self.next_cursor));
        let o = wire::with_opt(o, "_meta"@, wire::opt(self.meta));
        JsonView::Object(o)
    }

    open spec fn canon(j: JsonView) -> Option<JsonView> {
        let resources = wire::get_or::<Vec<ResourceInfo>>(j, "resources"@, 0, JsonView::Array(seq![]));
        let next_cursor = wire::get_opt::<String>(j, "nextCursor"@, 1);
        let meta = wire::get_opt::<MetaMap>(j, "_meta"@, 2);
        if wire::record(j, 3) && resources is Some && next_cursor is Some && meta is Some {
            let o = wire::none();
            let o = wire::with(o, "resources"@, resources->0);
            let o = wire::with_opt(o, "nextCursor"@, next_cursor->0);
            let o = wire::with_opt(o, "_meta"@, meta->0);
            Some(JsonView::Object(o))
        } else {
            None
        }
    }

    open spec fn faithful(&self) -> bool {
        &&& self.resources.faithful()
        &&& wire::opt_faithful(self.next_cursor)
        &&& wire::opt_faithful(self.meta)
    }

    fn to_json(&self) -> (r: Json) {
        let mut o = wire::start();
        wire::put(&mut o, "resources", &self.resources);
        wire::put_opt(&mut o, "nextCursor", &self.next_cursor);
        wire::put_opt(&mut o, "_meta", &self.meta);
        Json::object(o)
    }

    fn from_json(j: &Json) -> (r: Result<Self, Malformed>)
        ensures
            match r {
                Ok(x) => {
                    &&& wire::get_or::<Vec<ResourceInfo>>(j@, "resources"@, 0, JsonView::Array(seq![]))
                        == Some(x.resources.wire())
                    &&& wire::get_opt::<String>(j@, "nextCursor"@, 1)
                        == Some(wire::opt(x.next_cursor))
                    &&& wire::get_opt::<MetaMap>(j@, "_meta"@, 2) == Some(wire::opt(x.meta))
                },
                Err(_) => true,
            },
    {
        if !wire::is_record(j, 3) {
            return Err(Malformed);
        }
        let d_resources: Vec<ResourceInfo> = Vec::new();
        assert(wire::wires(d_resources@) =~= seq![]);
        let resources = wire::read_or::<Vec<ResourceInfo>>(j, "resources", 0, d_resources)?;
        let next_cursor = wire::read_opt::<String>(j, "nextCursor", 1)?;
        let meta = wire::read_opt::<MetaMap>(j, "_meta", 2)?;
        Ok(ListResourcesResult { resources, next_cursor, meta })
    }

    fn duplicate(&self) -> (r: Self)
        ensures
            r.resources.wire() == self.resources.wire(),
            wire::opt(r.next_cursor) == wire::opt(self.next_cursor),
            wire::opt(r.meta) == wire::opt(self.meta),
    {
        ListResourcesResult {
            resources: self.resources.duplicate(),
            next_cursor: wire::duplicate_opt(&self.next_cursor),
            meta: wire::duplicate_opt(&self.meta),
        }
    }

    proof fn round_trip(&self) {
        broadcast use crate::wire::group_lookup;

        reveal_strlit("resources");
        reveal_strlit("nextCursor");
        reveal_strlit("_meta");
        assert("resources"@.len() == 9 && "nextCursor"@.len() == 10 && "_meta"@.len() == 5);
        self.resources.round_trip();
        wire::opt_round_trip(self.next_cursor);
        wire::opt_round_trip(self.meta);
    }
}

/// The contents of a resource.
#[derive(Debug, PartialEq)]
pub struct ReadResourceResult {
    pub contents: Vec<ResourceContents>,
    pub meta: Option<MetaMap>,
}

impl ReadResourceResult {
    /// Every member has its default.
    pub open spec fn is_default(&self) -> bool {
        &&& self.contents@.len() == 0
        &&& self.meta is None
    }
}

impl Default for ReadResourceResult {
    fn default() -> (r: Self)
        ensures
            r.is_default(),
    {
        ReadResourceResult {
            contents: Vec::new(),
            meta: None,
        }
    }
}

impl Clone for ReadResourceResult {
    fn clone(&self) -> (r: Self)
        ensures
            r.wire() == self.wire(),
    {
        self.duplicate()
    }
}

impl Wire for ReadResourceResult {
    open spec fn wire(&self) -> JsonView {
        let o = wire::none();
        let o = wire::with(o, "contents"@, self.contents.wire());
        let o = wire::with_opt(o, "_meta"@, wire::opt(self.meta));
        JsonView::Object(o)
    }

    open spec fn canon(j: JsonView) -> Option<JsonView> {
        let contents = wire::get_or::<Vec<ResourceContents>>(j, "contents"@, 0, JsonView::Array(seq![]));
        let meta = wire::get_opt::<MetaMap>(j, "_meta"@, 1);
        if wire::record(j, 2) && contents is Some && meta is Some {
            let o = wire::none();
            let o = wire::with(o, "contents"@, contents->0);
            let o = wire::with_opt(o, "_meta"@, meta->0);
            Some(JsonView::Object(o))
        } else {
            None
        }
    }

    open spec fn faithful(&self) -> bool {
        &&& self.contents.faithful()
        &&& wire::opt_faithful(self.meta)
    }

    fn to_json(&self) -> (r: Json) {
        let mut o = wire::start();
        wire::put(&mut o, "contents", &self.contents);
        wire::put_opt(&mut o, "_meta", &self.meta);
        Json::object(o)
    }

    fn from_json(j: &Json) -> (r: Result<Self, Malformed>)
        ensures
            match r {
                Ok(x) => {
                    &&& wire::get_or::<Vec<ResourceContents>>(j@, "contents"@, 0, JsonView::Array(seq![]))
                        == Some(x.contents.wire())
                    &&& wire::get_opt::<MetaMap>(j@, "_meta"@, 1) == Some(wire::opt(x.meta))
                },
                Err(_) => true,
            },
    {
        if !wire::is_record(j, 2) {
            return Err(Malformed);
        }
        let d_contents: Vec<ResourceContents> = Vec::new();
        assert(wire::wires(d_contents@) =~= seq![]);
        let contents = wire::read_or::<Vec<ResourceContents>>(j, "contents", 0, d_contents)?;
        let meta = wire::read_opt::<MetaMap>(j, "_meta", 1)?;
        Ok(ReadResourceResult { contents, meta })
    }

    fn duplicate(&self) -> (r: Self)
        ensures
            r.contents.wire() == self.contents.wire(),
            wire::opt(r.meta) == wire::opt(self.meta),
    {
        ReadResourceResult {
            contents: self.contents.duplicate(),
            meta: wire::duplicate_opt(&self.meta),
        }
    }

    proof fn round_trip(&self) {
        broadcast use crate::wire::group_lookup;

        reveal_strlit("contents");
        reveal_strlit("_meta");
        assert("contents"@.len() == 8 && "_meta"@.len() == 5);
        self.contents.round_trip();
        wire::opt_round_trip(self.meta);
    }
}

/// One page of the templates for resources.
#[derive(Debug, PartialEq)]
pub struct ListResourceTemplatesResult {
    pub resource_templates: Vec<ResourceTemplate>,
    pub next_cursor: Option<String>,
    pub meta: Option<MetaMap>,
}

impl ListResourceTemplatesResult {
    /// Every member has its default.
    pub open spec fn is_default(&self) -> bool {
        &&& self.resource_templates@.len() == 0
        &&& self.next_cursor is None
        &&& self.meta is None
    }
}

impl Default for ListResourceTemplatesResult {
    fn default() -> (r: Self)
        ensures
            r.is_default(),
    {
        ListResourceTemplatesResult {
            resource_templates: Vec::new(),
            next_cursor: None,
            meta: None,
        }
    }
}

impl Clone for ListResourceTemplatesResult {
    fn clone(&self) -> (r: Self)
        ensures
            r.wire() == self.wire(),
    {
        self.duplicate()
    }
}

impl Wire for ListResourceTemplatesResult {
    open spec fn wire(&self) -> JsonView {
        let o = wire::none();
        let o = wire::with(o, "resourceTemplates"@, self.resource_templates.wire());
        let o = wire::with_opt(o, "nextCursor"@, wire::opt(self.next_cursor));
        let o = wire::with_opt(o, "_meta"@, wire::opt(self.meta));
        JsonView::Object(o)
    }

    open spec fn canon(j: JsonView) -> Option<JsonView> {
        let resource_templates = wire::get_or::<Vec<ResourceTemplate>>(
            j,
            "resourceTemplates"@,
            0,
            JsonView::Array(seq![]),
        );
        let next_cursor = wire::get_opt::<String>(j, "nextCursor"@, 1);
        let meta = wire::get_opt::<MetaMap>(j, "_meta"@, 2);
        if wire::record(j, 3) && resource_templates is Some && next_cursor is Some && meta is Some {
            let o = wire::none();
            let o = wire::with(o, "resourceTemplates"@, resource_templates->0);
            let o = wire::with_opt(o, "nextCursor"@, next_cursor->0);
            let o = wire::with_opt(o, "_meta"@, meta->0);
            Some(JsonView::Object(o))
        } else {
            None
        }
    }

    open spec fn faithful(&self) -> bool {
        &&& self.resource_templates.faithful()
        &&& wire::opt_faithful(self.next_cursor)
        &&& wire::opt_faithful(self.meta)
    }

    fn to_json(&self) -> (r: Json) {
        let mut o = wire::start();
        wire::put(&mut o, "resourceTemplates", &self.resource_templates);
        wire::put_opt(&mut o, "nextCursor", &self.next_cursor);
        wire::put_opt(&mut o, "_meta", &self.meta);
        Json::object(o)
    }

    fn from_json(j: &Json) -> (r: Result<Self, Malformed>)
        ensures
            match r {
                Ok(x) => {
                    &&& wire::get_or::<Vec<ResourceTemplate>>(j@, "resourceTemplates"@, 0, JsonView::Array(seq![]))
                        == Some(x.resource_templates.wire())
                    &&& wire::get_opt::<String>(j@, "nextCursor"@, 1)
                        == Some(wire::opt(x.next_cursor))
                    &&& wire::get_opt::<MetaMap>(j@, "_meta"@, 2) == Some(wire::opt(x.meta))
                },
                Err(_) => true,
            },
    {
        if !wire::is_record(j, 3) {
            return Err(Malformed);
        }
        let d_resource_templates: Vec<ResourceTemplate> = Vec::new();
        assert(wire::wires(d_resource_templates@) =~= seq![]);
        let resource_templates = wire::read_or::<Vec<ResourceTemplate>>(
            j,
            "resourceTemplates",
            0,
            d_resource_templates,
        )?;
        let next_cursor = wire::read_opt::<String>(j, "nextCursor", 1)?;
        let meta = wire::read_opt::<MetaMap>(j, "_meta", 2)?;
        Ok(ListResourceTemplatesResult { resource_templates, next_cursor, meta })
    }

    fn duplicate(&self) -> (r: Self)
        ensures
            r.resource_templates.wire() == self.resource_templates.wire(),
            wire::opt(r.next_cursor) == wire::opt(self.next_cursor),
            wire::opt(r.meta) == wire::opt(self.meta),
    {
        ListResourceTemplatesResult {
            resource_templates: self.resource_templates.duplicate(),
            next_cursor: wire::duplicate_opt(&self.next_cursor),
            meta: wire::duplicate_opt(&self.meta),
        }
    }

    proof fn round_trip(&self) {
        broadcast use crate::wire::group_lookup;

        reveal_strlit("resourceTemplates");
        reveal_strlit("nextCursor");
        reveal_strlit("_meta");
        assert("resourceTemplates"@.len() == 17 && "nextCursor"@.len() == 10
            && "_meta"@.len() == 5);
        self.resource_templates.round_trip();
        wire::opt_round_trip(self.next_cursor);
        wire::opt_round_trip(self.meta);
    }
}

} // verus!
