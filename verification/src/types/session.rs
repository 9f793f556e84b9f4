//! Opening a session, and the answers that belong to no other family.
use vstd::prelude::*;

use crate::json::{Json, JsonView};
use crate::protocol::DEFAULT_PROTOCOL_VERSION;
use crate::types::capabilities::{ClientCapabilities, ServerCapabilities};
use crate::types::content::Icon;
use crate::types::meta::RequestParamsMeta;
use crate::wire::{Malformed, MetaMap, Wire};
use crate::wire;

verus! {

/// A program that takes part in a session.
#[derive(Debug, PartialEq)]
pub struct Implementation {
    pub name: String,
    pub title: Option<String>,
    pub version: String,
    pub website_url: Option<String>,
    pub icons: Option<Vec<Icon>>,
}

impl Implementation {
    /// Every member has its default.
    pub open spec fn is_default(&self) -> bool {
        &&& self.name@.len() == 0
        &&& self.title is None
        &&& self.version@.len() == 0
        &&& self.website_url is None
        &&& self.icons is None
    }
}

impl Default for Implementation {
    fn default() -> (r: Self)
        ensures
            r.is_default(),
    {
        Implementation {
            name: String::new(),
            title: None,
            version: String::new(),
            website_url: None,
            icons: None,
        }
    }
}

impl Clone for Implementation {
    fn clone(&self) -> (r: Self)
        ensures
            r.wire() == self.wire(),
    {
        self.duplicate()
    }
}

impl Wire for Implementation {
    open spec fn wire(&self) -> JsonView {
        let o = wire::none();
        let o = wire::with(o, "name"@, self.name.wire());
        let o = wire::with_opt(o, "title"@, wire::opt(self.title));
        let o = wire::with(o, "version"@, self.version.wire());
        let o = wire::with_opt(o, "websiteUrl"@, wire::opt(self.website_url));
        let o = wire::with_opt(o, "icons"@, wire::opt(self.icons));
        JsonView::Object(o)
    }

    open spec fn canon(j: JsonView) -> Option<JsonView> {
        let name = wire::get_or::<String>(j, "name"@, 0, JsonView::String(seq![]));
        let title = wire::get_opt::<String>(j, "title"@, 1);
        let version = wire::get_or::<String>(j, "version"@, 2, JsonView::String(seq![]));
        let website_url = wire::get_opt::<String>(j, "websiteUrl"@, 3);
        let icons = wire::get_opt::<Vec<Icon>>(j, "icons"@, 4);
        if wire::record(j, 5) && name is Some && title is Some && version is Some
            && website_url is Some && icons is Some {
            let o = wire::none();
            let o = wire::with(o, "name"@, name->0);
            let o = wire::with_opt(o, "title"@, title->0);
            let o = wire::with(o, "version"@, version->0);
            let o = wire::with_opt(o, "websiteUrl"@, website_url->0);
            let o = wire::with_opt(o, "icons"@, icons->0);
            Some(JsonView::Object(o))
        } else {
            None
        }
    }

    open spec fn faithful(&self) -> bool {
        &&& self.name.faithful()
        &&& wire::opt_faithful(self.title)
        &&& self.version.faithful()
        &&& wire::opt_faithful(self.website_url)
        &&& wire::opt_faithful(self.icons)
    }

    fn to_json(&self) -> (r: Json) {
        let mut o = wire::start();
        wire::put(&mut o, "name", &self.name);
        wire::put_opt(&mut o, "title", &self.title);
        wire::put(&mut o, "version", &self.version);
        wire::put_opt(&mut o, "websiteUrl", &self.website_url);
        wire::put_opt(&mut o, "icons", &self.icons);
        Json::object(o)
    }

    fn from_json(j: &Json) -> (r: Result<Self, Malformed>)
        ensures
            match r {
                Ok(x) => {
                    &&& wire::get_or::<String>(j@, "name"@, 0, JsonView::String(seq![]))
                        == Some(x.name.wire())
                    &&& wire::get_opt::<String>(j@, "title"@, 1) == Some(wire::opt(x.title))
                    &&& wire::get_or::<String>(j@, "version"@, 2, JsonView::String(seq![]))
                        == Some(x.version.wire())
                    &&& wire::get_opt::<String>(j@, "websiteUrl"@, 3)
                        == Some(wire::opt(x.website_url))
                    &&& wire::get_opt::<Vec<Icon>>(j@, "icons"@, 4) == Some(wire::opt(x.icons))
                },
                Err(_) => true,
            },
    {
        if !wire::is_record(j, 5) {
            return Err(Malformed);
        }
        let d_name: String = String::new();
        assert(d_name@ =~= seq![]);
        let name = wire::read_or::<String>(j, "name", 0, d_name)?;
        let title = wire::read_opt::<String>(j, "title", 1)?;
        let d_version: String = String::new();
        assert(d_version@ =~= seq![]);
        let version = wire::read_or::<String>(j, "version", 2, d_version)?;
        let website_url = wire::read_opt::<String>(j, "websiteUrl", 3)?;
        let icons = wire::read_opt::<Vec<Icon>>(j, "icons", 4)?;
        Ok(Implementation { name, title, version, website_url, icons })
    }

    fn duplicate(&self) -> (r: Self)
        ensures
            r.name.wire() == self.name.wire(),
            wire::opt(r.title) == wire::opt(self.title),
            r.version.wire() == self.version.wire(),
            wire::opt(r.website_url) == wire::opt(self.website_url),
            wire::opt(r.icons) == wire::opt(self.icons),
    {
        Implementation {
            name: self.name.duplicate(),
            title: wire::duplicate_opt(&self.title),
            version: self.version.duplicate(),
            website_url: wire::duplicate_opt(&self.website_url),
            icons: wire::duplicate_opt(&self.icons),
        }
    }

    proof fn round_trip(&self) {
        broadcast use crate::wire::group_lookup;

        reveal_strlit("name");
        reveal_strlit("title");
        reveal_strlit("version");
        reveal_strlit("websiteUrl");
        reveal_strlit("icons");
        assert("name"@.len() == 4 && "title"@.len() == 5 && "version"@.len() == 7
            && "websiteUrl"@.len() == 10 && "icons"@.len() == 5);
        assert("title"@[0] != "icons"@[0]);
        wire::opt_round_trip(self.title);
        wire::opt_round_trip(self.website_url);
        wire::opt_round_trip(self.icons);
    }
}

impl Implementation {
    /// A program, by its name and version.
    pub fn new(name: String, version: String) -> (r: Self)
        ensures
            r.name == name,
            r.version == version,
            r.title is None,
            r.website_url is None,
            r.icons is None,
    {
        Implementation { name, title: None, version, website_url: None, icons: None }
    }
}

/// The program on the client's side.
pub type ClientInfo = Implementation;

/// The program on the server's side.
pub type ServerInfo = Implementation;

/// A program of which nothing is said.
pub open spec fn empty_implementation() -> JsonView {
    let o = wire::with(wire::none(), "name"@, JsonView::String(seq![]));
    JsonView::Object(wire::with(o, "version"@, JsonView::String(seq![])))
}

/// A program of which nothing is said.
proof fn default_implementation(i: Implementation)
    requires
        i.is_default(),
    ensures
        i.wire() == empty_implementation(),
{
    assert(i.name@ =~= seq![]);
    assert(i.version@ =~= seq![]);
}

/// The answer to a client that opens a session.
#[derive(Debug, PartialEq)]
pub struct InitializeResult {
    pub protocol_version: String,
    pub capabilities: ServerCapabilities,
    pub server_info: Implementation,
    pub instructions: Option<String>,
    pub meta: Option<MetaMap>,
}

impl InitializeResult {
    /// Every member has its default.
    pub open spec fn is_default(&self) -> bool {
        &&& self.protocol_version@ == DEFAULT_PROTOCOL_VERSION@
        &&& self.capabilities.is_default()
        &&& self.server_info.is_default()
        &&& self.instructions is None
        &&& self.meta is None
    }
}

impl Default for InitializeResult {
    fn default() -> (r: Self)
        ensures
            r.is_default(),
    {
        InitializeResult {
            protocol_version: DEFAULT_PROTOCOL_VERSION.to_owned(),
            capabilities: ServerCapabilities::default(),
            server_info: Implementation::default(),
            instructions: None,
            meta: None,
        }
    }
}

impl Clone for InitializeResult {
    fn clone(&self) -> (r: Self)
        ensures
            r.wire() == self.wire(),
    {
        self.duplicate()
    }
}

impl Wire for InitializeResult {
    open spec fn wire(&self) -> JsonView {
        let o = wire::none();
        let o = wire::with(o, "protocolVersion"@, self.protocol_version.wire());
        let o = wire::with(o, "capabilities"@, self.capabilities.wire());
        let o = wire::with(o, "serverInfo"@, self.server_info.wire());
        let o = wire::with_opt(o, "instructions"@, wire::opt(self.instructions));
        let o = wire::with_opt(o, "_meta"@, wire::opt(self.meta));
        JsonView::Object(o)
    }

    open spec fn canon(j: JsonView) -> Option<JsonView> {
        let protocol_version = wire::get_or::<String>(j, "protocolVersion"@, 0, JsonView::String(DEFAULT_PROTOCOL_VERSION@));
        let capabilities = wire::get_or::<ServerCapabilities>(j, "capabilities"@, 1, JsonView::Object(wire::none()));
        let server_info = wire::get_or::<Implementation>(j, "serverInfo"@, 2, empty_implementation());
        let instructions = wire::get_opt::<String>(j, "instructions"@, 3);
        let meta = wire::get_opt::<MetaMap>(j, "_meta"@, 4);
        if wire::record(j, 5) && protocol_version is Some && capabilities is Some
            && server_info is Some && instructions is Some && meta is Some {
            let o = wire::none();
            let o = wire::with(o, "protocolVersion"@, protocol_version->0);
            let o = wire::with(o, "capabilities"@, capabilities->0);
            let o = wire::with(o, "serverInfo"@, server_info->0);
            let o = wire::with_opt(o, "instructions"@, instructions->0);
            let o = wire::with_opt(o, "_meta"@, meta->0);
            Some(JsonView::Object(o))
        } else {
            None
        }
    }

    open spec fn faithful(&self) -> bool {
        &&& self.protocol_version.faithful()
        &&& self.capabilities.faithful()
        &&& self.server_info.faithful()
        &&& wire::opt_faithful(self.instructions)
        &&& wire::opt_faithful(self.meta)
    }

    fn to_json(&self) -> (r: Json) {
        let mut o = wire::start();
        wire::put(&mut o, "protocolVersion", &self.protocol_version);
        wire::put(&mut o, "capabilities", &self.capabilities);
        wire::put(&mut o, "serverInfo", &self.server_info);
        wire::put_opt(&mut o, "instructions", &self.instructions);
        wire::put_opt(&mut o, "_meta", &self.meta);
        Json::object(o)
    }

    fn from_json(j: &Json) -> (r: Result<Self, Malformed>)
        ensures
            match r {
                Ok(x) => {
                    &&& wire::get_or::<String>(j@, "protocolVersion"@, 0, JsonView::String(DEFAULT_PROTOCOL_VERSION@))
                        == Some(x.protocol_version.wire())
                    &&& wire::get_or::<ServerCapabilities>(j@, "capabilities"@, 1, JsonView::Object(wire::none()))
                        == Some(x.capabilities.wire())
                    &&& wire::get_or::<Implementation>(j@, "serverInfo"@, 2, empty_implementation())
                        == Some(x.server_info.wire())
                    &&& wire::get_opt::<String>(j@, "instructions"@, 3)
                        == Some(wire::opt(x.instructions))
                    &&& wire::get_opt::<MetaMap>(j@, "_meta"@, 4) == Some(wire::opt(x.meta))
                },
                Err(_) => true,
            },
    {
        if !wire::is_record(j, 5) {
            return Err(Malformed);
        }
        let d_protocol_version: String = DEFAULT_PROTOCOL_VERSION.to_owned();
        let protocol_version = wire::read_or::<String>(j, "protocolVersion", 0, d_protocol_version)?;
        let d_capabilities: ServerCapabilities = ServerCapabilities::default();
        
        let capabilities = wire::read_or::<ServerCapabilities>(j, "capabilities", 1, d_capabilities)?;
        let d_server_info: Implementation = Implementation::default();
        proof {
            default_implementation(d_server_info);
        }
        let server_info = wire::read_or::<Implementation>(j, "serverInfo", 2, d_server_info)?;
        let instructions = wire::read_opt::<String>(j, "instructions", 3)?;
        let meta = wire::read_opt::<MetaMap>(j, "_meta", 4)?;
        Ok(InitializeResult { protocol_version, capabilities, server_info, instructions, meta })
    }

    fn duplicate(&self) -> (r: Self)
        ensures
            r.protocol_version.wire() == self.protocol_version.wire(),
            r.capabilities.wire() == self.capabilities.wire(),
            r.server_info.wire() == self.server_info.wire(),
            wire::opt(r.instructions) == wire::opt(self.instructions),
            wire::opt(r.meta) == wire::opt(self.meta),
    {
        InitializeResult {
            protocol_version: self.protocol_version.duplicate(),
            capabilities: self.capabilities.duplicate(),
            server_info: self.server_info.duplicate(),
            instructions: wire::duplicate_opt(&self.instructions),
            meta: wire::duplicate_opt(&self.meta),
        }
    }

    proof fn round_trip(&self) {
        broadcast use crate::wire::group_lookup;

        reveal_strlit("protocolVersion");
        reveal_strlit("capabilities");
        reveal_strlit("serverInfo");
        reveal_strlit("instructions");
        reveal_strlit("_meta");
        assert("protocolVersion"@.len() == 15 && "capabilities"@.len() == 12
            && "serverInfo"@.len() == 10 && "instructions"@.len() == 12 && "_meta"@.len() == 5);
        assert("capabilities"@[0] != "instructions"@[0]);
        self.capabilities.round_trip();
        self.server_info.round_trip();
        wire::opt_round_trip(self.instructions);
        wire::opt_round_trip(self.meta);
    }
}

impl InitializeResult {
    /// The answer to a client that opens a session.
    pub fn new(
        protocol_version: String,
        capabilities: ServerCapabilities,
        server_info: Implementation,
        instructions: Option<String>,
    ) -> (r: Self)
        ensures
            r.protocol_version == protocol_version,
            r.capabilities == capabilities,
            r.server_info == server_info,
            r.instructions == instructions,
            r.meta is None,
    {
        InitializeResult { protocol_version, capabilities, server_info, instructions, meta: None }
    }
}

/// What a client says that opens a session.
#[derive(Debug, PartialEq)]
pub struct InitializeRequestParams {
    pub protocol_version: String,
    pub capabilities: ClientCapabilities,
    pub client_info: Implementation,
    pub meta: Option<RequestParamsMeta>,
}

impl InitializeRequestParams {
    /// Every member has its default.
    pub open spec fn is_default(&self) -> bool {
        &&& self.protocol_version@ == DEFAULT_PROTOCOL_VERSION@
        &&& self.capabilities.is_default()
        &&& self.client_info.is_default()
        &&& self.meta is None
    }

    /// What a record says is offered: nothing where it says nothing of it.
    pub open spec fn offers(j: JsonView, c: ClientCapabilities) -> bool {
        match wire::at(j, "capabilities"@, 1) {
            Some(v) => c.reads(v),
            None => c.is_default(),
        }
    }
}

impl Default for InitializeRequestParams {
    fn default() -> (r: Self)
        ensures
            r.is_default(),
    {
        InitializeRequestParams {
            protocol_version: DEFAULT_PROTOCOL_VERSION.to_owned(),
            capabilities: ClientCapabilities::default(),
            client_info: Implementation::default(),
            meta: None,
        }
    }
}

impl Clone for InitializeRequestParams {
    fn clone(&self) -> (r: Self)
        ensures
            r.wire() == self.wire(),
            r.capabilities.same_offer(&self.capabilities),
    {
        self.duplicate()
    }
}

impl Wire for InitializeRequestParams {
    open spec fn wire(&self) -> JsonView {
        let o = wire::none();
        let o = wire::with(o, "protocolVersion"@, self.protocol_version.wire());
        let o = wire::with(o, "capabilities"@, self.capabilities.wire());
        let o = wire::with(o, "clientInfo"@, self.client_info.wire());
        let o = wire::with_opt(o, "_meta"@, wire::opt(self.meta));
        JsonView::Object(o)
    }

    open spec fn canon(j: JsonView) -> Option<JsonView> {
        let protocol_version = wire::get_or::<String>(j, "protocolVersion"@, 0, JsonView::String(DEFAULT_PROTOCOL_VERSION@));
        let capabilities = wire::get_or::<ClientCapabilities>(j, "capabilities"@, 1, JsonView::Object(wire::none()));
        let client_info = wire::get_or::<Implementation>(j, "clientInfo"@, 2, empty_implementation());
        let meta = wire::get_opt::<RequestParamsMeta>(j, "_meta"@, 3);
        if wire::record(j, 4) && protocol_version is Some && capabilities is Some
            && client_info is Some && meta is Some {
            let o = wire::none();
            let o = wire::with(o, "protocolVersion"@, protocol_version->0);
            let o = wire::with(o, "capabilities"@, capabilities->0);
            let o = wire::with(o, "clientInfo"@, client_info->0);
            let o = wire::with_opt(o, "_meta"@, meta->0);
            Some(JsonView::Object(o))
        } else {
            None
        }
    }

    open spec fn faithful(&self) -> bool {
        &&& self.protocol_version.faithful()
        &&& self.capabilities.faithful()
        &&& self.client_info.faithful()
        &&& wire::opt_faithful(self.meta)
    }

    fn to_json(&self) -> (r: Json) {
        let mut o = wire::start();
        wire::put(&mut o, "protocolVersion", &self.protocol_version);
        wire::put(&mut o, "capabilities", &self.capabilities);
        wire::put(&mut o, "clientInfo", &self.client_info);
        wire::put_opt(&mut o, "_meta", &self.meta);
        Json::object(o)
    }

    fn from_json(j: &Json) -> (r: Result<Self, Malformed>)
        ensures
            match r {
                Ok(x) => {
                    &&& wire::get_or::<String>(j@, "protocolVersion"@, 0, JsonView::String(DEFAULT_PROTOCOL_VERSION@))
                        == Some(x.protocol_version.wire())
                    &&& wire::get_or::<ClientCapabilities>(j@, "capabilities"@, 1, JsonView::Object(wire::none()))
                        == Some(x.capabilities.wire())
                    &&& wire::get_or::<Implementation>(j@, "clientInfo"@, 2, empty_implementation())
                        == Some(x.client_info.wire())
                    &&& wire::get_opt::<RequestParamsMeta>(j@, "_meta"@, 3)
                        == Some(wire::opt(x.meta))
                    &&& InitializeRequestParams::offers(j@, x.capabilities)
                },
                Err(_) => true,
            },
    {
        if !wire::is_record(j, 4) {
            return Err(Malformed);
        }
        let d_protocol_version: String = DEFAULT_PROTOCOL_VERSION.to_owned();
        let protocol_version = wire::read_or::<String>(j, "protocolVersion", 0, d_protocol_version)?;
        let capabilities = match wire::part(j, "capabilities", 1) {
            Some(v) => ClientCapabilities::from_json(v)?,
            None => ClientCapabilities::default(),
        };
        let d_client_info: Implementation = Implementation::default();
        proof {
            default_implementation(d_client_info);
        }
        let client_info = wire::read_or::<Implementation>(j, "clientInfo", 2, d_client_info)?;
        let meta = wire::read_opt::<RequestParamsMeta>(j, "_meta", 3)?;
        Ok(InitializeRequestParams { protocol_version, capabilities, client_info, meta })
    }

    fn duplicate(&self) -> (r: Self)
        ensures
            r.protocol_version.wire() == self.protocol_version.wire(),
            r.capabilities.same_offer(&self.capabilities),
            r.client_info.wire() == self.client_info.wire(),
            wire::opt(r.meta) == wire::opt(self.meta),
    {
        InitializeRequestParams {
            protocol_version: self.protocol_version.duplicate(),
            capabilities: self.capabilities.duplicate(),
            client_info: self.client_info.duplicate(),
            meta: wire::duplicate_opt(&self.meta),
        }
    }

    proof fn round_trip(&self) {
        broadcast use crate::wire::group_lookup;

        reveal_strlit("protocolVersion");
        reveal_strlit("capabilities");
        reveal_strlit("clientInfo");
        reveal_strlit("_meta");
        assert("protocolVersion"@.len() == 15 && "capabilities"@.len() == 12
            && "clientInfo"@.len() == 10 && "_meta"@.len() == 5);
        self.capabilities.round_trip();
        self.client_info.round_trip();
        wire::opt_round_trip(self.meta);
    }
}

/// A place that a client works in.
#[derive(Debug, PartialEq, Eq)]
pub struct Root {
    pub name: Option<String>,
    pub uri: String,
}

impl Root {
    /// Every member has its default.
    pub open spec fn is_default(&self) -> bool {
        &&& self.name is None
        &&& self.uri@.len() == 0
    }
}

impl Default for Root {
    fn default() -> (r: Self)
        ensures
            r.is_default(),
    {
        Root {
            name: None,
            uri: String::new(),
        }
    }
}

impl Clone for Root {
    fn clone(&self) -> (r: Self)
        ensures
            r.wire() == self.wire(),
    {
        self.duplicate()
    }
}

impl Wire for Root {
    open spec fn wire(&self) -> JsonView {
        let o = wire::none();
        let o = wire::with_opt(o, "name"@, wire::opt(self.name));
        let o = wire::with(o, "uri"@, self.uri.wire());
        JsonView::Object(o)
    }

    open spec fn canon(j: JsonView) -> Option<JsonView> {
        let name = wire::get_opt::<String>(j, "name"@, 0);
        let uri = wire::get::<String>(j, "uri"@, 1);
        if wire::record(j, 2) && name is Some && uri is Some {
            let o = wire::none();
            let o = wire::with_opt(o, "name"@, name->0);
            let o = wire::with(o, "uri"@, uri->0);
            Some(JsonView::Object(o))
        } else {
            None
        }
    }

    open spec fn faithful(&self) -> bool {
        &&& wire::opt_faithful(self.name)
        &&& self.uri.faithful()
    }

    fn to_json(&self) -> (r: Json) {
        let mut o = wire::start();
        wire::put_opt(&mut o, "name", &self.name);
        wire::put(&mut o, "uri", &self.uri);
        Json::object(o)
    }

    fn from_json(j: &Json) -> (r: Result<Self, Malformed>)
        ensures
            match r {
                Ok(x) => {
                    &&& wire::get_opt::<String>(j@, "name"@, 0) == Some(wire::opt(x.name))
                    &&& wire::get::<String>(j@, "uri"@, 1) == Some(x.uri.wire())
                },
                Err(_) => true,
            },
    {
        if !wire::is_record(j, 2) {
            return Err(Malformed);
        }
        let name = wire::read_opt::<String>(j, "name", 0)?;
        let uri = wire::read::<String>(j, "uri", 1)?;
        Ok(Root { name, uri })
    }

    fn duplicate(&self) -> (r: Self)
        ensures
            wire::opt(r.name) == wire::opt(self.name),
            r.uri.wire() == self.uri.wire(),
    {
        Root {
            name: wire::duplicate_opt(&self.name),
            uri: self.uri.duplicate(),
        }
    }

    proof fn round_trip(&self) {
        broadcast use crate::wire::group_lookup;

        reveal_strlit("name");
        reveal_strlit("uri");
        assert("name"@.len() == 4 && "uri"@.len() == 3);
        wire::opt_round_trip(self.name);
    }
}

/// The places that a client works in.
#[derive(Debug, PartialEq)]
pub struct ListRootsResult {
    pub roots: Vec<Root>,
    pub meta: Option<MetaMap>,
}

impl ListRootsResult {
    /// Every member has its default.
    pub open spec fn is_default(&self) -> bool {
        &&& self.roots@.len() == 0
        &&& self.meta is None
    }
}

impl Default for ListRootsResult {
    fn default() -> (r: Self)
        ensures
            r.is_default(),
    {
        ListRootsResult {
            roots: Vec::new(),
            meta: None,
        }
    }
}

impl Clone for ListRootsResult {
    fn clone(&self) -> (r: Self)
        ensures
            r.wire() == self.wire(),
    {
        self.duplicate()
    }
}

impl Wire for ListRootsResult {
    open spec fn wire(&self) -> JsonView {
        let o = wire::none();
        let o = wire::with(o, "roots"@, self.roots.wire());
        let o = wire::with_opt(o, "_meta"@, wire::opt(self.meta));
        JsonView::Object(o)
    }

    open spec fn canon(j: JsonView) -> Option<JsonView> {
        let roots = wire::get_or::<Vec<Root>>(j, "roots"@, 0, JsonView::Array(seq![]));
        let meta = wire::get_opt::<MetaMap>(j, "_meta"@, 1);
        if wire::record(j, 2) && roots is Some && meta is Some {
            let o = wire::none();
            let o = wire::with(o, "roots"@, roots->0);
            let o = wire::with_opt(o, "_meta"@, meta->0);
            Some(JsonView::Object(o))
        } else {
            None
        }
    }

    open spec fn faithful(&self) -> bool {
        &&& self.roots.faithful()
        &&& wire::opt_faithful(self.meta)
    }

    fn to_json(&self) -> (r: Json) {
        let mut o = wire::start();
        wire::put(&mut o, "roots", &self.roots);
        wire::put_opt(&mut o, "_meta", &self.meta);
        Json::object(o)
    }

    fn from_json(j: &Json) -> (r: Result<Self, Malformed>)
        ensures
            match r {
                Ok(x) => {
                    &&& wire::get_or::<Vec<Root>>(j@, "roots"@, 0, JsonView::Array(seq![]))
                        == Some(x.roots.wire())
                    &&& wire::get_opt::<MetaMap>(j@, "_meta"@, 1) == Some(wire::opt(x.meta))
                },
                Err(_) => true,
            },
    {
        if !wire::is_record(j, 2) {
            return Err(Malformed);
        }
        let d_roots: Vec<Root> = Vec::new();
        assert(wire::wires(d_roots@) =~= seq![]);
        let roots = wire::read_or::<Vec<Root>>(j, "roots", 0, d_roots)?;
        let meta = wire::read_opt::<MetaMap>(j, "_meta", 1)?;
        Ok(ListRootsResult { roots, meta })
    }

    fn duplicate(&self) -> (r: Self)
        ensures
            r.roots.wire() == self.roots.wire(),
            wire::opt(r.meta) == wire::opt(self.meta),
    {
        ListRootsResult {
            roots: self.roots.duplicate(),
            meta: wire::duplicate_opt(&self.meta),
        }
    }

    proof fn round_trip(&self) {
        broadcast use crate::wire::group_lookup;

        reveal_strlit("roots");
        reveal_strlit("_meta");
        assert("roots"@.len() == 5 && "_meta"@.len() == 5);
        assert("roots"@[0] != "_meta"@[0]);
        self.roots.round_trip();
        wire::opt_round_trip(self.meta);
    }
}

/// What a user answered.
#[derive(Debug, PartialEq)]
pub struct ElicitResult {
    pub action: String,
    pub content: MetaMap,
    pub meta: Option<MetaMap>,
}

impl ElicitResult {
    /// Every member has its default.
    pub open spec fn is_default(&self) -> bool {
        &&& self.action@.len() == 0
        &&& self.content@ == wire::none()
        &&& self.meta is None
    }
}

impl Default for ElicitResult {
    fn default() -> (r: Self)
        ensures
            r.is_default(),
    {
        ElicitResult {
            action: String::new(),
            content: MetaMap::new(),
            meta: None,
        }
    }
}

impl Clone for ElicitResult {
    fn clone(&self) -> (r: Self)
        ensures
            r.wire() == self.wire(),
    {
        self.duplicate()
    }
}

impl Wire for ElicitResult {
    open spec fn wire(&self) -> JsonView {
        let o = wire::none();
        let o = wire::with(o, "action"@, self.action.wire());
        let o = wire::with(o, "content"@, self.content.wire());
        let o = wire::with_opt(o, "_meta"@, wire::opt(self.meta));
        JsonView::Object(o)
    }

    open spec fn canon(j: JsonView) -> Option<JsonView> {
        let action = wire::get_or::<String>(j, "action"@, 0, JsonView::String(seq![]));
        let content = wire::get_or::<MetaMap>(j, "content"@, 1, JsonView::Object(wire::none()));
        let meta = wire::get_opt::<MetaMap>(j, "_meta"@, 2);
        if wire::record(j, 3) && action is Some && content is Some && meta is Some {
            let o = wire::none();
            let o = wire::with(o, "action"@, action->0);
            let o = wire::with(o, "content"@, content->0);
            let o = wire::with_opt(o, "_meta"@, meta->0);
            Some(JsonView::Object(o))
        } else {
            None
        }
    }

    open spec fn faithful(&self) -> bool {
        &&& self.action.faithful()
        &&& self.content.faithful()
        &&& wire::opt_faithful(self.meta)
    }

    fn to_json(&self) -> (r: Json) {
        let mut o = wire::start();
        wire::put(&mut o, "action", &self.action);
        wire::put(&mut o, "content", &self.content);
        wire::put_opt(&mut o, "_meta", &self.meta);
        Json::object(o)
    }

    fn from_json(j: &Json) -> (r: Result<Self, Malformed>)
        ensures
            match r {
                Ok(x) => {
                    &&& wire::get_or::<String>(j@, "action"@, 0, JsonView::String(seq![]))
                        == Some(x.action.wire())
                    &&& wire::get_or::<MetaMap>(j@, "content"@, 1, JsonView::Object(wire::none()))
                        == Some(x.content.wire())
                    &&& wire::get_opt::<MetaMap>(j@, "_meta"@, 2) == Some(wire::opt(x.meta))
                },
                Err(_) => true,
            },
    {
        if !wire::is_record(j, 3) {
            return Err(Malformed);
        }
        let d_action: String = String::new();
        assert(d_action@ =~= seq![]);
        let action = wire::read_or::<String>(j, "action", 0, d_action)?;
        let d_content: MetaMap = MetaMap::new();
        let content = wire::read_or::<MetaMap>(j, "content", 1, d_content)?;
        let meta = wire::read_opt::<MetaMap>(j, "_meta", 2)?;
        Ok(ElicitResult { action, content, meta })
    }

    fn duplicate(&self) -> (r: Self)
        ensures
            r.action.wire() == self.action.wire(),
            r.content.wire() == self.content.wire(),
            wire::opt(r.meta) == wire::opt(self.meta),
    {
        ElicitResult {
            action: self.action.duplicate(),
            content: self.content.duplicate(),
            meta: wire::duplicate_opt(&self.meta),
        }
    }

    proof fn round_trip(&self) {
        broadcast use crate::wire::group_lookup;

        reveal_strlit("action");
        reveal_strlit("content");
        reveal_strlit("_meta");
        assert("action"@.len() == 6 && "content"@.len() == 7 && "_meta"@.len() == 5);
        wire::opt_round_trip(self.meta);
    }
}

/// An answer that says nothing more.
#[derive(Debug, PartialEq)]
pub struct EmptyResult {
    pub meta: Option<MetaMap>,
}

impl EmptyResult {
    /// Every member has its default.
    pub open spec fn is_default(&self) -> bool {
        &&& self.meta is None
    }
}

impl Default for EmptyResult {
    fn default() -> (r: Self)
        ensures
            r.is_default(),
    {
        EmptyResult {
            meta: None,
        }
    }
}

impl Clone for EmptyResult {
    fn clone(&self) -> (r: Self)
        ensures
            r.wire() == self.wire(),
    {
        self.duplicate()
    }
}

impl Wire for EmptyResult {
    open spec fn wire(&self) -> JsonView {
        let o = wire::none();
        let o = wire::with_opt(o, "_meta"@, wire::opt(self.meta));
        JsonView::Object(o)
    }

    open spec fn canon(j: JsonView) -> Option<JsonView> {
        let meta = wire::get_opt::<MetaMap>(j, "_meta"@, 0);
        if wire::record(j, 1) && meta is Some {
            let o = wire::none();
            let o = wire::with_opt(o, "_meta"@, meta->0);
            Some(JsonView::Object(o))
        } else {
            None
        }
    }

    open spec fn faithful(&self) -> bool {
        &&& wire::opt_faithful(self.meta)
    }

    fn to_json(&self) -> (r: Json) {
        let mut o = wire::start();
        wire::put_opt(&mut o, "_meta", &self.meta);
        Json::object(o)
    }

    fn from_json(j: &Json) -> (r: Result<Self, Malformed>)
        ensures
            match r {
                Ok(x) => {
                    &&& wire::get_opt::<MetaMap>(j@, "_meta"@, 0) == Some(wire::opt(x.meta))
                },
                Err(_) => true,
            },
    {
        if !wire::is_record(j, 1) {
            return Err(Malformed);
        }
        let meta = wire::read_opt::<MetaMap>(j, "_meta", 0)?;
        Ok(EmptyResult { meta })
    }

    fn duplicate(&self) -> (r: Self)
        ensures
            wire::opt(r.meta) == wire::opt(self.meta),
    {
        EmptyResult {
            meta: wire::duplicate_opt(&self.meta),
        }
    }

    proof fn round_trip(&self) {
        broadcast use crate::wire::group_lookup;

        wire::opt_round_trip(self.meta);
    }
}

} // verus!
