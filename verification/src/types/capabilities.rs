//! What a server and a client offer each other.
use vstd::prelude::*;

use crate::json::{Json, JsonView, MemberView};
use crate::wire::{Malformed, MetaMap, Wire};
use crate::{json, wire};

verus! {

/// Log messages are offered.
#[derive(Debug, PartialEq, Eq)]
pub struct LoggingCapabilities {}

impl LoggingCapabilities {
    /// Every member has its default.
    pub open spec fn is_default(&self) -> bool {
        true
    }
}

impl Default for LoggingCapabilities {
    fn default() -> (r: Self)
        ensures
            r.is_default(),
    {
        LoggingCapabilities {}
    }
}

impl Clone for LoggingCapabilities {
    fn clone(&self) -> (r: Self)
        ensures
            r.wire() == self.wire(),
    {
        self.duplicate()
    }
}

impl Wire for LoggingCapabilities {
    open spec fn wire(&self) -> JsonView {
        let o = wire::none();
        JsonView::Object(o)
    }

    open spec fn canon(j: JsonView) -> Option<JsonView> {
        if wire::record(j, 0) {
            let o = wire::none();
            Some(JsonView::Object(o))
        } else {
            None
        }
    }

    open spec fn faithful(&self) -> bool {
        true
    }

    fn to_json(&self) -> (r: Json) {
        let o = wire::start();
        Json::object(o)
    }

    fn from_json(j: &Json) -> (r: Result<Self, Malformed>) {
        if !wire::is_record(j, 0) {
            return Err(Malformed);
        }
        Ok(LoggingCapabilities {})
    }

    fn duplicate(&self) -> (r: Self) {
        LoggingCapabilities {}
    }

    proof fn round_trip(&self) {
    }
}

/// What is offered of prompts.
#[derive(Debug, PartialEq, Eq)]
pub struct PromptsCapabilities {
    pub list_changed: Option<bool>,
}

impl PromptsCapabilities {
    /// Every member has its default.
    pub open spec fn is_default(&self) -> bool {
        &&& self.list_changed is None
    }
}

impl Default for PromptsCapabilities {
    fn default() -> (r: Self)
        ensures
            r.is_default(),
    {
        PromptsCapabilities {
            list_changed: None,
        }
    }
}

impl Clone for PromptsCapabilities {
    fn clone(&self) -> (r: Self)
        ensures
            r.wire() == self.wire(),
    {
        self.duplicate()
    }
}

impl Wire for PromptsCapabilities {
    open spec fn wire(&self) -> JsonView {
        let o = wire::none();
        let o = wire::with_opt(o, "listChanged"@, wire::opt(self.list_changed));
        JsonView::Object(o)
    }

    open spec fn canon(j: JsonView) -> Option<JsonView> {
        let list_changed = wire::get_opt::<bool>(j, "listChanged"@, 0);
        if wire::record(j, 1) && list_changed is Some {
            let o = wire::none();
            let o = wire::with_opt(o, "listChanged"@, list_changed->0);
            Some(JsonView::Object(o))
        } else {
            None
        }
    }

    open spec fn faithful(&self) -> bool {
        &&& wire::opt_faithful(self.list_changed)
    }

    fn to_json(&self) -> (r: Json) {
        let mut o = wire::start();
        wire::put_opt(&mut o, "listChanged", &self.list_changed);
        Json::object(o)
    }

    fn from_json(j: &Json) -> (r: Result<Self, Malformed>)
        ensures
            match r {
                Ok(x) => {
                    &&& wire::get_opt::<bool>(j@, "listChanged"@, 0)
                        == Some(wire::opt(x.list_changed))
                },
                Err(_) => true,
            },
    {
        if !wire::is_record(j, 1) {
            return Err(Malformed);
        }
        let list_changed = wire::read_opt::<bool>(j, "listChanged", 0)?;
        Ok(PromptsCapabilities { list_changed })
    }

    fn duplicate(&self) -> (r: Self)
        ensures
            wire::opt(r.list_changed) == wire::opt(self.list_changed),
    {
        PromptsCapabilities {
            list_changed: wire::duplicate_opt(&self.list_changed),
        }
    }

    proof fn round_trip(&self) {
        broadcast use crate::wire::group_lookup;

        wire::opt_round_trip(self.list_changed);
    }
}

/// What is offered of resources.
#[derive(Debug, PartialEq, Eq)]
pub struct ResourcesCapabilities {
    pub subscribe: Option<bool>,
    pub list_changed: Option<bool>,
}

impl ResourcesCapabilities {
    /// Every member has its default.
    pub open spec fn is_default(&self) -> bool {
        &&& self.subscribe is None
        &&& self.list_changed is None
    }
}

impl Default for ResourcesCapabilities {
    fn default() -> (r: Self)
        ensures
            r.is_default(),
    {
        ResourcesCapabilities {
            subscribe: None,
            list_changed: None,
        }
    }
}

impl Clone for ResourcesCapabilities {
    fn clone(&self) -> (r: Self)
        ensures
            r.wire() == self.wire(),
    {
        self.duplicate()
    }
}

impl Wire for ResourcesCapabilities {
    open spec fn wire(&self) -> JsonView {
        let o = wire::none();
        let o = wire::with_opt(o, "subscribe"@, wire::opt(self.subscribe));
        let o = wire::with_opt(o, "listChanged"@, wire::opt(self.list_changed));
        JsonView::Object(o)
    }

    open spec fn canon(j: JsonView) -> Option<JsonView> {
        let subscribe = wire::get_opt::<bool>(j, "subscribe"@, 0);
        let list_changed = wire::get_opt::<bool>(j, "listChanged"@, 1);
        if wire::record(j, 2) && subscribe is Some && list_changed is Some {
            let o = wire::none();
            let o = wire::with_opt(o, "subscribe"@, subscribe->0);
            let o = wire::with_opt(o, "listChanged"@, list_changed->0);
            Some(JsonView::Object(o))
        } else {
            None
        }
    }

    open spec fn faithful(&self) -> bool {
        &&& wire::opt_faithful(self.subscribe)
        &&& wire::opt_faithful(self.list_changed)
    }

    fn to_json(&self) -> (r: Json) {
        let mut o = wire::start();
        wire::put_opt(&mut o, "subscribe", &self.subscribe);
        wire::put_opt(&mut o, "listChanged", &self.list_changed);
        Json::object(o)
    }

    fn from_json(j: &Json) -> (r: Result<Self, Malformed>)
        ensures
            match r {
                Ok(x) => {
                    &&& wire::get_opt::<bool>(j@, "subscribe"@, 0) == Some(wire::opt(x.subscribe))
                    &&& wire::get_opt::<bool>(j@, "listChanged"@, 1)
                        == Some(wire::opt(x.list_changed))
                },
                Err(_) => true,
            },
    {
        if !wire::is_record(j, 2) {
            return Err(Malformed);
        }
        let subscribe = wire::read_opt::<bool>(j, "subscribe", 0)?;
        let list_changed = wire::read_opt::<bool>(j, "listChanged", 1)?;
        Ok(ResourcesCapabilities { subscribe, list_changed })
    }

    fn duplicate(&self) -> (r: Self)
        ensures
            wire::opt(r.subscribe) == wire::opt(self.subscribe),
            wire::opt(r.list_changed) == wire::opt(self.list_changed),
    {
        ResourcesCapabilities {
            subscribe: wire::duplicate_opt(&self.subscribe),
            list_changed: wire::duplicate_opt(&self.list_changed),
        }
    }

    proof fn round_trip(&self) {
        broadcast use crate::wire::group_lookup;

        reveal_strlit("subscribe");
        reveal_strlit("listChanged");
        assert("subscribe"@.len() == 9 && "listChanged"@.len() == 11);
        wire::opt_round_trip(self.subscribe);
        wire::opt_round_trip(self.list_changed);
    }
}

/// What is offered of tools.
#[derive(Debug, PartialEq, Eq)]
pub struct ToolsCapabilities {
    pub list_changed: Option<bool>,
}

impl ToolsCapabilities {
    /// Every member has its default.
    pub open spec fn is_default(&self) -> bool {
        &&& self.list_changed is None
    }
}

impl Default for ToolsCapabilities {
    fn default() -> (r: Self)
        ensures
            r.is_default(),
    {
        ToolsCapabilities {
            list_changed: None,
        }
    }
}

impl Clone for ToolsCapabilities {
    fn clone(&self) -> (r: Self)
        ensures
            r.wire() == self.wire(),
    {
        self.duplicate()
    }
}

impl Wire for ToolsCapabilities {
    open spec fn wire(&self) -> JsonView {
        let o = wire::none();
        let o = wire::with_opt(o, "listChanged"@, wire::opt(self.list_changed));
        JsonView::Object(o)
    }

    open spec fn canon(j: JsonView) -> Option<JsonView> {
        let list_changed = wire::get_opt::<bool>(j, "listChanged"@, 0);
        if wire::record(j, 1) && list_changed is Some {
            let o = wire::none();
            let o = wire::with_opt(o, "listChanged"@, list_changed->0);
            Some(JsonView::Object(o))
        } else {
            None
        }
    }

    open spec fn faithful(&self) -> bool {
        &&& wire::opt_faithful(self.list_changed)
    }

    fn to_json(&self) -> (r: Json) {
        let mut o = wire::start();
        wire::put_opt(&mut o, "listChanged", &self.list_changed);
        Json::object(o)
    }

    fn from_json(j: &Json) -> (r: Result<Self, Malformed>)
        ensures
            match r {
                Ok(x) => {
                    &&& wire::get_opt::<bool>(j@, "listChanged"@, 0)
                        == Some(wire::opt(x.list_changed))
                },
                Err(_) => true,
            },
    {
        if !wire::is_record(j, 1) {
            return Err(Malformed);
        }
        let list_changed = wire::read_opt::<bool>(j, "listChanged", 0)?;
        Ok(ToolsCapabilities { list_changed })
    }

    fn duplicate(&self) -> (r: Self)
        ensures
            wire::opt(r.list_changed) == wire::opt(self.list_changed),
    {
        ToolsCapabilities {
            list_changed: wire::duplicate_opt(&self.list_changed),
        }
    }

    proof fn round_trip(&self) {
        broadcast use crate::wire::group_lookup;

        wire::opt_round_trip(self.list_changed);
    }
}

/// What a server offers.
#[derive(Debug, PartialEq)]
pub struct ServerCapabilities {
    pub experimental: Option<MetaMap>,
    pub logging: Option<LoggingCapabilities>,
    pub prompts: Option<PromptsCapabilities>,
    pub resources: Option<ResourcesCapabilities>,
    pub tools: Option<ToolsCapabilities>,
}

impl ServerCapabilities {
    /// Every member has its default.
    pub open spec fn is_default(&self) -> bool {
        &&& self.experimental is None
        &&& self.logging is None
        &&& self.prompts is None
        &&& self.resources is None
        &&& self.tools is None
    }
}

impl Default for ServerCapabilities {
    fn default() -> (r: Self)
        ensures
            r.is_default(),
    {
        ServerCapabilities {
            experimental: None,
            logging: None,
            prompts: None,
            resources: None,
            tools: None,
        }
    }
}

impl Clone for ServerCapabilities {
    fn clone(&self) -> (r: Self)
        ensures
            r.wire() == self.wire(),
    {
        self.duplicate()
    }
}

impl Wire for ServerCapabilities {
    open spec fn wire(&self) -> JsonView {
        let o = wire::none();
        let o = wire::with_opt(o, "experimental"@, wire::opt(self.experimental));
        let o = wire::with_opt(o, "logging"@, wire::opt(self.logging));
        let o = wire::with_opt(o, "prompts"@, wire::opt(self.prompts));
        let o = wire::with_opt(o, "resources"@, wire::opt(self.resources));
        let o = wire::with_opt(o, "tools"@, wire::opt(self.tools));
        JsonView::Object(o)
    }

    open spec fn canon(j: JsonView) -> Option<JsonView> {
        let experimental = wire::get_opt::<MetaMap>(j, "experimental"@, 0);
        let logging = wire::get_opt::<LoggingCapabilities>(j, "logging"@, 1);
        let prompts = wire::get_opt::<PromptsCapabilities>(j, "prompts"@, 2);
        let resources = wire::get_opt::<ResourcesCapabilities>(j, "resources"@, 3);
        let tools = wire::get_opt::<ToolsCapabilities>(j, "tools"@, 4);
        if wire::record(j, 5) && experimental is Some && logging is Some && prompts is Some
            && resources is Some && tools is Some {
            let o = wire::none();
            let o = wire::with_opt(o, "experimental"@, experimental->0);
            let o = wire::with_opt(o, "logging"@, logging->0);
            let o = wire::with_opt(o, "prompts"@, prompts->0);
            let o = wire::with_opt(o, "resources"@, resources->0);
            let o = wire::with_opt(o, "tools"@, tools->0);
            Some(JsonView::Object(o))
        } else {
            None
        }
    }

    open spec fn faithful(&self) -> bool {
        &&& wire::opt_faithful(self.experimental)
        &&& wire::opt_faithful(self.logging)
        &&& wire::opt_faithful(self.prompts)
        &&& wire::opt_faithful(self.resources)
        &&& wire::opt_faithful(self.tools)
    }

    fn to_json(&self) -> (r: Json) {
        let mut o = wire::start();
        wire::put_opt(&mut o, "experimental", &self.experimental);
        wire::put_opt(&mut o, "logging", &self.logging);
        wire::put_opt(&mut o, "prompts", &self.prompts);
        wire::put_opt(&mut o, "resources", &self.resources);
        wire::put_opt(&mut o, "tools", &self.tools);
        Json::object(o)
    }

    fn from_json(j: &Json) -> (r: Result<Self, Malformed>)
        ensures
            match r {
                Ok(x) => {
                    &&& wire::get_opt::<MetaMap>(j@, "experimental"@, 0)
                        == Some(wire::opt(x.experimental))
                    &&& wire::get_opt::<LoggingCapabilities>(j@, "logging"@, 1)
                        == Some(wire::opt(x.logging))
                    &&& wire::get_opt::<PromptsCapabilities>(j@, "prompts"@, 2)
                        == Some(wire::opt(x.prompts))
                    &&& wire::get_opt::<ResourcesCapabilities>(j@, "resources"@, 3)
                        == Some(wire::opt(x.resources))
                    &&& wire::get_opt::<ToolsCapabilities>(j@, "tools"@, 4)
                        == Some(wire::opt(x.tools))
                },
                Err(_) => true,
            },
    {
        if !wire::is_record(j, 5) {
            return Err(Malformed);
        }
        let experimental = wire::read_opt::<MetaMap>(j, "experimental", 0)?;
        let logging = wire::read_opt::<LoggingCapabilities>(j, "logging", 1)?;
        let prompts = wire::read_opt::<PromptsCapabilities>(j, "prompts", 2)?;
        let resources = wire::read_opt::<ResourcesCapabilities>(j, "resources", 3)?;
        let tools = wire::read_opt::<ToolsCapabilities>(j, "tools", 4)?;
        Ok(ServerCapabilities { experimental, logging, prompts, resources, tools })
    }

    fn duplicate(&self) -> (r: Self)
        ensures
            wire::opt(r.experimental) == wire::opt(self.experimental),
            wire::opt(r.logging) == wire::opt(self.logging),
            wire::opt(r.prompts) == wire::opt(self.prompts),
            wire::opt(r.resources) == wire::opt(self.resources),
            wire::opt(r.tools) == wire::opt(self.tools),
    {
        ServerCapabilities {
            experimental: wire::duplicate_opt(&self.experimental),
            logging: wire::duplicate_opt(&self.logging),
            prompts: wire::duplicate_opt(&self.prompts),
            resources: wire::duplicate_opt(&self.resources),
            tools: wire::duplicate_opt(&self.tools),
        }
    }

    proof fn round_trip(&self) {
        broadcast use crate::wire::group_lookup;

        reveal_strlit("experimental");
        reveal_strlit("logging");
        reveal_strlit("prompts");
        reveal_strlit("resources");
        reveal_strlit("tools");
        assert("experimental"@.len() == 12 && "logging"@.len() == 7 && "prompts"@.len() == 7
            && "resources"@.len() == 9 && "tools"@.len() == 5);
        assert("logging"@[0] != "prompts"@[0]);
        wire::opt_round_trip(self.experimental);
        wire::opt_round_trip(self.logging);
        wire::opt_round_trip(self.prompts);
        wire::opt_round_trip(self.resources);
        wire::opt_round_trip(self.tools);
    }
}

/// Whether a record has an object under a name.
pub open spec fn has_object(j: JsonView, k: Seq<char>) -> bool {
    match j.get(k) {
        Some(v) => v is Object,
        None => false,
    }
}

/// Tells whether a record has an object under a name.
fn object_under(j: &Json, k: &str) -> (r: bool)
    ensures
        r == has_object(j@, k@),
{
    match j.get(k) {
        Some(v) => v.is_object(),
        None => false,
    }
}

/// An object without members.
pub open spec fn empty() -> JsonView {
    JsonView::Object(wire::none())
}

/// An object without members, where a flag is set.
pub open spec fn flag(set: bool) -> Option<JsonView> {
    if set {
        Some(empty())
    } else {
        None
    }
}

/// Adds an object without members, where a flag is set.
fn put_flag(o: &mut Vec<(String, Json)>, k: &str, set: bool)
    ensures
        json::entries(final(o)@) == wire::with_opt(json::entries(old(o)@), k@, flag(set)),
{
    if set {
        wire::put_json(o, k, Json::empty_object());
    }
}

/// What a client offers for asking its model.
#[derive(Clone, Copy, Debug, PartialEq, Eq, Structural)]
pub struct SamplingCapability {
    pub context: bool,
    pub tools: bool,
}

impl SamplingCapability {
    /// Nothing is offered unless it is said.
    pub open spec fn is_default(&self) -> bool {
        !self.context && !self.tools
    }

    /// What a record says is offered.
    pub open spec fn read(j: JsonView) -> SamplingCapability {
        SamplingCapability { context: has_object(j, "context"@), tools: has_object(j, "tools"@) }
    }
}

impl Default for SamplingCapability {
    fn default() -> (r: Self)
        ensures
            r.is_default(),
    {
        SamplingCapability { context: false, tools: false }
    }
}

impl Wire for SamplingCapability {
    open spec fn wire(&self) -> JsonView {
        let o = wire::none();
        let o = wire::with_opt(o, "context"@, flag(self.context));
        let o = wire::with_opt(o, "tools"@, flag(self.tools));
        JsonView::Object(o)
    }

    open spec fn canon(j: JsonView) -> Option<JsonView> {
        Some(SamplingCapability::read(j).wire())
    }

    open spec fn faithful(&self) -> bool {
        true
    }

    fn to_json(&self) -> (r: Json) {
        let mut o = wire::start();
        put_flag(&mut o, "context", self.context);
        put_flag(&mut o, "tools", self.tools);
        Json::object(o)
    }

    fn from_json(j: &Json) -> (r: Result<Self, Malformed>)
        ensures
            r == Ok::<SamplingCapability, Malformed>(SamplingCapability::read(j@)),
    {
        Ok(SamplingCapability { context: object_under(j, "context"), tools: object_under(j, "tools") })
    }

    fn duplicate(&self) -> (r: Self)
        ensures
            r == *self,
    {
        *self
    }

    proof fn round_trip(&self)
        ensures
            SamplingCapability::read(self.wire()) == *self,
    {
        broadcast use crate::wire::group_lookup;

        reveal_strlit("context");
        reveal_strlit("tools");
        assert("context"@.len() == 7 && "tools"@.len() == 5);
    }
}

/// Asking the user through a form.
#[derive(Clone, Copy, Debug, PartialEq, Eq, Structural)]
pub struct FormElicitationCapability {}

/// Asking the user by way of a page.
#[derive(Clone, Copy, Debug, PartialEq, Eq, Structural)]
pub struct UrlElicitationCapability {}

/// What a client offers for asking its user.
#[derive(Clone, Copy, Debug, PartialEq, Eq, Structural)]
pub struct ElicitationCapability {
    pub form: Option<FormElicitationCapability>,
    pub url: Option<UrlElicitationCapability>,
}

impl ElicitationCapability {
    /// Nothing is offered unless it is said.
    pub open spec fn is_default(&self) -> bool {
        self.form is None && self.url is None
    }

    /// What a record says is offered.
    pub open spec fn read(j: JsonView) -> ElicitationCapability {
        ElicitationCapability {
            form: if has_object(j, "form"@) {
                Some(FormElicitationCapability {  })
            } else {
                None
            },
            url: if has_object(j, "url"@) {
                Some(UrlElicitationCapability {  })
            } else {
                None
            },
        }
    }
}

impl Default for ElicitationCapability {
    fn default() -> (r: Self)
        ensures
            r.is_default(),
    {
        ElicitationCapability { form: None, url: None }
    }
}

impl Wire for ElicitationCapability {
    /// The ways of asking are read, but not written.
    open spec fn wire(&self) -> JsonView {
        empty()
    }

    open spec fn canon(j: JsonView) -> Option<JsonView> {
        Some(empty())
    }

    open spec fn faithful(&self) -> bool {
        self.is_default()
    }

    fn to_json(&self) -> (r: Json) {
        Json::empty_object()
    }

    fn from_json(j: &Json) -> (r: Result<Self, Malformed>)
        ensures
            r == Ok::<ElicitationCapability, Malformed>(ElicitationCapability::read(j@)),
    {
        let form = if object_under(j, "form") {
            Some(FormElicitationCapability {  })
        } else {
            None
        };
        let url = if object_under(j, "url") {
            Some(UrlElicitationCapability {  })
        } else {
            None
        };
        Ok(ElicitationCapability { form, url })
    }

    fn duplicate(&self) -> (r: Self)
        ensures
            r == *self,
    {
        *self
    }

    proof fn round_trip(&self)
        ensures
            ElicitationCapability::read(self.wire()) == *self,
    {
        broadcast use crate::wire::group_lookup;

    }
}

/// What a client offers of its roots.
#[derive(Clone, Copy, Debug, PartialEq, Eq, Structural)]
pub struct RootsCapability {
    pub list_changed: bool,
}

impl RootsCapability {
    /// Nothing is offered unless it is said.
    pub open spec fn is_default(&self) -> bool {
        !self.list_changed
    }

    /// What a record says is offered.
    pub open spec fn read(j: JsonView) -> RootsCapability {
        RootsCapability {
            list_changed: match j.get("listChanged"@) {
                Some(JsonView::Bool(b)) => b,
                _ => false,
            },
        }
    }
}

impl Default for RootsCapability {
    fn default() -> (r: Self)
        ensures
            r.is_default(),
    {
        RootsCapability { list_changed: false }
    }
}

impl Wire for RootsCapability {
    open spec fn wire(&self) -> JsonView {
        let changed = if self.list_changed {
            Some(JsonView::Bool(true))
        } else {
            None
        };
        JsonView::Object(wire::with_opt(wire::none(), "listChanged"@, changed))
    }

    open spec fn canon(j: JsonView) -> Option<JsonView> {
        Some(RootsCapability::read(j).wire())
    }

    open spec fn faithful(&self) -> bool {
        true
    }

    fn to_json(&self) -> (r: Json) {
        let mut o = wire::start();
        if self.list_changed {
            wire::put_json(&mut o, "listChanged", Json::Bool(true));
        }
        Json::object(o)
    }

    fn from_json(j: &Json) -> (r: Result<Self, Malformed>)
        ensures
            r == Ok::<RootsCapability, Malformed>(RootsCapability::read(j@)),
    {
        let list_changed = match j.get("listChanged") {
            Some(Json::Bool(b)) => *b,
            _ => false,
        };
        Ok(RootsCapability { list_changed })
    }

    fn duplicate(&self) -> (r: Self)
        ensures
            r == *self,
    {
        *self
    }

    proof fn round_trip(&self)
        ensures
            RootsCapability::read(self.wire()) == *self,
    {
        broadcast use crate::wire::group_lookup;

    }
}

/// What a client offers for tasks.
#[derive(Clone, Copy, Debug, PartialEq, Eq, Structural)]
pub struct ClientTasksCapability {
    pub list: bool,
    pub cancel: bool,
    pub sampling_create_message: bool,
    pub elicitation_create: bool,
}

/// An object with an object without members under a name.
pub open spec fn nested(k: Seq<char>) -> JsonView {
    JsonView::Object(wire::with(wire::none(), k, empty()))
}

/// Whether a record has, under one name, an object under another.
pub open spec fn has_nested(j: JsonView, outer: Seq<char>, inner: Seq<char>) -> bool {
    match j.get(outer) {
        Some(v) => has_object(v, inner),
        None => false,
    }
}

fn nested_under(j: &Json, outer: &str, inner: &str) -> (r: bool)
    ensures
        r == has_nested(j@, outer@, inner@),
{
    match j.get(outer) {
        Some(v) => object_under(v, inner),
        None => false,
    }
}

fn nested_object(k: &str) -> (r: Json)
    ensures
        r@ == nested(k@),
{
    let mut o = wire::start();
    wire::put_json(&mut o, k, Json::empty_object());
    Json::object(o)
}

impl ClientTasksCapability {
    /// Nothing is offered unless it is said.
    pub open spec fn is_default(&self) -> bool {
        !self.list && !self.cancel && !self.sampling_create_message && !self.elicitation_create
    }

    /// The requests for which tasks are offered.
    pub open spec fn requests(&self) -> Seq<MemberView> {
        let o = wire::none();
        let o = wire::with_opt(
            o,
            "sampling"@,
            if self.sampling_create_message {
                Some(nested("createMessage"@))
            } else {
                None
            },
        );
        wire::with_opt(
            o,
            "elicitation"@,
            if self.elicitation_create {
                Some(nested("create"@))
            } else {
                None
            },
        )
    }

    /// What a record says is offered.
    pub open spec fn read(j: JsonView) -> ClientTasksCapability {
        let requests = match j.get("requests"@) {
            Some(v) => v,
            None => JsonView::Null,
        };
        ClientTasksCapability {
            list: has_object(j, "list"@),
            cancel: has_object(j, "cancel"@),
            sampling_create_message: has_nested(requests, "sampling"@, "createMessage"@),
            elicitation_create: has_nested(requests, "elicitation"@, "create"@),
        }
    }
}

impl Default for ClientTasksCapability {
    fn default() -> (r: Self)
        ensures
            r.is_default(),
    {
        ClientTasksCapability {
            list: false,
            cancel: false,
            sampling_create_message: false,
            elicitation_create: false,
        }
    }
}

impl Wire for ClientTasksCapability {
    open spec fn wire(&self) -> JsonView {
        let o = wire::none();
        let o = wire::with_opt(o, "list"@, flag(self.list));
        let o = wire::with_opt(o, "cancel"@, flag(self.cancel));
        let o = wire::with_opt(
            o,
            "requests"@,
            if self.sampling_create_message || self.elicitation_create {
                Some(JsonView::Object(self.requests()))
            } else {
                None
            },
        );
        JsonView::Object(o)
    }

    open spec fn canon(j: JsonView) -> Option<JsonView> {
        Some(ClientTasksCapability::read(j).wire())
    }

    open spec fn faithful(&self) -> bool {
        true
    }

    fn to_json(&self) -> (r: Json) {
        let mut o = wire::start();
        put_flag(&mut o, "list", self.list);
        put_flag(&mut o, "cancel", self.cancel);
        if self.sampling_create_message || self.elicitation_create {
            let mut requests = wire::start();
            if self.sampling_create_message {
                wire::put_json(&mut requests, "sampling", nested_object("createMessage"));
            }
            if self.elicitation_create {
                wire::put_json(&mut requests, "elicitation", nested_object("create"));
            }
            wire::put_json(&mut o, "requests", Json::object(requests));
        }
        Json::object(o)
    }

    fn from_json(j: &Json) -> (r: Result<Self, Malformed>)
        ensures
            r == Ok::<ClientTasksCapability, Malformed>(ClientTasksCapability::read(j@)),
    {
        let list = object_under(j, "list");
        let cancel = object_under(j, "cancel");
        match j.get("requests") {
            Some(requests) => Ok(
                ClientTasksCapability {
                    list,
                    cancel,
                    sampling_create_message: nested_under(requests, "sampling", "createMessage"),
                    elicitation_create: nested_under(requests, "elicitation", "create"),
                },
            ),
            None => Ok(
                ClientTasksCapability {
                    list,
                    cancel,
                    sampling_create_message: false,
                    elicitation_create: false,
                },
            ),
        }
    }

    fn duplicate(&self) -> (r: Self)
        ensures
            r == *self,
    {
        *self
    }

    proof fn round_trip(&self)
        ensures
            ClientTasksCapability::read(self.wire()) == *self,
    {
        broadcast use crate::wire::group_lookup;

        reveal_strlit("list");
        reveal_strlit("cancel");
        reveal_strlit("requests");
        reveal_strlit("sampling");
        reveal_strlit("elicitation");
        assert("list"@.len() == 4 && "cancel"@.len() == 6 && "requests"@.len() == 8);
        assert("sampling"@.len() == 8 && "elicitation"@.len() == 11);
        assert(nested("createMessage"@).get("createMessage"@) == Some(empty()));
        assert(nested("create"@).get("create"@) == Some(empty()));
        let r = JsonView::Object(self.requests());
        assert(r.get("sampling"@) == if self.sampling_create_message {
            Some(nested("createMessage"@))
        } else {
            None
        });
        assert(r.get("elicitation"@) == if self.elicitation_create {
            Some(nested("create"@))
        } else {
            None
        });
    }
}

/// What a client offers.
#[derive(Debug, PartialEq)]
pub struct ClientCapabilities {
    pub experimental: Option<MetaMap>,
    pub sampling: Option<SamplingCapability>,
    pub elicitation: Option<ElicitationCapability>,
    pub roots: Option<RootsCapability>,
    pub tasks: Option<ClientTasksCapability>,
}

impl ClientCapabilities {
    /// Nothing is offered unless it is said.
    pub open spec fn is_default(&self) -> bool {
        &&& self.experimental is None
        &&& self.sampling is None
        &&& self.elicitation is None
        &&& self.roots is None
        &&& self.tasks is None
    }

    /// The object under a name, if there is one.
    pub open spec fn object_at(j: JsonView, k: Seq<char>) -> Option<JsonView> {
        match j.get(k) {
            Some(JsonView::Object(o)) => Some(JsonView::Object(o)),
            _ => None,
        }
    }

    /// Whether another says that the same is offered.
    pub open spec fn same_offer(&self, other: &ClientCapabilities) -> bool {
        &&& wire::opt(self.experimental) == wire::opt(other.experimental)
        &&& self.sampling == other.sampling
        &&& self.elicitation == other.elicitation
        &&& self.roots == other.roots
        &&& self.tasks == other.tasks
    }

    /// Whether the value is what a record says is offered.
    pub open spec fn reads(&self, j: JsonView) -> bool {
        &&& wire::opt(self.experimental) == Self::object_at(j, "experimental"@)
        &&& self.sampling == match Self::object_at(j, "sampling"@) {
            Some(v) => Some(SamplingCapability::read(v)),
            None => None,
        }
        &&& self.elicitation == match Self::object_at(j, "elicitation"@) {
            Some(v) => Some(ElicitationCapability::read(v)),
            None => None,
        }
        &&& self.roots == match Self::object_at(j, "roots"@) {
            Some(v) => Some(RootsCapability::read(v)),
            None => None,
        }
        &&& self.tasks == match Self::object_at(j, "tasks"@) {
            Some(v) => Some(ClientTasksCapability::read(v)),
            None => None,
        }
    }
}

impl Default for ClientCapabilities {
    fn default() -> (r: Self)
        ensures
            r.is_default(),
    {
        ClientCapabilities {
            experimental: None,
            sampling: None,
            elicitation: None,
            roots: None,
            tasks: None,
        }
    }
}

/// What is kept of the object under a name.
pub open spec fn kept<T: Wire>(j: JsonView, k: Seq<char>) -> Option<JsonView> {
    match ClientCapabilities::object_at(j, k) {
        Some(v) => T::canon(v),
        None => None,
    }
}


/// The object under a name, if there is one.
fn object_of<'a>(j: &'a Json, k: &str) -> (r: Option<&'a Json>)
    ensures
        match r {
            Some(v) => ClientCapabilities::object_at(j@, k@) == Some(v@),
            None => ClientCapabilities::object_at(j@, k@) is None,
        },
{
    match j.get(k) {
        Some(v) => if v.is_object() {
            Some(v)
        } else {
            None
        },
        None => None,
    }
}

impl Clone for ClientCapabilities {
    fn clone(&self) -> (r: Self)
        ensures
            r.same_offer(self),
            r.wire() == self.wire(),
    {
        self.duplicate()
    }
}

impl Wire for ClientCapabilities {
    open spec fn wire(&self) -> JsonView {
        let o = wire::none();
        let o = wire::with_opt(o, "experimental"@, wire::opt(self.experimental));
        let o = wire::with_opt(o, "sampling"@, wire::opt(self.sampling));
        let o = wire::with_opt(o, "elicitation"@, wire::opt(self.elicitation));
        let o = wire::with_opt(o, "tasks"@, wire::opt(self.tasks));
        let o = wire::with_opt(o, "roots"@, wire::opt(self.roots));
        JsonView::Object(o)
    }

    open spec fn canon(j: JsonView) -> Option<JsonView> {
        let o = wire::none();
        let o = wire::with_opt(o, "experimental"@, Self::object_at(j, "experimental"@));
        let o = wire::with_opt(o, "sampling"@, kept::<SamplingCapability>(j, "sampling"@));
        let o = wire::with_opt(o, "elicitation"@, kept::<ElicitationCapability>(j, "elicitation"@));
        let o = wire::with_opt(o, "tasks"@, kept::<ClientTasksCapability>(j, "tasks"@));
        let o = wire::with_opt(o, "roots"@, kept::<RootsCapability>(j, "roots"@));
        Some(JsonView::Object(o))
    }

    open spec fn faithful(&self) -> bool {
        wire::opt_faithful(self.elicitation)
    }

    fn to_json(&self) -> (r: Json) {
        let mut o = wire::start();
        wire::put_opt(&mut o, "experimental", &self.experimental);
        wire::put_opt(&mut o, "sampling", &self.sampling);
        wire::put_opt(&mut o, "elicitation", &self.elicitation);
        wire::put_opt(&mut o, "tasks", &self.tasks);
        wire::put_opt(&mut o, "roots", &self.roots);
        Json::object(o)
    }

    fn from_json(j: &Json) -> (r: Result<Self, Malformed>)
        ensures
            match r {
                Ok(c) => c.reads(j@),
                Err(_) => false,
            },
    {
        let experimental = match object_of(j, "experimental") {
            Some(v) => Some(MetaMap::from_json(v)?),
            None => None,
        };
        let sampling = match object_of(j, "sampling") {
            Some(v) => Some(SamplingCapability::from_json(v)?),
            None => None,
        };
        let elicitation = match object_of(j, "elicitation") {
            Some(v) => Some(ElicitationCapability::from_json(v)?),
            None => None,
        };
        let tasks = match object_of(j, "tasks") {
            Some(v) => Some(ClientTasksCapability::from_json(v)?),
            None => None,
        };
        let roots = match object_of(j, "roots") {
            Some(v) => Some(RootsCapability::from_json(v)?),
            None => None,
        };
        Ok(ClientCapabilities { experimental, sampling, elicitation, roots, tasks })
    }

    fn duplicate(&self) -> (r: Self)
        ensures
            r.same_offer(self),
    {
        ClientCapabilities {
            experimental: wire::duplicate_opt(&self.experimental),
            sampling: self.sampling,
            elicitation: self.elicitation,
            roots: self.roots,
            tasks: self.tasks,
        }
    }

    proof fn round_trip(&self)
        ensures
            self.reads(self.wire()),
    {
        broadcast use crate::wire::group_lookup;

        reveal_strlit("experimental");
        reveal_strlit("sampling");
        reveal_strlit("elicitation");
        reveal_strlit("tasks");
        reveal_strlit("roots");
        assert("experimental"@.len() == 12 && "sampling"@.len() == 8 && "elicitation"@.len() == 11
            && "tasks"@.len() == 5 && "roots"@.len() == 5);
        assert("tasks"@[0] != "roots"@[0]);
        match self.sampling {
            Some(v) => v.round_trip(),
            None => {},
        }
        match self.elicitation {
            Some(v) => v.round_trip(),
            None => {},
        }
        match self.tasks {
            Some(v) => v.round_trip(),
            None => {},
        }
        match self.roots {
            Some(v) => v.round_trip(),
            None => {},
        }
    }
}

} // verus!
