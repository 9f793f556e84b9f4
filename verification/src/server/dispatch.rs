//! What a server does with a request.
use vstd::prelude::*;

use crate::error::{JsonRpcErrorCode, McpError};
use crate::json::{Json, JsonView};
use crate::jsonrpc::{Request, RpcError};
use crate::protocol::methods;
use crate::protocol::params::{
    CallToolParams, CompleteRequestParams, GetPromptParams, PaginatedParams, SetLoggingLevelParams,
    UriParams,
};
use crate::protocol::progress;
use crate::protocol::progress::progress_meta;
use crate::server::paging;
use crate::server::prompt_manager::PromptManager;
use crate::server::resource_manager::ResourceManager;
use crate::server::tool_manager;
use crate::server::tool_manager::{finish_call, ServerTool, ToolManager};
use crate::text;
use crate::text::str_eq;
use crate::types::completion::{
    CompleteReference, CompleteResult, CompletionArgument, CompletionContext,
};
use crate::types::content;
use crate::types::meta::RequestParamsMeta;
use crate::types::prompts::GetPromptResult;
use crate::types::resources::ReadResourceResult;
use crate::types::tools::CallToolResult;
use crate::wire;
use crate::wire::Wire;

verus! {

/// What runs when a tool is called, a prompt or a resource is asked for, the level of
/// the log is set, or a completion is asked for.
pub trait Handlers {
    type Tool;

    type Prompt;

    type Resource;

    type Level;

    type Complete;
}

/// What a server offers.
pub struct ServerInner<H: Handlers> {
    pub tools: ToolManager<H::Tool>,
    pub prompts: PromptManager<H::Prompt>,
    pub resources: ResourceManager<H::Resource>,
    pub set_level_handler: Option<H::Level>,
    pub complete_handler: Option<H::Complete>,
}

/// What is done with a request.
pub enum Dispatched<'a, H: Handlers> {
    /// It is answered.
    Answer(Json),
    /// It fails.
    Fail(RpcError),
    /// A tool runs.
    CallTool {
        tool: &'a ServerTool<H::Tool>,
        arguments: Json,
        meta: Option<RequestParamsMeta>,
    },
    /// A prompt is made.
    GetPrompt {
        handler: &'a H::Prompt,
        name: String,
        arguments: Option<Json>,
        meta: Option<RequestParamsMeta>,
    },
    /// A resource is read.
    ReadResource { handler: &'a H::Resource, uri: String, meta: Option<RequestParamsMeta> },
    /// The level of the log is set.
    SetLevel { handler: &'a H::Level, level: String },
    /// A completion is looked for.
    Complete {
        handler: &'a H::Complete,
        reference: CompleteReference,
        argument: CompletionArgument,
        context: Option<CompletionContext>,
    },
}

/// What is done with a request.
pub enum DispatchView {
    Answer(JsonView),
    Fail { code: int, message: Seq<char> },
    CallTool { name: Seq<char>, arguments: JsonView, meta: Option<JsonView> },
    GetPrompt { name: Seq<char>, arguments: Option<JsonView>, meta: Option<JsonView> },
    ReadResource { uri: Seq<char>, meta: Option<JsonView> },
    SetLevel { level: Seq<char> },
    Complete { reference: JsonView, argument: JsonView, context: Option<JsonView> },
}

/// What a step says, and that it runs what the server has for it.
pub open spec fn step<H: Handlers>(s: &ServerInner<H>, d: Dispatched<'_, H>, v: DispatchView) -> bool {
    match d {
        Dispatched::Answer(j) => v == DispatchView::Answer(j@),
        Dispatched::Fail(e) => v == (DispatchView::Fail { code: e.code as int, message: e.message@ })
            && e.data is None,
        Dispatched::CallTool { tool, arguments, meta } => v is CallTool && v->CallTool_arguments
            == arguments@ && v->CallTool_meta == wire::opt(meta) && s.tools@.dom().contains(
            v->CallTool_name,
        ) && *tool == s.tools@[v->CallTool_name],
        Dispatched::GetPrompt { handler, name, arguments, meta } => v == (DispatchView::GetPrompt {
            name: name@,
            arguments: wire::opt(arguments),
            meta: wire::opt(meta),
        }) && s.prompts@.dom().contains(name@) && *handler == s.prompts@[name@].handler,
        Dispatched::ReadResource { handler, uri, meta } => v == (DispatchView::ReadResource {
            uri: uri@,
            meta: wire::opt(meta),
        }) && s.resources@.dom().contains(uri@) && *handler == s.resources@[uri@].handler,
        Dispatched::SetLevel { handler, level } => v == (DispatchView::SetLevel { level: level@ })
            && s.set_level_handler == Some(*handler),
        Dispatched::Complete { handler, reference, argument, context } => v == (
        DispatchView::Complete {
            reference: reference.wire(),
            argument: argument.wire(),
            context: wire::opt(context),
        }) && s.complete_handler == Some(*handler),
    }
}

/// The parameters of a request, if they are an object that can be read as a `T`.
pub open spec fn taken<T: Wire>(params: Option<JsonView>) -> Option<JsonView> {
    match params {
        Some(j) => if j is Object && T::canon(j) is Some {
            Some(j)
        } else {
            None
        },
        None => None,
    }
}

/// The text of a member, and an empty text where there is none.
pub open spec fn text_at(j: JsonView, k: Seq<char>) -> Seq<char> {
    match j.get(k) {
        Some(JsonView::String(s)) => s,
        _ => seq![],
    }
}

/// A member that is there and not null.
pub open spec fn member_at(j: JsonView, k: Seq<char>) -> Option<JsonView> {
    match j.get(k) {
        Some(JsonView::Null) => None,
        m => m,
    }
}

/// The cursor that the parameters of a request give.
pub open spec fn cursor_of(params: Option<JsonView>) -> Option<Seq<char>> {
    match taken::<PaginatedParams>(params) {
        Some(j) => match member_at(j, "cursor"@) {
            Some(c) => c.text(),
            None => None,
        },
        None => None,
    }
}

/// A list, and the cursor of what follows it.
pub open spec fn list_form(k: Seq<char>, items: Seq<JsonView>, next: Option<Seq<char>>) -> JsonView {
    let o = wire::with(wire::none(), k, JsonView::Array(items));
    JsonView::Object(
        wire::with_opt(
            o,
            "nextCursor"@,
            match next {
                Some(c) => Some(JsonView::String(c)),
                None => None,
            },
        ),
    )
}

/// A page of the tools.
pub open spec fn tools_listed<T>(m: ToolManager<T>, cursor: Option<Seq<char>>) -> JsonView {
    let len = m.order().len() as int;
    let start = paging::page_start(cursor, len);
    let end = paging::page_end(start, m.size() as int, len);
    list_form(
        "tools"@,
        Seq::new((end - start) as nat, |i: int| m@[m.order()[start + i]].listed()),
        paging::next_cursor(end, len),
    )
}

/// A page of the resources.
pub open spec fn resources_listed<T>(m: ResourceManager<T>, cursor: Option<Seq<char>>) -> JsonView {
    let len = m.order().len() as int;
    let start = paging::page_start(cursor, len);
    let end = paging::page_end(start, m.size() as int, len);
    list_form(
        "resources"@,
        Seq::new((end - start) as nat, |i: int| m@[m.order()[start + i]].info.wire()),
        paging::next_cursor(end, len),
    )
}

/// The prompts.
pub open spec fn prompts_listed<T>(m: PromptManager<T>) -> JsonView {
    list_form(
        "prompts"@,
        Seq::new(m.order().len(), |i: int| m@[m.order()[i]].info.wire()),
        None,
    )
}

/// The templates of resources.
pub open spec fn templates_listed<T>(m: ResourceManager<T>) -> JsonView {
    list_form(
        "resourceTemplates"@,
        Seq::new(m.form_order().len(), |i: int| m.forms()[m.form_order()[i]].wire()),
        None,
    )
}

/// An object without members.
pub open spec fn empty() -> JsonView {
    JsonView::Object(wire::none())
}

/// A failure.
pub open spec fn fail(code: JsonRpcErrorCode, message: Seq<char>) -> DispatchView {
    DispatchView::Fail { code: code.number(), message }
}

/// What is done with the call of a tool.
pub open spec fn tool_called<T>(
    tools: Map<Seq<char>, ServerTool<T>>,
    params: Option<JsonView>,
) -> DispatchView {
    match taken::<CallToolParams>(params) {
        None => fail(JsonRpcErrorCode::InvalidParams, "Invalid params for tools/call"@),
        Some(j) => {
            let name = text_at(j, "name"@);
            let arguments = match member_at(j, "arguments"@) {
                Some(a) => a,
                None => empty(),
            };
            match tool_manager::call_refused(tools, name, arguments) {
                Some(f) => fail(JsonRpcErrorCode::InvalidParams, f),
                None => DispatchView::CallTool {
                    name,
                    arguments,
                    meta: progress::meta_of(params),
                },
            }
        },
    }
}

/// What is done when a prompt is asked for.
pub open spec fn prompt_asked<T>(m: PromptManager<T>, params: Option<JsonView>) -> DispatchView {
    match taken::<GetPromptParams>(params) {
        None => fail(JsonRpcErrorCode::InvalidParams, "Invalid params for prompts/get"@),
        Some(j) => {
            let name = text_at(j, "name"@);
            if m@.dom().contains(name) {
                DispatchView::GetPrompt {
                    name,
                    arguments: member_at(j, "arguments"@),
                    meta: progress::meta_of(params),
                }
            } else {
                fail(JsonRpcErrorCode::InvalidParams, "Prompt not found: "@ + name)
            }
        },
    }
}

/// What is done when a resource is asked for.
pub open spec fn resource_asked<T>(m: ResourceManager<T>, params: Option<JsonView>) -> DispatchView {
    match taken::<UriParams>(params) {
        None => fail(JsonRpcErrorCode::InvalidParams, "Invalid params for resources/read"@),
        Some(j) => {
            let uri = text_at(j, "uri"@);
            if uri.len() == 0 {
                fail(JsonRpcErrorCode::InvalidParams, "URI cannot be empty"@)
            } else if m@.dom().contains(uri) {
                DispatchView::ReadResource { uri, meta: progress::meta_of(params) }
            } else {
                fail(JsonRpcErrorCode::InvalidParams, "Resource not found:"@ + uri)
            }
        },
    }
}

/// What is done when somebody wants to hear of a resource, or no longer.
pub open spec fn resource_watched<T>(
    m: ResourceManager<T>,
    method: Seq<char>,
    params: Option<JsonView>,
) -> DispatchView {
    match taken::<UriParams>(params) {
        None => fail(JsonRpcErrorCode::InvalidParams, "Invalid params for "@ + method),
        Some(j) => {
            let uri = text_at(j, "uri"@);
            if uri.len() == 0 {
                fail(JsonRpcErrorCode::InvalidParams, "URI cannot be empty"@)
            } else if m@.dom().contains(uri) {
                DispatchView::Answer(empty())
            } else {
                fail(JsonRpcErrorCode::ServerError, "Resource not found:"@ + uri)
            }
        },
    }
}

/// What is done when the level of the log is to be set.
pub open spec fn level_set(has_handler: bool, params: Option<JsonView>) -> DispatchView {
    match taken::<SetLoggingLevelParams>(params) {
        None => fail(JsonRpcErrorCode::InvalidParams, "Invalid params for logging/setLevel"@),
        Some(j) => if has_handler {
            DispatchView::SetLevel { level: text_at(j, "level"@) }
        } else {
            fail(JsonRpcErrorCode::InvalidParams, "not set LoggingLevelHandler"@)
        },
    }
}

/// What is done when a completion is asked for.
pub open spec fn completion_asked(has_handler: bool, params: Option<JsonView>) -> DispatchView {
    match taken::<CompleteRequestParams>(params) {
        None => fail(JsonRpcErrorCode::InvalidRequest, "Invalid complete request"@),
        Some(j) => if has_handler {
            DispatchView::Complete {
                reference: wire::get::<CompleteReference>(j, "ref"@, 0)->0,
                argument: wire::get::<CompletionArgument>(j, "argument"@, 1)->0,
                context: wire::get_opt::<CompletionContext>(j, "context"@, 2)->0,
            }
        } else {
            fail(JsonRpcErrorCode::ServerError, "Completion handler not registered"@)
        },
    }
}

/// What is done with a request.
pub open spec fn dispatched<H: Handlers>(
    s: &ServerInner<H>,
    method: Seq<char>,
    params: Option<JsonView>,
) -> DispatchView {
    if method == methods::TOOLS_LIST@ {
        DispatchView::Answer(tools_listed(s.tools, cursor_of(params)))
    } else if method == methods::TOOLS_CALL@ {
        tool_called(s.tools@, params)
    } else if method == methods::PROMPTS_LIST@ {
        DispatchView::Answer(prompts_listed(s.prompts))
    } else if method == methods::PROMPTS_GET@ {
        prompt_asked(s.prompts, params)
    } else if method == methods::RESOURCES_LIST@ {
        DispatchView::Answer(resources_listed(s.resources, cursor_of(params)))
    } else if method == methods::RESOURCES_READ@ {
        resource_asked(s.resources, params)
    } else if method == methods::RESOURCES_SUBSCRIBE@ || method == methods::RESOURCES_UNSUBSCRIBE@ {
        resource_watched(s.resources, method, params)
    } else if method == methods::RESOURCES_TEMPLATES_LIST@ {
        DispatchView::Answer(templates_listed(s.resources))
    } else if method == methods::LOGGING_SET_LEVEL@ {
        level_set(s.set_level_handler is Some, params)
    } else if method == methods::PING@ {
        DispatchView::Answer(empty())
    } else if method == methods::COMPLETION_COMPLETE@ {
        completion_asked(s.complete_handler is Some, params)
    } else {
        fail(JsonRpcErrorCode::MethodNotFound, "Method not found: "@ + method)
    }
}

/// The parameters of a request, if they are an object.
fn object_params(params: &Option<Json>) -> (r: Option<&Json>)
    ensures
        match r {
            Some(j) => wire::opt(*params) == Some(j@) && j@ is Object,
            None => match wire::opt(*params) {
                Some(j) => !(j is Object),
                None => true,
            },
        },
{
    match params {
        Some(j) => if j.is_object() {
            Some(j)
        } else {
            None
        },
        None => None,
    }
}

/// Reads the cursor that the parameters of a request give.
fn read_cursor(params: &Option<Json>) -> (r: Option<String>)
    ensures
        cursor_of(wire::opt(*params)) == match r {
            Some(c) => Some(c@),
            None => None,
        },
{
    match object_params(params) {
        Some(j) => match PaginatedParams::from_json(j) {
            Ok(p) => p.cursor,
            Err(_) => None,
        },
        None => None,
    }
}

fn failure<'a, H: Handlers>(code: JsonRpcErrorCode, message: String) -> (r: Dispatched<'a, H>)
    ensures
        r matches Dispatched::Fail(e) && e.code == code.number() && e.message == message
            && e.data is None,
{
    Dispatched::Fail(RpcError::new(code.code(), message))
}

/// Lists a page of the tools.
fn list_tools<T>(m: &ToolManager<T>, cursor: &Option<String>) -> (r: Json)
    ensures
        r@ == tools_listed(
            *m,
            match cursor {
                Some(c) => Some(c@),
                None => None,
            },
        ),
{
    let c = match cursor {
        Some(c) => Some(c.as_str()),
        None => None,
    };
    let r = m.list_tools(c);
    proof {
        let len = m.order().len() as int;
        let start = paging::page_start(paging::cursor_text(c), len);
        let end = paging::page_end(start, m.size() as int, len);
        let items = Seq::new((end - start) as nat, |i: int| m@[m.order()[start + i]].listed());
        assert forall|i: int| 0 <= i < r.tools@.len() implies #[trigger] wire::wires(r.tools@)[i]
            == items[i] by {
            m@[m.order()[start + i]].form_of_listed(r.tools@[i]);
        }
        assert(wire::wires(r.tools@) =~= items);
    }
    r.to_json()
}

/// Lists a page of the resources.
fn list_resources<T>(m: &ResourceManager<T>, cursor: &Option<String>) -> (r: Json)
    ensures
        r@ == resources_listed(
            *m,
            match cursor {
                Some(c) => Some(c@),
                None => None,
            },
        ),
{
    let c = match cursor {
        Some(c) => Some(c.as_str()),
        None => None,
    };
    let r = m.list_resources(c);
    proof {
        let len = m.order().len() as int;
        let start = paging::page_start(paging::cursor_text(c), len);
        let end = paging::page_end(start, m.size() as int, len);
        let items = Seq::new((end - start) as nat, |i: int| m@[m.order()[start + i]].info.wire());
        assert(wire::wires(r.resources@) =~= items);
    }
    r.to_json()
}

/// Lists the prompts.
fn list_prompts<T>(m: &PromptManager<T>) -> (r: Json)
    ensures
        r@ == prompts_listed(*m),
{
    let r = m.list_prompts();
    proof {
        let items = Seq::new(m.order().len(), |i: int| m@[m.order()[i]].info.wire());
        assert(wire::wires(r.prompts@) =~= items);
    }
    r.to_json()
}

/// Lists the templates of resources.
fn list_templates<T>(m: &ResourceManager<T>) -> (r: Json)
    ensures
        r@ == templates_listed(*m),
{
    let r = m.list_resource_templates();
    proof {
        let items = Seq::new(m.form_order().len(), |i: int| m.forms()[m.form_order()[i]].wire());
        assert(wire::wires(r.resource_templates@) =~= items);
    }
    r.to_json()
}

impl<H: Handlers> ServerInner<H> {
    /// Nothing is offered yet. What is added may take the place of what was there.
    pub fn new(tools_page_size: usize, resources_page_size: usize) -> (r: Self)
        ensures
            r.tools@ == Map::<Seq<char>, ServerTool<H::Tool>>::empty(),
            r.tools.may_overwrite(),
            r.tools.size() == tools_page_size,
            r.prompts@.dom() == Set::<Seq<char>>::empty(),
            r.prompts.may_overwrite(),
            r.resources@.dom() == Set::<Seq<char>>::empty(),
            r.resources.forms().dom() == Set::<Seq<char>>::empty(),
            r.resources.may_overwrite(),
            r.resources.size() == resources_page_size,
            r.set_level_handler is None,
            r.complete_handler is None,
    {
        let r = ServerInner {
            tools: ToolManager::new(true, tools_page_size),
            prompts: PromptManager::new(true),
            resources: ResourceManager::new(true, resources_page_size),
            set_level_handler: None,
            complete_handler: None,
        };
        assert(r.prompts@.dom() =~= Set::<Seq<char>>::empty());
        assert(r.resources@.dom() =~= Set::<Seq<char>>::empty());
        assert(r.resources.forms().dom() =~= Set::<Seq<char>>::empty());
        r
    }

    fn dispatch_tool(&self, params: &Option<Json>) -> (r: Dispatched<'_, H>)
        ensures
            step(self, r, tool_called(self.tools@, wire::opt(*params))),
    {
        let p = match object_params(params) {
            Some(j) => match CallToolParams::from_json(j) {
                Ok(p) => p,
                Err(_) => {
                    return failure(
                        JsonRpcErrorCode::InvalidParams,
                        "Invalid params for tools/call".to_owned(),
                    );
                },
            },
            None => {
                return failure(
                    JsonRpcErrorCode::InvalidParams,
                    "Invalid params for tools/call".to_owned(),
                );
            },
        };
        let arguments = match p.arguments {
            Some(a) => a,
            None => Json::empty_object(),
        };
        match self.tools.prepare_call(p.name.as_str(), &arguments) {
            Ok(tool) => Dispatched::CallTool { tool, arguments, meta: progress_meta(params) },
            Err(e) => failure(JsonRpcErrorCode::InvalidParams, e.message()),
        }
    }

    fn dispatch_prompt(&self, params: &Option<Json>) -> (r: Dispatched<'_, H>)
        ensures
            step(self, r, prompt_asked(self.prompts, wire::opt(*params))),
    {
        let p = match object_params(params) {
            Some(j) => match GetPromptParams::from_json(j) {
                Ok(p) => p,
                Err(_) => {
                    return failure(
                        JsonRpcErrorCode::InvalidParams,
                        "Invalid params for prompts/get".to_owned(),
                    );
                },
            },
            None => {
                return failure(
                    JsonRpcErrorCode::InvalidParams,
                    "Invalid params for prompts/get".to_owned(),
                );
            },
        };
        match self.prompts.get_prompt(p.name.as_str()) {
            Ok(handler) => Dispatched::GetPrompt {
                handler,
                name: p.name,
                arguments: p.arguments,
                meta: progress_meta(params),
            },
            Err(e) => failure(JsonRpcErrorCode::InvalidParams, e.message()),
        }
    }

    fn dispatch_read(&self, params: &Option<Json>) -> (r: Dispatched<'_, H>)
        ensures
            step(self, r, resource_asked(self.resources, wire::opt(*params))),
    {
        let p = match object_params(params) {
            Some(j) => match UriParams::from_json(j) {
                Ok(p) => p,
                Err(_) => {
                    return failure(
                        JsonRpcErrorCode::InvalidParams,
                        "Invalid params for resources/read".to_owned(),
                    );
                },
            },
            None => {
                return failure(
                    JsonRpcErrorCode::InvalidParams,
                    "Invalid params for resources/read".to_owned(),
                );
            },
        };
        if p.uri.as_str().is_empty() {
            return failure(JsonRpcErrorCode::InvalidParams, "URI cannot be empty".to_owned());
        }
        match self.resources.read_resource(p.uri.as_str()) {
            Ok(handler) => Dispatched::ReadResource {
                handler,
                uri: p.uri,
                meta: progress_meta(params),
            },
            Err(e) => failure(JsonRpcErrorCode::InvalidParams, e.message()),
        }
    }

    fn dispatch_watch(&self, method: &str, params: &Option<Json>, on: bool) -> (r: Dispatched<'_, H>)
        ensures
            step(self, r, resource_watched(self.resources, method@, wire::opt(*params))),
    {
        let p = match object_params(params) {
            Some(j) => match UriParams::from_json(j) {
                Ok(p) => p,
                Err(_) => {
                    return failure(
                        JsonRpcErrorCode::InvalidParams,
                        text::cat2("Invalid params for ", method),
                    );
                },
            },
            None => {
                return failure(
                    JsonRpcErrorCode::InvalidParams,
                    text::cat2("Invalid params for ", method),
                );
            },
        };
        if p.uri.as_str().is_empty() {
            return failure(JsonRpcErrorCode::InvalidParams, "URI cannot be empty".to_owned());
        }
        let outcome = if on {
            self.resources.subscribe_resource(p.uri.as_str())
        } else {
            self.resources.unsubscribe_resource(p.uri.as_str())
        };
        match outcome {
            Ok(()) => Dispatched::Answer(Json::empty_object()),
            Err(e) => failure(JsonRpcErrorCode::ServerError, e.message()),
        }
    }

    fn dispatch_level(&self, params: &Option<Json>) -> (r: Dispatched<'_, H>)
        ensures
            step(self, r, level_set(self.set_level_handler is Some, wire::opt(*params))),
    {
        let p = match object_params(params) {
            Some(j) => match SetLoggingLevelParams::from_json(j) {
                Ok(p) => p,
                Err(_) => {
                    return failure(
                        JsonRpcErrorCode::InvalidParams,
                        "Invalid params for logging/setLevel".to_owned(),
                    );
                },
            },
            None => {
                return failure(
                    JsonRpcErrorCode::InvalidParams,
                    "Invalid params for logging/setLevel".to_owned(),
                );
            },
        };
        match &self.set_level_handler {
            None => failure(
                JsonRpcErrorCode::InvalidParams,
                "not set LoggingLevelHandler".to_owned(),
            ),
            Some(handler) => Dispatched::SetLevel { handler, level: p.level },
        }
    }

    fn dispatch_complete(&self, params: &Option<Json>) -> (r: Dispatched<'_, H>)
        ensures
            step(self, r, completion_asked(self.complete_handler is Some, wire::opt(*params))),
    {
        let p = match object_params(params) {
            Some(j) => match CompleteRequestParams::from_json(j) {
                Ok(p) => p,
                Err(_) => {
                    return failure(
                        JsonRpcErrorCode::InvalidRequest,
                        "Invalid complete request".to_owned(),
                    );
                },
            },
            None => {
                return failure(
                    JsonRpcErrorCode::InvalidRequest,
                    "Invalid complete request".to_owned(),
                );
            },
        };
        match &self.complete_handler {
            None => failure(
                JsonRpcErrorCode::ServerError,
                "Completion handler not registered".to_owned(),
            ),
            Some(handler) => Dispatched::Complete {
                handler,
                reference: p.reference,
                argument: p.argument,
                context: p.context,
            },
        }
    }

    /// Tells what is done with a request.
    pub fn dispatch(&self, request: &Request) -> (r: Dispatched<'_, H>)
        ensures
            step(self, r, dispatched(self, request.method@, wire::opt(request.params))),
    {
        let method = request.method.as_str();
        let params = &request.params;
        if str_eq(method, methods::TOOLS_LIST) {
            let cursor = read_cursor(params);
            Dispatched::Answer(list_tools(&self.tools, &cursor))
        } else if str_eq(method, methods::TOOLS_CALL) {
            self.dispatch_tool(params)
        } else if str_eq(method, methods::PROMPTS_LIST) {
            Dispatched::Answer(list_prompts(&self.prompts))
        } else if str_eq(method, methods::PROMPTS_GET) {
            self.dispatch_prompt(params)
        } else if str_eq(method, methods::RESOURCES_LIST) {
            let cursor = read_cursor(params);
            Dispatched::Answer(list_resources(&self.resources, &cursor))
        } else if str_eq(method, methods::RESOURCES_READ) {
            self.dispatch_read(params)
        } else if str_eq(method, methods::RESOURCES_SUBSCRIBE) {
            self.dispatch_watch(method, params, true)
        } else if str_eq(method, methods::RESOURCES_UNSUBSCRIBE) {
            self.dispatch_watch(method, params, false)
        } else if str_eq(method, methods::RESOURCES_TEMPLATES_LIST) {
            Dispatched::Answer(list_templates(&self.resources))
        } else if str_eq(method, methods::LOGGING_SET_LEVEL) {
            self.dispatch_level(params)
        } else if str_eq(method, methods::PING) {
            Dispatched::Answer(Json::empty_object())
        } else if str_eq(method, methods::COMPLETION_COMPLETE) {
            self.dispatch_complete(params)
        } else {
            failure(
                JsonRpcErrorCode::MethodNotFound,
                text::cat2("Method not found: ", method),
            )
        }
    }
}

/// The answer to a request: its result, or the error that it is told.
pub open spec fn answers(r: Result<Json, RpcError>, v: DispatchView) -> bool {
    match r {
        Ok(j) => v == DispatchView::Answer(j@),
        Err(e) => v == (DispatchView::Fail { code: e.code as int, message: e.message@ })
            && e.data is None,
    }
}

fn error(code: JsonRpcErrorCode, message: String) -> (r: Result<Json, RpcError>)
    ensures
        answers(r, fail(code, message@)),
{
    Err(RpcError::new(code.code(), message))
}

/// The result that tells that a tool failed.
pub open spec fn failure_form(told: Seq<char>) -> JsonView {
    let text = JsonView::Object(wire::with(wire::none(), "text"@, JsonView::String(told)));
    let o = wire::with(
        wire::none(),
        "content"@,
        JsonView::Array(seq![content::typed("text"@, text)]),
    );
    JsonView::Object(wire::with(o, "isError"@, JsonView::Bool(true)))
}

/// The answer to the call of a tool, by what came of it. The failure of the tool is a
/// result that says so; a result that does not meet the schema of the tool fails the
/// call.
pub fn answer_tool(
    output_schema: &Option<Json>,
    name: &str,
    outcome: Result<CallToolResult, McpError>,
) -> (r: Result<Json, RpcError>)
    ensures
        match outcome {
            Ok(x) => answers(
                r,
                match tool_manager::output_fault(*output_schema, name@, x) {
                    Some(f) => fail(JsonRpcErrorCode::InvalidParams, f),
                    None => DispatchView::Answer(x.wire()),
                },
            ),
            Err(e) => answers(r, DispatchView::Answer(failure_form(e.told()))),
        },
{
    match finish_call(output_schema, name, outcome) {
        Ok(x) => {
            proof {
                if outcome is Err {
                    let c = x.content@[0];
                    assert(wire::wires(x.content@) =~= seq![c.wire()]);
                }
            }
            Ok(x.to_json())
        },
        Err(e) => error(JsonRpcErrorCode::InvalidParams, e.message()),
    }
}

/// The answer to one that asked for a prompt, by what came of making it.
pub fn answer_prompt(outcome: Result<GetPromptResult, McpError>) -> (r: Result<Json, RpcError>)
    ensures
        match outcome {
            Ok(x) => answers(r, DispatchView::Answer(x.wire())),
            Err(e) => answers(r, fail(JsonRpcErrorCode::InvalidParams, e.told())),
        },
{
    match outcome {
        Ok(x) => Ok(x.to_json()),
        Err(e) => error(JsonRpcErrorCode::InvalidParams, e.message()),
    }
}

/// The answer to one that asked for a resource, by what came of reading it.
pub fn answer_resource(outcome: Result<ReadResourceResult, McpError>) -> (r: Result<Json, RpcError>)
    ensures
        match outcome {
            Ok(x) => answers(r, DispatchView::Answer(x.wire())),
            Err(e) => answers(r, fail(JsonRpcErrorCode::InvalidParams, e.told())),
        },
{
    match outcome {
        Ok(x) => Ok(x.to_json()),
        Err(e) => error(JsonRpcErrorCode::InvalidParams, e.message()),
    }
}

/// The answer to one that set the level of the log, by what came of it.
pub fn answer_level(outcome: Result<(), McpError>) -> (r: Result<Json, RpcError>)
    ensures
        match outcome {
            Ok(()) => answers(r, DispatchView::Answer(empty())),
            Err(e) => answers(r, fail(JsonRpcErrorCode::ServerError, e.told())),
        },
{
    match outcome {
        Ok(()) => Ok(Json::empty_object()),
        Err(e) => error(JsonRpcErrorCode::ServerError, e.message()),
    }
}

/// The answer to one that asked for a completion, by what came of looking for it.
pub fn answer_completion(outcome: Result<CompleteResult, McpError>) -> (r: Result<Json, RpcError>)
    ensures
        match outcome {
            Ok(x) => answers(r, DispatchView::Answer(x.wire())),
            Err(e) => answers(
                r,
                fail(JsonRpcErrorCode::ServerError, "Complete handler error: "@ + e.told()),
            ),
        },
{
    match outcome {
        Ok(x) => Ok(x.to_json()),
        Err(e) => {
            let m = e.message();
            error(
                JsonRpcErrorCode::ServerError,
                text::cat2("Complete handler error: ", m.as_str()),
            )
        },
    }
}

/// A method that a server does not know.
pub open spec fn unknown(method: Seq<char>) -> bool {
    &&& method != methods::TOOLS_LIST@ && method != methods::TOOLS_CALL@
    &&& method != methods::PROMPTS_LIST@ && method != methods::PROMPTS_GET@
    &&& method != methods::RESOURCES_LIST@ && method != methods::RESOURCES_READ@
    &&& method != methods::RESOURCES_SUBSCRIBE@ && method != methods::RESOURCES_UNSUBSCRIBE@
    &&& method != methods::RESOURCES_TEMPLATES_LIST@ && method != methods::LOGGING_SET_LEVEL@
    &&& method != methods::PING@ && method != methods::COMPLETION_COMPLETE@
}

/// A method that a server does not know fails, whatever its parameters, and only such a
/// method fails for want of a method.
pub proof fn unknown_method_fails<H: Handlers>(
    s: &ServerInner<H>,
    method: Seq<char>,
    params: Option<JsonView>,
)
    ensures
        unknown(method) <==> dispatched(s, method, params) is Fail && dispatched(
            s,
            method,
            params,
        )->code == JsonRpcErrorCode::MethodNotFound.number(),
{
}

/// A tool runs only if the server has it and the arguments meet its schema.
pub proof fn only_valid_calls_run<H: Handlers>(
    s: &ServerInner<H>,
    method: Seq<char>,
    params: Option<JsonView>,
)
    ensures
        dispatched(s, method, params) matches DispatchView::CallTool { name, arguments, meta } ==> {
            &&& s.tools@.dom().contains(name)
            &&& s.tools@[name].input_schema matches Some(schema) ==> crate::schema::valid(
                schema@,
                arguments,
            )
        },
{
    match dispatched(s, method, params) {
        DispatchView::CallTool { name, arguments, meta } => {
            if s.tools@[name].input_schema is Some {
                crate::schema::no_fault_is_valid(
                    s.tools@[name].input_schema->0@,
                    arguments,
                    ""@,
                );
            }
        },
        _ => {},
    }
}

} // verus!
