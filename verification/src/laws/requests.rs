//! What a server does with each request.
use vstd::prelude::*;

use crate::json::{Json, JsonView};
use crate::laws::forms;
use crate::laws::forms::params as params_forms;
use crate::laws::names;
use crate::protocol::params::{
    CallToolParams, CompleteRequestParams, GetPromptParams, PaginatedParams, SetLoggingLevelParams,
    UriParams,
};
use crate::protocol::progress;
use crate::schema;
use crate::server::dispatch;
use crate::server::dispatch::{DispatchView, Handlers, ServerInner};
use crate::server::paging;
use crate::server::tool_manager;
use crate::server::tool_manager::ServerTool;
use crate::types::completion::{CompleteReference, CompletionArgument, CompletionContext};
use crate::types::meta::RequestParamsMeta;
use crate::types::tools::CallToolResult;
use crate::wire;
use crate::wire::Wire;

verus! {

/// The request fails with this number and in these words.
pub open spec fn fails(d: DispatchView, code: int, message: Seq<char>) -> bool {
    d == DispatchView::Fail { code, message }
}

/// The parameters are an object.
pub open spec fn given(params: Option<JsonView>) -> bool {
    params matches Some(j) && j is Object
}

/// The parameters call a tool: they are an object with a name, and what they say about the
/// request can be read.
pub open spec fn calls_tool(params: Option<JsonView>) -> bool {
    &&& given(params)
    &&& params->0.get("name"@) matches Some(v) && v is String
    &&& forms::fits_opt::<RequestParamsMeta>(params->0, "_meta"@)
}

/// The arguments of a call: those that are given, and an object without members where none
/// are given, or null.
pub open spec fn arguments(params: Option<JsonView>) -> JsonView {
    match params->0.get("arguments"@) {
        None => JsonView::Object(seq![]),
        Some(JsonView::Null) => JsonView::Object(seq![]),
        Some(a) => a,
    }
}

/// The tool takes these arguments.
pub open spec fn takes<T>(tool: ServerTool<T>, a: JsonView) -> bool {
    tool.input_schema matches Some(s) ==> schema::valid(s@, a)
}

proof fn call_read(params: Option<JsonView>)
    requires
        given(params),
    ensures
        CallToolParams::canon(params->0) is Some <==> calls_tool(params),
{
    params_forms::call_tool_params_read(params->0);
    forms::values::any_json(Json::Null, params->0);
}

/// A tool that the server has runs with the arguments of the call, if it takes them. A call
/// without arguments runs it with an object without members.
pub proof fn call_runs_tool<H: Handlers>(s: &ServerInner<H>, params: Option<JsonView>)
    requires
        calls_tool(params),
        s.tools@.dom().contains(params->0.get("name"@)->0->String_0),
        takes(s.tools@[params->0.get("name"@)->0->String_0], arguments(params)),
    ensures
        dispatch::dispatched(s, "tools/call"@, params) == (DispatchView::CallTool {
            name: params->0.get("name"@)->0->String_0,
            arguments: arguments(params),
            meta: progress::meta_of(params),
        }),
{
    names::requests_apart();
    call_read(params);
    let t = s.tools@[params->0.get("name"@)->0->String_0];
    if t.input_schema is Some {
        schema::no_fault_is_valid(t.input_schema->0@, arguments(params), ""@);
    }
    assert(wire::none() =~= seq![]);
}

/// A call that cannot be read, of a tool that there is not, or with arguments that the tool
/// does not take, fails for its parameters and says why; the tool does not run.
pub proof fn call_is_refused<H: Handlers>(s: &ServerInner<H>, params: Option<JsonView>)
    ensures
        ({
            let d = dispatch::dispatched(s, "tools/call"@, params);
            let name = params->0.get("name"@)->0->String_0;
            &&& !calls_tool(params) ==> fails(d, -32602, "Invalid params for tools/call"@)
            &&& calls_tool(params) && !s.tools@.dom().contains(name) ==> fails(
                d,
                -32602,
                "Tool not found: "@ + name,
            )
            &&& calls_tool(params) && s.tools@.dom().contains(name) && !takes(
                s.tools@[name],
                arguments(params),
            ) ==> fails(
                d,
                -32602,
                "Input validation failed for tool '"@ + name + "': "@ + schema::fault(
                    s.tools@[name].input_schema->0@,
                    arguments(params),
                    ""@,
                )->0,
            )
        }),
{
    names::requests_apart();
    if given(params) {
        call_read(params);
        let name = params->0.get("name"@)->0->String_0;
        let t = s.tools@[name];
        if t.input_schema is Some {
            schema::no_fault_is_valid(t.input_schema->0@, arguments(params), ""@);
        }
        assert(wire::none() =~= seq![]);
    }
}

/// The result of a tool is the answer as it stands, unless the tool says what its output meets
/// and the structured content of a success does not: then the call fails, and says why.
pub proof fn result_is_checked(output: Option<Json>, name: Seq<char>, x: CallToolResult)
    ensures
        ({
            let f = tool_manager::output_fault(output, name, x);
            let head = "Output validation failed for tool '"@ + name + "': "@;
            let s = output->0@;
            let c = x.structured_content->0@;
            if output is None || x.structured_content is None || x.is_error {
                f is None
            } else if !(c is Object) {
                f == Some(
                    head + "structuredContent must be a JSON object for tool '"@ + name + "'"@,
                )
            } else if !schema::valid(s, c) {
                f == Some(head + schema::fault(s, c, ""@)->0)
            } else {
                f is None
            }
        }),
{
    if output is Some && x.structured_content is Some {
        schema::no_fault_is_valid(output->0@, x.structured_content->0@, ""@);
    }
}

/// The failure of a tool is a result that says it is an error and holds one block, the words
/// of the failure.
pub proof fn failure_is_a_result(told: Seq<char>)
    ensures
        ({
            let r = dispatch::failure_form(told);
            &&& r.get("isError"@) == Some(JsonView::Bool(true))
            &&& r.get("content"@) matches Some(JsonView::Array(a)) && a.len() == 1 && a[0].get(
                "type"@,
            ) == Some(JsonView::String("text"@)) && a[0].get("text"@) == Some(
                JsonView::String(told),
            )
            &&& forms::only_named(r, seq!["content"@, "isError"@])
        }),
{
    broadcast use crate::wire::group_lookup;

    reveal_strlit("isError");
    reveal_strlit("content");
    reveal_strlit("type");
    reveal_strlit("text");
    assert("isError"@.len() == 7 && "content"@.len() == 7 && "isError"@[0] != "content"@[0]);
    assert("type"@.len() == 4 && "text"@.len() == 4 && "type"@[1] != "text"@[1]);
    let o = wire::with(wire::none(), "text"@, JsonView::String(told));
    crate::types::content::typed_lookup("text"@, o, "type"@);
    crate::types::content::typed_lookup("text"@, o, "text"@);
    let r = dispatch::failure_form(told);
    let named = seq!["content"@, "isError"@];
    assert(named[0] == "content"@ && named[1] == "isError"@);
    assert forall|k: Seq<char>| r.get(k) is Some implies #[trigger] named.contains(k) by {
        if k != "content"@ && k != "isError"@ {
            assert(r.get(k) is None);
        }
    }
}

/// A prompt that the server has is made with the arguments that are given, and with none where
/// none are given, or null. One that it has not, and parameters that cannot be read, fail.
pub proof fn prompt_is_made<H: Handlers>(s: &ServerInner<H>, params: Option<JsonView>)
    ensures
        ({
            let d = dispatch::dispatched(s, "prompts/get"@, params);
            let name = params->0.get("name"@)->0->String_0;
            &&& GetPromptParams::canon(params->0) is None || !given(params) ==> fails(
                d,
                -32602,
                "Invalid params for prompts/get"@,
            )
            &&& given(params) && GetPromptParams::canon(params->0) is Some ==> {
                &&& params->0.get("name"@) matches Some(v) && v is String
                &&& !s.prompts@.dom().contains(name) ==> fails(
                    d,
                    -32602,
                    "Prompt not found: "@ + name,
                )
                &&& s.prompts@.dom().contains(name) ==> d == DispatchView::GetPrompt {
                    name,
                    arguments: match params->0.get("arguments"@) {
                        Some(JsonView::Null) => None,
                        a => a,
                    },
                    meta: progress::meta_of(params),
                }
            }
        }),
{
    names::requests_apart();
    if given(params) {
        params_forms::get_prompt_params_read(params->0);
    }
}

/// The parameters name a place.
pub open spec fn names_place(params: Option<JsonView>) -> bool {
    given(params) && UriParams::canon(params->0) is Some
}

/// A resource that the server has is read. An empty place, one where there is nothing, and
/// parameters that cannot be read fail for the parameters.
pub proof fn resource_is_read<H: Handlers>(s: &ServerInner<H>, params: Option<JsonView>)
    ensures
        ({
            let d = dispatch::dispatched(s, "resources/read"@, params);
            let uri = params->0.get("uri"@)->0->String_0;
            &&& !names_place(params) ==> fails(d, -32602, "Invalid params for resources/read"@)
            &&& names_place(params) ==> {
                &&& params->0.get("uri"@) matches Some(v) && v is String
                &&& uri.len() == 0 ==> fails(d, -32602, "URI cannot be empty"@)
                &&& uri.len() > 0 && !s.resources@.dom().contains(uri) ==> fails(
                    d,
                    -32602,
                    "Resource not found:"@ + uri,
                )
                &&& uri.len() > 0 && s.resources@.dom().contains(uri)
                    ==> d == DispatchView::ReadResource { uri, meta: progress::meta_of(params) }
            }
        }),
{
    names::requests_apart();
    if given(params) {
        params_forms::uri_params_read(params->0);
    }
}

/// Whoever wants to hear of a resource, or no longer, is answered with an object without
/// members where the server has it, and is otherwise told why not.
pub proof fn resource_is_watched<H: Handlers>(
    s: &ServerInner<H>,
    method: Seq<char>,
    params: Option<JsonView>,
)
    requires
        method == "resources/subscribe"@ || method == "resources/unsubscribe"@,
    ensures
        ({
            let d = dispatch::dispatched(s, method, params);
            let uri = params->0.get("uri"@)->0->String_0;
            &&& !names_place(params) ==> fails(d, -32602, "Invalid params for "@ + method)
            &&& names_place(params) ==> {
                &&& uri.len() == 0 ==> fails(d, -32602, "URI cannot be empty"@)
                &&& uri.len() > 0 && !s.resources@.dom().contains(uri) ==> fails(
                    d,
                    -32000,
                    "Resource not found:"@ + uri,
                )
                &&& uri.len() > 0 && s.resources@.dom().contains(uri) ==> d
                    == DispatchView::Answer(JsonView::Object(seq![]))
            }
        }),
{
    names::requests_apart();
    if given(params) {
        params_forms::uri_params_read(params->0);
    }
    assert(wire::none() =~= seq![]);
}

/// The level of the log is handed on as the text that names it, where the server sets levels.
pub proof fn level_is_set<H: Handlers>(s: &ServerInner<H>, params: Option<JsonView>)
    ensures
        ({
            let d = dispatch::dispatched(s, "logging/setLevel"@, params);
            let read = given(params) && SetLoggingLevelParams::canon(params->0) is Some;
            &&& !read ==> fails(d, -32602, "Invalid params for logging/setLevel"@)
            &&& read && s.set_level_handler is None ==> fails(
                d,
                -32602,
                "not set LoggingLevelHandler"@,
            )
            &&& read && s.set_level_handler is Some ==> params->0.get("level"@) == Some(
                JsonView::String(d->level),
            ) && d is SetLevel
        }),
{
    names::requests_apart();
    if given(params) {
        params_forms::set_logging_level_params_read(params->0);
    }
}

/// A completion is looked for by what it is asked for, the argument and what goes with it, each
/// read from the member of its name.
pub proof fn completion_is_looked_for<H: Handlers>(s: &ServerInner<H>, params: Option<JsonView>)
    ensures
        ({
            let d = dispatch::dispatched(s, "completion/complete"@, params);
            let read = given(params) && CompleteRequestParams::canon(params->0) is Some;
            &&& !read ==> fails(d, -32600, "Invalid complete request"@)
            &&& read && s.complete_handler is None ==> fails(
                d,
                -32000,
                "Completion handler not registered"@,
            )
            &&& read && s.complete_handler is Some ==> {
                &&& d is Complete
                &&& params->0.get("ref"@) matches Some(v) && CompleteReference::canon(v) == Some(
                    d->reference,
                )
                &&& params->0.get("argument"@) matches Some(v) && CompletionArgument::canon(v)
                    == Some(d->argument)
                &&& match params->0.get("context"@) {
                    None => d->context is None,
                    Some(JsonView::Null) => d->context is None,
                    Some(v) => d->context == CompletionContext::canon(v) && d->context is Some,
                }
            }
        }),
{
    names::requests_apart();
    if given(params) {
        params_forms::complete_request_params_read(params->0);
    }
}

/// A ping is answered with an object without members, whatever its parameters are.
pub proof fn ping_is_answered<H: Handlers>(s: &ServerInner<H>, params: Option<JsonView>)
    ensures
        dispatch::dispatched(s, "ping"@, params) == DispatchView::Answer(JsonView::Object(seq![])),
{
    names::requests_apart();
    assert(wire::none() =~= seq![]);
}

/// A method is known by one of twelve names, and every other fails for want of a method, with
/// its name.
pub proof fn other_methods_fail<H: Handlers>(
    s: &ServerInner<H>,
    method: Seq<char>,
    params: Option<JsonView>,
)
    requires
        method != "tools/list"@,
        method != "tools/call"@,
        method != "prompts/list"@,
        method != "prompts/get"@,
        method != "resources/list"@,
        method != "resources/read"@,
        method != "resources/subscribe"@,
        method != "resources/unsubscribe"@,
        method != "resources/templates/list"@,
        method != "logging/setLevel"@,
        method != "ping"@,
        method != "completion/complete"@,
    ensures
        fails(
            dispatch::dispatched(s, method, params),
            -32601,
            "Method not found: "@ + method,
        ),
{
}

/// The cursor is the text under `cursor`, where the parameters can be read, and there is none
/// otherwise.
pub proof fn cursor_is_read(params: Option<JsonView>)
    ensures
        dispatch::cursor_of(params) == if given(params) && PaginatedParams::canon(params->0) is Some {
            match params->0.get("cursor"@) {
                Some(JsonView::String(c)) => Some(c),
                _ => None,
            }
        } else {
            None
        },
{
    if given(params) {
        params_forms::paginated_params_read(params->0);
    }
}

/// A page starts where its cursor says, at the start without one or where it is no number, and
/// not beyond the end. It has as many entries as a page holds, or those that are left. The
/// cursor of the next page is the place at which this one ends, where something is left.
pub proof fn pages<A>(all: Seq<A>, cursor: Option<Seq<char>>, size: int, n: int)
    requires
        0 <= n <= all.len(),
        n <= i64::MAX,
        size >= 0,
    ensures
        ({
            let p = paging::page(all, cursor, size);
            let left = all.len() - n;
            let taken = if size < left {
                size
            } else {
                left
            };
            &&& cursor is None && n == 0 || cursor == Some(crate::text::decimal(n)) ==> {
                &&& p.0 == all.subrange(n, n + taken)
                &&& p.1 == if taken < left {
                    Some(crate::text::decimal(n + taken))
                } else {
                    None
                }
            }
        }),
{
    crate::text::decimal_trimmed(n);
    crate::text::decimal_round_trip(n);
}

/// The tools are listed page by page, in the order of their names, each with all that is said
/// of it under its own name, and with the cursor of the next page where there is one.
pub proof fn tools_are_listed<H: Handlers>(s: &ServerInner<H>, params: Option<JsonView>, i: int)
    requires
        0 <= i < paging::page(
            s.tools.order(),
            dispatch::cursor_of(params),
            s.tools.size() as int,
        ).0.len(),
    ensures
        ({
            let p = paging::page(
                s.tools.order(),
                dispatch::cursor_of(params),
                s.tools.size() as int,
            );
            let t = s.tools@[p.0[i]];
            let d = dispatch::dispatched(s, "tools/list"@, params);
            &&& d is Answer
            &&& d->Answer_0.get("nextCursor"@) == text_opt(p.1)
            &&& d->Answer_0.get("tools"@) matches Some(JsonView::Array(list)) && list.len()
                == p.0.len() && {
                let x = list[i];
                &&& x.get("name"@) == Some(JsonView::String(t.name@))
                &&& x.get("title"@) == wire::opt(t.title)
                &&& x.get("description"@) == wire::opt(t.description)
                &&& x.get("inputSchema"@) == wire::opt(t.input_schema)
                &&& x.get("outputSchema"@) == wire::opt(t.output_schema)
                &&& x.get("annotations"@) == wire::opt(t.annotations)
                &&& x.get("icons"@) == wire::opt(t.icons)
            }
        }),
{
    broadcast use crate::wire::group_lookup;

    names::requests_apart();
    list_names();
    let len = s.tools.order().len() as int;
    let start = paging::page_start(dispatch::cursor_of(params), len);
    assert(paging::page(
        s.tools.order(),
        dispatch::cursor_of(params),
        s.tools.size() as int,
    ).0[i] == s.tools.order()[start + i]);
}

/// A text that may be missing.
pub open spec fn text_opt(s: Option<Seq<char>>) -> Option<JsonView> {
    match s {
        Some(s) => Some(JsonView::String(s)),
        None => None,
    }
}

proof fn list_names()
    ensures
        "tools"@.len() == 5,
        "resources"@.len() == 9,
        "prompts"@.len() == 7,
        "resourceTemplates"@.len() == 17,
        "nextCursor"@.len() == 10,
        "name"@.len() == 4,
        "title"@.len() == 5 && "title"@[0] == 't',
        "icons"@.len() == 5 && "icons"@[0] == 'i',
        "description"@.len() == 11 && "description"@[0] == 'd' && "description"@[1] == 'e',
        "inputSchema"@.len() == 11 && "inputSchema"@[0] == 'i',
        "outputSchema"@.len() == 12,
        "annotations"@.len() == 11 && "annotations"@[0] == 'a',
{
    reveal_strlit("tools");
    reveal_strlit("resources");
    reveal_strlit("prompts");
    reveal_strlit("resourceTemplates");
    reveal_strlit("nextCursor");
    reveal_strlit("name");
    reveal_strlit("title");
    reveal_strlit("icons");
    reveal_strlit("description");
    reveal_strlit("inputSchema");
    reveal_strlit("outputSchema");
    reveal_strlit("annotations");
}

/// The resources are listed page by page, in the order of their places, and with the cursor of
/// the next page where there is one.
pub proof fn resources_are_listed<H: Handlers>(s: &ServerInner<H>, params: Option<JsonView>, i: int)
    requires
        0 <= i < paging::page(
            s.resources.order(),
            dispatch::cursor_of(params),
            s.resources.size() as int,
        ).0.len(),
    ensures
        ({
            let p = paging::page(
                s.resources.order(),
                dispatch::cursor_of(params),
                s.resources.size() as int,
            );
            let d = dispatch::dispatched(s, "resources/list"@, params);
            &&& d is Answer
            &&& d->Answer_0.get("nextCursor"@) == text_opt(p.1)
            &&& d->Answer_0.get("resources"@) matches Some(JsonView::Array(list)) && list.len()
                == p.0.len() && list[i] == s.resources@[p.0[i]].info.wire()
        }),
{
    broadcast use crate::wire::group_lookup;

    names::requests_apart();
    list_names();
    let len = s.resources.order().len() as int;
    let start = paging::page_start(dispatch::cursor_of(params), len);
    assert(paging::page(
        s.resources.order(),
        dispatch::cursor_of(params),
        s.resources.size() as int,
    ).0[i] == s.resources.order()[start + i]);
}

/// The prompts and the templates of resources are listed all at once, in order.
pub proof fn prompts_and_templates_are_listed<H: Handlers>(
    s: &ServerInner<H>,
    params: Option<JsonView>,
)
    ensures
        ({
            let d = dispatch::dispatched(s, "prompts/list"@, params);
            &&& d is Answer
            &&& d->Answer_0.get("nextCursor"@) is None
            &&& d->Answer_0.get("prompts"@) matches Some(JsonView::Array(list)) && list.len()
                == s.prompts.order().len() && forall|i: int|
                0 <= i < list.len() ==> #[trigger] list[i]
                    == s.prompts@[s.prompts.order()[i]].info.wire()
        }),
        ({
            let d = dispatch::dispatched(s, "resources/templates/list"@, params);
            &&& d is Answer
            &&& d->Answer_0.get("nextCursor"@) is None
            &&& d->Answer_0.get("resourceTemplates"@) matches Some(JsonView::Array(list))
                && list.len() == s.resources.form_order().len() && forall|i: int|
                0 <= i < list.len() ==> #[trigger] list[i]
                    == s.resources.forms()[s.resources.form_order()[i]].wire()
        }),
{
    broadcast use crate::wire::group_lookup;

    names::requests_apart();
    list_names();
}

/// What a request says about itself is the object under `_meta`, where it can be read: the
/// token by which its progress is told, under `progressToken`.
pub proof fn progress_is_asked_for(params: Option<JsonView>)
    ensures
        progress::meta_of(params) matches Some(m) ==> params is Some && params->0.get("_meta"@)
            is Some && {
            let given = params->0.get("_meta"@)->0;
            &&& given is Object
            &&& forms::kept_opt::<crate::types::meta::ProgressToken>(given, m, "progressToken"@)
        },
        progress::meta_of(params) is None ==> params is None || match params->0.get("_meta"@) {
            Some(m) => !(m is Object) || !forms::fits_opt::<crate::types::meta::ProgressToken>(
                m,
                "progressToken"@,
            ),
            None => true,
        },
{
    if params is Some && params->0.get("_meta"@) is Some && params->0.get("_meta"@)->0 is Object {
        crate::laws::forms::meta::request_params_meta_read(params->0.get("_meta"@)->0);
    }
}

} // verus!
