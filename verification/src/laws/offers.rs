//! What a server offers: tools, prompts and resources, put in and taken out.
use vstd::prelude::*;

use crate::error::McpError;
use crate::json::{Json, JsonView};
use crate::schema;
use crate::server::{
    AddPromptOptionalParams, AddResourceOptionalParams, AddResourceTemplateOptionalParams,
    AddToolOptionalParams, ServerContext,
};
use crate::server::dispatch;
use crate::server::dispatch::{Handlers, ServerInner};
use crate::server::prompt_manager::PromptManager;
use crate::server::resource_manager::ResourceManager;
use crate::server::tool_manager;
use crate::server::tool_manager::{ServerTool, ToolManager};
use crate::string_map;
use crate::types::completion::CompleteResult;
use crate::types::meta::{ProgressToken, RequestParamsMeta};
use crate::types::prompts::{GetPromptResult, ListPromptsResult, PromptInfo};
use crate::types::resources::{
    ListResourceTemplatesResult, ReadResourceResult, ResourceInfo, ResourceTemplate,
};
use crate::types::tools::{CallToolResult, Tool};
use crate::wire;
use crate::wire::Wire;

verus! {

/// A tool can be added under a name that is free, or that may be given again, and is found under
/// it; the others stay.
pub proof fn tool_is_added<H>(
    m: &mut ToolManager<H>,
    tool: ServerTool<H>,
    r: Result<(), McpError>,
    k: Seq<char>,
)
    requires
        call_ensures(ToolManager::<H>::add_tool, (m, tool), r),
    ensures
        final(m).may_overwrite() == old(m).may_overwrite() && final(m).size() == old(m).size(),
        r is Ok <==> !old(m)@.dom().contains(tool.name@) || old(m).may_overwrite(),
        r is Ok ==> final(m)@.dom().contains(tool.name@) && final(m)@[tool.name@] == tool,
        r is Ok && k != tool.name@ ==> final(m)@.dom().contains(k) == old(m)@.dom().contains(k)
            && final(m)@[k] == old(m)@[k],
        r is Err ==> final(m)@ == old(m)@ && r->Err_0.faults_state(
            "Tool '"@ + tool.name@ + "' already exists"@,
        ),
{
}

/// A tool that is there can be removed by its name, and is gone; the others stay.
pub proof fn tool_is_removed<H>(
    m: &mut ToolManager<H>,
    name: &str,
    r: Result<(), McpError>,
    k: Seq<char>,
)
    requires
        call_ensures(ToolManager::<H>::remove_tool, (m, name), r),
    ensures
        final(m).may_overwrite() == old(m).may_overwrite() && final(m).size() == old(m).size(),
        r is Ok <==> name@.len() > 0 && old(m)@.dom().contains(name@),
        r is Ok ==> !final(m)@.dom().contains(name@),
        k != name@ ==> final(m)@.dom().contains(k) == old(m)@.dom().contains(k) && final(m)@[k]
            == old(m)@[k],
        r is Err ==> final(m)@ == old(m)@,
        name@.len() == 0 ==> r is Err && r->Err_0.faults_argument("Tool name cannot be empty"@),
        name@.len() > 0 && !old(m)@.dom().contains(name@) ==> r is Err && r->Err_0.faults_state(
            "Tool '"@ + name@ + "' not found"@,
        ),
{
    assert(r is Err ==> !(name@.len() > 0 && old(m)@.dom().contains(name@)));
}

/// A store of tools starts empty, lets names be given again and pages by fifty unless it is told
/// otherwise, and tells what it was told.
pub proof fn tools_kept<H>(
    overwrite: bool,
    size: usize,
    a: ToolManager<H>,
    b: ToolManager<H>,
    name: &str,
    found: Option<&ServerTool<H>>,
    n: usize,
    none: bool,
    given_again: bool,
)
    requires
        call_ensures(ToolManager::<H>::new, (overwrite, size), a),
        call_ensures(<ToolManager<H> as Default>::default, (), b),
        call_ensures(ToolManager::<H>::get, (&a, name), found),
        call_ensures(ToolManager::<H>::len, (&b,), n),
        call_ensures(ToolManager::<H>::is_empty, (&b,), none),
        call_ensures(ToolManager::<H>::overwrite, (&a,), given_again),
    ensures
        a.may_overwrite() == overwrite && a.size() == size && given_again == overwrite,
        b.may_overwrite() && b.size() == 50,
        found is None,
        n == 0 && none,
{
}

/// A tool is found by its name, and only by it; as many are counted as there are.
pub proof fn tool_is_found<H>(
    m: ToolManager<H>,
    name: &str,
    found: Option<&ServerTool<H>>,
    n: usize,
    none: bool,
)
    requires
        call_ensures(ToolManager::<H>::get, (&m, name), found),
        call_ensures(ToolManager::<H>::len, (&m,), n),
        call_ensures(ToolManager::<H>::is_empty, (&m,), none),
    ensures
        found is Some <==> m@.dom().contains(name@),
        found is Some ==> *found->0 == m@[name@],
        n == m@.dom().len(),
        none <==> n == 0,
{
}

/// Settings of a store of tools change what they name and nothing else.
pub proof fn tools_set<H>(
    m: &mut ToolManager<H>,
    w: &mut ToolManager<H>,
    overwrite: bool,
    size: usize,
)
    requires
        call_ensures(ToolManager::<H>::set_overwrite, (m, overwrite), ()),
        call_ensures(ToolManager::<H>::set_page_size, (w, size), ()),
    ensures
        final(m)@ == old(m)@ && final(m).may_overwrite() == overwrite && final(m).size() == old(m).size(),
        final(w)@ == old(w)@ && final(w).size() == size && final(w).may_overwrite() == old(w).may_overwrite(),
{
}

/// A tool is described by everything that it was added with but its handler.
pub proof fn tool_is_described<H>(name: String, h: H, t: ServerTool<H>, u: ServerTool<H>, d: Tool)
    requires
        call_ensures(ServerTool::<H>::new, (name, h), t),
        call_ensures(ServerTool::<H>::to_tool, (&u,), d),
    ensures
        t.name == name && t.handler == h && !t.structured_output,
        t.title is None && t.description is None && t.input_schema is None && t.output_schema is None
            && t.annotations is None && t.icons is None,
        d.name@ == u.name@,
        wire::opt(d.title) == wire::opt(u.title),
        wire::opt(d.description) == wire::opt(u.description),
        wire::opt(d.input_schema) == wire::opt(u.input_schema),
        wire::opt(d.output_schema) == wire::opt(u.output_schema),
        wire::opt(d.annotations) == wire::opt(u.annotations),
        wire::opt(d.icons) == wire::opt(u.icons),
{
}

/// A call of a tool is let through only to a tool that is there and whose input schema the
/// arguments fulfil.
pub proof fn call_is_prepared<H>(
    m: ToolManager<H>,
    name: &str,
    arguments: &Json,
    r: Result<&ServerTool<H>, McpError>,
)
    requires
        call_ensures(ToolManager::<H>::prepare_call, (&m, name, arguments), r),
    ensures
        r is Ok <==> m@.dom().contains(name@) && (m@[name@].input_schema is Some ==> schema::fault(
            m@[name@].input_schema->0@,
            arguments@,
            ""@,
        ) is None),
        r is Ok ==> *r->Ok_0 == m@[name@],
        !m@.dom().contains(name@) ==> r is Err && r->Err_0.faults_state(
            "Tool not found: "@ + name@,
        ),
        m@.dom().contains(name@) && r is Err ==> r->Err_0 is Validation && r->Err_0.told()
            == "Input validation failed for tool '"@ + name@ + "': "@ + schema::fault(
            m@[name@].input_schema->0@,
            arguments@,
            ""@,
        )->0,
{
}

/// What a tool that failed gives is a result that says so; what one that did not gives is passed
/// on where it fulfils the output schema.
pub proof fn call_is_finished(
    output: &Option<Json>,
    name: &str,
    outcome: Result<CallToolResult, McpError>,
    r: Result<CallToolResult, McpError>,
)
    requires
        call_ensures(tool_manager::finish_call, (output, name, outcome), r),
    ensures
        outcome is Err ==> r is Ok && r->Ok_0.is_error && r->Ok_0.holds_text(outcome->Err_0.told())
            && r->Ok_0.structured_content is None && r->Ok_0.meta is None,
        outcome is Ok && (*output is None || outcome->Ok_0.structured_content is None
            || outcome->Ok_0.is_error) ==> r == outcome,
        outcome is Ok && *output is Some && outcome->Ok_0.structured_content is Some
            && !outcome->Ok_0.is_error ==> {
            let c = outcome->Ok_0.structured_content->0@;
            let f = schema::fault(output->0@, c, ""@);
            let head = "Output validation failed for tool '"@ + name@ + "': "@;
            &&& c is Object && f is None ==> r == outcome
            &&& c is Object && f is Some ==> r is Err && r->Err_0 is Validation && r->Err_0.told()
                == head + f->0
            &&& !(c is Object) ==> r is Err && r->Err_0 is Validation && r->Err_0.told() == head
                + "structuredContent must be a JSON object for tool '"@ + name@ + "'"@
        },
{
}

/// A call of a tool as a whole is refused as its preparation is, and otherwise finished.
pub proof fn call_as_a_whole<H>(
    m: ToolManager<H>,
    name: &str,
    arguments: &Json,
    outcome: Result<CallToolResult, McpError>,
    p: Result<&ServerTool<H>, McpError>,
    r: Result<CallToolResult, McpError>,
)
    requires
        call_ensures(ToolManager::<H>::prepare_call, (&m, name, arguments), p),
        call_ensures(ToolManager::<H>::call_tool, (&m, name, arguments, outcome), r),
    ensures
        p is Err ==> r is Err && r->Err_0.told() == p->Err_0.told() && (r->Err_0 is Validation
            <==> p->Err_0 is Validation) && (r->Err_0 is InvalidState <==> p->Err_0 is InvalidState),
        p is Ok && outcome is Err ==> r is Ok && r->Ok_0.is_error && r->Ok_0.holds_text(
            outcome->Err_0.told(),
        ),
        p is Ok && outcome is Ok && (m@[name@].output_schema is None
            || outcome->Ok_0.structured_content is None || outcome->Ok_0.is_error) ==> r == outcome,
        p is Ok && outcome is Ok && m@[name@].output_schema is Some
            && outcome->Ok_0.structured_content is Some && !outcome->Ok_0.is_error ==> {
            let c = outcome->Ok_0.structured_content->0@;
            r is Ok <==> c is Object && schema::fault(
                m@[name@].output_schema->0@,
                c,
                ""@,
            ) is None
        },
        p is Ok && outcome is Ok && r is Ok ==> r == outcome,
        p is Ok && r is Err ==> r->Err_0 is Validation,
{
}

/// A prompt is added under a name that is not empty and is free, or may be given again.
pub proof fn prompt_is_added<H>(
    m: &mut PromptManager<H>,
    prompt: PromptInfo,
    h: H,
    r: Result<(), McpError>,
    k: Seq<char>,
)
    requires
        call_ensures(PromptManager::<H>::add_prompt, (m, prompt, h), r),
    ensures
        final(m).may_overwrite() == old(m).may_overwrite(),
        r is Ok <==> prompt.name@.len() > 0 && (!old(m)@.dom().contains(prompt.name@) || old(m).may_overwrite()),
        r is Ok ==> final(m)@.dom().contains(prompt.name@) && final(m)@[prompt.name@].info == prompt
            && final(m)@[prompt.name@].handler == h,
        r is Ok && k != prompt.name@ ==> final(m)@.dom().contains(k) == old(m)@.dom().contains(k)
            && final(m)@[k] == old(m)@[k],
        r is Err ==> final(m)@ == old(m)@,
        prompt.name@.len() == 0 ==> r->Err_0.faults_argument("Prompt name cannot be empty"@),
        r is Err && prompt.name@.len() > 0 ==> r->Err_0.faults_state(
            "Prompt already exists: "@ + prompt.name@,
        ),
{
}

/// A prompt that is removed is gone, whether it was there or not; the others stay.
pub proof fn prompt_is_removed<H>(m: &mut PromptManager<H>, name: &str, k: Seq<char>)
    requires
        call_ensures(PromptManager::<H>::remove_prompt, (m, name), ()),
    ensures
        !final(m)@.dom().contains(name@),
        k != name@ ==> final(m)@.dom().contains(k) == old(m)@.dom().contains(k) && final(m)@[k]
            == old(m)@[k],
        final(m).may_overwrite() == old(m).may_overwrite(),
{
}

/// A prompt is found by its name, and its absence told with it; the list holds them all, in the
/// order of their names.
pub proof fn prompt_is_found<H>(
    m: PromptManager<H>,
    name: &str,
    r: Result<&H, McpError>,
    n: usize,
    none: bool,
    list: ListPromptsResult,
    i: int,
)
    requires
        call_ensures(PromptManager::<H>::get_prompt, (&m, name), r),
        call_ensures(PromptManager::<H>::len, (&m,), n),
        call_ensures(PromptManager::<H>::is_empty, (&m,), none),
        call_ensures(PromptManager::<H>::list_prompts, (&m,), list),
    ensures
        r is Ok <==> m@.dom().contains(name@),
        r is Ok ==> *r->Ok_0 == m@[name@].handler,
        r is Err ==> r->Err_0.faults_state("Prompt not found: "@ + name@),
        n == m@.dom().len() && (none <==> n == 0),
        list.prompts@.len() == n,
        0 <= i < n ==> m@.dom().contains(m.order()[i]) && list.prompts@[i].wire()
            == m@[m.order()[i]].info.wire(),
        string_map::increasing(m.order()) && m.order().to_set() == m@.dom(),
        list.next_cursor is None && list.meta is None,
{
    if 0 <= i < n {
        assert(m.order().to_set().contains(m.order()[i]));
    }
}

/// A store of prompts starts empty, and lets names be given again unless it is told otherwise.
pub proof fn prompts_kept<H>(overwrite: bool, a: PromptManager<H>, b: PromptManager<H>)
    requires
        call_ensures(PromptManager::<H>::new, (overwrite,), a),
        call_ensures(<PromptManager<H> as Default>::default, (), b),
    ensures
        a@.dom() == Set::<Seq<char>>::empty() && a.may_overwrite() == overwrite,
        b@.dom() == Set::<Seq<char>>::empty() && b.may_overwrite(),
{
}

/// A resource is added under an address that is free, or may be given again, where neither the
/// address nor the name is empty.
pub proof fn resource_is_added<H>(
    m: &mut ResourceManager<H>,
    resource: ResourceInfo,
    h: H,
    r: Result<(), McpError>,
    k: Seq<char>,
)
    requires
        call_ensures(ResourceManager::<H>::add_resource, (m, resource, h), r),
    ensures
        final(m).forms() == old(m).forms() && final(m).may_overwrite() == old(m).may_overwrite()
            && final(m).size() == old(m).size(),
        r is Ok <==> resource.uri@.len() > 0 && resource.name@.len() > 0 && (!old(m)@.dom().contains(resource.uri@) || old(m).may_overwrite()),
        r is Ok ==> final(m)@.dom().contains(resource.uri@) && final(m)@[resource.uri@].info
            == resource && final(m)@[resource.uri@].handler == h,
        r is Ok && k != resource.uri@ ==> final(m)@.dom().contains(k) == old(m)@.dom().contains(k)
            && final(m)@[k] == old(m)@[k],
        r is Err ==> final(m)@ == old(m)@,
        resource.uri@.len() == 0 ==> r->Err_0.faults_argument("Resource URI cannot be empty"@),
        resource.uri@.len() > 0 && resource.name@.len() == 0 ==> r->Err_0.faults_argument(
            "Resource name cannot be empty"@,
        ),
        r is Err && resource.uri@.len() > 0 && resource.name@.len() > 0 ==> r->Err_0.faults_state(
            "Resource '"@ + resource.uri@ + "' already exists"@,
        ),
{
}

/// A resource that is there can be removed by its address; the others stay.
pub proof fn resource_is_removed<H>(
    m: &mut ResourceManager<H>,
    uri: &str,
    r: Result<(), McpError>,
    k: Seq<char>,
)
    requires
        call_ensures(ResourceManager::<H>::remove_resource, (m, uri), r),
    ensures
        final(m).forms() == old(m).forms() && final(m).may_overwrite() == old(m).may_overwrite()
            && final(m).size() == old(m).size(),
        r is Ok <==> uri@.len() > 0 && old(m)@.dom().contains(uri@),
        r is Ok ==> !final(m)@.dom().contains(uri@),
        k != uri@ ==> final(m)@.dom().contains(k) == old(m)@.dom().contains(k) && final(m)@[k]
            == old(m)@[k],
        r is Err ==> final(m)@ == old(m)@,
        uri@.len() == 0 ==> r->Err_0.faults_argument("Resource URI cannot be empty"@),
        uri@.len() > 0 && r is Err ==> r->Err_0.faults_state(
            "Resource '"@ + uri@ + "' not found"@,
        ),
{
    assert(r is Err ==> !(uri@.len() > 0 && old(m)@.dom().contains(uri@)));
}

/// A template is added under a form of address that is free, or may be given again, where
/// neither the form nor the name is empty.
pub proof fn template_is_added<H>(
    m: &mut ResourceManager<H>,
    t: ResourceTemplate,
    r: Result<(), McpError>,
    k: Seq<char>,
)
    requires
        call_ensures(ResourceManager::<H>::add_resource_template, (m, t), r),
    ensures
        final(m)@ == old(m)@ && final(m).may_overwrite() == old(m).may_overwrite() && final(m).size() == old(m).size(),
        r is Ok <==> t.uri_template@.len() > 0 && t.name@.len() > 0 && (!old(m).forms().dom().contains(t.uri_template@) || old(m).may_overwrite()),
        r is Ok ==> final(m).forms().dom().contains(t.uri_template@) && final(m).forms()[t.uri_template@] == t,
        r is Ok && k != t.uri_template@ ==> final(m).forms().dom().contains(k) == old(m).forms().dom().contains(k) && final(m).forms()[k] == old(m).forms()[k],
        r is Err ==> final(m).forms() == old(m).forms(),
        t.uri_template@.len() == 0 ==> r->Err_0.faults_argument(
            "Resource template URI cannot be empty"@,
        ),
        t.uri_template@.len() > 0 && t.name@.len() == 0 ==> r->Err_0.faults_argument(
            "Resource template name cannot be empty"@,
        ),
        r is Err && t.uri_template@.len() > 0 && t.name@.len() > 0 ==> r->Err_0.faults_state(
            "Resource template '"@ + t.uri_template@ + "' already exists"@,
        ),
{
}

/// A template that is there can be removed by its form of address; the others stay.
pub proof fn template_is_removed<H>(
    m: &mut ResourceManager<H>,
    form: &str,
    r: Result<(), McpError>,
    k: Seq<char>,
)
    requires
        call_ensures(ResourceManager::<H>::remove_resource_template, (m, form), r),
    ensures
        final(m)@ == old(m)@ && final(m).may_overwrite() == old(m).may_overwrite() && final(m).size() == old(m).size(),
        r is Ok <==> form@.len() > 0 && old(m).forms().dom().contains(form@),
        r is Ok ==> !final(m).forms().dom().contains(form@),
        k != form@ ==> final(m).forms().dom().contains(k) == old(m).forms().dom().contains(k)
            && final(m).forms()[k] == old(m).forms()[k],
        r is Err ==> final(m).forms() == old(m).forms(),
        form@.len() == 0 ==> r->Err_0.faults_argument("Resource template URI cannot be empty"@),
        form@.len() > 0 && r is Err ==> r->Err_0.faults_state(
            "Resource template '"@ + form@ + "' not found"@,
        ),
{
    assert(r is Err ==> !(form@.len() > 0 && old(m).forms().dom().contains(form@)));
}

/// A resource is read, followed and no longer followed only where it is there.
pub proof fn resource_is_found<H>(
    m: ResourceManager<H>,
    uri: &str,
    read: Result<&H, McpError>,
    on: Result<(), McpError>,
    off: Result<(), McpError>,
    n: usize,
    none: bool,
)
    requires
        call_ensures(ResourceManager::<H>::read_resource, (&m, uri), read),
        call_ensures(ResourceManager::<H>::subscribe_resource, (&m, uri), on),
        call_ensures(ResourceManager::<H>::unsubscribe_resource, (&m, uri), off),
        call_ensures(ResourceManager::<H>::len, (&m,), n),
        call_ensures(ResourceManager::<H>::is_empty, (&m,), none),
    ensures
        read is Ok <==> m@.dom().contains(uri@),
        on is Ok <==> m@.dom().contains(uri@),
        off is Ok <==> m@.dom().contains(uri@),
        read is Ok ==> *read->Ok_0 == m@[uri@].handler,
        read is Err ==> read->Err_0.faults_state("Resource not found:"@ + uri@),
        on is Err ==> on->Err_0.faults_state("Resource not found:"@ + uri@),
        off is Err ==> off->Err_0.faults_state("Resource not found:"@ + uri@),
        n == m@.dom().len() && (none <==> n == 0),
{
}

/// The templates are listed all at once, in the order of their forms.
pub proof fn templates_listed<H>(m: ResourceManager<H>, list: ListResourceTemplatesResult, i: int)
    requires
        call_ensures(ResourceManager::<H>::list_resource_templates, (&m,), list),
    ensures
        string_map::increasing(m.form_order()) && m.form_order().to_set() == m.forms().dom(),
        list.resource_templates@.len() == m.form_order().len(),
        0 <= i < m.form_order().len() ==> list.resource_templates@[i].wire()
            == m.forms()[m.form_order()[i]].wire(),
        list.next_cursor is None && list.meta is None,
{
}

/// A store of resources starts empty, and lets addresses be given again and pages by fifty unless
/// it is told otherwise.
pub proof fn resources_kept<H>(
    overwrite: bool,
    size: usize,
    a: ResourceManager<H>,
    b: ResourceManager<H>,
    w: &mut ResourceManager<H>,
)
    requires
        call_ensures(ResourceManager::<H>::new, (overwrite, size), a),
        call_ensures(<ResourceManager<H> as Default>::default, (), b),
        call_ensures(ResourceManager::<H>::set_page_size, (w, size), ()),
    ensures
        a@.dom() == Set::<Seq<char>>::empty() && a.forms().dom() == Set::<Seq<char>>::empty(),
        a.may_overwrite() == overwrite && a.size() == size,
        b@.dom() == Set::<Seq<char>>::empty() && b.forms().dom() == Set::<Seq<char>>::empty(),
        b.may_overwrite() && b.size() == 50,
        final(w)@ == old(w)@ && final(w).forms() == old(w).forms() && final(w).size() == size
            && final(w).may_overwrite() == old(w).may_overwrite(),
{
}

/// What a handler gives is the answer; what it fails with is told, with the number of bad
/// parameters for prompts and resources and that of a server error for the others.
pub proof fn outcomes_answered(
    p: Result<GetPromptResult, McpError>,
    s: Result<ReadResourceResult, McpError>,
    l: Result<(), McpError>,
    c: Result<CompleteResult, McpError>,
    rp: Result<Json, crate::RpcError>,
    rs: Result<Json, crate::RpcError>,
    rl: Result<Json, crate::RpcError>,
    rc: Result<Json, crate::RpcError>,
)
    requires
        call_ensures(dispatch::answer_prompt, (p,), rp),
        call_ensures(dispatch::answer_resource, (s,), rs),
        call_ensures(dispatch::answer_level, (l,), rl),
        call_ensures(dispatch::answer_completion, (c,), rc),
    ensures
        p is Ok ==> rp is Ok && rp->Ok_0@ == p->Ok_0.wire(),
        p is Err ==> rp is Err && rp->Err_0.code == -32602 && rp->Err_0.message@ == p->Err_0.told()
            && rp->Err_0.data is None,
        s is Ok ==> rs is Ok && rs->Ok_0@ == s->Ok_0.wire(),
        s is Err ==> rs is Err && rs->Err_0.code == -32602 && rs->Err_0.message@ == s->Err_0.told()
            && rs->Err_0.data is None,
        l is Ok ==> rl is Ok && rl->Ok_0@ == JsonView::Object(seq![]),
        l is Err ==> rl is Err && rl->Err_0.code == -32000 && rl->Err_0.message@ == l->Err_0.told()
            && rl->Err_0.data is None,
        c is Ok ==> rc is Ok && rc->Ok_0@ == c->Ok_0.wire(),
        c is Err ==> rc is Err && rc->Err_0.code == -32000 && rc->Err_0.message@
            == "Complete handler error: "@ + c->Err_0.told() && rc->Err_0.data is None,
{
}

/// The result of a tool is the answer, a failure of it too, unless it does not fulfil the output
/// schema, which is told with the number of bad parameters.
pub proof fn tool_outcome_answered(
    output: &Option<Json>,
    name: &str,
    outcome: Result<CallToolResult, McpError>,
    r: Result<Json, crate::RpcError>,
)
    requires
        call_ensures(dispatch::answer_tool, (output, name, outcome), r),
    ensures
        outcome is Err ==> r is Ok && r->Ok_0@ == dispatch::failure_form(outcome->Err_0.told()),
        outcome is Ok && tool_manager::output_fault(*output, name@, outcome->Ok_0) is None ==> r is Ok
            && r->Ok_0@ == outcome->Ok_0.wire(),
        outcome is Ok && tool_manager::output_fault(*output, name@, outcome->Ok_0) is Some
            ==> r is Err && r->Err_0.code == -32602 && r->Err_0.message@
            == tool_manager::output_fault(*output, name@, outcome->Ok_0)->0 && r->Err_0.data is None,
{
}

/// A server starts with nothing to offer, lets names be given again and pages as it was told.
pub proof fn server_offers_nothing_at_first<H: Handlers>(t: usize, u: usize, s: ServerInner<H>)
    requires
        call_ensures(ServerInner::<H>::new, (t, u), s),
    ensures
        s.tools@.dom() == Set::<Seq<char>>::empty(),
        s.prompts@.dom() == Set::<Seq<char>>::empty(),
        s.resources@.dom() == Set::<Seq<char>>::empty(),
        s.resources.forms().dom() == Set::<Seq<char>>::empty(),
        s.tools.may_overwrite() && s.prompts.may_overwrite() && s.resources.may_overwrite(),
        s.tools.size() == t && s.resources.size() == u,
        s.set_level_handler is None && s.complete_handler is None,
{
}

/// A handler sees the session that the request came in on, and the token by which progress is to
/// be told.
pub proof fn context_tells<S>(
    session: S,
    meta: Option<RequestParamsMeta>,
    c: ServerContext<S>,
    t: Option<ProgressToken>,
)
    requires
        call_ensures(ServerContext::<S>::new, (session, meta), c),
        call_ensures(ServerContext::<S>::progress_token, (&c,), t),
    ensures
        c.session == session && c.meta == meta,
        meta is None ==> t is None,
        meta is Some ==> wire::opt(t) == wire::opt(meta->0.progress_token),
{
}

/// What is said of a tool, a prompt, a resource or a template beside its name is nothing unless
/// it is given.
pub proof fn nothing_said_unless_given(
    t: AddToolOptionalParams,
    p: AddPromptOptionalParams,
    r: AddResourceOptionalParams,
    f: AddResourceTemplateOptionalParams,
)
    requires
        call_ensures(<AddToolOptionalParams as Default>::default, (), t),
        call_ensures(<AddPromptOptionalParams as Default>::default, (), p),
        call_ensures(<AddResourceOptionalParams as Default>::default, (), r),
        call_ensures(<AddResourceTemplateOptionalParams as Default>::default, (), f),
    ensures
        t.title is None && t.description is None && t.input_schema is None && t.output_schema is None
            && !t.structured_output && t.annotations is None && t.icons is None,
        p.description is None && p.title is None && p.icons is None && p.arguments is None,
        r.title is None && r.description is None && r.mime_type is None && r.size is None
            && r.icons is None && r.annotations is None,
        f.title is None && f.description is None && f.mime_type is None && f.icons is None
            && f.annotations is None,
{
}

} // verus!
