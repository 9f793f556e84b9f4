//! The tools of a server.
use vstd::prelude::*;

use crate::error::McpError;
use crate::json::{Json, JsonView};
use crate::schema;
use crate::server::paging;
use crate::string_map;
use crate::string_map::StringMap;
use crate::text;
use crate::types::config::DEFAULT_TOOLS_PAGE_SIZE;
use crate::types::content::Icon;
use crate::types::tools::{CallToolResult, ListToolsResult, Tool, ToolAnnotations};
use crate::wire;
use crate::wire::Wire;

verus! {

/// A tool of a server. `H` is what runs when it is called.
#[derive(Clone)]
pub struct ServerTool<H> {
    pub name: String,
    pub handler: H,
    pub title: Option<String>,
    pub description: Option<String>,
    /// What arguments must meet before the tool runs.
    pub input_schema: Option<Json>,
    /// What the structured content of a result must meet after it ran.
    pub output_schema: Option<Json>,
    /// Not looked at.
    pub structured_output: bool,
    pub annotations: Option<ToolAnnotations>,
    pub icons: Option<Vec<Icon>>,
}

impl<H> ServerTool<H> {
    /// A tool of which only the name is said.
    pub fn new(name: String, handler: H) -> (r: Self)
        ensures
            r.name == name,
            r.handler == handler,
            r.title is None,
            r.description is None,
            r.input_schema is None,
            r.output_schema is None,
            !r.structured_output,
            r.annotations is None,
            r.icons is None,
    {
        ServerTool {
            name,
            handler,
            title: None,
            description: None,
            input_schema: None,
            output_schema: None,
            structured_output: false,
            annotations: None,
            icons: None,
        }
    }

    /// A listed tool is this one.
    pub open spec fn described_by(&self, t: Tool) -> bool {
        &&& t.name@ == self.name@
        &&& wire::opt(t.title) == wire::opt(self.title)
        &&& wire::opt(t.description) == wire::opt(self.description)
        &&& wire::opt(t.input_schema) == wire::opt(self.input_schema)
        &&& wire::opt(t.output_schema) == wire::opt(self.output_schema)
        &&& wire::opt(t.annotations) == wire::opt(self.annotations)
        &&& wire::opt(t.icons) == wire::opt(self.icons)
    }

    /// The form in which the tool is listed.
    pub open spec fn listed(&self) -> JsonView {
        let o = wire::with(wire::none(), "name"@, JsonView::String(self.name@));
        let o = wire::with_opt(o, "title"@, wire::opt(self.title));
        let o = wire::with_opt(o, "description"@, wire::opt(self.description));
        let o = wire::with_opt(o, "inputSchema"@, wire::opt(self.input_schema));
        let o = wire::with_opt(o, "outputSchema"@, wire::opt(self.output_schema));
        let o = wire::with_opt(o, "annotations"@, wire::opt(self.annotations));
        JsonView::Object(wire::with_opt(o, "icons"@, wire::opt(self.icons)))
    }

    /// A listed tool has the form of this one.
    pub proof fn form_of_listed(&self, t: Tool)
        requires
            self.described_by(t),
        ensures
            t.wire() == self.listed(),
    {
    }

    /// The tool, as it is listed.
    pub fn to_tool(&self) -> (r: Tool)
        ensures
            self.described_by(r),
    {
        Tool {
            name: self.name.clone(),
            title: wire::duplicate_opt(&self.title),
            description: wire::duplicate_opt(&self.description),
            input_schema: wire::duplicate_opt(&self.input_schema),
            output_schema: wire::duplicate_opt(&self.output_schema),
            annotations: wire::duplicate_opt(&self.annotations),
            icons: wire::duplicate_opt(&self.icons),
        }
    }
}

/// The tools of a server, by their names.
pub struct ToolManager<H> {
    overwrite: bool,
    tools: StringMap<ServerTool<H>>,
    page_size: usize,
}

/// Why a call of a tool is refused before the tool runs, if it is.
pub open spec fn call_refused<H>(
    tools: Map<Seq<char>, ServerTool<H>>,
    name: Seq<char>,
    arguments: JsonView,
) -> Option<Seq<char>> {
    if !tools.dom().contains(name) {
        Some("Tool not found: "@ + name)
    } else {
        match tools[name].input_schema {
            Some(s) => match schema::fault(s@, arguments, ""@) {
                Some(f) => Some("Input validation failed for tool '"@ + name + "': "@ + f),
                None => None,
            },
            None => None,
        }
    }
}

/// What is wrong with the output of a tool, if anything is: where there is a schema
/// for it, structured content of a success must be an object that meets it.
pub open spec fn output_fault(
    output_schema: Option<Json>,
    name: Seq<char>,
    result: CallToolResult,
) -> Option<Seq<char>> {
    let head = "Output validation failed for tool '"@ + name + "': "@;
    match (output_schema, result.structured_content) {
        (Some(s), Some(c)) => if result.is_error {
            None
        } else if !(c@ is Object) {
            Some(head + "structuredContent must be a JSON object for tool '"@ + name + "'"@)
        } else {
            match schema::fault(s@, c@, ""@) {
                Some(f) => Some(head + f),
                None => None,
            }
        },
        _ => None,
    }
}

/// The result of a call that a tool's failure makes.
pub open spec fn failure_result(r: CallToolResult, e: McpError) -> bool {
    r.is_error && r.holds_text(e.told()) && r.structured_content is None && r.meta is None
}

impl<H> ToolManager<H> {
    /// The tools.
    pub closed spec fn view(&self) -> Map<Seq<char>, ServerTool<H>> {
        self.tools@
    }

    /// The names, in increasing order.
    pub closed spec fn order(&self) -> Seq<Seq<char>> {
        self.tools.order()
    }

    /// Whether a tool may take the place of another of its name.
    pub closed spec fn may_overwrite(&self) -> bool {
        self.overwrite
    }

    /// How many tools a page holds.
    pub closed spec fn size(&self) -> usize {
        self.page_size
    }

    /// No tools yet.
    pub fn new(overwrite: bool, page_size: usize) -> (r: Self)
        ensures
            r@ == Map::<Seq<char>, ServerTool<H>>::empty(),
            r.may_overwrite() == overwrite,
            r.size() == page_size,
    {
        ToolManager { overwrite, tools: StringMap::new(), page_size }
    }

    /// Sets whether a tool may take the place of another.
    pub fn set_overwrite(&mut self, overwrite: bool)
        ensures
            final(self)@ == old(self)@,
            final(self).may_overwrite() == overwrite,
            final(self).size() == old(self).size(),
    {
        self.overwrite = overwrite;
    }

    /// Whether a tool may take the place of another.
    pub fn overwrite(&self) -> (r: bool)
        ensures
            r == self.may_overwrite(),
    {
        self.overwrite
    }

    /// Sets how many tools a page holds.
    pub fn set_page_size(&mut self, page_size: usize)
        ensures
            final(self)@ == old(self)@,
            final(self).may_overwrite() == old(self).may_overwrite(),
            final(self).size() == page_size,
    {
        self.page_size = page_size;
    }

    /// How many tools there are.
    pub fn len(&self) -> (r: usize)
        ensures
            r == self@.dom().len(),
            self@.dom().finite(),
            r == self.order().len(),
            string_map::increasing(self.order()),
            self.order().to_set() == self@.dom(),
    {
        self.tools.len()
    }

    /// Tells whether there are no tools.
    pub fn is_empty(&self) -> (r: bool)
        ensures
            r == (self@.dom().len() == 0),
            self@.dom().finite(),
    {
        self.tools.is_empty()
    }

    /// The tool of a name.
    pub fn get(&self, name: &str) -> (r: Option<&ServerTool<H>>)
        ensures
            match r {
                Some(t) => self@.dom().contains(name@) && *t == self@[name@],
                None => !self@.dom().contains(name@),
            },
    {
        self.tools.get(name)
    }

    /// Adds a tool.
    pub fn add_tool(&mut self, tool: ServerTool<H>) -> (r: Result<(), McpError>)
        ensures
            final(self).may_overwrite() == old(self).may_overwrite(),
            final(self).size() == old(self).size(),
            r is Err <==> old(self)@.dom().contains(tool.name@) && !old(self).may_overwrite(),
            match r {
                Ok(()) => final(self)@ == old(self)@.insert(tool.name@, tool),
                Err(e) => final(self)@ == old(self)@ && e.faults_state(
                    "Tool '"@ + tool.name@ + "' already exists"@,
                ),
            },
    {
        if !self.overwrite && self.tools.contains_key(tool.name.as_str()) {
            return Err(
                McpError::state(text::cat3("Tool '", tool.name.as_str(), "' already exists")),
            );
        }
        let name = tool.name.clone();
        let _ = self.tools.insert(name, tool);
        Ok(())
    }

    /// Takes out a tool.
    pub fn remove_tool(&mut self, name: &str) -> (r: Result<(), McpError>)
        ensures
            final(self).may_overwrite() == old(self).may_overwrite(),
            final(self).size() == old(self).size(),
            final(self)@ == if r is Ok {
                old(self)@.remove(name@)
            } else {
                old(self)@
            },
            match r {
                Ok(()) => name@.len() > 0 && old(self)@.dom().contains(name@),
                Err(e) => if name@.len() == 0 {
                    e.faults_argument("Tool name cannot be empty"@)
                } else {
                    !old(self)@.dom().contains(name@) && e.faults_state(
                        "Tool '"@ + name@ + "' not found"@,
                    )
                },
            },
    {
        if name.is_empty() {
            return Err(McpError::argument("Tool name cannot be empty".to_owned()));
        }
        match self.tools.remove(name) {
            Some(_) => Ok(()),
            None => {
                assert(old(self)@.remove(name@) =~= old(self)@);
                Err(McpError::state(text::cat3("Tool '", name, "' not found")))
            },
        }
    }

    /// A result lists the page of the tools that belongs to a cursor.
    pub open spec fn shows(&self, cursor: Option<Seq<char>>, r: ListToolsResult) -> bool {
        let len = self.order().len() as int;
        let start = paging::page_start(cursor, len);
        let end = paging::page_end(start, self.size() as int, len);
        &&& string_map::increasing(self.order())
        &&& self.order().to_set() == self@.dom()
        &&& r.tools@.len() == end - start
        &&& forall|i: int|
            0 <= i < r.tools@.len() ==> self@[self.order()[start + i]].described_by(
                #[trigger] r.tools@[i],
            )
        &&& wire::opt(r.next_cursor) == match paging::next_cursor(end, len) {
            Some(c) => Some(JsonView::String(c)),
            None => None,
        }
        &&& r.meta is None
    }

    /// One page of the tools, in the order of their names.
    pub fn list_tools(&self, cursor: Option<&str>) -> (r: ListToolsResult)
        ensures
            self.shows(paging::cursor_text(cursor), r),
    {
        let len: usize = self.tools.len();
        let start: usize = paging::cursor_start(cursor, len);
        let end: usize = paging::cursor_end(start, self.page_size, len);
        let mut tools: Vec<Tool> = Vec::new();
        let mut i: usize = start;
        while i < end
            invariant
                start <= i <= end <= len,
                len == self.order().len(),
                tools@.len() == i - start,
                forall|k: int|
                    0 <= k < tools@.len() ==> self@[self.order()[start + k]].described_by(
                        #[trigger] tools@[k],
                    ),
            decreases end - i,
        {
            let t = self.tools.value_at(i).to_tool();
            tools.push(t);
            i = i + 1;
        }
        ListToolsResult { tools, next_cursor: paging::cursor_after(end, len), meta: None }
    }

    /// What is done of a call before the tool runs: the tool is found, and the
    /// arguments are held against its schema.
    pub fn prepare_call(&self, name: &str, arguments: &Json) -> (r: Result<
        &ServerTool<H>,
        McpError,
    >)
        ensures
            match r {
                Ok(t) => call_refused(self@, name@, arguments@) is None && self@.dom().contains(
                    name@,
                ) && *t == self@[name@],
                Err(e) => {
                    &&& call_refused(self@, name@, arguments@) == Some(e.told())
                    &&& if self@.dom().contains(name@) {
                        e is Validation
                    } else {
                        e is InvalidState
                    }
                },
            },
    {
        let tool = match self.tools.get(name) {
            Some(t) => t,
            None => {
                return Err(McpError::state(text::cat2("Tool not found: ", name)));
            },
        };
        match &tool.input_schema {
            Some(s) => match schema::validate(s, arguments) {
                Ok(()) => {},
                Err(f) => {
                    return Err(
                        McpError::Validation(
                            text::cat4(
                                "Input validation failed for tool '",
                                name,
                                "': ",
                                f.as_str(),
                            ),
                        ),
                    );
                },
            },
            None => {},
        }
        Ok(tool)
    }
}

/// What is done of a call after the tool ran: its failure becomes a result that
/// says so, and the output of a success is held against the tool's schema.
pub fn finish_call(
    output_schema: &Option<Json>,
    name: &str,
    outcome: Result<CallToolResult, McpError>,
) -> (r: Result<CallToolResult, McpError>)
    ensures
        match outcome {
            Err(e) => match r {
                Ok(x) => failure_result(x, e),
                Err(_) => false,
            },
            Ok(x) => match output_fault(*output_schema, name@, x) {
                None => r == Ok::<CallToolResult, McpError>(x),
                Some(f) => match r {
                    Ok(_) => false,
                    Err(e) => e is Validation && e.told() == f,
                },
            },
        },
{
    let result = match outcome {
        Ok(x) => x,
        Err(e) => {
            return Ok(CallToolResult::error(e.message()));
        },
    };
    match (output_schema, &result.structured_content) {
        (Some(s), Some(c)) => {
            if !result.is_error {
                let head = text::cat3("Output validation failed for tool '", name, "': ");
                if !c.is_object() {
                    let m = text::cat4(
                        head.as_str(),
                        "structuredContent must be a JSON object for tool '",
                        name,
                        "'",
                    );
                    return Err(McpError::Validation(m));
                }
                match schema::validate(s, c) {
                    Ok(()) => {},
                    Err(f) => {
                        return Err(McpError::Validation(text::cat2(head.as_str(), f.as_str())));
                    },
                }
            }
        },
        _ => {},
    }
    Ok(result)
}

impl<H> ToolManager<H> {
    /// A call from its start to its end, where the tool came to `outcome` when it ran.
    pub fn call_tool(
        &self,
        name: &str,
        arguments: &Json,
        outcome: Result<CallToolResult, McpError>,
    ) -> (r: Result<CallToolResult, McpError>)
        ensures
            match call_refused(self@, name@, arguments@) {
                Some(f) => {
                    &&& r is Err && r->Err_0.told() == f
                    &&& if self@.dom().contains(name@) {
                        r->Err_0 is Validation
                    } else {
                        r->Err_0 is InvalidState
                    }
                },
                None => match outcome {
                    Err(e) => r is Ok && failure_result(r->Ok_0, e),
                    Ok(x) => match output_fault(self@[name@].output_schema, name@, x) {
                        None => r == Ok::<CallToolResult, McpError>(x),
                        Some(f) => r is Err && r->Err_0 is Validation && r->Err_0.told() == f,
                    },
                },
            },
    {
        let tool = match self.prepare_call(name, arguments) {
            Ok(t) => t,
            Err(e) => {
                return Err(e);
            },
        };
        finish_call(&tool.output_schema, name, outcome)
    }
}

impl<H> Default for ToolManager<H> {
    fn default() -> (r: Self)
        ensures
            r@ == Map::<Seq<char>, ServerTool<H>>::empty(),
            r.may_overwrite(),
            r.size() == DEFAULT_TOOLS_PAGE_SIZE,
    {
        ToolManager::new(true, DEFAULT_TOOLS_PAGE_SIZE)
    }
}

/// A tool that was added is found, unless it was refused; the others stay, and taking
/// it out again leaves the others as they were.
pub proof fn added_tool_is_found<H>(
    before: Map<Seq<char>, ServerTool<H>>,
    tool: ServerTool<H>,
    other: Seq<char>,
)
    ensures
        before.insert(tool.name@, tool).dom().contains(tool.name@),
        before.insert(tool.name@, tool)[tool.name@] == tool,
        other != tool.name@ ==> (before.insert(tool.name@, tool).dom().contains(other)
            == before.dom().contains(other) && before.insert(tool.name@, tool)[other]
            == before[other]),
        !before.dom().contains(tool.name@) ==> before.insert(tool.name@, tool).remove(tool.name@)
            == before,
{
    if !before.dom().contains(tool.name@) {
        assert(before.insert(tool.name@, tool).remove(tool.name@) =~= before);
    }
}

/// Every tool stands under its own name.
pub open spec fn well_named<H>(tools: Map<Seq<char>, ServerTool<H>>) -> bool {
    forall|k: Seq<char>| #[trigger] tools.dom().contains(k) ==> tools[k].name@ == k
}

/// Tools stand under their own names from the start on, and adding one or taking one out
/// leaves it so.
pub proof fn names_stay<H>(
    tools: Map<Seq<char>, ServerTool<H>>,
    tool: ServerTool<H>,
    gone: Seq<char>,
)
    ensures
        well_named(Map::<Seq<char>, ServerTool<H>>::empty()),
        well_named(tools) ==> well_named(tools.insert(tool.name@, tool)),
        well_named(tools) ==> well_named(tools.remove(gone)),
{
}

/// The names on a page, and the cursor that it gives.
pub open spec fn page_of(r: ListToolsResult) -> (Seq<Seq<char>>, Option<Seq<char>>) {
    (
        Seq::new(r.tools@.len(), |i: int| r.tools@[i].name@),
        match r.next_cursor {
            Some(c) => Some(c@),
            None => None,
        },
    )
}

/// The names on each of several pages, and the cursor that it gives.
pub open spec fn pages_of(results: Seq<ListToolsResult>) -> Seq<
    (Seq<Seq<char>>, Option<Seq<char>>),
> {
    Seq::new(results.len(), |i: int| page_of(results[i]))
}

/// Whoever lists the tools first without a cursor, and then with the cursor of each page
/// until there is none, gets every tool exactly once, in strictly increasing order of the
/// names. Every page but the last is full, only the last gives no cursor, and the pages
/// come to an end.
pub proof fn pages_list_every_tool<H>(m: ToolManager<H>, results: Seq<ListToolsResult>)
    requires
        well_named(m@),
        m.size() > 0,
        paging::last_start(m.order().len() as int, m.size() as int) <= i64::MAX,
        results.len() > 0,
        forall|i: int|
            0 <= i < results.len() ==> m.shows(
                #[trigger] paging::cursor_for(pages_of(results), i),
                results[i],
            ),
        forall|i: int| 0 <= i < results.len() - 1 ==> (#[trigger] results[i]).next_cursor is Some,
    ensures
        forall|i: int|
            0 <= i < results.len() - 1 ==> (#[trigger] results[i]).tools@.len() == m.size(),
        results.last().tools@.len() <= m.size(),
        (results.len() - 1) * m.size() <= m.order().len(),
        forall|i: int, k: int|
            0 <= i < results.len() && 0 <= k < results[i].tools@.len() ==> m@.dom().contains(
                (#[trigger] results[i].tools@[k]).name@,
            ) && m@[results[i].tools@[k].name@].described_by(results[i].tools@[k]),
        results.last().next_cursor is None ==> {
            let names = paging::together(pages_of(results));
            &&& names == m.order()
            &&& string_map::increasing(names)
            &&& names.to_set() == m@.dom()
        },
{
    let pages = pages_of(results);
    let all = m.order();
    let len = all.len() as int;
    let size = m.size() as int;
    assert forall|i: int| 0 <= i < pages.len() implies pages[i] == paging::page(
        all,
        #[trigger] paging::cursor_for(pages, i),
        size,
    ) by {
        let c = paging::cursor_for(pages, i);
        let r = results[i];
        assert(m.shows(c, r));
        let start = paging::page_start(c, len);
        let end = paging::page_end(start, size, len);
        assert forall|k: int| 0 <= k < r.tools@.len() implies (#[trigger] r.tools@[k]).name@
            == all[start + k] by {
            assert(all.to_set().contains(all[start + k]));
        }
        assert(page_of(r).0 =~= all.subrange(start, end));
    }
    assert forall|i: int| 0 <= i < pages.len() - 1 implies (#[trigger] pages[i]).1 is Some by {
        assert(results[i].next_cursor is Some);
    }
    paging::pages_in_turn(all, size, pages);
    assert forall|i: int| 0 <= i < results.len() - 1 implies (
    #[trigger] results[i]).tools@.len() == m.size() by {
        assert(pages[i].0.len() == size);
    }
    assert(pages.last().0.len() == results.last().tools@.len());
    assert(m.shows(paging::cursor_for(pages, 0), results[0]));
    assert forall|i: int, k: int|
        0 <= i < results.len() && 0 <= k < results[i].tools@.len() implies m@.dom().contains(
        (#[trigger] results[i].tools@[k]).name@,
    ) && m@[results[i].tools@[k].name@].described_by(results[i].tools@[k]) by {
        let c = paging::cursor_for(pages, i);
        assert(m.shows(c, results[i]));
        let start = paging::page_start(c, len);
        assert(all.to_set().contains(all[start + k]));
    }
}

} // verus!
