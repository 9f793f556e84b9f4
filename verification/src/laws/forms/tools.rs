//! How tools are written and read.
use vstd::prelude::*;

use crate::json::{Json, JsonView};
use crate::laws::forms;
use crate::types::content::Icon;
use crate::types::tools::{CallToolResult, ListToolsResult, Tool, ToolAnnotations};
use crate::wire;
use crate::wire::{MetaMap, Wire};

verus! {

proof fn tool_annotations_names()
    ensures
        "title"@.len() == 5,
        "readOnlyHint"@.len() == 12,
        "destructiveHint"@.len() == 15,
        "idempotentHint"@.len() == 14,
        "openWorldHint"@.len() == 13,
{
    reveal_strlit("title");
    reveal_strlit("readOnlyHint");
    reveal_strlit("destructiveHint");
    reveal_strlit("idempotentHint");
    reveal_strlit("openWorldHint");
}

/// A `ToolAnnotations` is written with each of its parts under its own name, and with nothing else.
pub proof fn tool_annotations_written(x: ToolAnnotations)
    ensures
        x.wire() is Object,
        x.wire().get("title"@) == wire::opt(x.title),
        x.wire().get("readOnlyHint"@) == wire::opt(x.read_only_hint),
        x.wire().get("destructiveHint"@) == wire::opt(x.destructive_hint),
        x.wire().get("idempotentHint"@) == wire::opt(x.idempotent_hint),
        x.wire().get("openWorldHint"@) == wire::opt(x.open_world_hint),
        forms::only_named(x.wire(), seq![
            "title"@,
            "readOnlyHint"@,
            "destructiveHint"@,
            "idempotentHint"@,
            "openWorldHint"@,
        ]),
{
    broadcast use crate::wire::group_lookup;

    tool_annotations_names();
    let names = seq![
        "title"@,
        "readOnlyHint"@,
        "destructiveHint"@,
        "idempotentHint"@,
        "openWorldHint"@,
    ];
    assert forall|k: Seq<char>| x.wire().get(k) is Some implies #[trigger] names.contains(k) by {
        if k != "title"@
            && k != "readOnlyHint"@
            && k != "destructiveHint"@
            && k != "idempotentHint"@
            && k != "openWorldHint"@ {
            assert(x.wire().get(k) is None);
        }
        assert(names[0] == "title"@);
        assert(names[1] == "readOnlyHint"@);
        assert(names[2] == "destructiveHint"@);
        assert(names[3] == "idempotentHint"@);
        assert(names[4] == "openWorldHint"@);
    }
}

/// A `ToolAnnotations` is read from an object exactly if each of its members can be read, and each part
/// is taken from the member of its name.
pub proof fn tool_annotations_read(j: JsonView)
    requires
        j is Object,
    ensures
        ToolAnnotations::canon(j) is Some <==> forms::fits_opt::<String>(j, "title"@)
            && forms::fits_opt::<bool>(j, "readOnlyHint"@)
            && forms::fits_opt::<bool>(j, "destructiveHint"@)
            && forms::fits_opt::<bool>(j, "idempotentHint"@)
            && forms::fits_opt::<bool>(j, "openWorldHint"@),
        ToolAnnotations::canon(j) matches Some(c) ==> {
            &&& forms::kept_opt::<String>(j, c, "title"@)
            &&& forms::kept_opt::<bool>(j, c, "readOnlyHint"@)
            &&& forms::kept_opt::<bool>(j, c, "destructiveHint"@)
            &&& forms::kept_opt::<bool>(j, c, "idempotentHint"@)
            &&& forms::kept_opt::<bool>(j, c, "openWorldHint"@)
        },
{
    broadcast use crate::wire::group_lookup;

    tool_annotations_names();
}

/// A `ToolAnnotations` is read from an array as from the object that names the items in turn.
pub proof fn tool_annotations_by_place(a: Seq<JsonView>)
    ensures
        ToolAnnotations::canon(JsonView::Array(a)) == if a.len() <= 5 {
            ToolAnnotations::canon(forms::by_place(seq![
                "title"@,
                "readOnlyHint"@,
                "destructiveHint"@,
                "idempotentHint"@,
                "openWorldHint"@,
            ], a))
        } else {
            None
        },
{
    tool_annotations_names();
    let names = seq![
        "title"@,
        "readOnlyHint"@,
        "destructiveHint"@,
        "idempotentHint"@,
        "openWorldHint"@,
    ];
    assert(names[0] == "title"@);
    assert(names[1] == "readOnlyHint"@);
    assert(names[2] == "destructiveHint"@);
    assert(names[3] == "idempotentHint"@);
    assert(names[4] == "openWorldHint"@);
    if a.len() <= 5 {
        forms::found_by_place(names, a, 0);
        forms::found_by_place(names, a, 1);
        forms::found_by_place(names, a, 2);
        forms::found_by_place(names, a, 3);
        forms::found_by_place(names, a, 4);
    }
}

proof fn tool_names()
    ensures
        "name"@.len() == 4,
        "title"@.len() == 5,
        "description"@.len() == 11,
        "inputSchema"@.len() == 11,
        "outputSchema"@.len() == 12,
        "annotations"@.len() == 11,
        "icons"@.len() == 5,
        "title"@[0] != "icons"@[0],
        "description"@[0] != "inputSchema"@[0],
        "description"@[0] != "annotations"@[0],
        "inputSchema"@[0] != "annotations"@[0],
{
    reveal_strlit("name");
    reveal_strlit("title");
    reveal_strlit("description");
    reveal_strlit("inputSchema");
    reveal_strlit("outputSchema");
    reveal_strlit("annotations");
    reveal_strlit("icons");
}

/// A `Tool` is written with each of its parts under its own name, and with nothing else.
pub proof fn tool_written(x: Tool)
    ensures
        x.wire() is Object,
        x.wire().get("name"@) == Some(x.name.wire()),
        x.wire().get("title"@) == wire::opt(x.title),
        x.wire().get("description"@) == wire::opt(x.description),
        x.wire().get("inputSchema"@) == wire::opt(x.input_schema),
        x.wire().get("outputSchema"@) == wire::opt(x.output_schema),
        x.wire().get("annotations"@) == wire::opt(x.annotations),
        x.wire().get("icons"@) == wire::opt(x.icons),
        forms::only_named(x.wire(), seq![
            "name"@,
            "title"@,
            "description"@,
            "inputSchema"@,
            "outputSchema"@,
            "annotations"@,
            "icons"@,
        ]),
{
    broadcast use crate::wire::group_lookup;

    tool_names();
    let names = seq![
        "name"@,
        "title"@,
        "description"@,
        "inputSchema"@,
        "outputSchema"@,
        "annotations"@,
        "icons"@,
    ];
    assert forall|k: Seq<char>| x.wire().get(k) is Some implies #[trigger] names.contains(k) by {
        if k != "name"@
            && k != "title"@
            && k != "description"@
            && k != "inputSchema"@
            && k != "outputSchema"@
            && k != "annotations"@
            && k != "icons"@ {
            assert(x.wire().get(k) is None);
        }
        assert(names[0] == "name"@);
        assert(names[1] == "title"@);
        assert(names[2] == "description"@);
        assert(names[3] == "inputSchema"@);
        assert(names[4] == "outputSchema"@);
        assert(names[5] == "annotations"@);
        assert(names[6] == "icons"@);
    }
}

/// A `Tool` is read from an object exactly if each of its members can be read, and each part
/// is taken from the member of its name.
pub proof fn tool_read(j: JsonView)
    requires
        j is Object,
    ensures
        Tool::canon(j) is Some <==> forms::fits::<String>(j, "name"@)
            && forms::fits_opt::<String>(j, "title"@)
            && forms::fits_opt::<String>(j, "description"@)
            && forms::fits_opt::<Json>(j, "inputSchema"@)
            && forms::fits_opt::<Json>(j, "outputSchema"@)
            && forms::fits_opt::<ToolAnnotations>(j, "annotations"@)
            && forms::fits_opt::<Vec<Icon>>(j, "icons"@),
        Tool::canon(j) matches Some(c) ==> {
            &&& forms::kept::<String>(j, c, "name"@)
            &&& forms::kept_opt::<String>(j, c, "title"@)
            &&& forms::kept_opt::<String>(j, c, "description"@)
            &&& forms::kept_opt::<Json>(j, c, "inputSchema"@)
            &&& forms::kept_opt::<Json>(j, c, "outputSchema"@)
            &&& forms::kept_opt::<ToolAnnotations>(j, c, "annotations"@)
            &&& forms::kept_opt::<Vec<Icon>>(j, c, "icons"@)
        },
{
    broadcast use crate::wire::group_lookup;

    tool_names();
}

/// A `Tool` is read from an array as from the object that names the items in turn.
pub proof fn tool_by_place(a: Seq<JsonView>)
    ensures
        Tool::canon(JsonView::Array(a)) == if a.len() <= 7 {
            Tool::canon(forms::by_place(seq![
                "name"@,
                "title"@,
                "description"@,
                "inputSchema"@,
                "outputSchema"@,
                "annotations"@,
                "icons"@,
            ], a))
        } else {
            None
        },
{
    tool_names();
    let names = seq![
        "name"@,
        "title"@,
        "description"@,
        "inputSchema"@,
        "outputSchema"@,
        "annotations"@,
        "icons"@,
    ];
    assert(names[0] == "name"@);
    assert(names[1] == "title"@);
    assert(names[2] == "description"@);
    assert(names[3] == "inputSchema"@);
    assert(names[4] == "outputSchema"@);
    assert(names[5] == "annotations"@);
    assert(names[6] == "icons"@);
    if a.len() <= 7 {
        forms::found_by_place(names, a, 0);
        forms::found_by_place(names, a, 1);
        forms::found_by_place(names, a, 2);
        forms::found_by_place(names, a, 3);
        forms::found_by_place(names, a, 4);
        forms::found_by_place(names, a, 5);
        forms::found_by_place(names, a, 6);
    }
}

proof fn call_tool_result_names()
    ensures
        "content"@.len() == 7,
        "structuredContent"@.len() == 17,
        "isError"@.len() == 7,
        "_meta"@.len() == 5,
        "content"@[0] != "isError"@[0],
{
    reveal_strlit("content");
    reveal_strlit("structuredContent");
    reveal_strlit("isError");
    reveal_strlit("_meta");
}

/// A `CallToolResult` is written with each of its parts under its own name, and with nothing else.
pub proof fn call_tool_result_written(x: CallToolResult)
    ensures
        x.wire() is Object,
        x.wire().get("content"@) == Some(x.content.wire()),
        x.wire().get("structuredContent"@) == wire::opt(x.structured_content),
        x.wire().get("isError"@) == Some(x.is_error.wire()),
        x.wire().get("_meta"@) == wire::opt(x.meta),
        forms::only_named(x.wire(), seq!["content"@, "structuredContent"@, "isError"@, "_meta"@]),
{
    broadcast use crate::wire::group_lookup;

    call_tool_result_names();
    let names = seq!["content"@, "structuredContent"@, "isError"@, "_meta"@];
    assert forall|k: Seq<char>| x.wire().get(k) is Some implies #[trigger] names.contains(k) by {
        if k != "content"@ && k != "structuredContent"@ && k != "isError"@ && k != "_meta"@ {
            assert(x.wire().get(k) is None);
        }
        assert(names[0] == "content"@);
        assert(names[1] == "structuredContent"@);
        assert(names[2] == "isError"@);
        assert(names[3] == "_meta"@);
    }
}

proof fn list_tools_result_names()
    ensures
        "tools"@.len() == 5,
        "nextCursor"@.len() == 10,
        "_meta"@.len() == 5,
        "tools"@[0] != "_meta"@[0],
{
    reveal_strlit("tools");
    reveal_strlit("nextCursor");
    reveal_strlit("_meta");
}

/// A `ListToolsResult` is written with each of its parts under its own name, and with nothing else.
pub proof fn list_tools_result_written(x: ListToolsResult)
    ensures
        x.wire() is Object,
        x.wire().get("tools"@) == Some(x.tools.wire()),
        x.wire().get("nextCursor"@) == wire::opt(x.next_cursor),
        x.wire().get("_meta"@) == wire::opt(x.meta),
        forms::only_named(x.wire(), seq!["tools"@, "nextCursor"@, "_meta"@]),
{
    broadcast use crate::wire::group_lookup;

    list_tools_result_names();
    let names = seq!["tools"@, "nextCursor"@, "_meta"@];
    assert forall|k: Seq<char>| x.wire().get(k) is Some implies #[trigger] names.contains(k) by {
        if k != "tools"@ && k != "nextCursor"@ && k != "_meta"@ {
            assert(x.wire().get(k) is None);
        }
        assert(names[0] == "tools"@);
        assert(names[1] == "nextCursor"@);
        assert(names[2] == "_meta"@);
    }
}

/// A `ListToolsResult` is read from an object exactly if each of its members can be read, and each part
/// is taken from the member of its name.
pub proof fn list_tools_result_read(j: JsonView)
    requires
        j is Object,
    ensures
        ListToolsResult::canon(j) is Some <==> forms::fits_opt_not_null::<Vec<Tool>>(j, "tools"@)
            && forms::fits_opt::<String>(j, "nextCursor"@)
            && forms::fits_opt::<MetaMap>(j, "_meta"@),
        ListToolsResult::canon(j) matches Some(c) ==> {
            &&& forms::kept_or::<Vec<Tool>>(j, c, "tools"@, JsonView::Array(seq![]))
            &&& forms::kept_opt::<String>(j, c, "nextCursor"@)
            &&& forms::kept_opt::<MetaMap>(j, c, "_meta"@)
        },
{
    broadcast use crate::wire::group_lookup;

    list_tools_result_names();
}

/// A `ListToolsResult` is read from an array as from the object that names the items in turn.
pub proof fn list_tools_result_by_place(a: Seq<JsonView>)
    ensures
        ListToolsResult::canon(JsonView::Array(a)) == if a.len() <= 3 {
            ListToolsResult::canon(forms::by_place(seq!["tools"@, "nextCursor"@, "_meta"@], a))
        } else {
            None
        },
{
    list_tools_result_names();
    let names = seq!["tools"@, "nextCursor"@, "_meta"@];
    assert(names[0] == "tools"@);
    assert(names[1] == "nextCursor"@);
    assert(names[2] == "_meta"@);
    if a.len() <= 3 {
        forms::found_by_place(names, a, 0);
        forms::found_by_place(names, a, 1);
        forms::found_by_place(names, a, 2);
    }
}

} // verus!
