//! How capabilities are written and read.
use vstd::prelude::*;

use crate::json::JsonView;
use crate::laws::forms;
use crate::types::capabilities::{ClientCapabilities, LoggingCapabilities, PromptsCapabilities, ResourcesCapabilities, ServerCapabilities, ToolsCapabilities};
use crate::wire;
use crate::wire::{MetaMap, Wire};

verus! {

/// A `LoggingCapabilities` is written with each of its parts under its own name, and with nothing else.
pub proof fn logging_capabilities_written(x: LoggingCapabilities)
    ensures
        x.wire() == JsonView::Object(seq![]),
{
    broadcast use crate::wire::group_lookup;

    assert(x.wire()->Object_0 =~= seq![]);
}

/// A `LoggingCapabilities` is read from an object and from an array without items, and from nothing else.
pub proof fn logging_capabilities_read(j: JsonView)
    ensures
        LoggingCapabilities::canon(j) is Some <==> j is Object || (j matches JsonView::Array(a) && a.len() == 0),
        LoggingCapabilities::canon(j) matches Some(c) ==> c == JsonView::Object(seq![]),
{
}

/// A `PromptsCapabilities` is written with each of its parts under its own name, and with nothing else.
pub proof fn prompts_capabilities_written(x: PromptsCapabilities)
    ensures
        x.wire() is Object,
        x.wire().get("listChanged"@) == wire::opt(x.list_changed),
        forms::only_named(x.wire(), seq!["listChanged"@]),
{
    broadcast use crate::wire::group_lookup;

    let names = seq!["listChanged"@];
    assert forall|k: Seq<char>| x.wire().get(k) is Some implies #[trigger] names.contains(k) by {
        if k != "listChanged"@ {
            assert(x.wire().get(k) is None);
        }
        assert(names[0] == "listChanged"@);
    }
}

/// A `PromptsCapabilities` is read from an object exactly if each of its members can be read, and each part
/// is taken from the member of its name.
pub proof fn prompts_capabilities_read(j: JsonView)
    requires
        j is Object,
    ensures
        PromptsCapabilities::canon(j) is Some <==> forms::fits_opt::<bool>(j, "listChanged"@),
        PromptsCapabilities::canon(j) matches Some(c) ==> {
            &&& forms::kept_opt::<bool>(j, c, "listChanged"@)
        },
{
    broadcast use crate::wire::group_lookup;

}

/// A `PromptsCapabilities` is read from an array as from the object that names the items in turn.
pub proof fn prompts_capabilities_by_place(a: Seq<JsonView>)
    ensures
        PromptsCapabilities::canon(JsonView::Array(a)) == if a.len() <= 1 {
            PromptsCapabilities::canon(forms::by_place(seq!["listChanged"@], a))
        } else {
            None
        },
{
    let names = seq!["listChanged"@];
    assert(names[0] == "listChanged"@);
    if a.len() <= 1 {
        forms::found_by_place(names, a, 0);
    }
}

proof fn resources_capabilities_names()
    ensures
        "subscribe"@.len() == 9,
        "listChanged"@.len() == 11,
{
    reveal_strlit("subscribe");
    reveal_strlit("listChanged");
}

/// A `ResourcesCapabilities` is written with each of its parts under its own name, and with nothing else.
pub proof fn resources_capabilities_written(x: ResourcesCapabilities)
    ensures
        x.wire() is Object,
        x.wire().get("subscribe"@) == wire::opt(x.subscribe),
        x.wire().get("listChanged"@) == wire::opt(x.list_changed),
        forms::only_named(x.wire(), seq!["subscribe"@, "listChanged"@]),
{
    broadcast use crate::wire::group_lookup;

    resources_capabilities_names();
    let names = seq!["subscribe"@, "listChanged"@];
    assert forall|k: Seq<char>| x.wire().get(k) is Some implies #[trigger] names.contains(k) by {
        if k != "subscribe"@ && k != "listChanged"@ {
            assert(x.wire().get(k) is None);
        }
        assert(names[0] == "subscribe"@);
        assert(names[1] == "listChanged"@);
    }
}

/// A `ResourcesCapabilities` is read from an object exactly if each of its members can be read, and each part
/// is taken from the member of its name.
pub proof fn resources_capabilities_read(j: JsonView)
    requires
        j is Object,
    ensures
        ResourcesCapabilities::canon(j) is Some <==> forms::fits_opt::<bool>(j, "subscribe"@)
            && forms::fits_opt::<bool>(j, "listChanged"@),
        ResourcesCapabilities::canon(j) matches Some(c) ==> {
            &&& forms::kept_opt::<bool>(j, c, "subscribe"@)
            &&& forms::kept_opt::<bool>(j, c, "listChanged"@)
        },
{
    broadcast use crate::wire::group_lookup;

    resources_capabilities_names();
}

/// A `ResourcesCapabilities` is read from an array as from the object that names the items in turn.
pub proof fn resources_capabilities_by_place(a: Seq<JsonView>)
    ensures
        ResourcesCapabilities::canon(JsonView::Array(a)) == if a.len() <= 2 {
            ResourcesCapabilities::canon(forms::by_place(seq!["subscribe"@, "listChanged"@], a))
        } else {
            None
        },
{
    resources_capabilities_names();
    let names = seq!["subscribe"@, "listChanged"@];
    assert(names[0] == "subscribe"@);
    assert(names[1] == "listChanged"@);
    if a.len() <= 2 {
        forms::found_by_place(names, a, 0);
        forms::found_by_place(names, a, 1);
    }
}

/// A `ToolsCapabilities` is written with each of its parts under its own name, and with nothing else.
pub proof fn tools_capabilities_written(x: ToolsCapabilities)
    ensures
        x.wire() is Object,
        x.wire().get("listChanged"@) == wire::opt(x.list_changed),
        forms::only_named(x.wire(), seq!["listChanged"@]),
{
    broadcast use crate::wire::group_lookup;

    let names = seq!["listChanged"@];
    assert forall|k: Seq<char>| x.wire().get(k) is Some implies #[trigger] names.contains(k) by {
        if k != "listChanged"@ {
            assert(x.wire().get(k) is None);
        }
        assert(names[0] == "listChanged"@);
    }
}

/// A `ToolsCapabilities` is read from an object exactly if each of its members can be read, and each part
/// is taken from the member of its name.
pub proof fn tools_capabilities_read(j: JsonView)
    requires
        j is Object,
    ensures
        ToolsCapabilities::canon(j) is Some <==> forms::fits_opt::<bool>(j, "listChanged"@),
        ToolsCapabilities::canon(j) matches Some(c) ==> {
            &&& forms::kept_opt::<bool>(j, c, "listChanged"@)
        },
{
    broadcast use crate::wire::group_lookup;

}

/// A `ToolsCapabilities` is read from an array as from the object that names the items in turn.
pub proof fn tools_capabilities_by_place(a: Seq<JsonView>)
    ensures
        ToolsCapabilities::canon(JsonView::Array(a)) == if a.len() <= 1 {
            ToolsCapabilities::canon(forms::by_place(seq!["listChanged"@], a))
        } else {
            None
        },
{
    let names = seq!["listChanged"@];
    assert(names[0] == "listChanged"@);
    if a.len() <= 1 {
        forms::found_by_place(names, a, 0);
    }
}

proof fn server_capabilities_names()
    ensures
        "experimental"@.len() == 12,
        "logging"@.len() == 7,
        "prompts"@.len() == 7,
        "resources"@.len() == 9,
        "tools"@.len() == 5,
        "logging"@[0] != "prompts"@[0],
{
    reveal_strlit("experimental");
    reveal_strlit("logging");
    reveal_strlit("prompts");
    reveal_strlit("resources");
    reveal_strlit("tools");
}

/// A `ServerCapabilities` is written with each of its parts under its own name, and with nothing else.
pub proof fn server_capabilities_written(x: ServerCapabilities)
    ensures
        x.wire() is Object,
        x.wire().get("experimental"@) == wire::opt(x.experimental),
        x.wire().get("logging"@) == wire::opt(x.logging),
        x.wire().get("prompts"@) == wire::opt(x.prompts),
        x.wire().get("resources"@) == wire::opt(x.resources),
        x.wire().get("tools"@) == wire::opt(x.tools),
        forms::only_named(x.wire(), seq!["experimental"@, "logging"@, "prompts"@, "resources"@, "tools"@]),
{
    broadcast use crate::wire::group_lookup;

    server_capabilities_names();
    let names = seq!["experimental"@, "logging"@, "prompts"@, "resources"@, "tools"@];
    assert forall|k: Seq<char>| x.wire().get(k) is Some implies #[trigger] names.contains(k) by {
        if k != "experimental"@
            && k != "logging"@
            && k != "prompts"@
            && k != "resources"@
            && k != "tools"@ {
            assert(x.wire().get(k) is None);
        }
        assert(names[0] == "experimental"@);
        assert(names[1] == "logging"@);
        assert(names[2] == "prompts"@);
        assert(names[3] == "resources"@);
        assert(names[4] == "tools"@);
    }
}

/// A `ServerCapabilities` is read from an object exactly if each of its members can be read, and each part
/// is taken from the member of its name.
pub proof fn server_capabilities_read(j: JsonView)
    requires
        j is Object,
    ensures
        ServerCapabilities::canon(j) is Some <==> forms::fits_opt::<MetaMap>(j, "experimental"@)
            && forms::fits_opt::<LoggingCapabilities>(j, "logging"@)
            && forms::fits_opt::<PromptsCapabilities>(j, "prompts"@)
            && forms::fits_opt::<ResourcesCapabilities>(j, "resources"@)
            && forms::fits_opt::<ToolsCapabilities>(j, "tools"@),
        ServerCapabilities::canon(j) matches Some(c) ==> {
            &&& forms::kept_opt::<MetaMap>(j, c, "experimental"@)
            &&& forms::kept_opt::<LoggingCapabilities>(j, c, "logging"@)
            &&& forms::kept_opt::<PromptsCapabilities>(j, c, "prompts"@)
            &&& forms::kept_opt::<ResourcesCapabilities>(j, c, "resources"@)
            &&& forms::kept_opt::<ToolsCapabilities>(j, c, "tools"@)
        },
{
    broadcast use crate::wire::group_lookup;

    server_capabilities_names();
}

/// A `ServerCapabilities` is read from an array as from the object that names the items in turn.
pub proof fn server_capabilities_by_place(a: Seq<JsonView>)
    ensures
        ServerCapabilities::canon(JsonView::Array(a)) == if a.len() <= 5 {
            ServerCapabilities::canon(forms::by_place(seq!["experimental"@, "logging"@, "prompts"@, "resources"@, "tools"@], a))
        } else {
            None
        },
{
    server_capabilities_names();
    let names = seq!["experimental"@, "logging"@, "prompts"@, "resources"@, "tools"@];
    assert(names[0] == "experimental"@);
    assert(names[1] == "logging"@);
    assert(names[2] == "prompts"@);
    assert(names[3] == "resources"@);
    assert(names[4] == "tools"@);
    if a.len() <= 5 {
        forms::found_by_place(names, a, 0);
        forms::found_by_place(names, a, 1);
        forms::found_by_place(names, a, 2);
        forms::found_by_place(names, a, 3);
        forms::found_by_place(names, a, 4);
    }
}

proof fn client_capabilities_names()
    ensures
        "experimental"@.len() == 12,
        "sampling"@.len() == 8,
        "elicitation"@.len() == 11,
        "tasks"@.len() == 5,
        "roots"@.len() == 5,
        "tasks"@[0] != "roots"@[0],
{
    reveal_strlit("experimental");
    reveal_strlit("sampling");
    reveal_strlit("elicitation");
    reveal_strlit("tasks");
    reveal_strlit("roots");
}

/// A `ClientCapabilities` is written with each of its parts under its own name, and with nothing else.
pub proof fn client_capabilities_written(x: ClientCapabilities)
    ensures
        x.wire() is Object,
        x.wire().get("experimental"@) == wire::opt(x.experimental),
        x.wire().get("sampling"@) == wire::opt(x.sampling),
        x.wire().get("elicitation"@) == wire::opt(x.elicitation),
        x.wire().get("tasks"@) == wire::opt(x.tasks),
        x.wire().get("roots"@) == wire::opt(x.roots),
        forms::only_named(x.wire(), seq!["experimental"@, "sampling"@, "elicitation"@, "tasks"@, "roots"@]),
{
    broadcast use crate::wire::group_lookup;

    client_capabilities_names();
    let names = seq!["experimental"@, "sampling"@, "elicitation"@, "tasks"@, "roots"@];
    assert forall|k: Seq<char>| x.wire().get(k) is Some implies #[trigger] names.contains(k) by {
        if k != "experimental"@
            && k != "sampling"@
            && k != "elicitation"@
            && k != "tasks"@
            && k != "roots"@ {
            assert(x.wire().get(k) is None);
        }
        assert(names[0] == "experimental"@);
        assert(names[1] == "sampling"@);
        assert(names[2] == "elicitation"@);
        assert(names[3] == "tasks"@);
        assert(names[4] == "roots"@);
    }
}

} // verus!
