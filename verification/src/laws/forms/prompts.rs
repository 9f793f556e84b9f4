//! How prompts are written and read.
use vstd::prelude::*;

use crate::json::JsonView;
use crate::laws::forms;
use crate::types::content::Icon;
use crate::types::prompts::{GetPromptResult, ListPromptsResult, PromptArgument, PromptInfo, PromptMessage};
use crate::wire;
use crate::wire::{MetaMap, Wire};

verus! {

proof fn prompt_message_names()
    ensures
        "role"@.len() == 4,
        "content"@.len() == 7,
{
    reveal_strlit("role");
    reveal_strlit("content");
}

/// A `PromptMessage` is written with each of its parts under its own name, and with nothing else.
pub proof fn prompt_message_written(x: PromptMessage)
    ensures
        x.wire() is Object,
        x.wire().get("role"@) == Some(x.role.wire()),
        x.wire().get("content"@) == Some(x.content.wire()),
        forms::only_named(x.wire(), seq!["role"@, "content"@]),
{
    broadcast use crate::wire::group_lookup;

    prompt_message_names();
    let names = seq!["role"@, "content"@];
    assert forall|k: Seq<char>| x.wire().get(k) is Some implies #[trigger] names.contains(k) by {
        if k != "role"@ && k != "content"@ {
            assert(x.wire().get(k) is None);
        }
        assert(names[0] == "role"@);
        assert(names[1] == "content"@);
    }
}

proof fn prompt_argument_names()
    ensures
        "name"@.len() == 4,
        "description"@.len() == 11,
        "required"@.len() == 8,
        "title"@.len() == 5,
{
    reveal_strlit("name");
    reveal_strlit("description");
    reveal_strlit("required");
    reveal_strlit("title");
}

/// A `PromptArgument` is written with each of its parts under its own name, and with nothing else.
pub proof fn prompt_argument_written(x: PromptArgument)
    ensures
        x.wire() is Object,
        x.wire().get("name"@) == Some(x.name.wire()),
        x.wire().get("description"@) == wire::opt(x.description),
        x.wire().get("required"@) == wire::opt(x.required),
        x.wire().get("title"@) == wire::opt(x.title),
        forms::only_named(x.wire(), seq!["name"@, "description"@, "required"@, "title"@]),
{
    broadcast use crate::wire::group_lookup;

    prompt_argument_names();
    let names = seq!["name"@, "description"@, "required"@, "title"@];
    assert forall|k: Seq<char>| x.wire().get(k) is Some implies #[trigger] names.contains(k) by {
        if k != "name"@ && k != "description"@ && k != "required"@ && k != "title"@ {
            assert(x.wire().get(k) is None);
        }
        assert(names[0] == "name"@);
        assert(names[1] == "description"@);
        assert(names[2] == "required"@);
        assert(names[3] == "title"@);
    }
}

/// A `PromptArgument` is read from an object exactly if each of its members can be read, and each part
/// is taken from the member of its name.
pub proof fn prompt_argument_read(j: JsonView)
    requires
        j is Object,
    ensures
        PromptArgument::canon(j) is Some <==> forms::fits::<String>(j, "name"@)
            && forms::fits_opt::<String>(j, "description"@)
            && forms::fits_opt::<bool>(j, "required"@)
            && forms::fits_opt::<String>(j, "title"@),
        PromptArgument::canon(j) matches Some(c) ==> {
            &&& forms::kept::<String>(j, c, "name"@)
            &&& forms::kept_opt::<String>(j, c, "description"@)
            &&& forms::kept_opt::<bool>(j, c, "required"@)
            &&& forms::kept_opt::<String>(j, c, "title"@)
        },
{
    broadcast use crate::wire::group_lookup;

    prompt_argument_names();
}

/// A `PromptArgument` is read from an array as from the object that names the items in turn.
pub proof fn prompt_argument_by_place(a: Seq<JsonView>)
    ensures
        PromptArgument::canon(JsonView::Array(a)) == if a.len() <= 4 {
            PromptArgument::canon(forms::by_place(seq!["name"@, "description"@, "required"@, "title"@], a))
        } else {
            None
        },
{
    prompt_argument_names();
    let names = seq!["name"@, "description"@, "required"@, "title"@];
    assert(names[0] == "name"@);
    assert(names[1] == "description"@);
    assert(names[2] == "required"@);
    assert(names[3] == "title"@);
    if a.len() <= 4 {
        forms::found_by_place(names, a, 0);
        forms::found_by_place(names, a, 1);
        forms::found_by_place(names, a, 2);
        forms::found_by_place(names, a, 3);
    }
}

proof fn get_prompt_result_names()
    ensures
        "description"@.len() == 11,
        "messages"@.len() == 8,
        "_meta"@.len() == 5,
{
    reveal_strlit("description");
    reveal_strlit("messages");
    reveal_strlit("_meta");
}

/// A `GetPromptResult` is written with each of its parts under its own name, and with nothing else.
pub proof fn get_prompt_result_written(x: GetPromptResult)
    ensures
        x.wire() is Object,
        x.wire().get("description"@) == wire::opt(x.description),
        x.wire().get("messages"@) == Some(x.messages.wire()),
        x.wire().get("_meta"@) == wire::opt(x.meta),
        forms::only_named(x.wire(), seq!["description"@, "messages"@, "_meta"@]),
{
    broadcast use crate::wire::group_lookup;

    get_prompt_result_names();
    let names = seq!["description"@, "messages"@, "_meta"@];
    assert forall|k: Seq<char>| x.wire().get(k) is Some implies #[trigger] names.contains(k) by {
        if k != "description"@ && k != "messages"@ && k != "_meta"@ {
            assert(x.wire().get(k) is None);
        }
        assert(names[0] == "description"@);
        assert(names[1] == "messages"@);
        assert(names[2] == "_meta"@);
    }
}

/// A `GetPromptResult` is read from an object exactly if each of its members can be read, and each part
/// is taken from the member of its name.
pub proof fn get_prompt_result_read(j: JsonView)
    requires
        j is Object,
    ensures
        GetPromptResult::canon(j) is Some <==> forms::fits_opt::<String>(j, "description"@)
            && forms::fits::<Vec<PromptMessage>>(j, "messages"@)
            && forms::fits_opt::<MetaMap>(j, "_meta"@),
        GetPromptResult::canon(j) matches Some(c) ==> {
            &&& forms::kept_opt::<String>(j, c, "description"@)
            &&& forms::kept::<Vec<PromptMessage>>(j, c, "messages"@)
            &&& forms::kept_opt::<MetaMap>(j, c, "_meta"@)
        },
{
    broadcast use crate::wire::group_lookup;

    get_prompt_result_names();
}

/// A `GetPromptResult` is read from an array as from the object that names the items in turn.
pub proof fn get_prompt_result_by_place(a: Seq<JsonView>)
    ensures
        GetPromptResult::canon(JsonView::Array(a)) == if a.len() <= 3 {
            GetPromptResult::canon(forms::by_place(seq!["description"@, "messages"@, "_meta"@], a))
        } else {
            None
        },
{
    get_prompt_result_names();
    let names = seq!["description"@, "messages"@, "_meta"@];
    assert(names[0] == "description"@);
    assert(names[1] == "messages"@);
    assert(names[2] == "_meta"@);
    if a.len() <= 3 {
        forms::found_by_place(names, a, 0);
        forms::found_by_place(names, a, 1);
        forms::found_by_place(names, a, 2);
    }
}

proof fn prompt_info_names()
    ensures
        "name"@.len() == 4,
        "description"@.len() == 11,
        "title"@.len() == 5,
        "icons"@.len() == 5,
        "arguments"@.len() == 9,
        "title"@[0] != "icons"@[0],
{
    reveal_strlit("name");
    reveal_strlit("description");
    reveal_strlit("title");
    reveal_strlit("icons");
    reveal_strlit("arguments");
}

/// A `PromptInfo` is written with each of its parts under its own name, and with nothing else.
pub proof fn prompt_info_written(x: PromptInfo)
    ensures
        x.wire() is Object,
        x.wire().get("name"@) == Some(x.name.wire()),
        x.wire().get("description"@) == wire::opt(x.description),
        x.wire().get("title"@) == wire::opt(x.title),
        x.wire().get("icons"@) == wire::opt(x.icons),
        x.wire().get("arguments"@) == wire::opt(x.arguments),
        forms::only_named(x.wire(), seq!["name"@, "description"@, "title"@, "icons"@, "arguments"@]),
{
    broadcast use crate::wire::group_lookup;

    prompt_info_names();
    let names = seq!["name"@, "description"@, "title"@, "icons"@, "arguments"@];
    assert forall|k: Seq<char>| x.wire().get(k) is Some implies #[trigger] names.contains(k) by {
        if k != "name"@
            && k != "description"@
            && k != "title"@
            && k != "icons"@
            && k != "arguments"@ {
            assert(x.wire().get(k) is None);
        }
        assert(names[0] == "name"@);
        assert(names[1] == "description"@);
        assert(names[2] == "title"@);
        assert(names[3] == "icons"@);
        assert(names[4] == "arguments"@);
    }
}

/// A `PromptInfo` is read from an object exactly if each of its members can be read, and each part
/// is taken from the member of its name.
pub proof fn prompt_info_read(j: JsonView)
    requires
        j is Object,
    ensures
        PromptInfo::canon(j) is Some <==> forms::fits::<String>(j, "name"@)
            && forms::fits_opt::<String>(j, "description"@)
            && forms::fits_opt::<String>(j, "title"@)
            && forms::fits_opt::<Vec<Icon>>(j, "icons"@)
            && forms::fits_opt::<Vec<PromptArgument>>(j, "arguments"@),
        PromptInfo::canon(j) matches Some(c) ==> {
            &&& forms::kept::<String>(j, c, "name"@)
            &&& forms::kept_opt::<String>(j, c, "description"@)
            &&& forms::kept_opt::<String>(j, c, "title"@)
            &&& forms::kept_opt::<Vec<Icon>>(j, c, "icons"@)
            &&& forms::kept_opt::<Vec<PromptArgument>>(j, c, "arguments"@)
        },
{
    broadcast use crate::wire::group_lookup;

    prompt_info_names();
}

/// A `PromptInfo` is read from an array as from the object that names the items in turn.
pub proof fn prompt_info_by_place(a: Seq<JsonView>)
    ensures
        PromptInfo::canon(JsonView::Array(a)) == if a.len() <= 5 {
            PromptInfo::canon(forms::by_place(seq!["name"@, "description"@, "title"@, "icons"@, "arguments"@], a))
        } else {
            None
        },
{
    prompt_info_names();
    let names = seq!["name"@, "description"@, "title"@, "icons"@, "arguments"@];
    assert(names[0] == "name"@);
    assert(names[1] == "description"@);
    assert(names[2] == "title"@);
    assert(names[3] == "icons"@);
    assert(names[4] == "arguments"@);
    if a.len() <= 5 {
        forms::found_by_place(names, a, 0);
        forms::found_by_place(names, a, 1);
        forms::found_by_place(names, a, 2);
        forms::found_by_place(names, a, 3);
        forms::found_by_place(names, a, 4);
    }
}

proof fn list_prompts_result_names()
    ensures
        "prompts"@.len() == 7,
        "nextCursor"@.len() == 10,
        "_meta"@.len() == 5,
{
    reveal_strlit("prompts");
    reveal_strlit("nextCursor");
    reveal_strlit("_meta");
}

/// A `ListPromptsResult` is written with each of its parts under its own name, and with nothing else.
pub proof fn list_prompts_result_written(x: ListPromptsResult)
    ensures
        x.wire() is Object,
        x.wire().get("prompts"@) == Some(x.prompts.wire()),
        x.wire().get("nextCursor"@) == wire::opt(x.next_cursor),
        x.wire().get("_meta"@) == wire::opt(x.meta),
        forms::only_named(x.wire(), seq!["prompts"@, "nextCursor"@, "_meta"@]),
{
    broadcast use crate::wire::group_lookup;

    list_prompts_result_names();
    let names = seq!["prompts"@, "nextCursor"@, "_meta"@];
    assert forall|k: Seq<char>| x.wire().get(k) is Some implies #[trigger] names.contains(k) by {
        if k != "prompts"@ && k != "nextCursor"@ && k != "_meta"@ {
            assert(x.wire().get(k) is None);
        }
        assert(names[0] == "prompts"@);
        assert(names[1] == "nextCursor"@);
        assert(names[2] == "_meta"@);
    }
}

/// A `ListPromptsResult` is read from an object exactly if each of its members can be read, and each part
/// is taken from the member of its name.
pub proof fn list_prompts_result_read(j: JsonView)
    requires
        j is Object,
    ensures
        ListPromptsResult::canon(j) is Some <==> forms::fits_opt_not_null::<Vec<PromptInfo>>(j, "prompts"@)
            && forms::fits_opt::<String>(j, "nextCursor"@)
            && forms::fits_opt::<MetaMap>(j, "_meta"@),
        ListPromptsResult::canon(j) matches Some(c) ==> {
            &&& forms::kept_or::<Vec<PromptInfo>>(j, c, "prompts"@, JsonView::Array(seq![]))
            &&& forms::kept_opt::<String>(j, c, "nextCursor"@)
            &&& forms::kept_opt::<MetaMap>(j, c, "_meta"@)
        },
{
    broadcast use crate::wire::group_lookup;

    list_prompts_result_names();
}

/// A `ListPromptsResult` is read from an array as from the object that names the items in turn.
pub proof fn list_prompts_result_by_place(a: Seq<JsonView>)
    ensures
        ListPromptsResult::canon(JsonView::Array(a)) == if a.len() <= 3 {
            ListPromptsResult::canon(forms::by_place(seq!["prompts"@, "nextCursor"@, "_meta"@], a))
        } else {
            None
        },
{
    list_prompts_result_names();
    let names = seq!["prompts"@, "nextCursor"@, "_meta"@];
    assert(names[0] == "prompts"@);
    assert(names[1] == "nextCursor"@);
    assert(names[2] == "_meta"@);
    if a.len() <= 3 {
        forms::found_by_place(names, a, 0);
        forms::found_by_place(names, a, 1);
        forms::found_by_place(names, a, 2);
    }
}

} // verus!
