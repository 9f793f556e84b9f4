//! How messages that a model is asked for are written and read.
use vstd::prelude::*;

use crate::json::{Json, JsonView, NumberView};
use crate::laws::forms;
use crate::types::content::{ContentBlock, RoleType};
use crate::types::sampling::{CreateMessageParams, CreateMessageResult, ModelHint, ModelPreferences, SamplingContent, SamplingMessage, ToolChoice, ToolResultContent, ToolUseContent};
use crate::types::tools::Tool;
use crate::wire;
use crate::wire::{MetaMap, Real, Wire};

verus! {

proof fn tool_use_content_names()
    ensures
        "id"@.len() == 2,
        "name"@.len() == 4,
        "input"@.len() == 5,
        "_meta"@.len() == 5,
        "input"@[0] != "_meta"@[0],
{
    reveal_strlit("id");
    reveal_strlit("name");
    reveal_strlit("input");
    reveal_strlit("_meta");
}

/// A `ToolUseContent` is written with each of its parts under its own name, and with nothing else.
pub proof fn tool_use_content_written(x: ToolUseContent)
    ensures
        x.wire() is Object,
        x.wire().get("id"@) == Some(x.id.wire()),
        x.wire().get("name"@) == Some(x.name.wire()),
        x.wire().get("input"@) == Some(x.input.wire()),
        x.wire().get("_meta"@) == wire::opt(x.meta),
        forms::only_named(x.wire(), seq!["id"@, "name"@, "input"@, "_meta"@]),
{
    broadcast use crate::wire::group_lookup;

    tool_use_content_names();
    let names = seq!["id"@, "name"@, "input"@, "_meta"@];
    assert forall|k: Seq<char>| x.wire().get(k) is Some implies #[trigger] names.contains(k) by {
        if k != "id"@ && k != "name"@ && k != "input"@ && k != "_meta"@ {
            assert(x.wire().get(k) is None);
        }
        assert(names[0] == "id"@);
        assert(names[1] == "name"@);
        assert(names[2] == "input"@);
        assert(names[3] == "_meta"@);
    }
}

/// A `ToolUseContent` is read from an object exactly if each of its members can be read, and each part
/// is taken from the member of its name.
pub proof fn tool_use_content_read(j: JsonView)
    requires
        j is Object,
    ensures
        ToolUseContent::canon(j) is Some <==> forms::fits_opt_not_null::<String>(j, "id"@)
            && forms::fits_opt_not_null::<String>(j, "name"@)
            && forms::fits_opt_not_null::<MetaMap>(j, "input"@)
            && forms::fits_opt::<MetaMap>(j, "_meta"@),
        ToolUseContent::canon(j) matches Some(c) ==> {
            &&& forms::kept_or::<String>(j, c, "id"@, JsonView::String(seq![]))
            &&& forms::kept_or::<String>(j, c, "name"@, JsonView::String(seq![]))
            &&& forms::kept_or::<MetaMap>(j, c, "input"@, JsonView::Object(seq![]))
            &&& forms::kept_opt::<MetaMap>(j, c, "_meta"@)
        },
{
    broadcast use crate::wire::group_lookup;

    tool_use_content_names();
}

/// A `ToolUseContent` is read from an array as from the object that names the items in turn.
pub proof fn tool_use_content_by_place(a: Seq<JsonView>)
    ensures
        ToolUseContent::canon(JsonView::Array(a)) == if a.len() <= 4 {
            ToolUseContent::canon(forms::by_place(seq!["id"@, "name"@, "input"@, "_meta"@], a))
        } else {
            None
        },
{
    tool_use_content_names();
    let names = seq!["id"@, "name"@, "input"@, "_meta"@];
    assert(names[0] == "id"@);
    assert(names[1] == "name"@);
    assert(names[2] == "input"@);
    assert(names[3] == "_meta"@);
    if a.len() <= 4 {
        forms::found_by_place(names, a, 0);
        forms::found_by_place(names, a, 1);
        forms::found_by_place(names, a, 2);
        forms::found_by_place(names, a, 3);
    }
}

proof fn tool_result_content_names()
    ensures
        "toolUseId"@.len() == 9,
        "content"@.len() == 7,
        "structuredContent"@.len() == 17,
        "isError"@.len() == 7,
        "_meta"@.len() == 5,
        "content"@[0] != "isError"@[0],
{
    reveal_strlit("toolUseId");
    reveal_strlit("content");
    reveal_strlit("structuredContent");
    reveal_strlit("isError");
    reveal_strlit("_meta");
}

/// A `ToolResultContent` is written with each of its parts under its own name, and with nothing else.
pub proof fn tool_result_content_written(x: ToolResultContent)
    ensures
        x.wire() is Object,
        x.wire().get("toolUseId"@) == Some(x.tool_use_id.wire()),
        x.wire().get("content"@) == Some(x.content.wire()),
        x.wire().get("structuredContent"@) == wire::opt(x.structured_content),
        x.wire().get("isError"@) == wire::opt(x.is_error),
        x.wire().get("_meta"@) == wire::opt(x.meta),
        forms::only_named(x.wire(), seq!["toolUseId"@, "content"@, "structuredContent"@, "isError"@, "_meta"@]),
{
    broadcast use crate::wire::group_lookup;

    tool_result_content_names();
    let names = seq!["toolUseId"@, "content"@, "structuredContent"@, "isError"@, "_meta"@];
    assert forall|k: Seq<char>| x.wire().get(k) is Some implies #[trigger] names.contains(k) by {
        if k != "toolUseId"@
            && k != "content"@
            && k != "structuredContent"@
            && k != "isError"@
            && k != "_meta"@ {
            assert(x.wire().get(k) is None);
        }
        assert(names[0] == "toolUseId"@);
        assert(names[1] == "content"@);
        assert(names[2] == "structuredContent"@);
        assert(names[3] == "isError"@);
        assert(names[4] == "_meta"@);
    }
}

/// A `ToolResultContent` is read from an object exactly if each of its members can be read, and each part
/// is taken from the member of its name.
pub proof fn tool_result_content_read(j: JsonView)
    requires
        j is Object,
    ensures
        ToolResultContent::canon(j) is Some <==> forms::fits_opt_not_null::<String>(j, "toolUseId"@)
            && forms::fits_opt_not_null::<Vec<ContentBlock>>(j, "content"@)
            && forms::fits_opt::<Json>(j, "structuredContent"@)
            && forms::fits_opt::<bool>(j, "isError"@)
            && forms::fits_opt::<MetaMap>(j, "_meta"@),
        ToolResultContent::canon(j) matches Some(c) ==> {
            &&& forms::kept_or::<String>(j, c, "toolUseId"@, JsonView::String(seq![]))
            &&& forms::kept_or::<Vec<ContentBlock>>(j, c, "content"@, JsonView::Array(seq![]))
            &&& forms::kept_opt::<Json>(j, c, "structuredContent"@)
            &&& forms::kept_opt::<bool>(j, c, "isError"@)
            &&& forms::kept_opt::<MetaMap>(j, c, "_meta"@)
        },
{
    broadcast use crate::wire::group_lookup;

    tool_result_content_names();
}

/// A `ToolResultContent` is read from an array as from the object that names the items in turn.
pub proof fn tool_result_content_by_place(a: Seq<JsonView>)
    ensures
        ToolResultContent::canon(JsonView::Array(a)) == if a.len() <= 5 {
            ToolResultContent::canon(forms::by_place(seq!["toolUseId"@, "content"@, "structuredContent"@, "isError"@, "_meta"@], a))
        } else {
            None
        },
{
    tool_result_content_names();
    let names = seq!["toolUseId"@, "content"@, "structuredContent"@, "isError"@, "_meta"@];
    assert(names[0] == "toolUseId"@);
    assert(names[1] == "content"@);
    assert(names[2] == "structuredContent"@);
    assert(names[3] == "isError"@);
    assert(names[4] == "_meta"@);
    if a.len() <= 5 {
        forms::found_by_place(names, a, 0);
        forms::found_by_place(names, a, 1);
        forms::found_by_place(names, a, 2);
        forms::found_by_place(names, a, 3);
        forms::found_by_place(names, a, 4);
    }
}

proof fn sampling_message_names()
    ensures
        "role"@.len() == 4,
        "content"@.len() == 7,
        "_meta"@.len() == 5,
{
    reveal_strlit("role");
    reveal_strlit("content");
    reveal_strlit("_meta");
}

/// A `SamplingMessage` is written with each of its parts under its own name, and with nothing else.
pub proof fn sampling_message_written(x: SamplingMessage)
    ensures
        x.wire() is Object,
        x.wire().get("role"@) == Some(x.role.wire()),
        x.wire().get("content"@) == Some(x.content.wire()),
        x.wire().get("_meta"@) == wire::opt(x.meta),
        forms::only_named(x.wire(), seq!["role"@, "content"@, "_meta"@]),
{
    broadcast use crate::wire::group_lookup;

    sampling_message_names();
    let names = seq!["role"@, "content"@, "_meta"@];
    assert forall|k: Seq<char>| x.wire().get(k) is Some implies #[trigger] names.contains(k) by {
        if k != "role"@ && k != "content"@ && k != "_meta"@ {
            assert(x.wire().get(k) is None);
        }
        assert(names[0] == "role"@);
        assert(names[1] == "content"@);
        assert(names[2] == "_meta"@);
    }
}

/// A `SamplingMessage` is read from an object exactly if each of its members can be read, and each part
/// is taken from the member of its name.
pub proof fn sampling_message_read(j: JsonView)
    requires
        j is Object,
    ensures
        SamplingMessage::canon(j) is Some <==> forms::fits_opt_not_null::<RoleType>(j, "role"@)
            && forms::fits_opt_not_null::<SamplingContent>(j, "content"@)
            && forms::fits_opt::<MetaMap>(j, "_meta"@),
        SamplingMessage::canon(j) matches Some(c) ==> {
            &&& forms::kept_or::<RoleType>(j, c, "role"@, JsonView::String("user"@))
            &&& forms::kept_or::<SamplingContent>(j, c, "content"@, JsonView::Array(seq![]))
            &&& forms::kept_opt::<MetaMap>(j, c, "_meta"@)
        },
{
    broadcast use crate::wire::group_lookup;

    sampling_message_names();
}

/// A `SamplingMessage` is read from an array as from the object that names the items in turn.
pub proof fn sampling_message_by_place(a: Seq<JsonView>)
    ensures
        SamplingMessage::canon(JsonView::Array(a)) == if a.len() <= 3 {
            SamplingMessage::canon(forms::by_place(seq!["role"@, "content"@, "_meta"@], a))
        } else {
            None
        },
{
    sampling_message_names();
    let names = seq!["role"@, "content"@, "_meta"@];
    assert(names[0] == "role"@);
    assert(names[1] == "content"@);
    assert(names[2] == "_meta"@);
    if a.len() <= 3 {
        forms::found_by_place(names, a, 0);
        forms::found_by_place(names, a, 1);
        forms::found_by_place(names, a, 2);
    }
}

/// A `ModelHint` is written with each of its parts under its own name, and with nothing else.
pub proof fn model_hint_written(x: ModelHint)
    ensures
        x.wire() is Object,
        x.wire().get("name"@) == wire::opt(x.name),
        forms::only_named(x.wire(), seq!["name"@]),
{
    broadcast use crate::wire::group_lookup;

    let names = seq!["name"@];
    assert forall|k: Seq<char>| x.wire().get(k) is Some implies #[trigger] names.contains(k) by {
        if k != "name"@ {
            assert(x.wire().get(k) is None);
        }
        assert(names[0] == "name"@);
    }
}

/// A `ModelHint` is read from an object exactly if each of its members can be read, and each part
/// is taken from the member of its name.
pub proof fn model_hint_read(j: JsonView)
    requires
        j is Object,
    ensures
        ModelHint::canon(j) is Some <==> forms::fits_opt::<String>(j, "name"@),
        ModelHint::canon(j) matches Some(c) ==> {
            &&& forms::kept_opt::<String>(j, c, "name"@)
        },
{
    broadcast use crate::wire::group_lookup;

}

/// A `ModelHint` is read from an array as from the object that names the items in turn.
pub proof fn model_hint_by_place(a: Seq<JsonView>)
    ensures
        ModelHint::canon(JsonView::Array(a)) == if a.len() <= 1 {
            ModelHint::canon(forms::by_place(seq!["name"@], a))
        } else {
            None
        },
{
    let names = seq!["name"@];
    assert(names[0] == "name"@);
    if a.len() <= 1 {
        forms::found_by_place(names, a, 0);
    }
}

proof fn model_preferences_names()
    ensures
        "hints"@.len() == 5,
        "costPriority"@.len() == 12,
        "speedPriority"@.len() == 13,
        "intelligencePriority"@.len() == 20,
{
    reveal_strlit("hints");
    reveal_strlit("costPriority");
    reveal_strlit("speedPriority");
    reveal_strlit("intelligencePriority");
}

/// A `ModelPreferences` is written with each of its parts under its own name, and with nothing else.
pub proof fn model_preferences_written(x: ModelPreferences)
    ensures
        x.wire() is Object,
        x.wire().get("hints"@) == wire::opt(x.hints),
        x.wire().get("costPriority"@) == wire::opt(x.cost_priority),
        x.wire().get("speedPriority"@) == wire::opt(x.speed_priority),
        x.wire().get("intelligencePriority"@) == wire::opt(x.intelligence_priority),
        forms::only_named(x.wire(), seq!["hints"@, "costPriority"@, "speedPriority"@, "intelligencePriority"@]),
{
    broadcast use crate::wire::group_lookup;

    model_preferences_names();
    let names = seq!["hints"@, "costPriority"@, "speedPriority"@, "intelligencePriority"@];
    assert forall|k: Seq<char>| x.wire().get(k) is Some implies #[trigger] names.contains(k) by {
        if k != "hints"@
            && k != "costPriority"@
            && k != "speedPriority"@
            && k != "intelligencePriority"@ {
            assert(x.wire().get(k) is None);
        }
        assert(names[0] == "hints"@);
        assert(names[1] == "costPriority"@);
        assert(names[2] == "speedPriority"@);
        assert(names[3] == "intelligencePriority"@);
    }
}

/// A `ModelPreferences` is read from an object exactly if each of its members can be read, and each part
/// is taken from the member of its name.
pub proof fn model_preferences_read(j: JsonView)
    requires
        j is Object,
    ensures
        ModelPreferences::canon(j) is Some <==> forms::fits_opt::<Vec<ModelHint>>(j, "hints"@)
            && forms::fits_opt::<Real>(j, "costPriority"@)
            && forms::fits_opt::<Real>(j, "speedPriority"@)
            && forms::fits_opt::<Real>(j, "intelligencePriority"@),
        ModelPreferences::canon(j) matches Some(c) ==> {
            &&& forms::kept_opt::<Vec<ModelHint>>(j, c, "hints"@)
            &&& forms::kept_opt::<Real>(j, c, "costPriority"@)
            &&& forms::kept_opt::<Real>(j, c, "speedPriority"@)
            &&& forms::kept_opt::<Real>(j, c, "intelligencePriority"@)
        },
{
    broadcast use crate::wire::group_lookup;

    model_preferences_names();
}

/// A `ModelPreferences` is read from an array as from the object that names the items in turn.
pub proof fn model_preferences_by_place(a: Seq<JsonView>)
    ensures
        ModelPreferences::canon(JsonView::Array(a)) == if a.len() <= 4 {
            ModelPreferences::canon(forms::by_place(seq!["hints"@, "costPriority"@, "speedPriority"@, "intelligencePriority"@], a))
        } else {
            None
        },
{
    model_preferences_names();
    let names = seq!["hints"@, "costPriority"@, "speedPriority"@, "intelligencePriority"@];
    assert(names[0] == "hints"@);
    assert(names[1] == "costPriority"@);
    assert(names[2] == "speedPriority"@);
    assert(names[3] == "intelligencePriority"@);
    if a.len() <= 4 {
        forms::found_by_place(names, a, 0);
        forms::found_by_place(names, a, 1);
        forms::found_by_place(names, a, 2);
        forms::found_by_place(names, a, 3);
    }
}

/// A `ToolChoice` is written with each of its parts under its own name, and with nothing else.
pub proof fn tool_choice_written(x: ToolChoice)
    ensures
        x.wire() is Object,
        x.wire().get("mode"@) == wire::opt(x.mode),
        forms::only_named(x.wire(), seq!["mode"@]),
{
    broadcast use crate::wire::group_lookup;

    let names = seq!["mode"@];
    assert forall|k: Seq<char>| x.wire().get(k) is Some implies #[trigger] names.contains(k) by {
        if k != "mode"@ {
            assert(x.wire().get(k) is None);
        }
        assert(names[0] == "mode"@);
    }
}

/// A `ToolChoice` is read from an object exactly if each of its members can be read, and each part
/// is taken from the member of its name.
pub proof fn tool_choice_read(j: JsonView)
    requires
        j is Object,
    ensures
        ToolChoice::canon(j) is Some <==> forms::fits_opt::<String>(j, "mode"@),
        ToolChoice::canon(j) matches Some(c) ==> {
            &&& forms::kept_opt::<String>(j, c, "mode"@)
        },
{
    broadcast use crate::wire::group_lookup;

}

/// A `ToolChoice` is read from an array as from the object that names the items in turn.
pub proof fn tool_choice_by_place(a: Seq<JsonView>)
    ensures
        ToolChoice::canon(JsonView::Array(a)) == if a.len() <= 1 {
            ToolChoice::canon(forms::by_place(seq!["mode"@], a))
        } else {
            None
        },
{
    let names = seq!["mode"@];
    assert(names[0] == "mode"@);
    if a.len() <= 1 {
        forms::found_by_place(names, a, 0);
    }
}

proof fn create_message_result_names()
    ensures
        "model"@.len() == 5,
        "stopReason"@.len() == 10,
        "role"@.len() == 4,
        "content"@.len() == 7,
        "_meta"@.len() == 5,
        "model"@[0] != "_meta"@[0],
{
    reveal_strlit("model");
    reveal_strlit("stopReason");
    reveal_strlit("role");
    reveal_strlit("content");
    reveal_strlit("_meta");
}

/// A `CreateMessageResult` is written with each of its parts under its own name, and with nothing else.
pub proof fn create_message_result_written(x: CreateMessageResult)
    ensures
        x.wire() is Object,
        x.wire().get("model"@) == Some(x.model.wire()),
        x.wire().get("stopReason"@) == wire::opt(x.stop_reason),
        x.wire().get("role"@) == Some(x.role.wire()),
        x.wire().get("content"@) == Some(x.content.wire()),
        x.wire().get("_meta"@) == wire::opt(x.meta),
        forms::only_named(x.wire(), seq!["model"@, "stopReason"@, "role"@, "content"@, "_meta"@]),
{
    broadcast use crate::wire::group_lookup;

    create_message_result_names();
    let names = seq!["model"@, "stopReason"@, "role"@, "content"@, "_meta"@];
    assert forall|k: Seq<char>| x.wire().get(k) is Some implies #[trigger] names.contains(k) by {
        if k != "model"@
            && k != "stopReason"@
            && k != "role"@
            && k != "content"@
            && k != "_meta"@ {
            assert(x.wire().get(k) is None);
        }
        assert(names[0] == "model"@);
        assert(names[1] == "stopReason"@);
        assert(names[2] == "role"@);
        assert(names[3] == "content"@);
        assert(names[4] == "_meta"@);
    }
}

/// A `CreateMessageResult` is read from an object exactly if each of its members can be read, and each part
/// is taken from the member of its name.
pub proof fn create_message_result_read(j: JsonView)
    requires
        j is Object,
    ensures
        CreateMessageResult::canon(j) is Some <==> forms::fits_opt_not_null::<String>(j, "model"@)
            && forms::fits_opt::<String>(j, "stopReason"@)
            && forms::fits_opt_not_null::<RoleType>(j, "role"@)
            && forms::fits_opt_not_null::<SamplingContent>(j, "content"@)
            && forms::fits_opt::<MetaMap>(j, "_meta"@),
        CreateMessageResult::canon(j) matches Some(c) ==> {
            &&& forms::kept_or::<String>(j, c, "model"@, JsonView::String(seq![]))
            &&& forms::kept_opt::<String>(j, c, "stopReason"@)
            &&& forms::kept_or::<RoleType>(j, c, "role"@, JsonView::String("assistant"@))
            &&& forms::kept_or::<SamplingContent>(j, c, "content"@, JsonView::Array(seq![]))
            &&& forms::kept_opt::<MetaMap>(j, c, "_meta"@)
        },
{
    broadcast use crate::wire::group_lookup;

    create_message_result_names();
}

/// A `CreateMessageResult` is read from an array as from the object that names the items in turn.
pub proof fn create_message_result_by_place(a: Seq<JsonView>)
    ensures
        CreateMessageResult::canon(JsonView::Array(a)) == if a.len() <= 5 {
            CreateMessageResult::canon(forms::by_place(seq!["model"@, "stopReason"@, "role"@, "content"@, "_meta"@], a))
        } else {
            None
        },
{
    create_message_result_names();
    let names = seq!["model"@, "stopReason"@, "role"@, "content"@, "_meta"@];
    assert(names[0] == "model"@);
    assert(names[1] == "stopReason"@);
    assert(names[2] == "role"@);
    assert(names[3] == "content"@);
    assert(names[4] == "_meta"@);
    if a.len() <= 5 {
        forms::found_by_place(names, a, 0);
        forms::found_by_place(names, a, 1);
        forms::found_by_place(names, a, 2);
        forms::found_by_place(names, a, 3);
        forms::found_by_place(names, a, 4);
    }
}

proof fn create_message_params_names()
    ensures
        "messages"@.len() == 8,
        "modelPreferences"@.len() == 16,
        "systemPrompt"@.len() == 12,
        "includeContext"@.len() == 14,
        "temperature"@.len() == 11,
        "maxTokens"@.len() == 9,
        "stopSequences"@.len() == 13,
        "metadata"@.len() == 8,
        "tools"@.len() == 5,
        "toolChoice"@.len() == 10,
        "messages"@[2] != "metadata"@[2],
{
    reveal_strlit("messages");
    reveal_strlit("modelPreferences");
    reveal_strlit("systemPrompt");
    reveal_strlit("includeContext");
    reveal_strlit("temperature");
    reveal_strlit("maxTokens");
    reveal_strlit("stopSequences");
    reveal_strlit("metadata");
    reveal_strlit("tools");
    reveal_strlit("toolChoice");
}

/// A `CreateMessageParams` is written with each of its parts under its own name, and with nothing else.
pub proof fn create_message_params_written(x: CreateMessageParams)
    ensures
        x.wire() is Object,
        x.wire().get("messages"@) == Some(x.messages.wire()),
        x.wire().get("modelPreferences"@) == wire::opt(x.model_preferences),
        x.wire().get("systemPrompt"@) == wire::opt(x.system_prompt),
        x.wire().get("includeContext"@) == wire::opt(x.include_context),
        x.wire().get("temperature"@) == wire::opt(x.temperature),
        x.wire().get("maxTokens"@) == Some(x.max_tokens.wire()),
        x.wire().get("stopSequences"@) == wire::opt(x.stop_sequences),
        x.wire().get("metadata"@) == wire::opt(x.metadata),
        x.wire().get("tools"@) == wire::opt(x.tools),
        x.wire().get("toolChoice"@) == wire::opt(x.tool_choice),
        forms::only_named(x.wire(), seq![
            "messages"@,
            "modelPreferences"@,
            "systemPrompt"@,
            "includeContext"@,
            "temperature"@,
            "maxTokens"@,
            "stopSequences"@,
            "metadata"@,
            "tools"@,
            "toolChoice"@,
        ]),
{
    broadcast use crate::wire::group_lookup;

    create_message_params_names();
    let names = seq![
        "messages"@,
        "modelPreferences"@,
        "systemPrompt"@,
        "includeContext"@,
        "temperature"@,
        "maxTokens"@,
        "stopSequences"@,
        "metadata"@,
        "tools"@,
        "toolChoice"@,
    ];
    assert forall|k: Seq<char>| x.wire().get(k) is Some implies #[trigger] names.contains(k) by {
        if k != "messages"@
            && k != "modelPreferences"@
            && k != "systemPrompt"@
            && k != "includeContext"@
            && k != "temperature"@
            && k != "maxTokens"@
            && k != "stopSequences"@
            && k != "metadata"@
            && k != "tools"@
            && k != "toolChoice"@ {
            assert(x.wire().get(k) is None);
        }
        assert(names[0] == "messages"@);
        assert(names[1] == "modelPreferences"@);
        assert(names[2] == "systemPrompt"@);
        assert(names[3] == "includeContext"@);
        assert(names[4] == "temperature"@);
        assert(names[5] == "maxTokens"@);
        assert(names[6] == "stopSequences"@);
        assert(names[7] == "metadata"@);
        assert(names[8] == "tools"@);
        assert(names[9] == "toolChoice"@);
    }
}

/// A `CreateMessageParams` is read from an object exactly if each of its members can be read, and each part
/// is taken from the member of its name.
pub proof fn create_message_params_read(j: JsonView)
    requires
        j is Object,
    ensures
        CreateMessageParams::canon(j) is Some <==> forms::fits_opt_not_null::<Vec<SamplingMessage>>(j, "messages"@)
            && forms::fits_opt::<ModelPreferences>(j, "modelPreferences"@)
            && forms::fits_opt::<String>(j, "systemPrompt"@)
            && forms::fits_opt::<String>(j, "includeContext"@)
            && forms::fits_opt::<Real>(j, "temperature"@)
            && forms::fits_opt_not_null::<i64>(j, "maxTokens"@)
            && forms::fits_opt::<Vec<String>>(j, "stopSequences"@)
            && forms::fits_opt::<MetaMap>(j, "metadata"@)
            && forms::fits_opt::<Vec<Tool>>(j, "tools"@)
            && forms::fits_opt::<ToolChoice>(j, "toolChoice"@),
        CreateMessageParams::canon(j) matches Some(c) ==> {
            &&& forms::kept_or::<Vec<SamplingMessage>>(j, c, "messages"@, JsonView::Array(seq![]))
            &&& forms::kept_opt::<ModelPreferences>(j, c, "modelPreferences"@)
            &&& forms::kept_opt::<String>(j, c, "systemPrompt"@)
            &&& forms::kept_opt::<String>(j, c, "includeContext"@)
            &&& forms::kept_opt::<Real>(j, c, "temperature"@)
            &&& forms::kept_or::<i64>(j, c, "maxTokens"@, JsonView::Number(NumberView::Whole(0)))
            &&& forms::kept_opt::<Vec<String>>(j, c, "stopSequences"@)
            &&& forms::kept_opt::<MetaMap>(j, c, "metadata"@)
            &&& forms::kept_opt::<Vec<Tool>>(j, c, "tools"@)
            &&& forms::kept_opt::<ToolChoice>(j, c, "toolChoice"@)
        },
{
    broadcast use crate::wire::group_lookup;

    create_message_params_names();
}

/// A `CreateMessageParams` is read from an array as from the object that names the items in turn.
pub proof fn create_message_params_by_place(a: Seq<JsonView>)
    ensures
        CreateMessageParams::canon(JsonView::Array(a)) == if a.len() <= 10 {
            CreateMessageParams::canon(forms::by_place(seq![
                "messages"@,
                "modelPreferences"@,
                "systemPrompt"@,
                "includeContext"@,
                "temperature"@,
                "maxTokens"@,
                "stopSequences"@,
                "metadata"@,
                "tools"@,
                "toolChoice"@,
            ], a))
        } else {
            None
        },
{
    create_message_params_names();
    let names = seq![
        "messages"@,
        "modelPreferences"@,
        "systemPrompt"@,
        "includeContext"@,
        "temperature"@,
        "maxTokens"@,
        "stopSequences"@,
        "metadata"@,
        "tools"@,
        "toolChoice"@,
    ];
    assert(names[0] == "messages"@);
    assert(names[1] == "modelPreferences"@);
    assert(names[2] == "systemPrompt"@);
    assert(names[3] == "includeContext"@);
    assert(names[4] == "temperature"@);
    assert(names[5] == "maxTokens"@);
    assert(names[6] == "stopSequences"@);
    assert(names[7] == "metadata"@);
    assert(names[8] == "tools"@);
    assert(names[9] == "toolChoice"@);
    if a.len() <= 10 {
        forms::found_by_place(names, a, 0);
        forms::found_by_place(names, a, 1);
        forms::found_by_place(names, a, 2);
        forms::found_by_place(names, a, 3);
        forms::found_by_place(names, a, 4);
        forms::found_by_place(names, a, 5);
        forms::found_by_place(names, a, 6);
        forms::found_by_place(names, a, 7);
        forms::found_by_place(names, a, 8);
        forms::found_by_place(names, a, 9);
    }
}

} // verus!
