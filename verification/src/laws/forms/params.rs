//! How the parameters of requests and notifications are written and read.
use vstd::prelude::*;

use crate::json::{Json, JsonView, NumberView};
use crate::jsonrpc::RequestId;
use crate::laws::forms;
use crate::protocol::params::{CallToolParams, CancelledNotificationParams, CompleteRequestParams, GetPromptParams, LoggingMessageNotificationParams, PaginatedParams, ProgressNotificationParams, ResourceUpdatedNotificationParams, SetLoggingLevelParams, UriParams};
use crate::types::completion::{CompleteReference, CompletionArgument, CompletionContext};
use crate::types::meta::{ProgressToken, RequestParamsMeta};
use crate::wire;
use crate::wire::{Real, Wire};

verus! {

proof fn call_tool_params_names()
    ensures
        "name"@.len() == 4,
        "arguments"@.len() == 9,
        "_meta"@.len() == 5,
{
    reveal_strlit("name");
    reveal_strlit("arguments");
    reveal_strlit("_meta");
}

/// A `CallToolParams` is written with each of its parts under its own name, and with nothing else.
pub proof fn call_tool_params_written(x: CallToolParams)
    ensures
        x.wire() is Object,
        x.wire().get("name"@) == Some(x.name.wire()),
        x.wire().get("arguments"@) == wire::opt(x.arguments),
        x.wire().get("_meta"@) == wire::opt(x.meta),
        forms::only_named(x.wire(), seq!["name"@, "arguments"@, "_meta"@]),
{
    broadcast use crate::wire::group_lookup;

    call_tool_params_names();
    let names = seq!["name"@, "arguments"@, "_meta"@];
    assert forall|k: Seq<char>| x.wire().get(k) is Some implies #[trigger] names.contains(k) by {
        if k != "name"@ && k != "arguments"@ && k != "_meta"@ {
            assert(x.wire().get(k) is None);
        }
        assert(names[0] == "name"@);
        assert(names[1] == "arguments"@);
        assert(names[2] == "_meta"@);
    }
}

/// A `CallToolParams` is read from an object exactly if each of its members can be read, and each part
/// is taken from the member of its name.
pub proof fn call_tool_params_read(j: JsonView)
    requires
        j is Object,
    ensures
        CallToolParams::canon(j) is Some <==> forms::fits::<String>(j, "name"@)
            && forms::fits_opt::<Json>(j, "arguments"@)
            && forms::fits_opt::<RequestParamsMeta>(j, "_meta"@),
        CallToolParams::canon(j) matches Some(c) ==> {
            &&& forms::kept::<String>(j, c, "name"@)
            &&& forms::kept_opt::<Json>(j, c, "arguments"@)
            &&& forms::kept_opt::<RequestParamsMeta>(j, c, "_meta"@)
        },
{
    broadcast use crate::wire::group_lookup;

    call_tool_params_names();
}

/// A `CallToolParams` is read from an array as from the object that names the items in turn.
pub proof fn call_tool_params_by_place(a: Seq<JsonView>)
    ensures
        CallToolParams::canon(JsonView::Array(a)) == if a.len() <= 3 {
            CallToolParams::canon(forms::by_place(seq!["name"@, "arguments"@, "_meta"@], a))
        } else {
            None
        },
{
    call_tool_params_names();
    let names = seq!["name"@, "arguments"@, "_meta"@];
    assert(names[0] == "name"@);
    assert(names[1] == "arguments"@);
    assert(names[2] == "_meta"@);
    if a.len() <= 3 {
        forms::found_by_place(names, a, 0);
        forms::found_by_place(names, a, 1);
        forms::found_by_place(names, a, 2);
    }
}

proof fn get_prompt_params_names()
    ensures
        "name"@.len() == 4,
        "arguments"@.len() == 9,
        "_meta"@.len() == 5,
{
    reveal_strlit("name");
    reveal_strlit("arguments");
    reveal_strlit("_meta");
}

/// A `GetPromptParams` is written with each of its parts under its own name, and with nothing else.
pub proof fn get_prompt_params_written(x: GetPromptParams)
    ensures
        x.wire() is Object,
        x.wire().get("name"@) == Some(x.name.wire()),
        x.wire().get("arguments"@) == wire::opt(x.arguments),
        x.wire().get("_meta"@) == wire::opt(x.meta),
        forms::only_named(x.wire(), seq!["name"@, "arguments"@, "_meta"@]),
{
    broadcast use crate::wire::group_lookup;

    get_prompt_params_names();
    let names = seq!["name"@, "arguments"@, "_meta"@];
    assert forall|k: Seq<char>| x.wire().get(k) is Some implies #[trigger] names.contains(k) by {
        if k != "name"@ && k != "arguments"@ && k != "_meta"@ {
            assert(x.wire().get(k) is None);
        }
        assert(names[0] == "name"@);
        assert(names[1] == "arguments"@);
        assert(names[2] == "_meta"@);
    }
}

/// A `GetPromptParams` is read from an object exactly if each of its members can be read, and each part
/// is taken from the member of its name.
pub proof fn get_prompt_params_read(j: JsonView)
    requires
        j is Object,
    ensures
        GetPromptParams::canon(j) is Some <==> forms::fits::<String>(j, "name"@)
            && forms::fits_opt::<Json>(j, "arguments"@)
            && forms::fits_opt::<RequestParamsMeta>(j, "_meta"@),
        GetPromptParams::canon(j) matches Some(c) ==> {
            &&& forms::kept::<String>(j, c, "name"@)
            &&& forms::kept_opt::<Json>(j, c, "arguments"@)
            &&& forms::kept_opt::<RequestParamsMeta>(j, c, "_meta"@)
        },
{
    broadcast use crate::wire::group_lookup;

    get_prompt_params_names();
}

/// A `GetPromptParams` is read from an array as from the object that names the items in turn.
pub proof fn get_prompt_params_by_place(a: Seq<JsonView>)
    ensures
        GetPromptParams::canon(JsonView::Array(a)) == if a.len() <= 3 {
            GetPromptParams::canon(forms::by_place(seq!["name"@, "arguments"@, "_meta"@], a))
        } else {
            None
        },
{
    get_prompt_params_names();
    let names = seq!["name"@, "arguments"@, "_meta"@];
    assert(names[0] == "name"@);
    assert(names[1] == "arguments"@);
    assert(names[2] == "_meta"@);
    if a.len() <= 3 {
        forms::found_by_place(names, a, 0);
        forms::found_by_place(names, a, 1);
        forms::found_by_place(names, a, 2);
    }
}

proof fn uri_params_names()
    ensures
        "uri"@.len() == 3,
        "_meta"@.len() == 5,
{
    reveal_strlit("uri");
    reveal_strlit("_meta");
}

/// A `UriParams` is written with each of its parts under its own name, and with nothing else.
pub proof fn uri_params_written(x: UriParams)
    ensures
        x.wire() is Object,
        x.wire().get("uri"@) == Some(x.uri.wire()),
        x.wire().get("_meta"@) == wire::opt(x.meta),
        forms::only_named(x.wire(), seq!["uri"@, "_meta"@]),
{
    broadcast use crate::wire::group_lookup;

    uri_params_names();
    let names = seq!["uri"@, "_meta"@];
    assert forall|k: Seq<char>| x.wire().get(k) is Some implies #[trigger] names.contains(k) by {
        if k != "uri"@ && k != "_meta"@ {
            assert(x.wire().get(k) is None);
        }
        assert(names[0] == "uri"@);
        assert(names[1] == "_meta"@);
    }
}

/// A `UriParams` is read from an object exactly if each of its members can be read, and each part
/// is taken from the member of its name.
pub proof fn uri_params_read(j: JsonView)
    requires
        j is Object,
    ensures
        UriParams::canon(j) is Some <==> forms::fits::<String>(j, "uri"@)
            && forms::fits_opt::<RequestParamsMeta>(j, "_meta"@),
        UriParams::canon(j) matches Some(c) ==> {
            &&& forms::kept::<String>(j, c, "uri"@)
            &&& forms::kept_opt::<RequestParamsMeta>(j, c, "_meta"@)
        },
{
    broadcast use crate::wire::group_lookup;

    uri_params_names();
}

/// A `UriParams` is read from an array as from the object that names the items in turn.
pub proof fn uri_params_by_place(a: Seq<JsonView>)
    ensures
        UriParams::canon(JsonView::Array(a)) == if a.len() <= 2 {
            UriParams::canon(forms::by_place(seq!["uri"@, "_meta"@], a))
        } else {
            None
        },
{
    uri_params_names();
    let names = seq!["uri"@, "_meta"@];
    assert(names[0] == "uri"@);
    assert(names[1] == "_meta"@);
    if a.len() <= 2 {
        forms::found_by_place(names, a, 0);
        forms::found_by_place(names, a, 1);
    }
}

proof fn paginated_params_names()
    ensures
        "cursor"@.len() == 6,
        "_meta"@.len() == 5,
{
    reveal_strlit("cursor");
    reveal_strlit("_meta");
}

/// A `PaginatedParams` is written with each of its parts under its own name, and with nothing else.
pub proof fn paginated_params_written(x: PaginatedParams)
    ensures
        x.wire() is Object,
        x.wire().get("cursor"@) == wire::opt(x.cursor),
        x.wire().get("_meta"@) == wire::opt(x.meta),
        forms::only_named(x.wire(), seq!["cursor"@, "_meta"@]),
{
    broadcast use crate::wire::group_lookup;

    paginated_params_names();
    let names = seq!["cursor"@, "_meta"@];
    assert forall|k: Seq<char>| x.wire().get(k) is Some implies #[trigger] names.contains(k) by {
        if k != "cursor"@ && k != "_meta"@ {
            assert(x.wire().get(k) is None);
        }
        assert(names[0] == "cursor"@);
        assert(names[1] == "_meta"@);
    }
}

/// A `PaginatedParams` is read from an object exactly if each of its members can be read, and each part
/// is taken from the member of its name.
pub proof fn paginated_params_read(j: JsonView)
    requires
        j is Object,
    ensures
        PaginatedParams::canon(j) is Some <==> forms::fits_opt::<String>(j, "cursor"@)
            && forms::fits_opt::<RequestParamsMeta>(j, "_meta"@),
        PaginatedParams::canon(j) matches Some(c) ==> {
            &&& forms::kept_opt::<String>(j, c, "cursor"@)
            &&& forms::kept_opt::<RequestParamsMeta>(j, c, "_meta"@)
        },
{
    broadcast use crate::wire::group_lookup;

    paginated_params_names();
}

/// A `PaginatedParams` is read from an array as from the object that names the items in turn.
pub proof fn paginated_params_by_place(a: Seq<JsonView>)
    ensures
        PaginatedParams::canon(JsonView::Array(a)) == if a.len() <= 2 {
            PaginatedParams::canon(forms::by_place(seq!["cursor"@, "_meta"@], a))
        } else {
            None
        },
{
    paginated_params_names();
    let names = seq!["cursor"@, "_meta"@];
    assert(names[0] == "cursor"@);
    assert(names[1] == "_meta"@);
    if a.len() <= 2 {
        forms::found_by_place(names, a, 0);
        forms::found_by_place(names, a, 1);
    }
}

/// A `SetLoggingLevelParams` is written with each of its parts under its own name, and with nothing else.
pub proof fn set_logging_level_params_written(x: SetLoggingLevelParams)
    ensures
        x.wire() is Object,
        x.wire().get("level"@) == Some(x.level.wire()),
        forms::only_named(x.wire(), seq!["level"@]),
{
    broadcast use crate::wire::group_lookup;

    let names = seq!["level"@];
    assert forall|k: Seq<char>| x.wire().get(k) is Some implies #[trigger] names.contains(k) by {
        if k != "level"@ {
            assert(x.wire().get(k) is None);
        }
        assert(names[0] == "level"@);
    }
}

/// A `SetLoggingLevelParams` is read from an object exactly if each of its members can be read, and each part
/// is taken from the member of its name.
pub proof fn set_logging_level_params_read(j: JsonView)
    requires
        j is Object,
    ensures
        SetLoggingLevelParams::canon(j) is Some <==> forms::fits::<String>(j, "level"@),
        SetLoggingLevelParams::canon(j) matches Some(c) ==> {
            &&& forms::kept::<String>(j, c, "level"@)
        },
{
    broadcast use crate::wire::group_lookup;

}

/// A `SetLoggingLevelParams` is read from an array as from the object that names the items in turn.
pub proof fn set_logging_level_params_by_place(a: Seq<JsonView>)
    ensures
        SetLoggingLevelParams::canon(JsonView::Array(a)) == if a.len() <= 1 {
            SetLoggingLevelParams::canon(forms::by_place(seq!["level"@], a))
        } else {
            None
        },
{
    let names = seq!["level"@];
    assert(names[0] == "level"@);
    if a.len() <= 1 {
        forms::found_by_place(names, a, 0);
    }
}

proof fn complete_request_params_names()
    ensures
        "ref"@.len() == 3,
        "argument"@.len() == 8,
        "context"@.len() == 7,
{
    reveal_strlit("ref");
    reveal_strlit("argument");
    reveal_strlit("context");
}

/// A `CompleteRequestParams` is written with each of its parts under its own name, and with nothing else.
pub proof fn complete_request_params_written(x: CompleteRequestParams)
    ensures
        x.wire() is Object,
        x.wire().get("ref"@) == Some(x.reference.wire()),
        x.wire().get("argument"@) == Some(x.argument.wire()),
        x.wire().get("context"@) == wire::opt(x.context),
        forms::only_named(x.wire(), seq!["ref"@, "argument"@, "context"@]),
{
    broadcast use crate::wire::group_lookup;

    complete_request_params_names();
    let names = seq!["ref"@, "argument"@, "context"@];
    assert forall|k: Seq<char>| x.wire().get(k) is Some implies #[trigger] names.contains(k) by {
        if k != "ref"@ && k != "argument"@ && k != "context"@ {
            assert(x.wire().get(k) is None);
        }
        assert(names[0] == "ref"@);
        assert(names[1] == "argument"@);
        assert(names[2] == "context"@);
    }
}

/// A `CompleteRequestParams` is read from an object exactly if each of its members can be read, and each part
/// is taken from the member of its name.
pub proof fn complete_request_params_read(j: JsonView)
    requires
        j is Object,
    ensures
        CompleteRequestParams::canon(j) is Some <==> forms::fits::<CompleteReference>(j, "ref"@)
            && forms::fits::<CompletionArgument>(j, "argument"@)
            && forms::fits_opt::<CompletionContext>(j, "context"@),
        CompleteRequestParams::canon(j) matches Some(c) ==> {
            &&& forms::kept::<CompleteReference>(j, c, "ref"@)
            &&& forms::kept::<CompletionArgument>(j, c, "argument"@)
            &&& forms::kept_opt::<CompletionContext>(j, c, "context"@)
        },
{
    broadcast use crate::wire::group_lookup;

    complete_request_params_names();
}

/// A `CompleteRequestParams` is read from an array as from the object that names the items in turn.
pub proof fn complete_request_params_by_place(a: Seq<JsonView>)
    ensures
        CompleteRequestParams::canon(JsonView::Array(a)) == if a.len() <= 3 {
            CompleteRequestParams::canon(forms::by_place(seq!["ref"@, "argument"@, "context"@], a))
        } else {
            None
        },
{
    complete_request_params_names();
    let names = seq!["ref"@, "argument"@, "context"@];
    assert(names[0] == "ref"@);
    assert(names[1] == "argument"@);
    assert(names[2] == "context"@);
    if a.len() <= 3 {
        forms::found_by_place(names, a, 0);
        forms::found_by_place(names, a, 1);
        forms::found_by_place(names, a, 2);
    }
}

proof fn cancelled_notification_params_names()
    ensures
        "requestId"@.len() == 9,
        "reason"@.len() == 6,
{
    reveal_strlit("requestId");
    reveal_strlit("reason");
}

/// A `CancelledNotificationParams` is written with each of its parts under its own name, and with nothing else.
pub proof fn cancelled_notification_params_written(x: CancelledNotificationParams)
    ensures
        x.wire() is Object,
        x.wire().get("requestId"@) == Some(x.request_id.wire()),
        x.wire().get("reason"@) == Some(x.reason.wire()),
        forms::only_named(x.wire(), seq!["requestId"@, "reason"@]),
{
    broadcast use crate::wire::group_lookup;

    cancelled_notification_params_names();
    let names = seq!["requestId"@, "reason"@];
    assert forall|k: Seq<char>| x.wire().get(k) is Some implies #[trigger] names.contains(k) by {
        if k != "requestId"@ && k != "reason"@ {
            assert(x.wire().get(k) is None);
        }
        assert(names[0] == "requestId"@);
        assert(names[1] == "reason"@);
    }
}

/// A `CancelledNotificationParams` is read from an object exactly if each of its members can be read, and each part
/// is taken from the member of its name.
pub proof fn cancelled_notification_params_read(j: JsonView)
    requires
        j is Object,
    ensures
        CancelledNotificationParams::canon(j) is Some <==> forms::fits::<RequestId>(j, "requestId"@)
            && forms::fits_opt_not_null::<String>(j, "reason"@),
        CancelledNotificationParams::canon(j) matches Some(c) ==> {
            &&& forms::kept::<RequestId>(j, c, "requestId"@)
            &&& forms::kept_or::<String>(j, c, "reason"@, JsonView::String(seq![]))
        },
{
    broadcast use crate::wire::group_lookup;

    cancelled_notification_params_names();
}

/// A `CancelledNotificationParams` is read from an array as from the object that names the items in turn.
pub proof fn cancelled_notification_params_by_place(a: Seq<JsonView>)
    ensures
        CancelledNotificationParams::canon(JsonView::Array(a)) == if a.len() <= 2 {
            CancelledNotificationParams::canon(forms::by_place(seq!["requestId"@, "reason"@], a))
        } else {
            None
        },
{
    cancelled_notification_params_names();
    let names = seq!["requestId"@, "reason"@];
    assert(names[0] == "requestId"@);
    assert(names[1] == "reason"@);
    if a.len() <= 2 {
        forms::found_by_place(names, a, 0);
        forms::found_by_place(names, a, 1);
    }
}

proof fn progress_notification_params_names()
    ensures
        "progressToken"@.len() == 13,
        "progress"@.len() == 8,
        "total"@.len() == 5,
        "message"@.len() == 7,
{
    reveal_strlit("progressToken");
    reveal_strlit("progress");
    reveal_strlit("total");
    reveal_strlit("message");
}

/// A `ProgressNotificationParams` is written with each of its parts under its own name, and with nothing else.
pub proof fn progress_notification_params_written(x: ProgressNotificationParams)
    ensures
        x.wire() is Object,
        x.wire().get("progressToken"@) == Some(x.progress_token.wire()),
        x.wire().get("progress"@) == Some(x.progress.wire()),
        x.wire().get("total"@) == wire::opt(x.total),
        x.wire().get("message"@) == wire::opt(x.message),
        forms::only_named(x.wire(), seq!["progressToken"@, "progress"@, "total"@, "message"@]),
{
    broadcast use crate::wire::group_lookup;

    progress_notification_params_names();
    let names = seq!["progressToken"@, "progress"@, "total"@, "message"@];
    assert forall|k: Seq<char>| x.wire().get(k) is Some implies #[trigger] names.contains(k) by {
        if k != "progressToken"@ && k != "progress"@ && k != "total"@ && k != "message"@ {
            assert(x.wire().get(k) is None);
        }
        assert(names[0] == "progressToken"@);
        assert(names[1] == "progress"@);
        assert(names[2] == "total"@);
        assert(names[3] == "message"@);
    }
}

/// A `ProgressNotificationParams` is read from an object exactly if each of its members can be read, and each part
/// is taken from the member of its name.
pub proof fn progress_notification_params_read(j: JsonView)
    requires
        j is Object,
    ensures
        ProgressNotificationParams::canon(j) is Some <==> forms::fits::<ProgressToken>(j, "progressToken"@)
            && forms::fits_opt_not_null::<Real>(j, "progress"@)
            && forms::fits_opt::<Real>(j, "total"@)
            && forms::fits_opt::<String>(j, "message"@),
        ProgressNotificationParams::canon(j) matches Some(c) ==> {
            &&& forms::kept::<ProgressToken>(j, c, "progressToken"@)
            &&& forms::kept_or::<Real>(j, c, "progress"@, JsonView::Number(NumberView::Double(0)))
            &&& forms::kept_opt::<Real>(j, c, "total"@)
            &&& forms::kept_opt::<String>(j, c, "message"@)
        },
{
    broadcast use crate::wire::group_lookup;

    progress_notification_params_names();
}

/// A `ProgressNotificationParams` is read from an array as from the object that names the items in turn.
pub proof fn progress_notification_params_by_place(a: Seq<JsonView>)
    ensures
        ProgressNotificationParams::canon(JsonView::Array(a)) == if a.len() <= 4 {
            ProgressNotificationParams::canon(forms::by_place(seq!["progressToken"@, "progress"@, "total"@, "message"@], a))
        } else {
            None
        },
{
    progress_notification_params_names();
    let names = seq!["progressToken"@, "progress"@, "total"@, "message"@];
    assert(names[0] == "progressToken"@);
    assert(names[1] == "progress"@);
    assert(names[2] == "total"@);
    assert(names[3] == "message"@);
    if a.len() <= 4 {
        forms::found_by_place(names, a, 0);
        forms::found_by_place(names, a, 1);
        forms::found_by_place(names, a, 2);
        forms::found_by_place(names, a, 3);
    }
}

proof fn logging_message_notification_params_names()
    ensures
        "level"@.len() == 5,
        "logger"@.len() == 6,
        "data"@.len() == 4,
{
    reveal_strlit("level");
    reveal_strlit("logger");
    reveal_strlit("data");
}

/// A `LoggingMessageNotificationParams` is written with each of its parts under its own name, and with nothing else.
pub proof fn logging_message_notification_params_written(x: LoggingMessageNotificationParams)
    ensures
        x.wire() is Object,
        x.wire().get("level"@) == Some(x.level.wire()),
        x.wire().get("logger"@) == Some(x.logger.wire()),
        x.wire().get("data"@) == Some(x.data.wire()),
        forms::only_named(x.wire(), seq!["level"@, "logger"@, "data"@]),
{
    broadcast use crate::wire::group_lookup;

    logging_message_notification_params_names();
    let names = seq!["level"@, "logger"@, "data"@];
    assert forall|k: Seq<char>| x.wire().get(k) is Some implies #[trigger] names.contains(k) by {
        if k != "level"@ && k != "logger"@ && k != "data"@ {
            assert(x.wire().get(k) is None);
        }
        assert(names[0] == "level"@);
        assert(names[1] == "logger"@);
        assert(names[2] == "data"@);
    }
}

/// A `LoggingMessageNotificationParams` is read from an object exactly if each of its members can be read, and each part
/// is taken from the member of its name.
pub proof fn logging_message_notification_params_read(j: JsonView)
    requires
        j is Object,
    ensures
        LoggingMessageNotificationParams::canon(j) is Some <==> forms::fits_opt_not_null::<String>(j, "level"@)
            && forms::fits_opt_not_null::<String>(j, "logger"@)
            && forms::fits_opt_not_null::<Json>(j, "data"@),
        LoggingMessageNotificationParams::canon(j) matches Some(c) ==> {
            &&& forms::kept_or::<String>(j, c, "level"@, JsonView::String(seq![]))
            &&& forms::kept_or::<String>(j, c, "logger"@, JsonView::String(seq![]))
            &&& forms::kept_or::<Json>(j, c, "data"@, JsonView::Null)
        },
{
    broadcast use crate::wire::group_lookup;

    logging_message_notification_params_names();
}

/// A `LoggingMessageNotificationParams` is read from an array as from the object that names the items in turn.
pub proof fn logging_message_notification_params_by_place(a: Seq<JsonView>)
    ensures
        LoggingMessageNotificationParams::canon(JsonView::Array(a)) == if a.len() <= 3 {
            LoggingMessageNotificationParams::canon(forms::by_place(seq!["level"@, "logger"@, "data"@], a))
        } else {
            None
        },
{
    logging_message_notification_params_names();
    let names = seq!["level"@, "logger"@, "data"@];
    assert(names[0] == "level"@);
    assert(names[1] == "logger"@);
    assert(names[2] == "data"@);
    if a.len() <= 3 {
        forms::found_by_place(names, a, 0);
        forms::found_by_place(names, a, 1);
        forms::found_by_place(names, a, 2);
    }
}

/// A `ResourceUpdatedNotificationParams` is written with each of its parts under its own name, and with nothing else.
pub proof fn resource_updated_notification_params_written(x: ResourceUpdatedNotificationParams)
    ensures
        x.wire() is Object,
        x.wire().get("uri"@) == Some(x.uri.wire()),
        forms::only_named(x.wire(), seq!["uri"@]),
{
    broadcast use crate::wire::group_lookup;

    let names = seq!["uri"@];
    assert forall|k: Seq<char>| x.wire().get(k) is Some implies #[trigger] names.contains(k) by {
        if k != "uri"@ {
            assert(x.wire().get(k) is None);
        }
        assert(names[0] == "uri"@);
    }
}

/// A `ResourceUpdatedNotificationParams` is read from an object exactly if each of its members can be read, and each part
/// is taken from the member of its name.
pub proof fn resource_updated_notification_params_read(j: JsonView)
    requires
        j is Object,
    ensures
        ResourceUpdatedNotificationParams::canon(j) is Some <==> forms::fits_opt_not_null::<String>(j, "uri"@),
        ResourceUpdatedNotificationParams::canon(j) matches Some(c) ==> {
            &&& forms::kept_or::<String>(j, c, "uri"@, JsonView::String(seq![]))
        },
{
    broadcast use crate::wire::group_lookup;

}

/// A `ResourceUpdatedNotificationParams` is read from an array as from the object that names the items in turn.
pub proof fn resource_updated_notification_params_by_place(a: Seq<JsonView>)
    ensures
        ResourceUpdatedNotificationParams::canon(JsonView::Array(a)) == if a.len() <= 1 {
            ResourceUpdatedNotificationParams::canon(forms::by_place(seq!["uri"@], a))
        } else {
            None
        },
{
    let names = seq!["uri"@];
    assert(names[0] == "uri"@);
    if a.len() <= 1 {
        forms::found_by_place(names, a, 0);
    }
}

} // verus!
