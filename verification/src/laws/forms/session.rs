//! How what opens a session are written and read.
use vstd::prelude::*;

use crate::json::JsonView;
use crate::laws::forms;
use crate::types::capabilities::{ClientCapabilities, ServerCapabilities};
use crate::types::content::Icon;
use crate::types::meta::RequestParamsMeta;
use crate::types::session::{ElicitResult, EmptyResult, Implementation, InitializeRequestParams, InitializeResult, ListRootsResult, Root};
use crate::wire;
use crate::wire::{MetaMap, Wire};

verus! {

proof fn implementation_names()
    ensures
        "name"@.len() == 4,
        "title"@.len() == 5,
        "version"@.len() == 7,
        "websiteUrl"@.len() == 10,
        "icons"@.len() == 5,
        "title"@[0] != "icons"@[0],
{
    reveal_strlit("name");
    reveal_strlit("title");
    reveal_strlit("version");
    reveal_strlit("websiteUrl");
    reveal_strlit("icons");
}

/// A `Implementation` is written with each of its parts under its own name, and with nothing else.
pub proof fn implementation_written(x: Implementation)
    ensures
        x.wire() is Object,
        x.wire().get("name"@) == Some(x.name.wire()),
        x.wire().get("title"@) == wire::opt(x.title),
        x.wire().get("version"@) == Some(x.version.wire()),
        x.wire().get("websiteUrl"@) == wire::opt(x.website_url),
        x.wire().get("icons"@) == wire::opt(x.icons),
        forms::only_named(x.wire(), seq!["name"@, "title"@, "version"@, "websiteUrl"@, "icons"@]),
{
    broadcast use crate::wire::group_lookup;

    implementation_names();
    let names = seq!["name"@, "title"@, "version"@, "websiteUrl"@, "icons"@];
    assert forall|k: Seq<char>| x.wire().get(k) is Some implies #[trigger] names.contains(k) by {
        if k != "name"@
            && k != "title"@
            && k != "version"@
            && k != "websiteUrl"@
            && k != "icons"@ {
            assert(x.wire().get(k) is None);
        }
        assert(names[0] == "name"@);
        assert(names[1] == "title"@);
        assert(names[2] == "version"@);
        assert(names[3] == "websiteUrl"@);
        assert(names[4] == "icons"@);
    }
}

/// A `Implementation` is read from an object exactly if each of its members can be read, and each part
/// is taken from the member of its name.
pub proof fn implementation_read(j: JsonView)
    requires
        j is Object,
    ensures
        Implementation::canon(j) is Some <==> forms::fits_opt_not_null::<String>(j, "name"@)
            && forms::fits_opt::<String>(j, "title"@)
            && forms::fits_opt_not_null::<String>(j, "version"@)
            && forms::fits_opt::<String>(j, "websiteUrl"@)
            && forms::fits_opt::<Vec<Icon>>(j, "icons"@),
        Implementation::canon(j) matches Some(c) ==> {
            &&& forms::kept_or::<String>(j, c, "name"@, JsonView::String(seq![]))
            &&& forms::kept_opt::<String>(j, c, "title"@)
            &&& forms::kept_or::<String>(j, c, "version"@, JsonView::String(seq![]))
            &&& forms::kept_opt::<String>(j, c, "websiteUrl"@)
            &&& forms::kept_opt::<Vec<Icon>>(j, c, "icons"@)
        },
{
    broadcast use crate::wire::group_lookup;

    implementation_names();
}

/// A `Implementation` is read from an array as from the object that names the items in turn.
pub proof fn implementation_by_place(a: Seq<JsonView>)
    ensures
        Implementation::canon(JsonView::Array(a)) == if a.len() <= 5 {
            Implementation::canon(forms::by_place(seq!["name"@, "title"@, "version"@, "websiteUrl"@, "icons"@], a))
        } else {
            None
        },
{
    implementation_names();
    let names = seq!["name"@, "title"@, "version"@, "websiteUrl"@, "icons"@];
    assert(names[0] == "name"@);
    assert(names[1] == "title"@);
    assert(names[2] == "version"@);
    assert(names[3] == "websiteUrl"@);
    assert(names[4] == "icons"@);
    if a.len() <= 5 {
        forms::found_by_place(names, a, 0);
        forms::found_by_place(names, a, 1);
        forms::found_by_place(names, a, 2);
        forms::found_by_place(names, a, 3);
        forms::found_by_place(names, a, 4);
    }
}

proof fn initialize_result_names()
    ensures
        "protocolVersion"@.len() == 15,
        "capabilities"@.len() == 12,
        "serverInfo"@.len() == 10,
        "instructions"@.len() == 12,
        "_meta"@.len() == 5,
        "capabilities"@[0] != "instructions"@[0],
{
    reveal_strlit("protocolVersion");
    reveal_strlit("capabilities");
    reveal_strlit("serverInfo");
    reveal_strlit("instructions");
    reveal_strlit("_meta");
}

/// A `InitializeResult` is written with each of its parts under its own name, and with nothing else.
pub proof fn initialize_result_written(x: InitializeResult)
    ensures
        x.wire() is Object,
        x.wire().get("protocolVersion"@) == Some(x.protocol_version.wire()),
        x.wire().get("capabilities"@) == Some(x.capabilities.wire()),
        x.wire().get("serverInfo"@) == Some(x.server_info.wire()),
        x.wire().get("instructions"@) == wire::opt(x.instructions),
        x.wire().get("_meta"@) == wire::opt(x.meta),
        forms::only_named(x.wire(), seq![
            "protocolVersion"@,
            "capabilities"@,
            "serverInfo"@,
            "instructions"@,
            "_meta"@,
        ]),
{
    broadcast use crate::wire::group_lookup;

    initialize_result_names();
    let names = seq!["protocolVersion"@, "capabilities"@, "serverInfo"@, "instructions"@, "_meta"@];
    assert forall|k: Seq<char>| x.wire().get(k) is Some implies #[trigger] names.contains(k) by {
        if k != "protocolVersion"@
            && k != "capabilities"@
            && k != "serverInfo"@
            && k != "instructions"@
            && k != "_meta"@ {
            assert(x.wire().get(k) is None);
        }
        assert(names[0] == "protocolVersion"@);
        assert(names[1] == "capabilities"@);
        assert(names[2] == "serverInfo"@);
        assert(names[3] == "instructions"@);
        assert(names[4] == "_meta"@);
    }
}

/// A `InitializeResult` is read from an object exactly if each of its members can be read, and each part
/// is taken from the member of its name.
pub proof fn initialize_result_read(j: JsonView)
    requires
        j is Object,
    ensures
        InitializeResult::canon(j) is Some <==> forms::fits_opt_not_null::<String>(j, "protocolVersion"@)
            && forms::fits_opt_not_null::<ServerCapabilities>(j, "capabilities"@)
            && forms::fits_opt_not_null::<Implementation>(j, "serverInfo"@)
            && forms::fits_opt::<String>(j, "instructions"@)
            && forms::fits_opt::<MetaMap>(j, "_meta"@),
        InitializeResult::canon(j) matches Some(c) ==> {
            &&& forms::kept_or::<String>(j, c, "protocolVersion"@, JsonView::String("2025-03-26"@))
            &&& forms::kept_or::<ServerCapabilities>(j, c, "capabilities"@, JsonView::Object(seq![]))
            &&& forms::kept_or::<Implementation>(j, c, "serverInfo"@, forms::nameless())
            &&& forms::kept_opt::<String>(j, c, "instructions"@)
            &&& forms::kept_opt::<MetaMap>(j, c, "_meta"@)
        },
{
    broadcast use crate::wire::group_lookup;

    initialize_result_names();
    forms::nameless_form();
}

/// A `InitializeResult` is read from an array as from the object that names the items in turn.
pub proof fn initialize_result_by_place(a: Seq<JsonView>)
    ensures
        InitializeResult::canon(JsonView::Array(a)) == if a.len() <= 5 {
            InitializeResult::canon(forms::by_place(seq![
                "protocolVersion"@,
                "capabilities"@,
                "serverInfo"@,
                "instructions"@,
                "_meta"@,
            ], a))
        } else {
            None
        },
{
    initialize_result_names();
    let names = seq!["protocolVersion"@, "capabilities"@, "serverInfo"@, "instructions"@, "_meta"@];
    assert(names[0] == "protocolVersion"@);
    assert(names[1] == "capabilities"@);
    assert(names[2] == "serverInfo"@);
    assert(names[3] == "instructions"@);
    assert(names[4] == "_meta"@);
    if a.len() <= 5 {
        forms::found_by_place(names, a, 0);
        forms::found_by_place(names, a, 1);
        forms::found_by_place(names, a, 2);
        forms::found_by_place(names, a, 3);
        forms::found_by_place(names, a, 4);
    }
}

proof fn initialize_request_params_names()
    ensures
        "protocolVersion"@.len() == 15,
        "capabilities"@.len() == 12,
        "clientInfo"@.len() == 10,
        "_meta"@.len() == 5,
{
    reveal_strlit("protocolVersion");
    reveal_strlit("capabilities");
    reveal_strlit("clientInfo");
    reveal_strlit("_meta");
}

/// A `InitializeRequestParams` is written with each of its parts under its own name, and with nothing else.
pub proof fn initialize_request_params_written(x: InitializeRequestParams)
    ensures
        x.wire() is Object,
        x.wire().get("protocolVersion"@) == Some(x.protocol_version.wire()),
        x.wire().get("capabilities"@) == Some(x.capabilities.wire()),
        x.wire().get("clientInfo"@) == Some(x.client_info.wire()),
        x.wire().get("_meta"@) == wire::opt(x.meta),
        forms::only_named(x.wire(), seq!["protocolVersion"@, "capabilities"@, "clientInfo"@, "_meta"@]),
{
    broadcast use crate::wire::group_lookup;

    initialize_request_params_names();
    let names = seq!["protocolVersion"@, "capabilities"@, "clientInfo"@, "_meta"@];
    assert forall|k: Seq<char>| x.wire().get(k) is Some implies #[trigger] names.contains(k) by {
        if k != "protocolVersion"@
            && k != "capabilities"@
            && k != "clientInfo"@
            && k != "_meta"@ {
            assert(x.wire().get(k) is None);
        }
        assert(names[0] == "protocolVersion"@);
        assert(names[1] == "capabilities"@);
        assert(names[2] == "clientInfo"@);
        assert(names[3] == "_meta"@);
    }
}

/// A `InitializeRequestParams` is read from an object exactly if each of its members can be read, and each part
/// is taken from the member of its name.
pub proof fn initialize_request_params_read(j: JsonView)
    requires
        j is Object,
    ensures
        InitializeRequestParams::canon(j) is Some <==> forms::fits_opt_not_null::<String>(j, "protocolVersion"@)
            && forms::fits_opt_not_null::<ClientCapabilities>(j, "capabilities"@)
            && forms::fits_opt_not_null::<Implementation>(j, "clientInfo"@)
            && forms::fits_opt::<RequestParamsMeta>(j, "_meta"@),
        InitializeRequestParams::canon(j) matches Some(c) ==> {
            &&& forms::kept_or::<String>(j, c, "protocolVersion"@, JsonView::String("2025-03-26"@))
            &&& forms::kept_or::<ClientCapabilities>(j, c, "capabilities"@, JsonView::Object(seq![]))
            &&& forms::kept_or::<Implementation>(j, c, "clientInfo"@, forms::nameless())
            &&& forms::kept_opt::<RequestParamsMeta>(j, c, "_meta"@)
        },
{
    broadcast use crate::wire::group_lookup;

    initialize_request_params_names();
    forms::nameless_form();
}

/// A `InitializeRequestParams` is read from an array as from the object that names the items in turn.
pub proof fn initialize_request_params_by_place(a: Seq<JsonView>)
    ensures
        InitializeRequestParams::canon(JsonView::Array(a)) == if a.len() <= 4 {
            InitializeRequestParams::canon(forms::by_place(seq!["protocolVersion"@, "capabilities"@, "clientInfo"@, "_meta"@], a))
        } else {
            None
        },
{
    initialize_request_params_names();
    let names = seq!["protocolVersion"@, "capabilities"@, "clientInfo"@, "_meta"@];
    assert(names[0] == "protocolVersion"@);
    assert(names[1] == "capabilities"@);
    assert(names[2] == "clientInfo"@);
    assert(names[3] == "_meta"@);
    if a.len() <= 4 {
        forms::found_by_place(names, a, 0);
        forms::found_by_place(names, a, 1);
        forms::found_by_place(names, a, 2);
        forms::found_by_place(names, a, 3);
    }
}

proof fn root_names()
    ensures
        "name"@.len() == 4,
        "uri"@.len() == 3,
{
    reveal_strlit("name");
    reveal_strlit("uri");
}

/// A `Root` is written with each of its parts under its own name, and with nothing else.
pub proof fn root_written(x: Root)
    ensures
        x.wire() is Object,
        x.wire().get("name"@) == wire::opt(x.name),
        x.wire().get("uri"@) == Some(x.uri.wire()),
        forms::only_named(x.wire(), seq!["name"@, "uri"@]),
{
    broadcast use crate::wire::group_lookup;

    root_names();
    let names = seq!["name"@, "uri"@];
    assert forall|k: Seq<char>| x.wire().get(k) is Some implies #[trigger] names.contains(k) by {
        if k != "name"@ && k != "uri"@ {
            assert(x.wire().get(k) is None);
        }
        assert(names[0] == "name"@);
        assert(names[1] == "uri"@);
    }
}

/// A `Root` is read from an object exactly if each of its members can be read, and each part
/// is taken from the member of its name.
pub proof fn root_read(j: JsonView)
    requires
        j is Object,
    ensures
        Root::canon(j) is Some <==> forms::fits_opt::<String>(j, "name"@)
            && forms::fits::<String>(j, "uri"@),
        Root::canon(j) matches Some(c) ==> {
            &&& forms::kept_opt::<String>(j, c, "name"@)
            &&& forms::kept::<String>(j, c, "uri"@)
        },
{
    broadcast use crate::wire::group_lookup;

    root_names();
}

/// A `Root` is read from an array as from the object that names the items in turn.
pub proof fn root_by_place(a: Seq<JsonView>)
    ensures
        Root::canon(JsonView::Array(a)) == if a.len() <= 2 {
            Root::canon(forms::by_place(seq!["name"@, "uri"@], a))
        } else {
            None
        },
{
    root_names();
    let names = seq!["name"@, "uri"@];
    assert(names[0] == "name"@);
    assert(names[1] == "uri"@);
    if a.len() <= 2 {
        forms::found_by_place(names, a, 0);
        forms::found_by_place(names, a, 1);
    }
}

proof fn list_roots_result_names()
    ensures
        "roots"@.len() == 5,
        "_meta"@.len() == 5,
        "roots"@[0] != "_meta"@[0],
{
    reveal_strlit("roots");
    reveal_strlit("_meta");
}

/// A `ListRootsResult` is written with each of its parts under its own name, and with nothing else.
pub proof fn list_roots_result_written(x: ListRootsResult)
    ensures
        x.wire() is Object,
        x.wire().get("roots"@) == Some(x.roots.wire()),
        x.wire().get("_meta"@) == wire::opt(x.meta),
        forms::only_named(x.wire(), seq!["roots"@, "_meta"@]),
{
    broadcast use crate::wire::group_lookup;

    list_roots_result_names();
    let names = seq!["roots"@, "_meta"@];
    assert forall|k: Seq<char>| x.wire().get(k) is Some implies #[trigger] names.contains(k) by {
        if k != "roots"@ && k != "_meta"@ {
            assert(x.wire().get(k) is None);
        }
        assert(names[0] == "roots"@);
        assert(names[1] == "_meta"@);
    }
}

/// A `ListRootsResult` is read from an object exactly if each of its members can be read, and each part
/// is taken from the member of its name.
pub proof fn list_roots_result_read(j: JsonView)
    requires
        j is Object,
    ensures
        ListRootsResult::canon(j) is Some <==> forms::fits_opt_not_null::<Vec<Root>>(j, "roots"@)
            && forms::fits_opt::<MetaMap>(j, "_meta"@),
        ListRootsResult::canon(j) matches Some(c) ==> {
            &&& forms::kept_or::<Vec<Root>>(j, c, "roots"@, JsonView::Array(seq![]))
            &&& forms::kept_opt::<MetaMap>(j, c, "_meta"@)
        },
{
    broadcast use crate::wire::group_lookup;

    list_roots_result_names();
}

/// A `ListRootsResult` is read from an array as from the object that names the items in turn.
pub proof fn list_roots_result_by_place(a: Seq<JsonView>)
    ensures
        ListRootsResult::canon(JsonView::Array(a)) == if a.len() <= 2 {
            ListRootsResult::canon(forms::by_place(seq!["roots"@, "_meta"@], a))
        } else {
            None
        },
{
    list_roots_result_names();
    let names = seq!["roots"@, "_meta"@];
    assert(names[0] == "roots"@);
    assert(names[1] == "_meta"@);
    if a.len() <= 2 {
        forms::found_by_place(names, a, 0);
        forms::found_by_place(names, a, 1);
    }
}

proof fn elicit_result_names()
    ensures
        "action"@.len() == 6,
        "content"@.len() == 7,
        "_meta"@.len() == 5,
{
    reveal_strlit("action");
    reveal_strlit("content");
    reveal_strlit("_meta");
}

/// A `ElicitResult` is written with each of its parts under its own name, and with nothing else.
pub proof fn elicit_result_written(x: ElicitResult)
    ensures
        x.wire() is Object,
        x.wire().get("action"@) == Some(x.action.wire()),
        x.wire().get("content"@) == Some(x.content.wire()),
        x.wire().get("_meta"@) == wire::opt(x.meta),
        forms::only_named(x.wire(), seq!["action"@, "content"@, "_meta"@]),
{
    broadcast use crate::wire::group_lookup;

    elicit_result_names();
    let names = seq!["action"@, "content"@, "_meta"@];
    assert forall|k: Seq<char>| x.wire().get(k) is Some implies #[trigger] names.contains(k) by {
        if k != "action"@ && k != "content"@ && k != "_meta"@ {
            assert(x.wire().get(k) is None);
        }
        assert(names[0] == "action"@);
        assert(names[1] == "content"@);
        assert(names[2] == "_meta"@);
    }
}

/// A `ElicitResult` is read from an object exactly if each of its members can be read, and each part
/// is taken from the member of its name.
pub proof fn elicit_result_read(j: JsonView)
    requires
        j is Object,
    ensures
        ElicitResult::canon(j) is Some <==> forms::fits_opt_not_null::<String>(j, "action"@)
            && forms::fits_opt_not_null::<MetaMap>(j, "content"@)
            && forms::fits_opt::<MetaMap>(j, "_meta"@),
        ElicitResult::canon(j) matches Some(c) ==> {
            &&& forms::kept_or::<String>(j, c, "action"@, JsonView::String(seq![]))
            &&& forms::kept_or::<MetaMap>(j, c, "content"@, JsonView::Object(seq![]))
            &&& forms::kept_opt::<MetaMap>(j, c, "_meta"@)
        },
{
    broadcast use crate::wire::group_lookup;

    elicit_result_names();
}

/// A `ElicitResult` is read from an array as from the object that names the items in turn.
pub proof fn elicit_result_by_place(a: Seq<JsonView>)
    ensures
        ElicitResult::canon(JsonView::Array(a)) == if a.len() <= 3 {
            ElicitResult::canon(forms::by_place(seq!["action"@, "content"@, "_meta"@], a))
        } else {
            None
        },
{
    elicit_result_names();
    let names = seq!["action"@, "content"@, "_meta"@];
    assert(names[0] == "action"@);
    assert(names[1] == "content"@);
    assert(names[2] == "_meta"@);
    if a.len() <= 3 {
        forms::found_by_place(names, a, 0);
        forms::found_by_place(names, a, 1);
        forms::found_by_place(names, a, 2);
    }
}

/// A `EmptyResult` is written with each of its parts under its own name, and with nothing else.
pub proof fn empty_result_written(x: EmptyResult)
    ensures
        x.wire() is Object,
        x.wire().get("_meta"@) == wire::opt(x.meta),
        forms::only_named(x.wire(), seq!["_meta"@]),
{
    broadcast use crate::wire::group_lookup;

    let names = seq!["_meta"@];
    assert forall|k: Seq<char>| x.wire().get(k) is Some implies #[trigger] names.contains(k) by {
        if k != "_meta"@ {
            assert(x.wire().get(k) is None);
        }
        assert(names[0] == "_meta"@);
    }
}

/// A `EmptyResult` is read from an object exactly if each of its members can be read, and each part
/// is taken from the member of its name.
pub proof fn empty_result_read(j: JsonView)
    requires
        j is Object,
    ensures
        EmptyResult::canon(j) is Some <==> forms::fits_opt::<MetaMap>(j, "_meta"@),
        EmptyResult::canon(j) matches Some(c) ==> {
            &&& forms::kept_opt::<MetaMap>(j, c, "_meta"@)
        },
{
    broadcast use crate::wire::group_lookup;

}

/// A `EmptyResult` is read from an array as from the object that names the items in turn.
pub proof fn empty_result_by_place(a: Seq<JsonView>)
    ensures
        EmptyResult::canon(JsonView::Array(a)) == if a.len() <= 1 {
            EmptyResult::canon(forms::by_place(seq!["_meta"@], a))
        } else {
            None
        },
{
    let names = seq!["_meta"@];
    assert(names[0] == "_meta"@);
    if a.len() <= 1 {
        forms::found_by_place(names, a, 0);
    }
}

} // verus!
