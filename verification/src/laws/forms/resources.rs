//! How resources are written and read.
use vstd::prelude::*;

use crate::json::JsonView;
use crate::laws::forms;
use crate::types::content::{Annotations, Icon, ResourceContents};
use crate::types::resources::{ListResourceTemplatesResult, ListResourcesResult, ReadResourceResult, ResourceInfo, ResourceTemplate};
use crate::wire;
use crate::wire::{MetaMap, Wire};

verus! {

proof fn resource_info_names()
    ensures
        "uri"@.len() == 3,
        "name"@.len() == 4,
        "title"@.len() == 5,
        "description"@.len() == 11,
        "mimeType"@.len() == 8,
        "size"@.len() == 4,
        "icons"@.len() == 5,
        "annotations"@.len() == 11,
        "name"@[0] != "size"@[0],
        "title"@[0] != "icons"@[0],
        "description"@[0] != "annotations"@[0],
{
    reveal_strlit("uri");
    reveal_strlit("name");
    reveal_strlit("title");
    reveal_strlit("description");
    reveal_strlit("mimeType");
    reveal_strlit("size");
    reveal_strlit("icons");
    reveal_strlit("annotations");
}

/// A `ResourceInfo` is written with each of its parts under its own name, and with nothing else.
pub proof fn resource_info_written(x: ResourceInfo)
    ensures
        x.wire() is Object,
        x.wire().get("uri"@) == Some(x.uri.wire()),
        x.wire().get("name"@) == Some(x.name.wire()),
        x.wire().get("title"@) == wire::opt(x.title),
        x.wire().get("description"@) == wire::opt(x.description),
        x.wire().get("mimeType"@) == wire::opt(x.mime_type),
        x.wire().get("size"@) == wire::opt(x.size),
        x.wire().get("icons"@) == wire::opt(x.icons),
        x.wire().get("annotations"@) == wire::opt(x.annotations),
        forms::only_named(x.wire(), seq![
            "uri"@,
            "name"@,
            "title"@,
            "description"@,
            "mimeType"@,
            "size"@,
            "icons"@,
            "annotations"@,
        ]),
{
    broadcast use crate::wire::group_lookup;

    resource_info_names();
    let names = seq![
        "uri"@,
        "name"@,
        "title"@,
        "description"@,
        "mimeType"@,
        "size"@,
        "icons"@,
        "annotations"@,
    ];
    assert forall|k: Seq<char>| x.wire().get(k) is Some implies #[trigger] names.contains(k) by {
        if k != "uri"@
            && k != "name"@
            && k != "title"@
            && k != "description"@
            && k != "mimeType"@
            && k != "size"@
            && k != "icons"@
            && k != "annotations"@ {
            assert(x.wire().get(k) is None);
        }
        assert(names[0] == "uri"@);
        assert(names[1] == "name"@);
        assert(names[2] == "title"@);
        assert(names[3] == "description"@);
        assert(names[4] == "mimeType"@);
        assert(names[5] == "size"@);
        assert(names[6] == "icons"@);
        assert(names[7] == "annotations"@);
    }
}

/// A `ResourceInfo` is read from an object exactly if each of its members can be read, and each part
/// is taken from the member of its name.
pub proof fn resource_info_read(j: JsonView)
    requires
        j is Object,
    ensures
        ResourceInfo::canon(j) is Some <==> forms::fits::<String>(j, "uri"@)
            && forms::fits::<String>(j, "name"@)
            && forms::fits_opt::<String>(j, "title"@)
            && forms::fits_opt::<String>(j, "description"@)
            && forms::fits_opt::<String>(j, "mimeType"@)
            && forms::fits_opt::<i64>(j, "size"@)
            && forms::fits_opt::<Vec<Icon>>(j, "icons"@)
            && forms::fits_opt::<Annotations>(j, "annotations"@),
        ResourceInfo::canon(j) matches Some(c) ==> {
            &&& forms::kept::<String>(j, c, "uri"@)
            &&& forms::kept::<String>(j, c, "name"@)
            &&& forms::kept_opt::<String>(j, c, "title"@)
            &&& forms::kept_opt::<String>(j, c, "description"@)
            &&& forms::kept_opt::<String>(j, c, "mimeType"@)
            &&& forms::kept_opt::<i64>(j, c, "size"@)
            &&& forms::kept_opt::<Vec<Icon>>(j, c, "icons"@)
            &&& forms::kept_opt::<Annotations>(j, c, "annotations"@)
        },
{
    broadcast use crate::wire::group_lookup;

    resource_info_names();
}

/// A `ResourceInfo` is read from an array as from the object that names the items in turn.
pub proof fn resource_info_by_place(a: Seq<JsonView>)
    ensures
        ResourceInfo::canon(JsonView::Array(a)) == if a.len() <= 8 {
            ResourceInfo::canon(forms::by_place(seq![
                "uri"@,
                "name"@,
                "title"@,
                "description"@,
                "mimeType"@,
                "size"@,
                "icons"@,
                "annotations"@,
            ], a))
        } else {
            None
        },
{
    resource_info_names();
    let names = seq![
        "uri"@,
        "name"@,
        "title"@,
        "description"@,
        "mimeType"@,
        "size"@,
        "icons"@,
        "annotations"@,
    ];
    assert(names[0] == "uri"@);
    assert(names[1] == "name"@);
    assert(names[2] == "title"@);
    assert(names[3] == "description"@);
    assert(names[4] == "mimeType"@);
    assert(names[5] == "size"@);
    assert(names[6] == "icons"@);
    assert(names[7] == "annotations"@);
    if a.len() <= 8 {
        forms::found_by_place(names, a, 0);
        forms::found_by_place(names, a, 1);
        forms::found_by_place(names, a, 2);
        forms::found_by_place(names, a, 3);
        forms::found_by_place(names, a, 4);
        forms::found_by_place(names, a, 5);
        forms::found_by_place(names, a, 6);
        forms::found_by_place(names, a, 7);
    }
}

proof fn resource_template_names()
    ensures
        "uriTemplate"@.len() == 11,
        "name"@.len() == 4,
        "title"@.len() == 5,
        "description"@.len() == 11,
        "mimeType"@.len() == 8,
        "icons"@.len() == 5,
        "annotations"@.len() == 11,
        "uriTemplate"@[0] != "description"@[0],
        "uriTemplate"@[0] != "annotations"@[0],
        "title"@[0] != "icons"@[0],
        "description"@[0] != "annotations"@[0],
{
    reveal_strlit("uriTemplate");
    reveal_strlit("name");
    reveal_strlit("title");
    reveal_strlit("description");
    reveal_strlit("mimeType");
    reveal_strlit("icons");
    reveal_strlit("annotations");
}

/// A `ResourceTemplate` is written with each of its parts under its own name, and with nothing else.
pub proof fn resource_template_written(x: ResourceTemplate)
    ensures
        x.wire() is Object,
        x.wire().get("uriTemplate"@) == Some(x.uri_template.wire()),
        x.wire().get("name"@) == Some(x.name.wire()),
        x.wire().get("title"@) == wire::opt(x.title),
        x.wire().get("description"@) == wire::opt(x.description),
        x.wire().get("mimeType"@) == wire::opt(x.mime_type),
        x.wire().get("icons"@) == wire::opt(x.icons),
        x.wire().get("annotations"@) == wire::opt(x.annotations),
        forms::only_named(x.wire(), seq![
            "uriTemplate"@,
            "name"@,
            "title"@,
            "description"@,
            "mimeType"@,
            "icons"@,
            "annotations"@,
        ]),
{
    broadcast use crate::wire::group_lookup;

    resource_template_names();
    let names = seq![
        "uriTemplate"@,
        "name"@,
        "title"@,
        "description"@,
        "mimeType"@,
        "icons"@,
        "annotations"@,
    ];
    assert forall|k: Seq<char>| x.wire().get(k) is Some implies #[trigger] names.contains(k) by {
        if k != "uriTemplate"@
            && k != "name"@
            && k != "title"@
            && k != "description"@
            && k != "mimeType"@
            && k != "icons"@
            && k != "annotations"@ {
            assert(x.wire().get(k) is None);
        }
        assert(names[0] == "uriTemplate"@);
        assert(names[1] == "name"@);
        assert(names[2] == "title"@);
        assert(names[3] == "description"@);
        assert(names[4] == "mimeType"@);
        assert(names[5] == "icons"@);
        assert(names[6] == "annotations"@);
    }
}

/// A `ResourceTemplate` is read from an object exactly if each of its members can be read, and each part
/// is taken from the member of its name.
pub proof fn resource_template_read(j: JsonView)
    requires
        j is Object,
    ensures
        ResourceTemplate::canon(j) is Some <==> forms::fits::<String>(j, "uriTemplate"@)
            && forms::fits::<String>(j, "name"@)
            && forms::fits_opt::<String>(j, "title"@)
            && forms::fits_opt::<String>(j, "description"@)
            && forms::fits_opt::<String>(j, "mimeType"@)
            && forms::fits_opt::<Vec<Icon>>(j, "icons"@)
            && forms::fits_opt::<Annotations>(j, "annotations"@),
        ResourceTemplate::canon(j) matches Some(c) ==> {
            &&& forms::kept::<String>(j, c, "uriTemplate"@)
            &&& forms::kept::<String>(j, c, "name"@)
            &&& forms::kept_opt::<String>(j, c, "title"@)
            &&& forms::kept_opt::<String>(j, c, "description"@)
            &&& forms::kept_opt::<String>(j, c, "mimeType"@)
            &&& forms::kept_opt::<Vec<Icon>>(j, c, "icons"@)
            &&& forms::kept_opt::<Annotations>(j, c, "annotations"@)
        },
{
    broadcast use crate::wire::group_lookup;

    resource_template_names();
}

/// A `ResourceTemplate` is read from an array as from the object that names the items in turn.
pub proof fn resource_template_by_place(a: Seq<JsonView>)
    ensures
        ResourceTemplate::canon(JsonView::Array(a)) == if a.len() <= 7 {
            ResourceTemplate::canon(forms::by_place(seq![
                "uriTemplate"@,
                "name"@,
                "title"@,
                "description"@,
                "mimeType"@,
                "icons"@,
                "annotations"@,
            ], a))
        } else {
            None
        },
{
    resource_template_names();
    let names = seq![
        "uriTemplate"@,
        "name"@,
        "title"@,
        "description"@,
        "mimeType"@,
        "icons"@,
        "annotations"@,
    ];
    assert(names[0] == "uriTemplate"@);
    assert(names[1] == "name"@);
    assert(names[2] == "title"@);
    assert(names[3] == "description"@);
    assert(names[4] == "mimeType"@);
    assert(names[5] == "icons"@);
    assert(names[6] == "annotations"@);
    if a.len() <= 7 {
        forms::found_by_place(names, a, 0);
        forms::found_by_place(names, a, 1);
        forms::found_by_place(names, a, 2);
        forms::found_by_place(names, a, 3);
        forms::found_by_place(names, a, 4);
        forms::found_by_place(names, a, 5);
        forms::found_by_place(names, a, 6);
    }
}

proof fn list_resources_result_names()
    ensures
        "resources"@.len() == 9,
        "nextCursor"@.len() == 10,
        "_meta"@.len() == 5,
{
    reveal_strlit("resources");
    reveal_strlit("nextCursor");
    reveal_strlit("_meta");
}

/// A `ListResourcesResult` is written with each of its parts under its own name, and with nothing else.
pub proof fn list_resources_result_written(x: ListResourcesResult)
    ensures
        x.wire() is Object,
        x.wire().get("resources"@) == Some(x.resources.wire()),
        x.wire().get("nextCursor"@) == wire::opt(x.next_cursor),
        x.wire().get("_meta"@) == wire::opt(x.meta),
        forms::only_named(x.wire(), seq!["resources"@, "nextCursor"@, "_meta"@]),
{
    broadcast use crate::wire::group_lookup;

    list_resources_result_names();
    let names = seq!["resources"@, "nextCursor"@, "_meta"@];
    assert forall|k: Seq<char>| x.wire().get(k) is Some implies #[trigger] names.contains(k) by {
        if k != "resources"@ && k != "nextCursor"@ && k != "_meta"@ {
            assert(x.wire().get(k) is None);
        }
        assert(names[0] == "resources"@);
        assert(names[1] == "nextCursor"@);
        assert(names[2] == "_meta"@);
    }
}

/// A `ListResourcesResult` is read from an object exactly if each of its members can be read, and each part
/// is taken from the member of its name.
pub proof fn list_resources_result_read(j: JsonView)
    requires
        j is Object,
    ensures
        ListResourcesResult::canon(j) is Some <==> forms::fits_opt_not_null::<Vec<ResourceInfo>>(j, "resources"@)
            && forms::fits_opt::<String>(j, "nextCursor"@)
            && forms::fits_opt::<MetaMap>(j, "_meta"@),
        ListResourcesResult::canon(j) matches Some(c) ==> {
            &&& forms::kept_or::<Vec<ResourceInfo>>(j, c, "resources"@, JsonView::Array(seq![]))
            &&& forms::kept_opt::<String>(j, c, "nextCursor"@)
            &&& forms::kept_opt::<MetaMap>(j, c, "_meta"@)
        },
{
    broadcast use crate::wire::group_lookup;

    list_resources_result_names();
}

/// A `ListResourcesResult` is read from an array as from the object that names the items in turn.
pub proof fn list_resources_result_by_place(a: Seq<JsonView>)
    ensures
        ListResourcesResult::canon(JsonView::Array(a)) == if a.len() <= 3 {
            ListResourcesResult::canon(forms::by_place(seq!["resources"@, "nextCursor"@, "_meta"@], a))
        } else {
            None
        },
{
    list_resources_result_names();
    let names = seq!["resources"@, "nextCursor"@, "_meta"@];
    assert(names[0] == "resources"@);
    assert(names[1] == "nextCursor"@);
    assert(names[2] == "_meta"@);
    if a.len() <= 3 {
        forms::found_by_place(names, a, 0);
        forms::found_by_place(names, a, 1);
        forms::found_by_place(names, a, 2);
    }
}

proof fn read_resource_result_names()
    ensures
        "contents"@.len() == 8,
        "_meta"@.len() == 5,
{
    reveal_strlit("contents");
    reveal_strlit("_meta");
}

/// A `ReadResourceResult` is written with each of its parts under its own name, and with nothing else.
pub proof fn read_resource_result_written(x: ReadResourceResult)
    ensures
        x.wire() is Object,
        x.wire().get("contents"@) == Some(x.contents.wire()),
        x.wire().get("_meta"@) == wire::opt(x.meta),
        forms::only_named(x.wire(), seq!["contents"@, "_meta"@]),
{
    broadcast use crate::wire::group_lookup;

    read_resource_result_names();
    let names = seq!["contents"@, "_meta"@];
    assert forall|k: Seq<char>| x.wire().get(k) is Some implies #[trigger] names.contains(k) by {
        if k != "contents"@ && k != "_meta"@ {
            assert(x.wire().get(k) is None);
        }
        assert(names[0] == "contents"@);
        assert(names[1] == "_meta"@);
    }
}

/// A `ReadResourceResult` is read from an object exactly if each of its members can be read, and each part
/// is taken from the member of its name.
pub proof fn read_resource_result_read(j: JsonView)
    requires
        j is Object,
    ensures
        ReadResourceResult::canon(j) is Some <==> forms::fits_opt_not_null::<Vec<ResourceContents>>(j, "contents"@)
            && forms::fits_opt::<MetaMap>(j, "_meta"@),
        ReadResourceResult::canon(j) matches Some(c) ==> {
            &&& forms::kept_or::<Vec<ResourceContents>>(j, c, "contents"@, JsonView::Array(seq![]))
            &&& forms::kept_opt::<MetaMap>(j, c, "_meta"@)
        },
{
    broadcast use crate::wire::group_lookup;

    read_resource_result_names();
}

/// A `ReadResourceResult` is read from an array as from the object that names the items in turn.
pub proof fn read_resource_result_by_place(a: Seq<JsonView>)
    ensures
        ReadResourceResult::canon(JsonView::Array(a)) == if a.len() <= 2 {
            ReadResourceResult::canon(forms::by_place(seq!["contents"@, "_meta"@], a))
        } else {
            None
        },
{
    read_resource_result_names();
    let names = seq!["contents"@, "_meta"@];
    assert(names[0] == "contents"@);
    assert(names[1] == "_meta"@);
    if a.len() <= 2 {
        forms::found_by_place(names, a, 0);
        forms::found_by_place(names, a, 1);
    }
}

proof fn list_resource_templates_result_names()
    ensures
        "resourceTemplates"@.len() == 17,
        "nextCursor"@.len() == 10,
        "_meta"@.len() == 5,
{
    reveal_strlit("resourceTemplates");
    reveal_strlit("nextCursor");
    reveal_strlit("_meta");
}

/// A `ListResourceTemplatesResult` is written with each of its parts under its own name, and with nothing else.
pub proof fn list_resource_templates_result_written(x: ListResourceTemplatesResult)
    ensures
        x.wire() is Object,
        x.wire().get("resourceTemplates"@) == Some(x.resource_templates.wire()),
        x.wire().get("nextCursor"@) == wire::opt(x.next_cursor),
        x.wire().get("_meta"@) == wire::opt(x.meta),
        forms::only_named(x.wire(), seq!["resourceTemplates"@, "nextCursor"@, "_meta"@]),
{
    broadcast use crate::wire::group_lookup;

    list_resource_templates_result_names();
    let names = seq!["resourceTemplates"@, "nextCursor"@, "_meta"@];
    assert forall|k: Seq<char>| x.wire().get(k) is Some implies #[trigger] names.contains(k) by {
        if k != "resourceTemplates"@ && k != "nextCursor"@ && k != "_meta"@ {
            assert(x.wire().get(k) is None);
        }
        assert(names[0] == "resourceTemplates"@);
        assert(names[1] == "nextCursor"@);
        assert(names[2] == "_meta"@);
    }
}

/// A `ListResourceTemplatesResult` is read from an object exactly if each of its members can be read, and each part
/// is taken from the member of its name.
pub proof fn list_resource_templates_result_read(j: JsonView)
    requires
        j is Object,
    ensures
        ListResourceTemplatesResult::canon(j) is Some <==> forms::fits_opt_not_null::<Vec<ResourceTemplate>>(j, "resourceTemplates"@)
            && forms::fits_opt::<String>(j, "nextCursor"@)
            && forms::fits_opt::<MetaMap>(j, "_meta"@),
        ListResourceTemplatesResult::canon(j) matches Some(c) ==> {
            &&& forms::kept_or::<Vec<ResourceTemplate>>(j, c, "resourceTemplates"@, JsonView::Array(seq![]))
            &&& forms::kept_opt::<String>(j, c, "nextCursor"@)
            &&& forms::kept_opt::<MetaMap>(j, c, "_meta"@)
        },
{
    broadcast use crate::wire::group_lookup;

    list_resource_templates_result_names();
}

/// A `ListResourceTemplatesResult` is read from an array as from the object that names the items in turn.
pub proof fn list_resource_templates_result_by_place(a: Seq<JsonView>)
    ensures
        ListResourceTemplatesResult::canon(JsonView::Array(a)) == if a.len() <= 3 {
            ListResourceTemplatesResult::canon(forms::by_place(seq!["resourceTemplates"@, "nextCursor"@, "_meta"@], a))
        } else {
            None
        },
{
    list_resource_templates_result_names();
    let names = seq!["resourceTemplates"@, "nextCursor"@, "_meta"@];
    assert(names[0] == "resourceTemplates"@);
    assert(names[1] == "nextCursor"@);
    assert(names[2] == "_meta"@);
    if a.len() <= 3 {
        forms::found_by_place(names, a, 0);
        forms::found_by_place(names, a, 1);
        forms::found_by_place(names, a, 2);
    }
}

} // verus!
