//! How contents are written and read.
use vstd::prelude::*;

use crate::json::JsonView;
use crate::laws::forms;
use crate::types::content::{Annotations, AudioContent, BlobResourceContents, EmbeddedResource, Icon, ImageContent, ResourceContents, ResourceLink, RoleType, TextContent, TextResourceContents};
use crate::wire;
use crate::wire::{Real, Wire};

verus! {

proof fn annotations_names()
    ensures
        "audience"@.len() == 8,
        "lastModified"@.len() == 12,
        "priority"@.len() == 8,
        "audience"@[0] != "priority"@[0],
{
    reveal_strlit("audience");
    reveal_strlit("lastModified");
    reveal_strlit("priority");
}

/// A `Annotations` is written with each of its parts under its own name, and with nothing else.
pub proof fn annotations_written(x: Annotations)
    ensures
        x.wire() is Object,
        x.wire().get("audience"@) == wire::opt(x.audience),
        x.wire().get("lastModified"@) == wire::opt(x.last_modified),
        x.wire().get("priority"@) == wire::opt(x.priority),
        forms::only_named(x.wire(), seq!["audience"@, "lastModified"@, "priority"@]),
{
    broadcast use crate::wire::group_lookup;

    annotations_names();
    let names = seq!["audience"@, "lastModified"@, "priority"@];
    assert forall|k: Seq<char>| x.wire().get(k) is Some implies #[trigger] names.contains(k) by {
        if k != "audience"@ && k != "lastModified"@ && k != "priority"@ {
            assert(x.wire().get(k) is None);
        }
        assert(names[0] == "audience"@);
        assert(names[1] == "lastModified"@);
        assert(names[2] == "priority"@);
    }
}

/// A `Annotations` is read from an object exactly if each of its members can be read, and each part
/// is taken from the member of its name.
pub proof fn annotations_read(j: JsonView)
    requires
        j is Object,
    ensures
        Annotations::canon(j) is Some <==> forms::fits_opt::<Vec<RoleType>>(j, "audience"@)
            && forms::fits_opt::<String>(j, "lastModified"@)
            && forms::fits_opt::<Real>(j, "priority"@),
        Annotations::canon(j) matches Some(c) ==> {
            &&& forms::kept_opt::<Vec<RoleType>>(j, c, "audience"@)
            &&& forms::kept_opt::<String>(j, c, "lastModified"@)
            &&& forms::kept_opt::<Real>(j, c, "priority"@)
        },
{
    broadcast use crate::wire::group_lookup;

    annotations_names();
}

/// A `Annotations` is read from an array as from the object that names the items in turn.
pub proof fn annotations_by_place(a: Seq<JsonView>)
    ensures
        Annotations::canon(JsonView::Array(a)) == if a.len() <= 3 {
            Annotations::canon(forms::by_place(seq!["audience"@, "lastModified"@, "priority"@], a))
        } else {
            None
        },
{
    annotations_names();
    let names = seq!["audience"@, "lastModified"@, "priority"@];
    assert(names[0] == "audience"@);
    assert(names[1] == "lastModified"@);
    assert(names[2] == "priority"@);
    if a.len() <= 3 {
        forms::found_by_place(names, a, 0);
        forms::found_by_place(names, a, 1);
        forms::found_by_place(names, a, 2);
    }
}

proof fn icon_names()
    ensures
        "src"@.len() == 3,
        "mimeType"@.len() == 8,
        "sizes"@.len() == 5,
        "theme"@.len() == 5,
        "sizes"@[0] != "theme"@[0],
{
    reveal_strlit("src");
    reveal_strlit("mimeType");
    reveal_strlit("sizes");
    reveal_strlit("theme");
}

/// A `Icon` is written with each of its parts under its own name, and with nothing else.
pub proof fn icon_written(x: Icon)
    ensures
        x.wire() is Object,
        x.wire().get("src"@) == Some(x.src.wire()),
        x.wire().get("mimeType"@) == wire::opt(x.mime_type),
        x.wire().get("sizes"@) == wire::opt(x.sizes),
        x.wire().get("theme"@) == wire::opt(x.theme),
        forms::only_named(x.wire(), seq!["src"@, "mimeType"@, "sizes"@, "theme"@]),
{
    broadcast use crate::wire::group_lookup;

    icon_names();
    let names = seq!["src"@, "mimeType"@, "sizes"@, "theme"@];
    assert forall|k: Seq<char>| x.wire().get(k) is Some implies #[trigger] names.contains(k) by {
        if k != "src"@ && k != "mimeType"@ && k != "sizes"@ && k != "theme"@ {
            assert(x.wire().get(k) is None);
        }
        assert(names[0] == "src"@);
        assert(names[1] == "mimeType"@);
        assert(names[2] == "sizes"@);
        assert(names[3] == "theme"@);
    }
}

/// A `Icon` is read from an object exactly if each of its members can be read, and each part
/// is taken from the member of its name.
pub proof fn icon_read(j: JsonView)
    requires
        j is Object,
    ensures
        Icon::canon(j) is Some <==> forms::fits::<String>(j, "src"@)
            && forms::fits_opt::<String>(j, "mimeType"@)
            && forms::fits_opt::<Vec<String>>(j, "sizes"@)
            && forms::fits_opt::<String>(j, "theme"@),
        Icon::canon(j) matches Some(c) ==> {
            &&& forms::kept::<String>(j, c, "src"@)
            &&& forms::kept_opt::<String>(j, c, "mimeType"@)
            &&& forms::kept_opt::<Vec<String>>(j, c, "sizes"@)
            &&& forms::kept_opt::<String>(j, c, "theme"@)
        },
{
    broadcast use crate::wire::group_lookup;

    icon_names();
}

/// A `Icon` is read from an array as from the object that names the items in turn.
pub proof fn icon_by_place(a: Seq<JsonView>)
    ensures
        Icon::canon(JsonView::Array(a)) == if a.len() <= 4 {
            Icon::canon(forms::by_place(seq!["src"@, "mimeType"@, "sizes"@, "theme"@], a))
        } else {
            None
        },
{
    icon_names();
    let names = seq!["src"@, "mimeType"@, "sizes"@, "theme"@];
    assert(names[0] == "src"@);
    assert(names[1] == "mimeType"@);
    assert(names[2] == "sizes"@);
    assert(names[3] == "theme"@);
    if a.len() <= 4 {
        forms::found_by_place(names, a, 0);
        forms::found_by_place(names, a, 1);
        forms::found_by_place(names, a, 2);
        forms::found_by_place(names, a, 3);
    }
}

proof fn text_content_names()
    ensures
        "text"@.len() == 4,
        "annotations"@.len() == 11,
{
    reveal_strlit("text");
    reveal_strlit("annotations");
}

/// A `TextContent` is written with each of its parts under its own name, and with nothing else.
pub proof fn text_content_written(x: TextContent)
    ensures
        x.wire() is Object,
        x.wire().get("text"@) == Some(x.text.wire()),
        x.wire().get("annotations"@) == wire::opt(x.annotations),
        forms::only_named(x.wire(), seq!["text"@, "annotations"@]),
{
    broadcast use crate::wire::group_lookup;

    text_content_names();
    let names = seq!["text"@, "annotations"@];
    assert forall|k: Seq<char>| x.wire().get(k) is Some implies #[trigger] names.contains(k) by {
        if k != "text"@ && k != "annotations"@ {
            assert(x.wire().get(k) is None);
        }
        assert(names[0] == "text"@);
        assert(names[1] == "annotations"@);
    }
}

/// A `TextContent` is read from an object exactly if each of its members can be read, and each part
/// is taken from the member of its name.
pub proof fn text_content_read(j: JsonView)
    requires
        j is Object,
    ensures
        TextContent::canon(j) is Some <==> forms::fits_opt_not_null::<String>(j, "text"@)
            && forms::fits_opt::<Annotations>(j, "annotations"@),
        TextContent::canon(j) matches Some(c) ==> {
            &&& forms::kept_or::<String>(j, c, "text"@, JsonView::String(seq![]))
            &&& forms::kept_opt::<Annotations>(j, c, "annotations"@)
        },
{
    broadcast use crate::wire::group_lookup;

    text_content_names();
}

/// A `TextContent` is read from an array as from the object that names the items in turn.
pub proof fn text_content_by_place(a: Seq<JsonView>)
    ensures
        TextContent::canon(JsonView::Array(a)) == if a.len() <= 2 {
            TextContent::canon(forms::by_place(seq!["text"@, "annotations"@], a))
        } else {
            None
        },
{
    text_content_names();
    let names = seq!["text"@, "annotations"@];
    assert(names[0] == "text"@);
    assert(names[1] == "annotations"@);
    if a.len() <= 2 {
        forms::found_by_place(names, a, 0);
        forms::found_by_place(names, a, 1);
    }
}

proof fn image_content_names()
    ensures
        "data"@.len() == 4,
        "mimeType"@.len() == 8,
        "annotations"@.len() == 11,
{
    reveal_strlit("data");
    reveal_strlit("mimeType");
    reveal_strlit("annotations");
}

/// A `ImageContent` is written with each of its parts under its own name, and with nothing else.
pub proof fn image_content_written(x: ImageContent)
    ensures
        x.wire() is Object,
        x.wire().get("data"@) == Some(x.data.wire()),
        x.wire().get("mimeType"@) == Some(x.mime_type.wire()),
        x.wire().get("annotations"@) == wire::opt(x.annotations),
        forms::only_named(x.wire(), seq!["data"@, "mimeType"@, "annotations"@]),
{
    broadcast use crate::wire::group_lookup;

    image_content_names();
    let names = seq!["data"@, "mimeType"@, "annotations"@];
    assert forall|k: Seq<char>| x.wire().get(k) is Some implies #[trigger] names.contains(k) by {
        if k != "data"@ && k != "mimeType"@ && k != "annotations"@ {
            assert(x.wire().get(k) is None);
        }
        assert(names[0] == "data"@);
        assert(names[1] == "mimeType"@);
        assert(names[2] == "annotations"@);
    }
}

/// A `ImageContent` is read from an object exactly if each of its members can be read, and each part
/// is taken from the member of its name.
pub proof fn image_content_read(j: JsonView)
    requires
        j is Object,
    ensures
        ImageContent::canon(j) is Some <==> forms::fits_opt_not_null::<String>(j, "data"@)
            && forms::fits::<String>(j, "mimeType"@)
            && forms::fits_opt::<Annotations>(j, "annotations"@),
        ImageContent::canon(j) matches Some(c) ==> {
            &&& forms::kept_or::<String>(j, c, "data"@, JsonView::String(seq![]))
            &&& forms::kept::<String>(j, c, "mimeType"@)
            &&& forms::kept_opt::<Annotations>(j, c, "annotations"@)
        },
{
    broadcast use crate::wire::group_lookup;

    image_content_names();
}

/// A `ImageContent` is read from an array as from the object that names the items in turn.
pub proof fn image_content_by_place(a: Seq<JsonView>)
    ensures
        ImageContent::canon(JsonView::Array(a)) == if a.len() <= 3 {
            ImageContent::canon(forms::by_place(seq!["data"@, "mimeType"@, "annotations"@], a))
        } else {
            None
        },
{
    image_content_names();
    let names = seq!["data"@, "mimeType"@, "annotations"@];
    assert(names[0] == "data"@);
    assert(names[1] == "mimeType"@);
    assert(names[2] == "annotations"@);
    if a.len() <= 3 {
        forms::found_by_place(names, a, 0);
        forms::found_by_place(names, a, 1);
        forms::found_by_place(names, a, 2);
    }
}

proof fn audio_content_names()
    ensures
        "data"@.len() == 4,
        "mimeType"@.len() == 8,
        "annotations"@.len() == 11,
{
    reveal_strlit("data");
    reveal_strlit("mimeType");
    reveal_strlit("annotations");
}

/// A `AudioContent` is written with each of its parts under its own name, and with nothing else.
pub proof fn audio_content_written(x: AudioContent)
    ensures
        x.wire() is Object,
        x.wire().get("data"@) == Some(x.data.wire()),
        x.wire().get("mimeType"@) == Some(x.mime_type.wire()),
        x.wire().get("annotations"@) == wire::opt(x.annotations),
        forms::only_named(x.wire(), seq!["data"@, "mimeType"@, "annotations"@]),
{
    broadcast use crate::wire::group_lookup;

    audio_content_names();
    let names = seq!["data"@, "mimeType"@, "annotations"@];
    assert forall|k: Seq<char>| x.wire().get(k) is Some implies #[trigger] names.contains(k) by {
        if k != "data"@ && k != "mimeType"@ && k != "annotations"@ {
            assert(x.wire().get(k) is None);
        }
        assert(names[0] == "data"@);
        assert(names[1] == "mimeType"@);
        assert(names[2] == "annotations"@);
    }
}

/// A `AudioContent` is read from an object exactly if each of its members can be read, and each part
/// is taken from the member of its name.
pub proof fn audio_content_read(j: JsonView)
    requires
        j is Object,
    ensures
        AudioContent::canon(j) is Some <==> forms::fits_opt_not_null::<String>(j, "data"@)
            && forms::fits::<String>(j, "mimeType"@)
            && forms::fits_opt::<Annotations>(j, "annotations"@),
        AudioContent::canon(j) matches Some(c) ==> {
            &&& forms::kept_or::<String>(j, c, "data"@, JsonView::String(seq![]))
            &&& forms::kept::<String>(j, c, "mimeType"@)
            &&& forms::kept_opt::<Annotations>(j, c, "annotations"@)
        },
{
    broadcast use crate::wire::group_lookup;

    audio_content_names();
}

/// A `AudioContent` is read from an array as from the object that names the items in turn.
pub proof fn audio_content_by_place(a: Seq<JsonView>)
    ensures
        AudioContent::canon(JsonView::Array(a)) == if a.len() <= 3 {
            AudioContent::canon(forms::by_place(seq!["data"@, "mimeType"@, "annotations"@], a))
        } else {
            None
        },
{
    audio_content_names();
    let names = seq!["data"@, "mimeType"@, "annotations"@];
    assert(names[0] == "data"@);
    assert(names[1] == "mimeType"@);
    assert(names[2] == "annotations"@);
    if a.len() <= 3 {
        forms::found_by_place(names, a, 0);
        forms::found_by_place(names, a, 1);
        forms::found_by_place(names, a, 2);
    }
}

proof fn text_resource_contents_names()
    ensures
        "uri"@.len() == 3,
        "text"@.len() == 4,
        "mimeType"@.len() == 8,
{
    reveal_strlit("uri");
    reveal_strlit("text");
    reveal_strlit("mimeType");
}

/// A `TextResourceContents` is written with each of its parts under its own name, and with nothing else.
pub proof fn text_resource_contents_written(x: TextResourceContents)
    ensures
        x.wire() is Object,
        x.wire().get("uri"@) == Some(x.uri.wire()),
        x.wire().get("text"@) == Some(x.text.wire()),
        x.wire().get("mimeType"@) == wire::opt(x.mime_type),
        forms::only_named(x.wire(), seq!["uri"@, "text"@, "mimeType"@]),
{
    broadcast use crate::wire::group_lookup;

    text_resource_contents_names();
    let names = seq!["uri"@, "text"@, "mimeType"@];
    assert forall|k: Seq<char>| x.wire().get(k) is Some implies #[trigger] names.contains(k) by {
        if k != "uri"@ && k != "text"@ && k != "mimeType"@ {
            assert(x.wire().get(k) is None);
        }
        assert(names[0] == "uri"@);
        assert(names[1] == "text"@);
        assert(names[2] == "mimeType"@);
    }
}

/// A `TextResourceContents` is read from an object exactly if each of its members can be read, and each part
/// is taken from the member of its name.
pub proof fn text_resource_contents_read(j: JsonView)
    requires
        j is Object,
    ensures
        TextResourceContents::canon(j) is Some <==> forms::fits::<String>(j, "uri"@)
            && forms::fits_opt_not_null::<String>(j, "text"@)
            && forms::fits_opt::<String>(j, "mimeType"@),
        TextResourceContents::canon(j) matches Some(c) ==> {
            &&& forms::kept::<String>(j, c, "uri"@)
            &&& forms::kept_or::<String>(j, c, "text"@, JsonView::String(seq![]))
            &&& forms::kept_opt::<String>(j, c, "mimeType"@)
        },
{
    broadcast use crate::wire::group_lookup;

    text_resource_contents_names();
}

/// A `TextResourceContents` is read from an array as from the object that names the items in turn.
pub proof fn text_resource_contents_by_place(a: Seq<JsonView>)
    ensures
        TextResourceContents::canon(JsonView::Array(a)) == if a.len() <= 3 {
            TextResourceContents::canon(forms::by_place(seq!["uri"@, "text"@, "mimeType"@], a))
        } else {
            None
        },
{
    text_resource_contents_names();
    let names = seq!["uri"@, "text"@, "mimeType"@];
    assert(names[0] == "uri"@);
    assert(names[1] == "text"@);
    assert(names[2] == "mimeType"@);
    if a.len() <= 3 {
        forms::found_by_place(names, a, 0);
        forms::found_by_place(names, a, 1);
        forms::found_by_place(names, a, 2);
    }
}

proof fn blob_resource_contents_names()
    ensures
        "uri"@.len() == 3,
        "blob"@.len() == 4,
        "mimeType"@.len() == 8,
{
    reveal_strlit("uri");
    reveal_strlit("blob");
    reveal_strlit("mimeType");
}

/// A `BlobResourceContents` is written with each of its parts under its own name, and with nothing else.
pub proof fn blob_resource_contents_written(x: BlobResourceContents)
    ensures
        x.wire() is Object,
        x.wire().get("uri"@) == Some(x.uri.wire()),
        x.wire().get("blob"@) == Some(x.blob.wire()),
        x.wire().get("mimeType"@) == wire::opt(x.mime_type),
        forms::only_named(x.wire(), seq!["uri"@, "blob"@, "mimeType"@]),
{
    broadcast use crate::wire::group_lookup;

    blob_resource_contents_names();
    let names = seq!["uri"@, "blob"@, "mimeType"@];
    assert forall|k: Seq<char>| x.wire().get(k) is Some implies #[trigger] names.contains(k) by {
        if k != "uri"@ && k != "blob"@ && k != "mimeType"@ {
            assert(x.wire().get(k) is None);
        }
        assert(names[0] == "uri"@);
        assert(names[1] == "blob"@);
        assert(names[2] == "mimeType"@);
    }
}

/// A `BlobResourceContents` is read from an object exactly if each of its members can be read, and each part
/// is taken from the member of its name.
pub proof fn blob_resource_contents_read(j: JsonView)
    requires
        j is Object,
    ensures
        BlobResourceContents::canon(j) is Some <==> forms::fits::<String>(j, "uri"@)
            && forms::fits_opt_not_null::<String>(j, "blob"@)
            && forms::fits_opt::<String>(j, "mimeType"@),
        BlobResourceContents::canon(j) matches Some(c) ==> {
            &&& forms::kept::<String>(j, c, "uri"@)
            &&& forms::kept_or::<String>(j, c, "blob"@, JsonView::String(seq![]))
            &&& forms::kept_opt::<String>(j, c, "mimeType"@)
        },
{
    broadcast use crate::wire::group_lookup;

    blob_resource_contents_names();
}

/// A `BlobResourceContents` is read from an array as from the object that names the items in turn.
pub proof fn blob_resource_contents_by_place(a: Seq<JsonView>)
    ensures
        BlobResourceContents::canon(JsonView::Array(a)) == if a.len() <= 3 {
            BlobResourceContents::canon(forms::by_place(seq!["uri"@, "blob"@, "mimeType"@], a))
        } else {
            None
        },
{
    blob_resource_contents_names();
    let names = seq!["uri"@, "blob"@, "mimeType"@];
    assert(names[0] == "uri"@);
    assert(names[1] == "blob"@);
    assert(names[2] == "mimeType"@);
    if a.len() <= 3 {
        forms::found_by_place(names, a, 0);
        forms::found_by_place(names, a, 1);
        forms::found_by_place(names, a, 2);
    }
}

proof fn embedded_resource_names()
    ensures
        "resource"@.len() == 8,
        "annotations"@.len() == 11,
{
    reveal_strlit("resource");
    reveal_strlit("annotations");
}

/// A `EmbeddedResource` is written with each of its parts under its own name, and with nothing else.
pub proof fn embedded_resource_written(x: EmbeddedResource)
    ensures
        x.wire() is Object,
        x.wire().get("resource"@) == Some(x.resource.wire()),
        x.wire().get("annotations"@) == wire::opt(x.annotations),
        forms::only_named(x.wire(), seq!["resource"@, "annotations"@]),
{
    broadcast use crate::wire::group_lookup;

    embedded_resource_names();
    let names = seq!["resource"@, "annotations"@];
    assert forall|k: Seq<char>| x.wire().get(k) is Some implies #[trigger] names.contains(k) by {
        if k != "resource"@ && k != "annotations"@ {
            assert(x.wire().get(k) is None);
        }
        assert(names[0] == "resource"@);
        assert(names[1] == "annotations"@);
    }
}

/// A `EmbeddedResource` is read from an object exactly if each of its members can be read, and each part
/// is taken from the member of its name.
pub proof fn embedded_resource_read(j: JsonView)
    requires
        j is Object,
    ensures
        EmbeddedResource::canon(j) is Some <==> forms::fits::<ResourceContents>(j, "resource"@)
            && forms::fits_opt::<Annotations>(j, "annotations"@),
        EmbeddedResource::canon(j) matches Some(c) ==> {
            &&& forms::kept::<ResourceContents>(j, c, "resource"@)
            &&& forms::kept_opt::<Annotations>(j, c, "annotations"@)
        },
{
    broadcast use crate::wire::group_lookup;

    embedded_resource_names();
}

/// A `EmbeddedResource` is read from an array as from the object that names the items in turn.
pub proof fn embedded_resource_by_place(a: Seq<JsonView>)
    ensures
        EmbeddedResource::canon(JsonView::Array(a)) == if a.len() <= 2 {
            EmbeddedResource::canon(forms::by_place(seq!["resource"@, "annotations"@], a))
        } else {
            None
        },
{
    embedded_resource_names();
    let names = seq!["resource"@, "annotations"@];
    assert(names[0] == "resource"@);
    assert(names[1] == "annotations"@);
    if a.len() <= 2 {
        forms::found_by_place(names, a, 0);
        forms::found_by_place(names, a, 1);
    }
}

proof fn resource_link_names()
    ensures
        "uri"@.len() == 3,
        "name"@.len() == 4,
        "title"@.len() == 5,
        "description"@.len() == 11,
        "mimeType"@.len() == 8,
        "size"@.len() == 4,
        "icons"@.len() == 5,
        "annotations"@.len() == 11,
        "name"@[0] != "size"@[0],
        "title"@[0] != "icons"@[0],
        "description"@[0] != "annotations"@[0],
{
    reveal_strlit("uri");
    reveal_strlit("name");
    reveal_strlit("title");
    reveal_strlit("description");
    reveal_strlit("mimeType");
    reveal_strlit("size");
    reveal_strlit("icons");
    reveal_strlit("annotations");
}

/// A `ResourceLink` is written with each of its parts under its own name, and with nothing else.
pub proof fn resource_link_written(x: ResourceLink)
    ensures
        x.wire() is Object,
        x.wire().get("uri"@) == Some(x.uri.wire()),
        x.wire().get("name"@) == Some(x.name.wire()),
        x.wire().get("title"@) == wire::opt(x.title),
        x.wire().get("description"@) == wire::opt(x.description),
        x.wire().get("mimeType"@) == wire::opt(x.mime_type),
        x.wire().get("size"@) == wire::opt(x.size),
        x.wire().get("icons"@) == wire::opt(x.icons),
        x.wire().get("annotations"@) == wire::opt(x.annotations),
        forms::only_named(x.wire(), seq![
            "uri"@,
            "name"@,
            "title"@,
            "description"@,
            "mimeType"@,
            "size"@,
            "icons"@,
            "annotations"@,
        ]),
{
    broadcast use crate::wire::group_lookup;

    resource_link_names();
    let names = seq![
        "uri"@,
        "name"@,
        "title"@,
        "description"@,
        "mimeType"@,
        "size"@,
        "icons"@,
        "annotations"@,
    ];
    assert forall|k: Seq<char>| x.wire().get(k) is Some implies #[trigger] names.contains(k) by {
        if k != "uri"@
            && k != "name"@
            && k != "title"@
            && k != "description"@
            && k != "mimeType"@
            && k != "size"@
            && k != "icons"@
            && k != "annotations"@ {
            assert(x.wire().get(k) is None);
        }
        assert(names[0] == "uri"@);
        assert(names[1] == "name"@);
        assert(names[2] == "title"@);
        assert(names[3] == "description"@);
        assert(names[4] == "mimeType"@);
        assert(names[5] == "size"@);
        assert(names[6] == "icons"@);
        assert(names[7] == "annotations"@);
    }
}

/// A `ResourceLink` is read from an object exactly if each of its members can be read, and each part
/// is taken from the member of its name.
pub proof fn resource_link_read(j: JsonView)
    requires
        j is Object,
    ensures
        ResourceLink::canon(j) is Some <==> forms::fits::<String>(j, "uri"@)
            && forms::fits::<String>(j, "name"@)
            && forms::fits_opt::<String>(j, "title"@)
            && forms::fits_opt::<String>(j, "description"@)
            && forms::fits_opt::<String>(j, "mimeType"@)
            && forms::fits_opt::<i64>(j, "size"@)
            && forms::fits_opt::<Vec<Icon>>(j, "icons"@)
            && forms::fits_opt::<Annotations>(j, "annotations"@),
        ResourceLink::canon(j) matches Some(c) ==> {
            &&& forms::kept::<String>(j, c, "uri"@)
            &&& forms::kept::<String>(j, c, "name"@)
            &&& forms::kept_opt::<String>(j, c, "title"@)
            &&& forms::kept_opt::<String>(j, c, "description"@)
            &&& forms::kept_opt::<String>(j, c, "mimeType"@)
            &&& forms::kept_opt::<i64>(j, c, "size"@)
            &&& forms::kept_opt::<Vec<Icon>>(j, c, "icons"@)
            &&& forms::kept_opt::<Annotations>(j, c, "annotations"@)
        },
{
    broadcast use crate::wire::group_lookup;

    resource_link_names();
}

/// A `ResourceLink` is read from an array as from the object that names the items in turn.
pub proof fn resource_link_by_place(a: Seq<JsonView>)
    ensures
        ResourceLink::canon(JsonView::Array(a)) == if a.len() <= 8 {
            ResourceLink::canon(forms::by_place(seq![
                "uri"@,
                "name"@,
                "title"@,
                "description"@,
                "mimeType"@,
                "size"@,
                "icons"@,
                "annotations"@,
            ], a))
        } else {
            None
        },
{
    resource_link_names();
    let names = seq![
        "uri"@,
        "name"@,
        "title"@,
        "description"@,
        "mimeType"@,
        "size"@,
        "icons"@,
        "annotations"@,
    ];
    assert(names[0] == "uri"@);
    assert(names[1] == "name"@);
    assert(names[2] == "title"@);
    assert(names[3] == "description"@);
    assert(names[4] == "mimeType"@);
    assert(names[5] == "size"@);
    assert(names[6] == "icons"@);
    assert(names[7] == "annotations"@);
    if a.len() <= 8 {
        forms::found_by_place(names, a, 0);
        forms::found_by_place(names, a, 1);
        forms::found_by_place(names, a, 2);
        forms::found_by_place(names, a, 3);
        forms::found_by_place(names, a, 4);
        forms::found_by_place(names, a, 5);
        forms::found_by_place(names, a, 6);
        forms::found_by_place(names, a, 7);
    }
}

} // verus!
