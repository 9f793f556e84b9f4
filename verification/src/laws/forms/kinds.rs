//! How values of several kinds are written and read, and those with rules of their own.
use vstd::prelude::*;

use crate::json;
use crate::json::JsonView;
use crate::laws::forms;
use crate::protocol::params::ElicitParams;
use crate::types::capabilities::{
    ClientCapabilities, ClientTasksCapability, ElicitationCapability, RootsCapability,
    SamplingCapability,
};
use crate::types::completion::{CompleteReference, PromptReference, ResourceTemplateReference};
use crate::types::content;
use crate::types::content::{
    AudioContent, BlobResourceContents, ContentBlock, EmbeddedResource, ImageContent,
    ResourceContents, ResourceLink, RoleType, TextContent, TextResourceContents,
};
use crate::types::prompts::PromptMessage;
use crate::types::sampling::{
    SamplingContent, SamplingMessageContentBlock, ToolResultContent, ToolUseContent,
};
use crate::types::tools::CallToolResult;
use crate::wire;
use crate::wire::{MetaMap, Wire};

verus! {

/// The value is a record with its kind under `type` and, besides, the members of `inner`.
pub open spec fn shows(j: JsonView, kind: Seq<char>, inner: JsonView) -> bool {
    &&& j is Object
    &&& j.get("type"@) == Some(JsonView::String(kind))
    &&& forall|k: Seq<char>| k != "type"@ ==> #[trigger] j.get(k) == inner.get(k)
}

/// The name of the kind is none of the other names of four letters.
proof fn kind_name()
    ensures
        "type"@.len() == 4,
        "text"@.len() == 4 && "text"@[1] != "type"@[1],
        "data"@.len() == 4 && "data"@[0] != "type"@[0],
        "name"@.len() == 4 && "name"@[0] != "type"@[0],
        "size"@.len() == 4 && "size"@[0] != "type"@[0],
{
    reveal_strlit("type");
    reveal_strlit("text");
    reveal_strlit("data");
    reveal_strlit("name");
    reveal_strlit("size");
}

/// The lengths of the names of what a block of content has.
proof fn part_names()
    ensures
        "annotations"@.len() == 11,
        "_meta"@.len() == 5,
        "mimeType"@.len() == 8,
        "uri"@.len() == 3,
        "title"@.len() == 5,
        "description"@.len() == 11,
        "icons"@.len() == 5,
        "resource"@.len() == 8,
        "id"@.len() == 2,
        "input"@.len() == 5,
        "toolUseId"@.len() == 9,
        "content"@.len() == 7,
        "structuredContent"@.len() == 17,
        "isError"@.len() == 7,
{
    reveal_strlit("annotations");
    reveal_strlit("_meta");
    reveal_strlit("mimeType");
    reveal_strlit("uri");
    reveal_strlit("title");
    reveal_strlit("description");
    reveal_strlit("icons");
    reveal_strlit("resource");
    reveal_strlit("id");
    reveal_strlit("input");
    reveal_strlit("toolUseId");
    reveal_strlit("content");
    reveal_strlit("structuredContent");
    reveal_strlit("isError");
}

/// A record to which its kind is added shows it.
proof fn typed_shows(kind: Seq<char>, inner: JsonView)
    requires
        inner is Object,
        inner.get("type"@) is None,
    ensures
        shows(content::typed(kind, inner), kind, inner),
{
    let o = inner->Object_0;
    content::typed_lookup(kind, o, "type"@);
    assert forall|k: Seq<char>| k != "type"@ implies #[trigger] content::typed(kind, inner).get(k)
        == inner.get(k) by {
        content::typed_lookup(kind, o, k);
    }
}

/// A block of content is written as what it holds, with its kind under `type`.
pub proof fn content_block_written(b: ContentBlock)
    ensures
        b matches ContentBlock::Text(c) ==> shows(b.wire(), "text"@, c.wire()),
        b matches ContentBlock::Image(c) ==> shows(b.wire(), "image"@, c.wire()),
        b matches ContentBlock::Audio(c) ==> shows(b.wire(), "audio"@, c.wire()),
        b matches ContentBlock::ResourceLink(c) ==> shows(b.wire(), "resource_link"@, c.wire()),
        b matches ContentBlock::EmbeddedResource(c) ==> shows(b.wire(), "resource"@, c.wire()),
{
    broadcast use crate::wire::group_lookup;

    kind_name();
    part_names();
    typed_shows(b.kind(), b.inner());
}

/// A block of content is read as one of the kind that it names. Where it names no kind that
/// there is, it is read as the text of the whole record.
pub proof fn content_block_read(j: JsonView)
    ensures
        ({
            let t = j.get("type"@);
            let c = ContentBlock::canon(j);
            &&& t == Some(JsonView::String("text"@)) ==> kept_as(c, "text"@, TextContent::canon(j))
            &&& t == Some(JsonView::String("image"@)) ==> kept_as(
                c,
                "image"@,
                ImageContent::canon(j),
            )
            &&& t == Some(JsonView::String("audio"@)) ==> kept_as(
                c,
                "audio"@,
                AudioContent::canon(j),
            )
            &&& t == Some(JsonView::String("resource_link"@)) ==> kept_as(
                c,
                "resource_link"@,
                ResourceLink::canon(j),
            )
            &&& t == Some(JsonView::String("resource"@)) ==> kept_as(
                c,
                "resource"@,
                EmbeddedResource::canon(j),
            )
            &&& t != Some(JsonView::String("text"@)) && t != Some(JsonView::String("image"@)) && t
                != Some(JsonView::String("audio"@)) && t != Some(
                JsonView::String("resource_link"@),
            ) && t != Some(JsonView::String("resource"@)) ==> kept_whole(c, j)
        }),
{
    broadcast use crate::wire::group_lookup;

    kind_name();
    part_names();
    kind_values();
    match TextContent::canon(j) {
        Some(v) => typed_shows("text"@, v),
        None => {},
    }
    match ImageContent::canon(j) {
        Some(v) => typed_shows("image"@, v),
        None => {},
    }
    match AudioContent::canon(j) {
        Some(v) => typed_shows("audio"@, v),
        None => {},
    }
    match ResourceLink::canon(j) {
        Some(v) => typed_shows("resource_link"@, v),
        None => {},
    }
    match EmbeddedResource::canon(j) {
        Some(v) => typed_shows("resource"@, v),
        None => {},
    }
    let o = wire::with(wire::none(), "text"@, JsonView::String(json::compact_text(j.normal())));
    typed_shows("text"@, JsonView::Object(o));
}

/// What is kept is what is read of the record, with this kind; it is refused where that is.
pub open spec fn kept_as(c: Option<JsonView>, kind: Seq<char>, inner: Option<JsonView>) -> bool {
    match inner {
        Some(v) => c matches Some(b) && shows(b, kind, v),
        None => c is None,
    }
}

/// What is kept is a text: that of the whole record.
pub open spec fn kept_whole(c: Option<JsonView>, j: JsonView) -> bool {
    &&& c is Some
    &&& c->0.get("type"@) == Some(JsonView::String("text"@))
    &&& c->0.get("text"@) == Some(JsonView::String(json::compact_text(j.normal())))
}

/// The kinds differ, and none is empty.
proof fn kind_values()
    ensures
        "text"@.len() == 4,
        "image"@.len() == 5 && "image"@[0] == 'i',
        "audio"@.len() == 5 && "audio"@[0] == 'a',
        "resource_link"@.len() == 13,
        "resource"@.len() == 8 && "resource"@[0] == 'r',
        "tool_use"@.len() == 8 && "tool_use"@[0] == 't',
        "tool_result"@.len() == 11,
{
    reveal_strlit("text");
    reveal_strlit("image");
    reveal_strlit("audio");
    reveal_strlit("resource_link");
    reveal_strlit("resource");
    reveal_strlit("tool_use");
    reveal_strlit("tool_result");
}

/// A block of a message to or from a model is written as what it holds, with its kind under
/// `type`.
pub proof fn sampling_block_written(b: SamplingMessageContentBlock)
    ensures
        b matches SamplingMessageContentBlock::Text(c) ==> shows(b.wire(), "text"@, c.wire()),
        b matches SamplingMessageContentBlock::Image(c) ==> shows(b.wire(), "image"@, c.wire()),
        b matches SamplingMessageContentBlock::Audio(c) ==> shows(b.wire(), "audio"@, c.wire()),
        b matches SamplingMessageContentBlock::ToolUse(c) ==> shows(
            b.wire(),
            "tool_use"@,
            c.wire(),
        ),
        b matches SamplingMessageContentBlock::ToolResult(c) ==> shows(
            b.wire(),
            "tool_result"@,
            c.wire(),
        ),
{
    broadcast use crate::wire::group_lookup;

    kind_name();
    part_names();
    typed_shows(b.kind(), b.inner());
}

/// A block of a message to or from a model is read as one of the kind that it names, and as
/// the text of the whole record where it names no kind that there is.
pub proof fn sampling_block_read(j: JsonView)
    ensures
        ({
            let t = j.get("type"@);
            let c = SamplingMessageContentBlock::canon(j);
            &&& t == Some(JsonView::String("text"@)) ==> kept_as(c, "text"@, TextContent::canon(j))
            &&& t == Some(JsonView::String("image"@)) ==> kept_as(
                c,
                "image"@,
                ImageContent::canon(j),
            )
            &&& t == Some(JsonView::String("audio"@)) ==> kept_as(
                c,
                "audio"@,
                AudioContent::canon(j),
            )
            &&& t == Some(JsonView::String("tool_use"@)) ==> kept_as(
                c,
                "tool_use"@,
                ToolUseContent::canon(j),
            )
            &&& t == Some(JsonView::String("tool_result"@)) ==> kept_as(
                c,
                "tool_result"@,
                ToolResultContent::canon(j),
            )
            &&& t != Some(JsonView::String("text"@)) && t != Some(JsonView::String("image"@)) && t
                != Some(JsonView::String("audio"@)) && t != Some(JsonView::String("tool_use"@)) && t
                != Some(JsonView::String("tool_result"@)) ==> kept_whole(c, j)
        }),
{
    broadcast use crate::wire::group_lookup;

    kind_name();
    part_names();
    kind_values();
    match TextContent::canon(j) {
        Some(v) => typed_shows("text"@, v),
        None => {},
    }
    match ImageContent::canon(j) {
        Some(v) => typed_shows("image"@, v),
        None => {},
    }
    match AudioContent::canon(j) {
        Some(v) => typed_shows("audio"@, v),
        None => {},
    }
    match ToolUseContent::canon(j) {
        Some(v) => typed_shows("tool_use"@, v),
        None => {},
    }
    match ToolResultContent::canon(j) {
        Some(v) => typed_shows("tool_result"@, v),
        None => {},
    }
    let o = wire::with(wire::none(), "text"@, JsonView::String(json::compact_text(j.normal())));
    typed_shows("text"@, JsonView::Object(o));
}

/// The content of a message to or from a model is one block, written as a record, or several,
/// written as an array. Nothing else holds a block.
pub proof fn sampling_content(c: SamplingContent, j: JsonView)
    ensures
        c matches SamplingContent::Single(b) ==> c.wire() == b.wire(),
        c matches SamplingContent::Multiple(v) ==> c.wire() == v.wire(),
        j is Object ==> SamplingContent::canon(j) == SamplingMessageContentBlock::canon(j),
        j is Array ==> SamplingContent::canon(j) == Vec::<SamplingMessageContentBlock>::canon(j),
        !(j is Object) && !(j is Array) ==> SamplingContent::canon(j) == Some(
            JsonView::Array(seq![]),
        ),
{
}

/// The contents of a resource are those of a text where there is a text, those of bytes where
/// there are only bytes, and otherwise an empty text at the place that is named.
pub proof fn resource_contents(c: ResourceContents, j: JsonView)
    ensures
        c matches ResourceContents::Text(t) ==> c.wire() == t.wire(),
        c matches ResourceContents::Blob(b) ==> c.wire() == b.wire(),
        j.get("text"@) is Some ==> ResourceContents::canon(j) == TextResourceContents::canon(j),
        j.get("text"@) is None && j.get("blob"@) is Some ==> ResourceContents::canon(j)
            == BlobResourceContents::canon(j),
        j.get("text"@) is None && j.get("blob"@) is None ==> {
            let c = ResourceContents::canon(j);
            &&& c is Some
            &&& c->0.get("text"@) == Some(JsonView::String(seq![]))
            &&& c->0.get("uri"@) == match j.get("uri"@) {
                Some(JsonView::String(s)) => Some(JsonView::String(s)),
                _ => Some(JsonView::String(seq![])),
            }
        },
{
    broadcast use crate::wire::group_lookup;

    reveal_strlit("uri");
    reveal_strlit("text");
    assert("uri"@.len() == 3 && "text"@.len() == 4);
}

/// The two things that a completion can be asked for are told apart by `type`.
pub proof fn references(x: CompleteReference)
    ensures
        x matches CompleteReference::Resource(y) ==> shows(x.wire(), "ref/resource"@, y.wire()),
        x matches CompleteReference::Prompt(y) ==> shows(x.wire(), "ref/prompt"@, y.wire()),
{
    broadcast use crate::wire::group_lookup;

    kind_name();
    part_names();
    match x {
        CompleteReference::Resource(y) => typed_shows("ref/resource"@, y.wire()),
        CompleteReference::Prompt(y) => typed_shows("ref/prompt"@, y.wire()),
    }
}

/// What a completion is asked for is read by its kind, and refused where the kind is neither
/// of the two.
pub proof fn references_read(j: JsonView)
    requires
        j is Object,
    ensures
        ({
            let t = j.get("type"@);
            let c = CompleteReference::canon(j);
            &&& t == Some(JsonView::String("ref/resource"@)) ==> kept_as(
                c,
                "ref/resource"@,
                ResourceTemplateReference::canon(j),
            )
            &&& t == Some(JsonView::String("ref/prompt"@)) ==> kept_as(
                c,
                "ref/prompt"@,
                PromptReference::canon(j),
            )
            &&& t != Some(JsonView::String("ref/resource"@)) && t != Some(
                JsonView::String("ref/prompt"@),
            ) ==> c is None
        }),
{
    broadcast use crate::wire::group_lookup;

    kind_name();
    part_names();
    reveal_strlit("ref/resource");
    reveal_strlit("ref/prompt");
    assert("ref/resource"@.len() == 12 && "ref/prompt"@.len() == 10);
    match ResourceTemplateReference::canon(j) {
        Some(v) => typed_shows("ref/resource"@, v),
        None => {},
    }
    match PromptReference::canon(j) {
        Some(v) => typed_shows("ref/prompt"@, v),
        None => {},
    }
}

/// A user is asked by a form or by way of a page; `mode` tells which, and each part stands
/// under its own name.
pub proof fn elicit_params_written(x: ElicitParams)
    ensures
        x.wire() is Object,
        x matches ElicitParams::Form { message, requested_schema } ==> x.wire().get("mode"@)
            == Some(JsonView::String("form"@)) && x.wire().get("message"@) == Some(message.wire())
            && x.wire().get("requestedSchema"@) == Some(requested_schema.wire()) && x.wire().get(
            "url"@,
        ) is None && x.wire().get("elicitationId"@) is None,
        x matches ElicitParams::Url { message, url, elicitation_id } ==> x.wire().get("mode"@)
            == Some(JsonView::String("url"@)) && x.wire().get("message"@) == Some(message.wire())
            && x.wire().get("url"@) == Some(url.wire()) && x.wire().get("elicitationId"@) == Some(
            elicitation_id.wire(),
        ) && x.wire().get("requestedSchema"@) is None,
{
    broadcast use crate::wire::group_lookup;

    elicit_names();
}

proof fn elicit_names()
    ensures
        "mode"@.len() == 4,
        "message"@.len() == 7,
        "requestedSchema"@.len() == 15,
        "url"@.len() == 3,
        "elicitationId"@.len() == 13,
        "form"@.len() == 4,
{
    reveal_strlit("mode");
    reveal_strlit("message");
    reveal_strlit("requestedSchema");
    reveal_strlit("url");
    reveal_strlit("elicitationId");
    reveal_strlit("form");
}

/// What a user is asked is read by its `mode`, each part from the member of its name, all of
/// which must be there.
pub proof fn elicit_params_read(j: JsonView)
    requires
        j is Object,
    ensures
        ({
            let t = j.get("mode"@);
            let c = ElicitParams::canon(j);
            &&& t == Some(JsonView::String("form"@)) ==> (c is Some <==> forms::fits::<String>(
                j,
                "message"@,
            ) && forms::fits::<MetaMap>(j, "requestedSchema"@))
            &&& t == Some(JsonView::String("url"@)) ==> (c is Some <==> forms::fits::<String>(
                j,
                "message"@,
            ) && forms::fits::<String>(j, "url"@) && forms::fits::<String>(j, "elicitationId"@))
            &&& t != Some(JsonView::String("form"@)) && t != Some(JsonView::String("url"@))
                ==> c is None
            &&& c matches Some(v) ==> v.get("mode"@) == t && v.get("message"@) == j.get(
                "message"@,
            ) && (t == Some(JsonView::String("form"@)) ==> v.get("requestedSchema"@) == j.get(
                "requestedSchema"@,
            )) && (t == Some(JsonView::String("url"@)) ==> v.get("url"@) == j.get("url"@) && v.get(
                "elicitationId"@,
            ) == j.get("elicitationId"@))
        }),
{
    broadcast use crate::wire::group_lookup;

    elicit_names();
}

/// A message of a prompt is read from an object: the role is the user's unless it is said, and
/// of a list of blocks the first is taken.
pub proof fn prompt_message_read(j: JsonView)
    requires
        j is Object,
    ensures
        PromptMessage::canon(j) matches Some(c) ==> {
            &&& forms::kept_or::<RoleType>(j, c, "role"@, JsonView::String("user"@))
            &&& (j.get("content"@) matches Some(v) && v is Object) ==> c.get("content"@)
                == ContentBlock::canon(j.get("content"@)->0)
            &&& (j.get("content"@) matches Some(JsonView::Array(a)) && a.len() > 0) ==> c.get(
                "content"@,
            ) == ContentBlock::canon(j.get("content"@)->0->Array_0[0])
            &&& c.get("content"@) is Some
        },
        PromptMessage::canon(j) is None ==> !forms::fits_opt_not_null::<RoleType>(j, "role"@) || (
        j.get("content"@) matches Some(v) && (v is Object || v is Array)),
{
    broadcast use crate::wire::group_lookup;

    reveal_strlit("role");
    reveal_strlit("content");
    assert("role"@.len() == 4 && "content"@.len() == 7);
}

/// The result of a tool is read from an object. Its content is a list of blocks, or a text
/// that stands for one block; the other parts are read from the members of their names.
pub proof fn call_tool_result_read(j: JsonView)
    requires
        j is Object,
    ensures
        CallToolResult::canon(j) matches Some(c) ==> {
            &&& forms::kept_opt::<crate::json::Json>(j, c, "structuredContent"@)
            &&& forms::kept_or::<bool>(j, c, "isError"@, JsonView::Bool(false))
            &&& forms::kept_opt::<MetaMap>(j, c, "_meta"@)
            &&& (j.get("content"@) matches Some(v) && v is Array) ==> c.get("content"@) == Vec::<
                ContentBlock,
            >::canon(j.get("content"@)->0)
            &&& j.get("content"@) matches Some(JsonView::String(s)) ==> c.get("content"@) matches Some(
                JsonView::Array(a),
            ) && a.len() == 1 && a[0].get("type"@) == Some(JsonView::String("text"@)) && a[0].get(
                "text"@,
            ) == j.get("content"@)
            &&& j.get("content"@) is None ==> c.get("content"@) == Some(JsonView::Array(seq![]))
        },
        CallToolResult::canon(j) is Some <==> forms::fits_opt_not_null::<bool>(j, "isError"@)
            && forms::fits_opt::<MetaMap>(j, "_meta"@) && ((j.get("content"@) matches Some(v)
            && v is Array) ==> Vec::<ContentBlock>::canon(j.get("content"@)->0) is Some),
{
    broadcast use crate::wire::group_lookup;

    kind_name();
    part_names();
    reveal_strlit("content");
    reveal_strlit("isError");
    assert("content"@[0] != "isError"@[0]);
    match j.get("content"@) {
        Some(JsonView::String(s)) => {
            let o = wire::with(wire::none(), "text"@, JsonView::String(s));
            typed_shows("text"@, JsonView::Object(o));
        },
        _ => {},
    }
}

/// The member is an object.
pub open spec fn has_object(j: JsonView, k: Seq<char>) -> bool {
    j.get(k) matches Some(v) && v is Object
}

/// The member is an object without members exactly if the flag is set, and missing otherwise.
pub open spec fn flagged(j: JsonView, k: Seq<char>, set: bool) -> bool {
    j.get(k) == if set {
        Some(JsonView::Object(seq![]))
    } else {
        None
    }
}

/// What a client offers for asking its model: each offer is an object under its name.
pub proof fn sampling_capability(x: SamplingCapability, j: JsonView)
    ensures
        x.wire() is Object,
        flagged(x.wire(), "context"@, x.context),
        flagged(x.wire(), "tools"@, x.tools),
        SamplingCapability::read(j).context <==> has_object(j, "context"@),
        SamplingCapability::read(j).tools <==> has_object(j, "tools"@),
        SamplingCapability::canon(j) == Some(SamplingCapability::read(j).wire()),
{
    broadcast use crate::wire::group_lookup;

    reveal_strlit("context");
    reveal_strlit("tools");
    assert("context"@.len() == 7 && "tools"@.len() == 5);
}

/// What a client offers for asking its user: the ways are read from objects under their names,
/// and not written.
pub proof fn elicitation_capability(x: ElicitationCapability, j: JsonView)
    ensures
        x.wire() == JsonView::Object(seq![]),
        ElicitationCapability::read(j).form is Some <==> has_object(j, "form"@),
        ElicitationCapability::read(j).url is Some <==> has_object(j, "url"@),
        ElicitationCapability::canon(j) == Some(JsonView::Object(seq![])),
{
}

/// What a client offers of its roots: that it tells of changes is true or is not written.
pub proof fn roots_capability(x: RootsCapability, j: JsonView)
    ensures
        x.wire() is Object,
        x.wire().get("listChanged"@) == if x.list_changed {
            Some(JsonView::Bool(true))
        } else {
            None
        },
        RootsCapability::read(j).list_changed <==> j.get("listChanged"@) == Some(
            JsonView::Bool(true),
        ),
        RootsCapability::canon(j) == Some(RootsCapability::read(j).wire()),
{
    broadcast use crate::wire::group_lookup;

}

/// The member, an object, has an object under another name.
pub open spec fn has_inner(j: JsonView, outer: Seq<char>, inner: Seq<char>) -> bool {
    j.get(outer) matches Some(v) && has_object(v, inner)
}

/// What a client offers for tasks: each offer is an object under its name, and those on
/// requests stand under `requests`.
pub proof fn tasks_capability(x: ClientTasksCapability, j: JsonView)
    ensures
        x.wire() is Object,
        flagged(x.wire(), "list"@, x.list),
        flagged(x.wire(), "cancel"@, x.cancel),
        x.wire().get("requests"@) is Some <==> x.sampling_create_message || x.elicitation_create,
        x.wire().get("requests"@) matches Some(r) ==> {
            &&& has_inner(r, "sampling"@, "createMessage"@) == x.sampling_create_message
            &&& has_inner(r, "elicitation"@, "create"@) == x.elicitation_create
        },
        ClientTasksCapability::read(j).list <==> has_object(j, "list"@),
        ClientTasksCapability::read(j).cancel <==> has_object(j, "cancel"@),
        ClientTasksCapability::read(j).sampling_create_message <==> (j.get("requests"@) matches Some(
            r,
        ) && has_inner(r, "sampling"@, "createMessage"@)),
        ClientTasksCapability::read(j).elicitation_create <==> (j.get("requests"@) matches Some(r)
            && has_inner(r, "elicitation"@, "create"@)),
        ClientTasksCapability::canon(j) == Some(ClientTasksCapability::read(j).wire()),
{
    broadcast use crate::wire::group_lookup;

    reveal_strlit("list");
    reveal_strlit("cancel");
    reveal_strlit("requests");
    reveal_strlit("sampling");
    reveal_strlit("elicitation");
    assert("list"@.len() == 4 && "cancel"@.len() == 6 && "requests"@.len() == 8);
    assert("sampling"@.len() == 8 && "elicitation"@.len() == 11);
}

/// What a client offers is read member by member: an object under its name is an offer, and
/// anything else is none.
pub proof fn client_capabilities_read(x: ClientCapabilities, j: JsonView)
    requires
        x.reads(j),
    ensures
        wire::opt(x.experimental) == if has_object(j, "experimental"@) {
            j.get("experimental"@)
        } else {
            None
        },
        x.sampling is Some <==> has_object(j, "sampling"@),
        x.sampling matches Some(s) ==> s == SamplingCapability::read(j.get("sampling"@)->0),
        x.elicitation is Some <==> has_object(j, "elicitation"@),
        x.elicitation matches Some(s) ==> s == ElicitationCapability::read(
            j.get("elicitation"@)->0,
        ),
        x.roots is Some <==> has_object(j, "roots"@),
        x.roots matches Some(s) ==> s == RootsCapability::read(j.get("roots"@)->0),
        x.tasks is Some <==> has_object(j, "tasks"@),
        x.tasks matches Some(s) ==> s == ClientTasksCapability::read(j.get("tasks"@)->0),
{
}

} // verus!
