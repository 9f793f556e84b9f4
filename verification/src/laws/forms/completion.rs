//! How completions are written and read.
use vstd::prelude::*;

use crate::json::JsonView;
use crate::laws::forms;
use crate::types::completion::{CompleteResult, Completion, CompletionArgument, CompletionContext, PromptReference, ResourceTemplateReference};
use crate::wire;
use crate::wire::{MetaMap, TextMap, Wire};

verus! {

/// A `ResourceTemplateReference` is written with each of its parts under its own name, and with nothing else.
pub proof fn resource_template_reference_written(x: ResourceTemplateReference)
    ensures
        x.wire() is Object,
        x.wire().get("uri"@) == Some(x.uri.wire()),
        forms::only_named(x.wire(), seq!["uri"@]),
{
    broadcast use crate::wire::group_lookup;

    let names = seq!["uri"@];
    assert forall|k: Seq<char>| x.wire().get(k) is Some implies #[trigger] names.contains(k) by {
        if k != "uri"@ {
            assert(x.wire().get(k) is None);
        }
        assert(names[0] == "uri"@);
    }
}

/// A `ResourceTemplateReference` is read from an object exactly if each of its members can be read, and each part
/// is taken from the member of its name.
pub proof fn resource_template_reference_read(j: JsonView)
    requires
        j is Object,
    ensures
        ResourceTemplateReference::canon(j) is Some <==> forms::fits::<String>(j, "uri"@),
        ResourceTemplateReference::canon(j) matches Some(c) ==> {
            &&& forms::kept::<String>(j, c, "uri"@)
        },
{
    broadcast use crate::wire::group_lookup;

}

/// A `ResourceTemplateReference` is read from an array as from the object that names the items in turn.
pub proof fn resource_template_reference_by_place(a: Seq<JsonView>)
    ensures
        ResourceTemplateReference::canon(JsonView::Array(a)) == if a.len() <= 1 {
            ResourceTemplateReference::canon(forms::by_place(seq!["uri"@], a))
        } else {
            None
        },
{
    let names = seq!["uri"@];
    assert(names[0] == "uri"@);
    if a.len() <= 1 {
        forms::found_by_place(names, a, 0);
    }
}

/// A `PromptReference` is written with each of its parts under its own name, and with nothing else.
pub proof fn prompt_reference_written(x: PromptReference)
    ensures
        x.wire() is Object,
        x.wire().get("name"@) == Some(x.name.wire()),
        forms::only_named(x.wire(), seq!["name"@]),
{
    broadcast use crate::wire::group_lookup;

    let names = seq!["name"@];
    assert forall|k: Seq<char>| x.wire().get(k) is Some implies #[trigger] names.contains(k) by {
        if k != "name"@ {
            assert(x.wire().get(k) is None);
        }
        assert(names[0] == "name"@);
    }
}

/// A `PromptReference` is read from an object exactly if each of its members can be read, and each part
/// is taken from the member of its name.
pub proof fn prompt_reference_read(j: JsonView)
    requires
        j is Object,
    ensures
        PromptReference::canon(j) is Some <==> forms::fits::<String>(j, "name"@),
        PromptReference::canon(j) matches Some(c) ==> {
            &&& forms::kept::<String>(j, c, "name"@)
        },
{
    broadcast use crate::wire::group_lookup;

}

/// A `PromptReference` is read from an array as from the object that names the items in turn.
pub proof fn prompt_reference_by_place(a: Seq<JsonView>)
    ensures
        PromptReference::canon(JsonView::Array(a)) == if a.len() <= 1 {
            PromptReference::canon(forms::by_place(seq!["name"@], a))
        } else {
            None
        },
{
    let names = seq!["name"@];
    assert(names[0] == "name"@);
    if a.len() <= 1 {
        forms::found_by_place(names, a, 0);
    }
}

proof fn completion_argument_names()
    ensures
        "name"@.len() == 4,
        "value"@.len() == 5,
{
    reveal_strlit("name");
    reveal_strlit("value");
}

/// A `CompletionArgument` is written with each of its parts under its own name, and with nothing else.
pub proof fn completion_argument_written(x: CompletionArgument)
    ensures
        x.wire() is Object,
        x.wire().get("name"@) == Some(x.name.wire()),
        x.wire().get("value"@) == Some(x.value.wire()),
        forms::only_named(x.wire(), seq!["name"@, "value"@]),
{
    broadcast use crate::wire::group_lookup;

    completion_argument_names();
    let names = seq!["name"@, "value"@];
    assert forall|k: Seq<char>| x.wire().get(k) is Some implies #[trigger] names.contains(k) by {
        if k != "name"@ && k != "value"@ {
            assert(x.wire().get(k) is None);
        }
        assert(names[0] == "name"@);
        assert(names[1] == "value"@);
    }
}

/// A `CompletionArgument` is read from an object exactly if each of its members can be read, and each part
/// is taken from the member of its name.
pub proof fn completion_argument_read(j: JsonView)
    requires
        j is Object,
    ensures
        CompletionArgument::canon(j) is Some <==> forms::fits::<String>(j, "name"@)
            && forms::fits::<String>(j, "value"@),
        CompletionArgument::canon(j) matches Some(c) ==> {
            &&& forms::kept::<String>(j, c, "name"@)
            &&& forms::kept::<String>(j, c, "value"@)
        },
{
    broadcast use crate::wire::group_lookup;

    completion_argument_names();
}

/// A `CompletionArgument` is read from an array as from the object that names the items in turn.
pub proof fn completion_argument_by_place(a: Seq<JsonView>)
    ensures
        CompletionArgument::canon(JsonView::Array(a)) == if a.len() <= 2 {
            CompletionArgument::canon(forms::by_place(seq!["name"@, "value"@], a))
        } else {
            None
        },
{
    completion_argument_names();
    let names = seq!["name"@, "value"@];
    assert(names[0] == "name"@);
    assert(names[1] == "value"@);
    if a.len() <= 2 {
        forms::found_by_place(names, a, 0);
        forms::found_by_place(names, a, 1);
    }
}

/// A `CompletionContext` is written with each of its parts under its own name, and with nothing else.
pub proof fn completion_context_written(x: CompletionContext)
    ensures
        x.wire() is Object,
        x.wire().get("arguments"@) == wire::opt(x.arguments),
        forms::only_named(x.wire(), seq!["arguments"@]),
{
    broadcast use crate::wire::group_lookup;

    let names = seq!["arguments"@];
    assert forall|k: Seq<char>| x.wire().get(k) is Some implies #[trigger] names.contains(k) by {
        if k != "arguments"@ {
            assert(x.wire().get(k) is None);
        }
        assert(names[0] == "arguments"@);
    }
}

/// A `CompletionContext` is read from an object exactly if each of its members can be read, and each part
/// is taken from the member of its name.
pub proof fn completion_context_read(j: JsonView)
    requires
        j is Object,
    ensures
        CompletionContext::canon(j) is Some <==> forms::fits_opt::<TextMap>(j, "arguments"@),
        CompletionContext::canon(j) matches Some(c) ==> {
            &&& forms::kept_opt::<TextMap>(j, c, "arguments"@)
        },
{
    broadcast use crate::wire::group_lookup;

}

/// A `CompletionContext` is read from an array as from the object that names the items in turn.
pub proof fn completion_context_by_place(a: Seq<JsonView>)
    ensures
        CompletionContext::canon(JsonView::Array(a)) == if a.len() <= 1 {
            CompletionContext::canon(forms::by_place(seq!["arguments"@], a))
        } else {
            None
        },
{
    let names = seq!["arguments"@];
    assert(names[0] == "arguments"@);
    if a.len() <= 1 {
        forms::found_by_place(names, a, 0);
    }
}

proof fn completion_names()
    ensures
        "values"@.len() == 6,
        "total"@.len() == 5,
        "hasMore"@.len() == 7,
{
    reveal_strlit("values");
    reveal_strlit("total");
    reveal_strlit("hasMore");
}

/// A `Completion` is written with each of its parts under its own name, and with nothing else.
pub proof fn completion_written(x: Completion)
    ensures
        x.wire() is Object,
        x.wire().get("values"@) == Some(x.values.wire()),
        x.wire().get("total"@) == wire::opt(x.total),
        x.wire().get("hasMore"@) == wire::opt(x.has_more),
        forms::only_named(x.wire(), seq!["values"@, "total"@, "hasMore"@]),
{
    broadcast use crate::wire::group_lookup;

    completion_names();
    let names = seq!["values"@, "total"@, "hasMore"@];
    assert forall|k: Seq<char>| x.wire().get(k) is Some implies #[trigger] names.contains(k) by {
        if k != "values"@ && k != "total"@ && k != "hasMore"@ {
            assert(x.wire().get(k) is None);
        }
        assert(names[0] == "values"@);
        assert(names[1] == "total"@);
        assert(names[2] == "hasMore"@);
    }
}

/// A `Completion` is read from an object exactly if each of its members can be read, and each part
/// is taken from the member of its name.
pub proof fn completion_read(j: JsonView)
    requires
        j is Object,
    ensures
        Completion::canon(j) is Some <==> forms::fits::<Vec<String>>(j, "values"@)
            && forms::fits_opt::<i64>(j, "total"@)
            && forms::fits_opt::<bool>(j, "hasMore"@),
        Completion::canon(j) matches Some(c) ==> {
            &&& forms::kept::<Vec<String>>(j, c, "values"@)
            &&& forms::kept_opt::<i64>(j, c, "total"@)
            &&& forms::kept_opt::<bool>(j, c, "hasMore"@)
        },
{
    broadcast use crate::wire::group_lookup;

    completion_names();
}

/// A `Completion` is read from an array as from the object that names the items in turn.
pub proof fn completion_by_place(a: Seq<JsonView>)
    ensures
        Completion::canon(JsonView::Array(a)) == if a.len() <= 3 {
            Completion::canon(forms::by_place(seq!["values"@, "total"@, "hasMore"@], a))
        } else {
            None
        },
{
    completion_names();
    let names = seq!["values"@, "total"@, "hasMore"@];
    assert(names[0] == "values"@);
    assert(names[1] == "total"@);
    assert(names[2] == "hasMore"@);
    if a.len() <= 3 {
        forms::found_by_place(names, a, 0);
        forms::found_by_place(names, a, 1);
        forms::found_by_place(names, a, 2);
    }
}

proof fn complete_result_names()
    ensures
        "completion"@.len() == 10,
        "_meta"@.len() == 5,
{
    reveal_strlit("completion");
    reveal_strlit("_meta");
}

/// A `CompleteResult` is written with each of its parts under its own name, and with nothing else.
pub proof fn complete_result_written(x: CompleteResult)
    ensures
        x.wire() is Object,
        x.wire().get("completion"@) == Some(x.completion.wire()),
        x.wire().get("_meta"@) == wire::opt(x.meta),
        forms::only_named(x.wire(), seq!["completion"@, "_meta"@]),
{
    broadcast use crate::wire::group_lookup;

    complete_result_names();
    let names = seq!["completion"@, "_meta"@];
    assert forall|k: Seq<char>| x.wire().get(k) is Some implies #[trigger] names.contains(k) by {
        if k != "completion"@ && k != "_meta"@ {
            assert(x.wire().get(k) is None);
        }
        assert(names[0] == "completion"@);
        assert(names[1] == "_meta"@);
    }
}

/// A `CompleteResult` is read from an object exactly if each of its members can be read, and each part
/// is taken from the member of its name.
pub proof fn complete_result_read(j: JsonView)
    requires
        j is Object,
    ensures
        CompleteResult::canon(j) is Some <==> forms::fits::<Completion>(j, "completion"@)
            && forms::fits_opt::<MetaMap>(j, "_meta"@),
        CompleteResult::canon(j) matches Some(c) ==> {
            &&& forms::kept::<Completion>(j, c, "completion"@)
            &&& forms::kept_opt::<MetaMap>(j, c, "_meta"@)
        },
{
    broadcast use crate::wire::group_lookup;

    complete_result_names();
}

/// A `CompleteResult` is read from an array as from the object that names the items in turn.
pub proof fn complete_result_by_place(a: Seq<JsonView>)
    ensures
        CompleteResult::canon(JsonView::Array(a)) == if a.len() <= 2 {
            CompleteResult::canon(forms::by_place(seq!["completion"@, "_meta"@], a))
        } else {
            None
        },
{
    complete_result_names();
    let names = seq!["completion"@, "_meta"@];
    assert(names[0] == "completion"@);
    assert(names[1] == "_meta"@);
    if a.len() <= 2 {
        forms::found_by_place(names, a, 0);
        forms::found_by_place(names, a, 1);
    }
}

} // verus!
