//! What is said of a value that does not meet a schema, and where.
use vstd::prelude::*;

use crate::json;
use crate::json::{JsonView, MemberView};
use crate::laws::schemas;
use crate::laws::schemas::{only, single};
use crate::schema;
use crate::text;

verus! {

/// The path of a member, or of an item, is that of the value with its name, or its place, after a
/// slash.
pub proof fn paths_told(path: Seq<char>, name: Seq<char>)
    ensures
        schema::step(path, name) == path + "/"@ + name,
{
}

/// The fault of an array is that of the first item that does not meet `items`, at its place.
pub proof fn item_told(sub: JsonView, a: Seq<JsonView>, path: Seq<char>, i: int)
    requires
        0 <= i < a.len(),
        forall|j: int|
            0 <= j < i ==> schema::fault(
                sub,
                #[trigger] a[j],
                path + "/"@ + text::decimal(j),
            ) is None,
        schema::fault(sub, a[i], path + "/"@ + text::decimal(i)) is Some,
    ensures
        schema::fault(single("items"@, sub), JsonView::Array(a), path) == schema::fault(
            sub,
            a[i],
            path + "/"@ + text::decimal(i),
        ),
{
    broadcast use schemas::lookup_only;

    schemas::keyword_names();
    let v = JsonView::Array(a);
    schemas::elsewhere("items"@, sub, v, path);
    item_told_from(sub, a, path, 0, i);
    let o = only("items"@, sub);
    assert(json::lookup(o, "items"@) == Some(sub));
    assert(schema::items_fault(o, v, path) == schema::each_item_fault(sub, a, path, 0));
}

proof fn item_told_from(sub: JsonView, a: Seq<JsonView>, path: Seq<char>, k: int, i: int)
    requires
        0 <= k <= i < a.len(),
        forall|j: int|
            0 <= j < i ==> schema::fault(
                sub,
                #[trigger] a[j],
                path + "/"@ + text::decimal(j),
            ) is None,
        schema::fault(sub, a[i], path + "/"@ + text::decimal(i)) is Some,
    ensures
        schema::each_item_fault(sub, a, path, k) == schema::fault(
            sub,
            a[i],
            path + "/"@ + text::decimal(i),
        ),
    decreases i - k,
{
    if k < i {
        item_told_from(sub, a, path, k + 1, i);
        assert(schema::fault(sub, a[k], path + "/"@ + text::decimal(k)) is None);
    }
}

/// The fault of a member that `properties` describes is told at its name.
pub proof fn member_told(
    name: Seq<char>,
    sub: JsonView,
    fields: Seq<MemberView>,
    path: Seq<char>,
)
    ensures
        ({
            let v = JsonView::Object(fields);
            let f = schema::fault(
                single("properties"@, JsonView::Object(seq![json::member(name, sub)])),
                v,
                path,
            );
            &&& v.get(name) is None ==> f is None
            &&& v.get(name) is Some ==> f == schema::fault(
                sub,
                v.get(name)->0,
                path + "/"@ + name,
            )
        }),
{
    broadcast use schemas::lookup_only;

    schemas::keyword_names();
    let v = JsonView::Object(fields);
    let props = seq![json::member(name, sub)];
    let x = JsonView::Object(props);
    let o = only("properties"@, x);
    schemas::elsewhere("properties"@, x, v, path);
    assert(props[0] == json::member(name, sub));
    assert(json::lookup(o, "properties"@) == Some(x));
    assert(json::lookup(o, "required"@) is None);
    assert(json::lookup(o, "additionalProperties"@) is None);
    assert(schema::each_property_fault(props, fields, path, 1) is None);
    assert(schema::each_property_fault(props, fields, path, 0) == match json::lookup(
        fields,
        name,
    ) {
        Some(y) => schema::fault(sub, y, path + "/"@ + name),
        None => None,
    });
    assert(schema::members_fault(o, v, path) == schema::each_property_fault(props, fields, path, 0));
}

/// A member that is not described is told by its name where none may be there, and at its name
/// where it does not meet what is asked of it.
pub proof fn extra_member_told(sub: JsonView, fields: Seq<MemberView>, path: Seq<char>)
    requires
        fields.len() > 0,
    ensures
        schema::fault(
            single("additionalProperties"@, JsonView::Bool(false)),
            JsonView::Object(fields),
            path,
        ) == Some(
            schema::place(path) + ": additional property '"@ + fields[0].name
                + "' is not allowed"@,
        ),
        sub is Object && schema::fault(sub, fields[0].value, path + "/"@ + fields[0].name) is Some
            ==> schema::fault(single("additionalProperties"@, sub), JsonView::Object(fields), path)
            == schema::fault(sub, fields[0].value, path + "/"@ + fields[0].name),
{
    extra_told(JsonView::Bool(false), fields, path);
    extra_told(sub, fields, path);
}

proof fn extra_told(x: JsonView, fields: Seq<MemberView>, path: Seq<char>)
    requires
        fields.len() > 0,
    ensures
        schema::fault(single("additionalProperties"@, x), JsonView::Object(fields), path)
            == schema::each_extra_fault(x, seq![], fields, path, 0),
{
    broadcast use schemas::lookup_only;

    schemas::keyword_names();
    let v = JsonView::Object(fields);
    let o = only("additionalProperties"@, x);
    schemas::elsewhere("additionalProperties"@, x, v, path);
    assert(json::lookup(o, "properties"@) is None);
    assert(json::lookup(o, "required"@) is None);
    assert(json::lookup(o, "additionalProperties"@) == Some(x));
    assert(schema::properties(o) =~= seq![]);
    assert(schema::members_fault(o, v, path) == schema::each_extra_fault(
        x,
        schema::properties(o),
        fields,
        path,
        0,
    ));
}

/// A value that meets none of several schemas, too many or too few of them, or one that it must
/// not meet, is told as such.
pub proof fn combinations_told(list: Seq<JsonView>, sub: JsonView, v: JsonView, path: Seq<char>)
    ensures
        ({
            let any = schema::fault(single("anyOf"@, JsonView::Array(list)), v, path);
            let one = schema::fault(single("oneOf"@, JsonView::Array(list)), v, path);
            let none = schema::fault(single("not"@, sub), v, path);
            &&& any is Some ==> any->0 == schema::place(path)
                + ": value does not match any schema in anyOf"@
            &&& one is Some ==> one->0 == schema::place(path) + ": value matches "@ + text::decimal(
                schema::met_count(list, v, path, 0) as int,
            ) + " schemas in oneOf"@
            &&& none is Some ==> none->0 == schema::place(path)
                + ": value matches the forbidden schema"@
            &&& none is Some <==> schema::fault(sub, v, path) is None
        }),
{
    broadcast use schemas::lookup_only;

    schemas::keyword_names();
    let x = JsonView::Array(list);
    let a = only("anyOf"@, x);
    let b = only("oneOf"@, x);
    let c = only("not"@, sub);
    schemas::elsewhere("anyOf"@, x, v, path);
    schemas::elsewhere("oneOf"@, x, v, path);
    schemas::elsewhere("not"@, sub, v, path);
    assert(json::lookup(a, "anyOf"@) == Some(x) && json::lookup(b, "oneOf"@) == Some(x));
    assert(json::lookup(c, "not"@) == Some(sub));
    assert(schema::combined_fault(a, v, path) == schema::fault(single("anyOf"@, x), v, path));
    assert(schema::combined_fault(b, v, path) == schema::fault(single("oneOf"@, x), v, path));
    assert(schema::combined_fault(c, v, path) == schema::fault(single("not"@, sub), v, path));
    assert(schema::combined_fault(c, v, path) == schema::unless(
        schema::fault(sub, v, path) is Some,
        schema::place(path) + ": value matches the forbidden schema"@,
    ));
}

/// Schemas that find no fault are counted one by one.
pub proof fn schemas_met_counted(list: Seq<JsonView>, v: JsonView, path: Seq<char>, i: int)
    requires
        0 <= i < list.len(),
    ensures
        schema::met_count(list, v, path, i) == schema::met_count(list, v, path, i + 1) + if schema::fault(
            list[i],
            v,
            path,
        ) is None {
            1int
        } else {
            0
        },
        schema::met_count(list, v, path, list.len() as int) == 0,
{
}

/// Of several schemas that must all be met the first that finds a fault tells it.
pub proof fn first_of_all_told(list: Seq<JsonView>, v: JsonView, path: Seq<char>)
    requires
        list.len() > 0,
        schema::fault(list[0], v, path) is Some,
    ensures
        schema::fault(single("allOf"@, JsonView::Array(list)), v, path) == schema::fault(
            list[0],
            v,
            path,
        ),
{
    broadcast use schemas::lookup_only;

    schemas::keyword_names();
    let x = JsonView::Array(list);
    let o = only("allOf"@, x);
    schemas::elsewhere("allOf"@, x, v, path);
    assert(json::lookup(o, "allOf"@) == Some(x));
    match json::lookup(o, "allOf"@) {
        Some(JsonView::Array(l)) => {
            assert(schema::all_fault(l, v, path, 0) == schema::fault(list[0], v, path));
            assert(schema::combined_fault(o, v, path) == schema::all_fault(l, v, path, 0));
        },
        _ => {},
    }
}

} // verus!
