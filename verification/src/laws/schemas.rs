//! What each keyword of a schema asks of a value, and what is said where it is not met.
use vstd::prelude::*;

use crate::json;
use crate::json::{JsonNumber, JsonView, MemberView, NumberView};
use crate::schema;
use crate::text;

verus! {

/// The members of a schema with one keyword.
pub open spec fn only(k: Seq<char>, x: JsonView) -> Seq<MemberView> {
    seq![json::member(k, x)]
}

/// A schema with one keyword.
pub open spec fn single(k: Seq<char>, x: JsonView) -> JsonView {
    JsonView::Object(only(k, x))
}

/// The one keyword is found under its name, and no other is.
pub broadcast proof fn lookup_only(k: Seq<char>, x: JsonView, q: Seq<char>)
    ensures
        #[trigger] json::lookup(only(k, x), q) == if q == k {
            Some(x)
        } else {
            None
        },
{
    let o = only(k, x);
    assert(o.drop_last() =~= seq![]);
    assert(o.last() == json::member(k, x));
    assert(json::lookup(o.drop_last(), q) is None);
}

/// The keywords are told apart.
pub proof fn keyword_names()
    ensures
        "type"@.len() == 4,
        "enum"@.len() == 4,
        "const"@.len() == 5,
        "minimum"@.len() == 7,
        "maximum"@.len() == 7,
        "exclusiveMinimum"@.len() == 16,
        "exclusiveMaximum"@.len() == 16,
        "minLength"@.len() == 9,
        "maxLength"@.len() == 9,
        "pattern"@.len() == 7,
        "minItems"@.len() == 8,
        "maxItems"@.len() == 8,
        "items"@.len() == 5,
        "required"@.len() == 8,
        "properties"@.len() == 10,
        "additionalProperties"@.len() == 20,
        "allOf"@.len() == 5,
        "anyOf"@.len() == 5,
        "oneOf"@.len() == 5,
        "not"@.len() == 3,
        "type"@[0] != "enum"@[0],
        "const"@[0] != "items"@[0],
        "const"@[0] != "allOf"@[0],
        "const"@[0] != "anyOf"@[0],
        "const"@[0] != "oneOf"@[0],
        "minimum"@[1] != "maximum"@[1],
        "minimum"@[0] != "pattern"@[0],
        "maximum"@[0] != "pattern"@[0],
        "exclusiveMinimum"@[10] != "exclusiveMaximum"@[10],
        "minLength"@[1] != "maxLength"@[1],
        "minItems"@[1] != "maxItems"@[1],
        "minItems"@[0] != "required"@[0],
        "maxItems"@[0] != "required"@[0],
        "items"@[0] != "allOf"@[0],
        "items"@[0] != "anyOf"@[0],
        "items"@[0] != "oneOf"@[0],
        "allOf"@[1] != "anyOf"@[1],
        "allOf"@[0] != "oneOf"@[0],
        "anyOf"@[0] != "oneOf"@[0],
{
    reveal_strlit("type");
    reveal_strlit("enum");
    reveal_strlit("const");
    reveal_strlit("minimum");
    reveal_strlit("maximum");
    reveal_strlit("exclusiveMinimum");
    reveal_strlit("exclusiveMaximum");
    reveal_strlit("minLength");
    reveal_strlit("maxLength");
    reveal_strlit("pattern");
    reveal_strlit("minItems");
    reveal_strlit("maxItems");
    reveal_strlit("items");
    reveal_strlit("required");
    reveal_strlit("properties");
    reveal_strlit("additionalProperties");
    reveal_strlit("allOf");
    reveal_strlit("anyOf");
    reveal_strlit("oneOf");
    reveal_strlit("not");
}

/// The names of types are told apart.
proof fn type_names()
    ensures
        "null"@.len() == 4,
        "boolean"@.len() == 7,
        "object"@.len() == 6,
        "array"@.len() == 5,
        "string"@.len() == 6,
        "number"@.len() == 6,
        "integer"@.len() == 7,
        "boolean"@[0] != "integer"@[0],
        "object"@[0] != "string"@[0],
        "object"@[0] != "number"@[0],
        "string"@[0] != "number"@[0],
{
    reveal_strlit("null");
    reveal_strlit("boolean");
    reveal_strlit("object");
    reveal_strlit("array");
    reveal_strlit("string");
    reveal_strlit("number");
    reveal_strlit("integer");
}

/// A keyword is looked at only where it belongs.
pub proof fn elsewhere(k: Seq<char>, x: JsonView, v: JsonView, path: Seq<char>)
    ensures
        k != "type"@ && k != "enum"@ && k != "const"@ ==> schema::plain_fault(
            only(k, x),
            v,
            path,
        ) is None,
        k != "minimum"@ && k != "maximum"@ && k != "exclusiveMinimum"@ && k != "exclusiveMaximum"@
            ==> schema::number_fault(only(k, x), v, path) is None,
        k != "minLength"@ && k != "maxLength"@ && k != "pattern"@ ==> schema::string_fault(
            only(k, x),
            v,
            path,
        ) is None,
        k != "minItems"@ && k != "maxItems"@ && k != "items"@ ==> schema::items_fault(
            only(k, x),
            v,
            path,
        ) is None,
        k != "required"@ && k != "properties"@ && k != "additionalProperties"@
            ==> schema::members_fault(only(k, x), v, path) is None,
        k != "allOf"@ && k != "anyOf"@ && k != "oneOf"@ && k != "not"@ ==> schema::combined_fault(
            only(k, x),
            v,
            path,
        ) is None,
{
    broadcast use lookup_only;

}

/// A schema is an object, or the word that allows or forbids everything; anything else asks
/// for nothing.
pub proof fn schemas_of_one_word(v: JsonView, path: Seq<char>, s: JsonView)
    ensures
        schema::fault(JsonView::Bool(true), v, path) is None,
        schema::fault(JsonView::Bool(false), v, path) == Some(
            schema::place(path) + ": schema forbids any value"@,
        ),
        !(s is Bool) && !(s is Object) ==> schema::fault(s, v, path) is None,
        schema::fault(JsonView::Object(seq![]), v, path) is None,
{
    let o = Seq::<MemberView>::empty();
    assert(schema::items_fault(o, v, path) is None);
    assert(schema::members_fault(o, v, path) is None);
    assert(schema::combined_fault(o, v, path) is None);
}

/// A fault is told at its path, and at `<root>` where the path is empty.
pub proof fn places(path: Seq<char>)
    ensures
        path.len() == 0 ==> schema::place(path) == "<root>"@,
        path.len() > 0 ==> schema::place(path) == path,
{
}

/// The value meets the schema.
pub open spec fn meets(s: JsonView, v: JsonView) -> bool {
    schema::valid(s, v)
}

/// `type` asks for a value of the type that it names. A number is an integer where it is
/// written as one or has nothing but zeros behind its point. A name that is no type's asks for
/// nothing.
pub proof fn type_asks(t: Seq<char>, v: JsonView)
    ensures
        meets(single("type"@, JsonView::String("null"@)), v) <==> v is Null,
        meets(single("type"@, JsonView::String("boolean"@)), v) <==> v is Bool,
        meets(single("type"@, JsonView::String("object"@)), v) <==> v is Object,
        meets(single("type"@, JsonView::String("array"@)), v) <==> v is Array,
        meets(single("type"@, JsonView::String("string"@)), v) <==> v is String,
        meets(single("type"@, JsonView::String("number"@)), v) <==> v is Number,
        meets(single("type"@, JsonView::String("integer"@)), v) <==> (v matches JsonView::Number(n)
            && (n matches NumberView::Double(b) ==> schema::whole_double(b))),
        t != "null"@ && t != "boolean"@ && t != "object"@ && t != "array"@ && t != "string"@ && t
            != "number"@ && t != "integer"@ ==> meets(single("type"@, JsonView::String(t)), v),
{
    broadcast use lookup_only;

    keyword_names();
    type_names();
    one_type(JsonView::String("null"@), v, seq![]);
    one_type(JsonView::String("boolean"@), v, seq![]);
    one_type(JsonView::String("object"@), v, seq![]);
    one_type(JsonView::String("array"@), v, seq![]);
    one_type(JsonView::String("string"@), v, seq![]);
    one_type(JsonView::String("number"@), v, seq![]);
    one_type(JsonView::String("integer"@), v, seq![]);
    one_type(JsonView::String(t), v, seq![]);
}

proof fn one_type(t: JsonView, v: JsonView, path: Seq<char>)
    ensures
        meets(single("type"@, t), v) <==> schema::type_met(Some(t), v),
        schema::fault(single("type"@, t), v, path) == if schema::type_met(Some(t), v) {
            None
        } else {
            Some(
                schema::place(path) + ": expected type "@ + json::compact_text(t.normal())
                    + " but found "@ + schema::type_of(v),
            )
        },
{
    broadcast use lookup_only;

    keyword_names();
    elsewhere("type"@, t, v, path);
    schema::no_fault_is_valid(single("type"@, t), v, path);
}

/// A list of types asks for one of them.
pub proof fn one_of_types(list: Seq<JsonView>, v: JsonView)
    ensures
        meets(single("type"@, JsonView::Array(list)), v) <==> exists|i: int|
            0 <= i < list.len() && list[i] is String && meets(
                single("type"@, #[trigger] list[i]),
                v,
            ),
{
    one_type(JsonView::Array(list), v, seq![]);
    assert forall|i: int| 0 <= i < list.len() && (#[trigger] list[i]) is String implies meets(
        single("type"@, list[i]),
        v,
    ) == schema::has_type(list[i]->String_0, v) by {
        one_type(list[i], v, seq![]);
    }
    if schema::type_met(Some(JsonView::Array(list)), v) {
        let i = choose|i: int|
            0 <= i < list.len() && (#[trigger] list[i]) is String && schema::has_type(
                list[i]->String_0,
                v,
            );
        assert(meets(single("type"@, list[i]), v));
    }
}

/// Where the type is another, it is told which was asked for and which was found.
pub proof fn type_told(t: JsonView, v: JsonView, path: Seq<char>)
    requires
        !meets(single("type"@, t), v),
    ensures
        schema::fault(single("type"@, t), v, path) == Some(
            schema::place(path) + ": expected type "@ + json::compact_text(t.normal())
                + " but found "@ + schema::type_of(v),
        ),
        v is Null ==> schema::type_of(v) == "null"@,
        v is Bool ==> schema::type_of(v) == "boolean"@,
        v matches JsonView::Number(NumberView::Whole(_)) ==> schema::type_of(v) == "integer"@,
        v matches JsonView::Number(NumberView::Double(_)) ==> schema::type_of(v) == "number"@,
        v is String ==> schema::type_of(v) == "string"@,
        v is Array ==> schema::type_of(v) == "array"@,
        v is Object ==> schema::type_of(v) == "object"@,
{
    one_type(t, v, path);
}

/// `enum` asks for one of the values that it lists, and `const` for the one that it gives.
pub proof fn values_asked(list: Seq<JsonView>, x: JsonView, v: JsonView, path: Seq<char>)
    ensures
        schema::fault(single("enum"@, JsonView::Array(list)), v, path) == if exists|i: int|
            0 <= i < list.len() && (#[trigger] list[i]).same(v) {
            None
        } else {
            Some(schema::place(path) + ": value is not one of the allowed values"@)
        },
        schema::fault(single("const"@, x), v, path) == if x.same(v) {
            None
        } else {
            Some(schema::place(path) + ": value does not match the constant"@)
        },
{
    broadcast use lookup_only;

    keyword_names();
    elsewhere("enum"@, JsonView::Array(list), v, path);
    elsewhere("const"@, x, v, path);
}

/// A bound on numbers: which it is and what is said where a number is beyond it.
pub open spec fn bounded(
    k: Seq<char>,
    b: NumberView,
    n: NumberView,
    path: Seq<char>,
    met: bool,
    told: Seq<char>,
) -> bool {
    schema::fault(single(k, JsonView::Number(b)), JsonView::Number(n), path) == if met {
        None
    } else {
        Some(
            schema::place(path) + ": "@ + json::double_text(JsonNumber::double(n)) + told
                + json::double_text(JsonNumber::double(b)),
        )
    }
}

/// The four bounds on numbers compare doubles, by the keys that order them. The exclusive ones
/// leave out the bound itself.
pub proof fn number_bounds(b: NumberView, n: NumberView, path: Seq<char>)
    ensures
        ({
            let set = json::double_key(JsonNumber::double(b));
            let is = json::double_key(JsonNumber::double(n));
            &&& bounded("minimum"@, b, n, path, is >= set, " is below minimum "@)
            &&& bounded("maximum"@, b, n, path, is <= set, " exceeds maximum "@)
            &&& bounded("exclusiveMinimum"@, b, n, path, is > set, " is not above "@)
            &&& bounded("exclusiveMaximum"@, b, n, path, is < set, " is not below "@)
        }),
{
    broadcast use lookup_only;

    keyword_names();
    let v = JsonView::Number(n);
    elsewhere("minimum"@, JsonView::Number(b), v, path);
    elsewhere("maximum"@, JsonView::Number(b), v, path);
    elsewhere("exclusiveMinimum"@, JsonView::Number(b), v, path);
    elsewhere("exclusiveMaximum"@, JsonView::Number(b), v, path);
}

/// A count that a schema gives.
pub open spec fn counted(n: int) -> JsonView {
    JsonView::Number(NumberView::Whole(n))
}

/// `minLength` and `maxLength` ask for a text of at least and at most so many characters.
pub proof fn text_lengths(n: int, s: Seq<char>, path: Seq<char>)
    requires
        n >= 0,
    ensures
        schema::fault(single("minLength"@, counted(n)), JsonView::String(s), path) == if s.len()
            >= n {
            None
        } else {
            Some(schema::place(path) + ": string shorter than "@ + text::decimal(n))
        },
        schema::fault(single("maxLength"@, counted(n)), JsonView::String(s), path) == if s.len()
            <= n {
            None
        } else {
            Some(schema::place(path) + ": string longer than "@ + text::decimal(n))
        },
{
    broadcast use lookup_only;

    keyword_names();
    elsewhere("minLength"@, counted(n), JsonView::String(s), path);
    elsewhere("maxLength"@, counted(n), JsonView::String(s), path);
}

/// `pattern` asks for a text in which the pattern is found.
pub proof fn text_patterns(p: Seq<char>, s: Seq<char>, path: Seq<char>)
    ensures
        schema::fault(single("pattern"@, JsonView::String(p)), JsonView::String(s), path)
            == match schema::pattern_found(p, s) {
            Ok(true) => None,
            Ok(false) => Some(schema::place(path) + ": string does not match pattern "@ + p),
            Err(e) => Some(schema::place(path) + ": invalid pattern "@ + p + ": "@ + e),
        },
{
    broadcast use lookup_only;

    keyword_names();
    elsewhere("pattern"@, JsonView::String(p), JsonView::String(s), path);
}

/// `minItems` and `maxItems` ask for an array of at least and at most so many items.
pub proof fn array_lengths(n: int, a: Seq<JsonView>, path: Seq<char>)
    requires
        n >= 0,
    ensures
        schema::fault(single("minItems"@, counted(n)), JsonView::Array(a), path) == if a.len()
            >= n {
            None
        } else {
            Some(
                schema::place(path) + ": array has fewer than "@ + text::decimal(n) + " items"@,
            )
        },
        schema::fault(single("maxItems"@, counted(n)), JsonView::Array(a), path) == if a.len()
            <= n {
            None
        } else {
            Some(schema::place(path) + ": array has more than "@ + text::decimal(n) + " items"@)
        },
{
    broadcast use lookup_only;

    keyword_names();
    let v = JsonView::Array(a);
    elsewhere("minItems"@, counted(n), v, path);
    elsewhere("maxItems"@, counted(n), v, path);
    assert(schema::items_fault(only("minItems"@, counted(n)), v, path) == schema::items_fault(
        only("minItems"@, counted(n)),
        v,
        path,
    ));
    assert(schema::items_fault(only("maxItems"@, counted(n)), v, path) == schema::items_fault(
        only("maxItems"@, counted(n)),
        v,
        path,
    ));
}

/// `items` asks for an array each item of which meets a schema.
pub proof fn array_items(sub: JsonView, a: Seq<JsonView>)
    ensures
        meets(single("items"@, sub), JsonView::Array(a)) <==> forall|i: int|
            0 <= i < a.len() ==> meets(sub, #[trigger] a[i]),
{
    broadcast use lookup_only;

    keyword_names();
    let v = JsonView::Array(a);
    let o = only("items"@, sub);
    assert(schema::valid_items(o, v) <==> forall|i: int|
        0 <= i < a.len() ==> schema::valid(sub, #[trigger] a[i]));
    assert(schema::valid_members(o, v));
    assert(schema::valid_combined(o, v));
}

/// A keyword on values of one type asks for nothing of values of another.
pub proof fn other_types(k: Seq<char>, x: JsonView, v: JsonView)
    ensures
        (k == "minimum"@ || k == "maximum"@ || k == "exclusiveMinimum"@ || k
            == "exclusiveMaximum"@) && !(v is Number) ==> meets(single(k, x), v),
        (k == "minLength"@ || k == "maxLength"@ || k == "pattern"@) && !(v is String) ==> meets(
            single(k, x),
            v,
        ),
        (k == "minItems"@ || k == "maxItems"@ || k == "items"@) && !(v is Array) ==> meets(
            single(k, x),
            v,
        ),
        (k == "required"@ || k == "properties"@ || k == "additionalProperties"@) && !(v is Object)
            ==> meets(single(k, x), v),
{
    broadcast use lookup_only;

    keyword_names();
    let o = only(k, x);
    assert(schema::valid_items(o, v) || v is Array);
    assert(schema::valid_members(o, v) || v is Object);
    elsewhere(k, x, v, seq![]);
    schema::no_fault_is_valid(single(k, x), v, seq![]);
    assert(schema::items_fault(o, v, seq![]) is None || v is Array);
    assert(schema::members_fault(o, v, seq![]) is None || v is Object);
}

/// `required` asks for an object that has each member that it names, and the first that is
/// missing is told.
pub proof fn members_required(names: Seq<JsonView>, fields: Seq<MemberView>)
    ensures
        meets(single("required"@, JsonView::Array(names)), JsonView::Object(fields)) <==> forall|
            i: int,
        |
            0 <= i < names.len() ==> (#[trigger] names[i] matches JsonView::String(n)
                ==> JsonView::Object(fields).get(n) is Some),
{
    broadcast use lookup_only;

    keyword_names();
    let v = JsonView::Object(fields);
    let o = only("required"@, JsonView::Array(names));
    assert(schema::valid_items(o, v));
    assert(schema::valid_combined(o, v));
    assert(schema::valid_members(o, v) <==> schema::required_met(
        Some(JsonView::Array(names)),
        fields,
    ));
}

/// A member that is required and missing is told by its name.
pub proof fn missing_told(name: Seq<char>, fields: Seq<MemberView>, path: Seq<char>)
    requires
        JsonView::Object(fields).get(name) is None,
    ensures
        schema::fault(
            single("required"@, JsonView::Array(seq![JsonView::String(name)])),
            JsonView::Object(fields),
            path,
        ) == Some(schema::place(path) + ": required property '"@ + name + "' not found"@),
{
    broadcast use lookup_only;

    keyword_names();
    let v = JsonView::Object(fields);
    let list = seq![JsonView::String(name)];
    let o = only("required"@, JsonView::Array(list));
    elsewhere("required"@, JsonView::Array(list), v, path);
    assert(list[0] == JsonView::String(name));
    assert(schema::required_fault(list, fields, path, 0) == Some(
        schema::place(path) + ": required property '"@ + name + "' not found"@,
    ));
    assert(schema::members_fault(o, v, path) == schema::members_fault(o, v, path));
}

/// `properties` asks that each member which it describes, where it is there, meets its schema.
pub proof fn members_described(props: Seq<MemberView>, fields: Seq<MemberView>)
    ensures
        meets(single("properties"@, JsonView::Object(props)), JsonView::Object(fields)) <==> forall|
            i: int,
        |
            0 <= i < props.len() ==> (JsonView::Object(fields).get(
                (#[trigger] props[i]).name,
            ) matches Some(x) ==> meets(props[i].value, x)),
{
    broadcast use lookup_only;

    keyword_names();
    let v = JsonView::Object(fields);
    let o = only("properties"@, JsonView::Object(props));
    assert(schema::valid_items(o, v));
    assert(schema::valid_combined(o, v));
    assert(schema::valid_members(o, v) <==> forall|i: int|
        0 <= i < props.len() ==> match json::lookup(fields, (#[trigger] props[i]).name) {
            Some(x) => schema::valid(props[i].value, x),
            None => true,
        });
}

/// The member of the object is described by `properties`.
pub open spec fn described(o: Seq<MemberView>, name: Seq<char>) -> bool {
    JsonView::Object(o).get("properties"@) matches Some(p) && p.get(name) is Some
}

/// `additionalProperties`, where it is false, asks that no member is there that `properties`
/// does not describe, and where it is a schema, that each such member meets it.
pub proof fn members_not_described(o: Seq<MemberView>, fields: Seq<MemberView>, i: int)
    requires
        meets(JsonView::Object(o), JsonView::Object(fields)),
        0 <= i < fields.len(),
        !described(o, fields[i].name),
    ensures
        JsonView::Object(o).get("additionalProperties"@) != Some(JsonView::Bool(false)),
        JsonView::Object(o).get("additionalProperties"@) matches Some(a) ==> (a is Object ==> meets(
            a,
            fields[i].value,
        )),
{
    let v = JsonView::Object(fields);
    assert(schema::valid_members(o, v));
    assert(json::lookup(schema::properties(o), fields[i].name) is None);
}

/// Alone, `additionalProperties` lets every member through that it does not ask anything of.
pub proof fn members_alone(x: JsonView, fields: Seq<MemberView>)
    ensures
        meets(single("additionalProperties"@, x), JsonView::Object(fields)) <==> match x {
            JsonView::Bool(b) => b || fields.len() == 0,
            JsonView::Object(_) => forall|i: int|
                0 <= i < fields.len() ==> meets(x, (#[trigger] fields[i]).value),
            _ => true,
        },
{
    broadcast use lookup_only;

    keyword_names();
    let v = JsonView::Object(fields);
    let o = only("additionalProperties"@, x);
    assert(schema::valid_items(o, v));
    assert(schema::valid_combined(o, v));
    assert(schema::properties(o).len() == 0);
    assert(forall|k: Seq<char>| json::lookup(schema::properties(o), k) is None);
    match x {
        JsonView::Bool(false) => {
            assert(schema::valid_members(o, v) <==> forall|i: int|
                0 <= i < fields.len() ==> json::lookup(
                    schema::properties(o),
                    (#[trigger] fields[i]).name,
                ) is Some);
            if fields.len() > 0 {
                assert(json::lookup(schema::properties(o), fields[0].name) is None);
            }
        },
        JsonView::Object(a) => {
            assert(schema::valid_members(o, v) <==> forall|i: int|
                0 <= i < fields.len() && json::lookup(
                    schema::properties(o),
                    (#[trigger] fields[i]).name,
                ) is None ==> schema::valid(JsonView::Object(a), fields[i].value));
        },
        _ => {
            assert(schema::valid_members(o, v));
        },
    }
}

/// The value meets the schema at this place and no other of those from place `i` on.
pub open spec fn met_only_at(list: Seq<JsonView>, v: JsonView, i: int, at: int) -> bool {
    &&& i <= at < list.len()
    &&& meets(list[at], v)
    &&& forall|j: int| i <= j < list.len() && j != at ==> !meets(#[trigger] list[j], v)
}

proof fn none_met(list: Seq<JsonView>, v: JsonView, i: int)
    requires
        0 <= i <= list.len(),
    ensures
        schema::valid_count(list, v, i) == 0 <==> forall|j: int|
            i <= j < list.len() ==> !meets(#[trigger] list[j], v),
    decreases list.len() - i,
{
    if i < list.len() {
        none_met(list, v, i + 1);
    }
}

proof fn one_met(list: Seq<JsonView>, v: JsonView, i: int)
    requires
        0 <= i <= list.len(),
    ensures
        schema::valid_count(list, v, i) == 1 <==> exists|at: int| met_only_at(list, v, i, at),
    decreases list.len() - i,
{
    if i < list.len() {
        one_met(list, v, i + 1);
        none_met(list, v, i + 1);
        if meets(list[i], v) {
            if schema::valid_count(list, v, i) == 1 {
                assert(met_only_at(list, v, i, i));
            }
            if exists|at: int| met_only_at(list, v, i, at) {
                let at = choose|at: int| met_only_at(list, v, i, at);
                assert(at == i);
            }
        } else {
            if schema::valid_count(list, v, i) == 1 {
                let next = i + 1;
                let at = choose|at: int| met_only_at(list, v, next, at);
                assert(met_only_at(list, v, i, at));
            }
            if exists|at: int| met_only_at(list, v, i, at) {
                let at = choose|at: int| met_only_at(list, v, i, at);
                assert(met_only_at(list, v, i + 1, at));
            }
        }
    }
}

proof fn all_asked(list: Seq<JsonView>, v: JsonView)
    ensures
        schema::valid_combined(only("allOf"@, JsonView::Array(list)), v) <==> forall|i: int|
            0 <= i < list.len() ==> schema::valid(#[trigger] list[i], v),
{
    broadcast use lookup_only;

    keyword_names();
    let o = only("allOf"@, JsonView::Array(list));
    assert(json::lookup(o, "allOf"@) == Some(JsonView::Array(list)));
    assert(json::lookup(o, "anyOf"@) is None);
    assert(json::lookup(o, "oneOf"@) is None);
    assert(json::lookup(o, "not"@) is None);
    match json::lookup(o, "allOf"@) {
        Some(JsonView::Array(l)) => {
            assert(schema::valid_combined(o, v) <==> forall|i: int|
                0 <= i < l.len() ==> schema::valid(#[trigger] l[i], v));
            assert(l == list);
        },
        _ => {},
    }
}

/// `allOf` asks for every one of its schemas, `anyOf` for at least one, `oneOf` for exactly
/// one, and `not` for its schema not to be met.
pub proof fn schemas_combined(list: Seq<JsonView>, sub: JsonView, v: JsonView)
    ensures
        meets(single("allOf"@, JsonView::Array(list)), v) <==> forall|i: int|
            0 <= i < list.len() ==> meets(#[trigger] list[i], v),
        meets(single("anyOf"@, JsonView::Array(list)), v) <==> exists|i: int|
            0 <= i < list.len() && meets(#[trigger] list[i], v),
        meets(single("oneOf"@, JsonView::Array(list)), v) <==> exists|at: int|
            met_only_at(list, v, 0, at),
        meets(single("not"@, sub), v) <==> !meets(sub, v),
{
    broadcast use lookup_only;

    keyword_names();
    let all = only("allOf"@, JsonView::Array(list));
    let any = only("anyOf"@, JsonView::Array(list));
    let one = only("oneOf"@, JsonView::Array(list));
    let none = only("not"@, sub);
    assert(schema::valid_items(all, v) && schema::valid_items(any, v) && schema::valid_items(one, v)
        && schema::valid_items(none, v));
    assert(schema::valid_members(all, v) && schema::valid_members(any, v) && schema::valid_members(
        one,
        v,
    ) && schema::valid_members(none, v));
    all_asked(list, v);
    assert(schema::valid_combined(any, v) <==> exists|i: int|
        0 <= i < list.len() && schema::valid(#[trigger] list[i], v));
    one_met(list, v, 0);
    assert(schema::valid_combined(one, v) <==> schema::valid_count(list, v, 0) == 1);
    assert(schema::valid_combined(none, v) <==> !schema::valid(sub, v));
}

/// A value that meets a schema meets each of its keywords alone. Only `additionalProperties`
/// looks at another keyword.
pub proof fn keywords_are_all_asked(o: Seq<MemberView>, k: Seq<char>, v: JsonView)
    requires
        meets(JsonView::Object(o), v),
        JsonView::Object(o).get(k) is Some,
        k != "additionalProperties"@,
    ensures
        meets(single(k, JsonView::Object(o).get(k)->0), v),
{
    broadcast use lookup_only;

    let x = json::lookup(o, k)->0;
    let p = only(k, x);
    keyword_names();
    assert(schema::valid_items(o, v) && schema::valid_members(o, v) && schema::valid_combined(o, v));
    assert(schema::valid_items(p, v));
    assert(schema::properties(p) == if k == "properties"@ {
        schema::properties(o)
    } else {
        seq![]
    });
    assert(schema::valid_members(p, v));
    assert(schema::valid_combined(p, v));
}

/// A value that meets each keyword alone meets the schema, where `additionalProperties` is
/// not one of them.
pub proof fn keywords_are_all_that_is_asked(o: Seq<MemberView>, v: JsonView)
    requires
        JsonView::Object(o).get("additionalProperties"@) is None,
        forall|k: Seq<char>|
            JsonView::Object(o).get(k) is Some ==> #[trigger] meets(
                single(k, JsonView::Object(o).get(k)->0),
                v,
            ),
    ensures
        meets(JsonView::Object(o), v),
{
    broadcast use lookup_only;

    keyword_names();
    asked_alone(o, "type"@, v);
    asked_alone(o, "enum"@, v);
    asked_alone(o, "const"@, v);
    asked_alone(o, "minimum"@, v);
    asked_alone(o, "maximum"@, v);
    asked_alone(o, "exclusiveMinimum"@, v);
    asked_alone(o, "exclusiveMaximum"@, v);
    asked_alone(o, "minLength"@, v);
    asked_alone(o, "maxLength"@, v);
    asked_alone(o, "pattern"@, v);
    asked_alone(o, "minItems"@, v);
    asked_alone(o, "maxItems"@, v);
    asked_alone(o, "items"@, v);
    asked_alone(o, "required"@, v);
    asked_alone(o, "properties"@, v);
    asked_alone(o, "allOf"@, v);
    asked_alone(o, "anyOf"@, v);
    asked_alone(o, "oneOf"@, v);
    asked_alone(o, "not"@, v);
    assert(schema::valid_items(o, v));
    assert(schema::valid_members(o, v));
    assert(schema::valid_combined(o, v));
}

/// What a keyword asks for alone.
proof fn asked_alone(o: Seq<MemberView>, k: Seq<char>, v: JsonView)
    requires
        JsonView::Object(o).get(k) is Some ==> meets(single(k, JsonView::Object(o).get(k)->0), v),
    ensures
        json::lookup(o, k) is Some ==> ({
            let p = only(k, json::lookup(o, k)->0);
            &&& schema::type_met(json::lookup(p, "type"@), v)
            &&& schema::enum_met(json::lookup(p, "enum"@), v)
            &&& schema::const_met(json::lookup(p, "const"@), v)
            &&& schema::number_met(p, v)
            &&& schema::string_met(p, v)
            &&& schema::valid_items(p, v)
            &&& schema::valid_members(p, v)
            &&& schema::valid_combined(p, v)
        }),
{
}

} // verus!
