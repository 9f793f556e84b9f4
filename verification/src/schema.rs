//! JSON Schema, as far as the schemas of tools go: `type`, `properties`, `required`,
//! `additionalProperties`, `items`, `enum`, `const`, bounds on numbers and lengths,
//! `pattern`, `anyOf`, `oneOf`, `allOf` and `not`. Other keywords are ignored.
use vstd::prelude::*;
use vstd::string::*;

use crate::double;
use crate::json;
use crate::json::{key_of_double, Json, JsonNumber, JsonView, MemberView, NumberView};
use crate::text;
use crate::text::str_eq;

verus! {

/// Whether a pattern stands somewhere in a text, or what is wrong with the pattern.
pub uninterp spec fn pattern_found(pattern: Seq<char>, s: Seq<char>) -> Result<bool, Seq<char>>;

/// `regex::Regex::new`, and `is_match` of what it gives: named by `pattern_found`,
/// the text of the error too.
#[verifier::external_body]
fn search_pattern(pattern: &str, s: &str) -> (r: Result<bool, String>)
    ensures
        match r {
            Ok(b) => pattern_found(pattern@, s@) == Ok::<bool, Seq<char>>(b),
            Err(e) => pattern_found(pattern@, s@) == Err::<bool, Seq<char>>(e@),
        },
{
    match regex::Regex::new(pattern) {
        Ok(re) => Ok(re.is_match(s)),
        Err(e) => Err(e.to_string()),
    }
}

/// The path of a value, in words.
pub open spec fn place(path: Seq<char>) -> Seq<char> {
    if path.len() == 0 {
        "<root>"@
    } else {
        path
    }
}

fn path_or_root(path: &str) -> (r: String)
    ensures
        r@ == place(path@),
{
    if path.is_empty() {
        "<root>".to_owned()
    } else {
        path.to_owned()
    }
}

/// The name of the type of a value.
pub open spec fn type_of(v: JsonView) -> Seq<char> {
    match v {
        JsonView::Null => "null"@,
        JsonView::Bool(_) => "boolean"@,
        JsonView::Number(NumberView::Whole(_)) => "integer"@,
        JsonView::Number(NumberView::Double(_)) => "number"@,
        JsonView::String(_) => "string"@,
        JsonView::Array(_) => "array"@,
        JsonView::Object(_) => "object"@,
    }
}

fn kind_name(v: &Json) -> (r: &'static str)
    ensures
        r@ == type_of(v@),
{
    match v {
        Json::Null => "null",
        Json::Bool(_) => "boolean",
        Json::Number(JsonNumber::Float(_)) => "number",
        Json::Number(_) => "integer",
        Json::String(_) => "string",
        Json::Array(_) => "array",
        Json::Object(_) => "object",
    }
}

/// The last `k` binary digits of `f` are zero.
pub open spec fn ends_in_zeros(f: int, k: int) -> bool
    decreases k,
{
    k <= 0 || (f % 2 == 0 && ends_in_zeros(f / 2, k - 1))
}

/// The double with these bits is a whole number: it is zero, or its exponent leaves
/// no binary digit behind the point, or none but zeros.
pub open spec fn whole_double(bits: int) -> bool {
    let magnitude = bits % 0x8000_0000_0000_0000;
    let exponent = magnitude / 0x10_0000_0000_0000;
    let fraction = magnitude % 0x10_0000_0000_0000;
    magnitude == 0 || (1023 <= exponent < 2047 && ends_in_zeros(fraction, 1075 - exponent))
}

fn is_whole_double(bits: u64) -> (r: bool)
    ensures
        r == whole_double(bits as int),
{
    let magnitude: u64 = bits % 0x8000_0000_0000_0000u64;
    let exponent: u64 = magnitude / 0x10_0000_0000_0000u64;
    let fraction: u64 = magnitude % 0x10_0000_0000_0000u64;
    if magnitude == 0 {
        return true;
    }
    if exponent < 1023 || exponent >= 2047 {
        return false;
    }
    if exponent >= 1075 {
        return true;
    }
    let mut f: u64 = fraction;
    let mut k: u64 = 1075 - exponent;
    while k > 0
        invariant
            whole_double(bits as int) == ends_in_zeros(
                f as int,
                k as int,
            ),
        decreases k,
    {
        if f % 2 != 0 {
            return false;
        }
        f = f / 2;
        k = k - 1;
    }
    true
}

/// Whether a value has the type of a name. A name that is not known is every type's.
pub open spec fn has_type(name: Seq<char>, v: JsonView) -> bool {
    if name == "null"@ {
        v is Null
    } else if name == "boolean"@ {
        v is Bool
    } else if name == "object"@ {
        v is Object
    } else if name == "array"@ {
        v is Array
    } else if name == "string"@ {
        v is String
    } else if name == "number"@ {
        v is Number
    } else if name == "integer"@ {
        match v {
            JsonView::Number(NumberView::Whole(_)) => true,
            JsonView::Number(NumberView::Double(b)) => whole_double(b),
            _ => false,
        }
    } else {
        true
    }
}

fn matches_type(expected: &str, v: &Json) -> (r: bool)
    ensures
        r == has_type(expected@, v@),
{
    if str_eq(expected, "null") {
        v.is_null()
    } else if str_eq(expected, "boolean") {
        matches!(v, Json::Bool(_))
    } else if str_eq(expected, "object") {
        v.is_object()
    } else if str_eq(expected, "array") {
        matches!(v, Json::Array(_))
    } else if str_eq(expected, "string") {
        matches!(v, Json::String(_))
    } else if str_eq(expected, "number") {
        matches!(v, Json::Number(_))
    } else if str_eq(expected, "integer") {
        match v {
            Json::Number(JsonNumber::Float(b)) => is_whole_double(*b),
            Json::Number(_) => true,
            _ => false,
        }
    } else {
        true
    }
}

/// The keyword `type` is met: by the type it names, or by one of those.
pub open spec fn type_met(t: Option<JsonView>, v: JsonView) -> bool {
    match t {
        Some(JsonView::String(s)) => has_type(s, v),
        Some(JsonView::Array(list)) => exists|i: int|
            0 <= i < list.len() && (#[trigger] list[i]) is String && has_type(
                list[i]->String_0,
                v,
            ),
        _ => true,
    }
}

/// One of the values is this one.
pub open spec fn listed(values: Seq<JsonView>, v: JsonView) -> bool {
    exists|i: int| 0 <= i < values.len() && (#[trigger] values[i]).same(v)
}

/// The keyword `enum` is met: by a value that is listed.
pub open spec fn enum_met(e: Option<JsonView>, v: JsonView) -> bool {
    match e {
        Some(JsonView::Array(values)) => listed(values, v),
        _ => true,
    }
}

/// The keyword `const` is met: by the value it gives.
pub open spec fn const_met(c: Option<JsonView>, v: JsonView) -> bool {
    match c {
        Some(c) => c.same(v),
        None => true,
    }
}

/// The bound that a keyword sets on a number.
pub open spec fn bound(o: Seq<MemberView>, k: Seq<char>) -> Option<int> {
    match json::lookup(o, k) {
        Some(JsonView::Number(n)) => Some(JsonNumber::double(n)),
        _ => None,
    }
}

/// The count that a keyword sets.
pub open spec fn count(o: Seq<MemberView>, k: Seq<char>) -> Option<int> {
    match json::lookup(o, k) {
        Some(j) => j.natural(),
        None => None,
    }
}

/// The double is below the bound, where there is one.
pub open spec fn below(value: int, b: Option<int>) -> bool {
    b is Some && json::double_key(value) < json::double_key(b->0)
}

/// The double is above the bound, where there is one.
pub open spec fn above(value: int, b: Option<int>) -> bool {
    b is Some && json::double_key(value) > json::double_key(b->0)
}

/// The double is not above the bound, where there is one.
pub open spec fn not_above(value: int, b: Option<int>) -> bool {
    b is Some && json::double_key(value) <= json::double_key(b->0)
}

/// The double is not below the bound, where there is one.
pub open spec fn not_below(value: int, b: Option<int>) -> bool {
    b is Some && json::double_key(value) >= json::double_key(b->0)
}

/// The bounds on a number are met.
pub open spec fn number_met(o: Seq<MemberView>, v: JsonView) -> bool {
    match v {
        JsonView::Number(n) => {
            let d = JsonNumber::double(n);
            &&& !below(d, bound(o, "minimum"@))
            &&& !above(d, bound(o, "maximum"@))
            &&& !not_above(d, bound(o, "exclusiveMinimum"@))
            &&& !not_below(d, bound(o, "exclusiveMaximum"@))
        },
        _ => true,
    }
}

/// Whole numbers of at most 2^53 on either side meet a bound on them exactly as they compare:
/// a number below the minimum or above the maximum is refused, and one that is equal to a
/// bound only where the bound is exclusive.
pub proof fn whole_numbers_compare(v: int, b: int)
    requires
        -0x20_0000_0000_0000 <= v <= 0x20_0000_0000_0000,
        -0x20_0000_0000_0000 <= b <= 0x20_0000_0000_0000,
    ensures
        ({
            let value = JsonNumber::double(NumberView::Whole(v));
            let set = Some(JsonNumber::double(NumberView::Whole(b)));
            &&& below(value, set) <==> v < b
            &&& above(value, set) <==> v > b
            &&& not_above(value, set) <==> v <= b
            &&& not_below(value, set) <==> v >= b
        }),
{
    if v <= b {
        double::whole_numbers_keep_order(v, b);
    }
    if b <= v {
        double::whole_numbers_keep_order(b, v);
    }
}

/// A length is within the counts that two keywords set.
pub open spec fn length_met(len: int, least: Option<int>, most: Option<int>) -> bool {
    &&& least is Some ==> len >= least->0
    &&& most is Some ==> len <= most->0
}

/// The keyword `pattern` is met.
pub open spec fn pattern_met(p: Option<JsonView>, s: Seq<char>) -> bool {
    match p {
        Some(JsonView::String(p)) => pattern_found(p, s) == Ok::<bool, Seq<char>>(true),
        _ => true,
    }
}

/// The bounds on a text are met.
pub open spec fn string_met(o: Seq<MemberView>, v: JsonView) -> bool {
    match v {
        JsonView::String(s) => length_met(
            s.len() as int,
            count(o, "minLength"@),
            count(o, "maxLength"@),
        ) && pattern_met(json::lookup(o, "pattern"@), s),
        _ => true,
    }
}

/// The keyword `required` is met: each member it names is there.
pub open spec fn required_met(r: Option<JsonView>, fields: Seq<MemberView>) -> bool {
    match r {
        Some(JsonView::Array(names)) => forall|i: int|
            0 <= i < names.len() && (#[trigger] names[i]) is String ==> json::lookup(
                fields,
                names[i]->String_0,
            ) is Some,
        _ => true,
    }
}

/// The members that the keyword `properties` describes.
pub open spec fn properties(o: Seq<MemberView>) -> Seq<MemberView> {
    match json::lookup(o, "properties"@) {
        Some(JsonView::Object(p)) => p,
        _ => seq![],
    }
}

/// The list of schemas under a keyword.
pub open spec fn schemas(o: Seq<MemberView>, k: Seq<char>) -> Option<Seq<JsonView>> {
    match json::lookup(o, k) {
        Some(JsonView::Array(list)) => Some(list),
        _ => None,
    }
}

/// What stands under a keyword is smaller than the schema.
pub proof fn member_smaller(o: Seq<MemberView>, k: Seq<char>)
    ensures
        json::lookup(o, k) is Some ==> decreases_to!(o => json::lookup(o, k)->0),
{
    if json::lookup(o, k) is Some {
        let i = json::lookup_found(o, k);
        assert(decreases_to!(o => o[i]));
        assert(decreases_to!(o[i] => o[i].value));
    }
}

/// Whether a value meets a schema.
pub open spec fn valid(schema: JsonView, v: JsonView) -> bool
    decreases schema, 0nat,
{
    match schema {
        JsonView::Bool(b) => b,
        JsonView::Object(o) => {
            &&& type_met(json::lookup(o, "type"@), v)
            &&& enum_met(json::lookup(o, "enum"@), v)
            &&& const_met(json::lookup(o, "const"@), v)
            &&& number_met(o, v)
            &&& string_met(o, v)
            &&& valid_items(o, v)
            &&& valid_members(o, v)
            &&& valid_combined(o, v)
        },
        _ => true,
    }
}

/// Whether an array meets the keywords on arrays.
pub open spec fn valid_items(o: Seq<MemberView>, v: JsonView) -> bool
    decreases o, 0nat,
{
    proof {
        member_smaller(o, "items"@);
    }
    match v {
        JsonView::Array(items) => {
            &&& length_met(items.len() as int, count(o, "minItems"@), count(o, "maxItems"@))
            &&& match json::lookup(o, "items"@) {
                Some(sub) => forall|i: int| 0 <= i < items.len() ==> valid(sub, #[trigger] items[i]),
                None => true,
            }
        },
        _ => true,
    }
}

/// Whether an object meets the keywords on objects.
pub open spec fn valid_members(o: Seq<MemberView>, v: JsonView) -> bool
    decreases o, 0nat,
{
    proof {
        member_smaller(o, "properties"@);
        member_smaller(o, "additionalProperties"@);
    }
    match v {
        JsonView::Object(fields) => {
            &&& required_met(json::lookup(o, "required"@), fields)
            &&& match json::lookup(o, "properties"@) {
                Some(JsonView::Object(props)) => forall|i: int|
                    0 <= i < props.len() ==> match json::lookup(
                        fields,
                        (#[trigger] props[i]).name,
                    ) {
                        Some(x) => valid(props[i].value, x),
                        None => true,
                    },
                _ => true,
            }
            &&& match json::lookup(o, "additionalProperties"@) {
                Some(JsonView::Bool(false)) => forall|i: int|
                    0 <= i < fields.len() ==> json::lookup(
                        properties(o),
                        (#[trigger] fields[i]).name,
                    ) is Some,
                Some(JsonView::Object(a)) => forall|i: int|
                    0 <= i < fields.len() && json::lookup(
                        properties(o),
                        (#[trigger] fields[i]).name,
                    ) is None ==> valid(JsonView::Object(a), fields[i].value),
                _ => true,
            }
        },
        _ => true,
    }
}

/// How many of the schemas from place `i` on a value meets.
pub open spec fn valid_count(list: Seq<JsonView>, v: JsonView, i: int) -> nat
    decreases list, (if i < list.len() { list.len() - i } else { 0 }),
{
    if i < 0 || i >= list.len() {
        0
    } else {
        (if valid(list[i], v) {
            1nat
        } else {
            0nat
        }) + valid_count(list, v, i + 1)
    }
}

/// Whether a value meets the keywords that combine schemas.
pub open spec fn valid_combined(o: Seq<MemberView>, v: JsonView) -> bool
    decreases o, 0nat,
{
    proof {
        member_smaller(o, "allOf"@);
        member_smaller(o, "anyOf"@);
        member_smaller(o, "oneOf"@);
        member_smaller(o, "not"@);
    }
    &&& match json::lookup(o, "allOf"@) {
        Some(JsonView::Array(list)) => forall|i: int|
            0 <= i < list.len() ==> valid(#[trigger] list[i], v),
        _ => true,
    }
    &&& match json::lookup(o, "anyOf"@) {
        Some(JsonView::Array(list)) => exists|i: int|
            0 <= i < list.len() && valid(#[trigger] list[i], v),
        _ => true,
    }
    &&& match json::lookup(o, "oneOf"@) {
        Some(JsonView::Array(list)) => valid_count(list, v, 0) == 1,
        _ => true,
    }
    &&& match json::lookup(o, "not"@) {
        Some(sub) => !valid(sub, v),
        None => true,
    }
}

/// The first of two faults, where there is one.
pub open spec fn first(a: Option<Seq<char>>, b: Option<Seq<char>>) -> Option<Seq<char>> {
    if a is Some {
        a
    } else {
        b
    }
}

/// The fault, unless the condition holds.
pub open spec fn unless(holds: bool, fault: Seq<char>) -> Option<Seq<char>> {
    if holds {
        None
    } else {
        Some(fault)
    }
}

/// The path one step further.
pub open spec fn step(path: Seq<char>, name: Seq<char>) -> Seq<char> {
    path + "/"@ + name
}

/// The first fault of a value under the keywords that look at the value alone.
pub open spec fn plain_fault(o: Seq<MemberView>, v: JsonView, path: Seq<char>) -> Option<Seq<char>> {
    let t = json::lookup(o, "type"@);
    let f = unless(
        type_met(t, v),
        place(path) + ": expected type "@ + json::compact_text(t->0.normal()) + " but found "@
            + type_of(v),
    );
    let f = first(
        f,
        unless(
            enum_met(json::lookup(o, "enum"@), v),
            place(path) + ": value is not one of the allowed values"@,
        ),
    );
    first(
        f,
        unless(
            const_met(json::lookup(o, "const"@), v),
            place(path) + ": value does not match the constant"@,
        ),
    )
}

/// The first fault of a number.
pub open spec fn number_fault(o: Seq<MemberView>, v: JsonView, path: Seq<char>) -> Option<Seq<char>> {
    match v {
        JsonView::Number(n) => {
            let d = JsonNumber::double(n);
            let head = place(path) + ": "@ + json::double_text(d);
            let b = bound(o, "minimum"@);
            let f = unless(!below(d, b), head + " is below minimum "@ + json::double_text(b->0));
            let b = bound(o, "maximum"@);
            let f = first(
                f,
                unless(!above(d, b), head + " exceeds maximum "@ + json::double_text(b->0)),
            );
            let b = bound(o, "exclusiveMinimum"@);
            let f = first(
                f,
                unless(!not_above(d, b), head + " is not above "@ + json::double_text(b->0)),
            );
            let b = bound(o, "exclusiveMaximum"@);
            first(f, unless(!not_below(d, b), head + " is not below "@ + json::double_text(b->0)))
        },
        _ => None,
    }
}

/// The first fault of a text.
pub open spec fn string_fault(o: Seq<MemberView>, v: JsonView, path: Seq<char>) -> Option<Seq<char>> {
    match v {
        JsonView::String(s) => {
            let min = count(o, "minLength"@);
            let max = count(o, "maxLength"@);
            let f = unless(
                min is Some ==> s.len() >= min->0,
                place(path) + ": string shorter than "@ + text::decimal(min->0),
            );
            let f = first(
                f,
                unless(
                    max is Some ==> s.len() <= max->0,
                    place(path) + ": string longer than "@ + text::decimal(max->0),
                ),
            );
            let p = match json::lookup(o, "pattern"@) {
                Some(JsonView::String(p)) => match pattern_found(p, s) {
                    Ok(found) => unless(
                        found,
                        place(path) + ": string does not match pattern "@ + p,
                    ),
                    Err(e) => Some(place(path) + ": invalid pattern "@ + p + ": "@ + e),
                },
                _ => None,
            };
            first(f, p)
        },
        _ => None,
    }
}

/// The first fault of a value under a schema, at a path.
pub open spec fn fault(schema: JsonView, v: JsonView, path: Seq<char>) -> Option<Seq<char>>
    decreases schema, 0nat,
{
    match schema {
        JsonView::Bool(b) => unless(b, place(path) + ": schema forbids any value"@),
        JsonView::Object(o) => {
            let f = first(plain_fault(o, v, path), number_fault(o, v, path));
            let f = first(f, string_fault(o, v, path));
            let f = first(f, items_fault(o, v, path));
            let f = first(f, members_fault(o, v, path));
            first(f, combined_fault(o, v, path))
        },
        _ => None,
    }
}

/// The first fault of an array.
pub open spec fn items_fault(o: Seq<MemberView>, v: JsonView, path: Seq<char>) -> Option<Seq<char>>
    decreases o, 0nat,
{
    proof {
        member_smaller(o, "items"@);
    }
    match v {
        JsonView::Array(items) => {
            let min = count(o, "minItems"@);
            let max = count(o, "maxItems"@);
            let f = unless(
                min is Some ==> items.len() >= min->0,
                place(path) + ": array has fewer than "@ + text::decimal(min->0) + " items"@,
            );
            let f = first(
                f,
                unless(
                    max is Some ==> items.len() <= max->0,
                    place(path) + ": array has more than "@ + text::decimal(max->0) + " items"@,
                ),
            );
            let i = match json::lookup(o, "items"@) {
                Some(sub) => each_item_fault(sub, items, path, 0),
                None => None,
            };
            first(f, i)
        },
        _ => None,
    }
}

/// The first fault among the items from place `i` on.
pub open spec fn each_item_fault(
    sub: JsonView,
    items: Seq<JsonView>,
    path: Seq<char>,
    i: int,
) -> Option<Seq<char>>
    decreases sub, (if i < items.len() { items.len() - i + 1 } else { 1 }),
{
    if i < 0 || i >= items.len() {
        None
    } else {
        first(
            fault(sub, items[i], step(path, text::decimal(i))),
            each_item_fault(sub, items, path, i + 1),
        )
    }
}

/// The first member that is required and missing, from place `i` of the names on.
pub open spec fn required_fault(
    names: Seq<JsonView>,
    fields: Seq<MemberView>,
    path: Seq<char>,
    i: int,
) -> Option<Seq<char>>
    decreases names.len() - i,
{
    if i < 0 || i >= names.len() {
        None
    } else {
        let here = match names[i] {
            JsonView::String(name) => unless(
                json::lookup(fields, name) is Some,
                place(path) + ": required property '"@ + name + "' not found"@,
            ),
            _ => None,
        };
        first(here, required_fault(names, fields, path, i + 1))
    }
}

/// The first fault of an object.
pub open spec fn members_fault(o: Seq<MemberView>, v: JsonView, path: Seq<char>) -> Option<Seq<char>>
    decreases o, 0nat,
{
    proof {
        member_smaller(o, "properties"@);
        member_smaller(o, "additionalProperties"@);
    }
    match v {
        JsonView::Object(fields) => {
            let f = match json::lookup(o, "required"@) {
                Some(JsonView::Array(names)) => required_fault(names, fields, path, 0),
                _ => None,
            };
            let p = match json::lookup(o, "properties"@) {
                Some(JsonView::Object(props)) => each_property_fault(props, fields, path, 0),
                _ => None,
            };
            let a = match json::lookup(o, "additionalProperties"@) {
                Some(sub) => each_extra_fault(sub, properties(o), fields, path, 0),
                None => None,
            };
            first(first(f, p), a)
        },
        _ => None,
    }
}

/// The first fault among the members that are described, from place `i` of the
/// descriptions on.
pub open spec fn each_property_fault(
    props: Seq<MemberView>,
    fields: Seq<MemberView>,
    path: Seq<char>,
    i: int,
) -> Option<Seq<char>>
    decreases props, (if i < props.len() { props.len() - i } else { 0 }),
{
    if i < 0 || i >= props.len() {
        None
    } else {
        proof {
            assert(decreases_to!(props => props[i]));
            assert(decreases_to!(props[i] => props[i].value));
        }
        let here = match json::lookup(fields, props[i].name) {
            Some(x) => fault(props[i].value, x, step(path, props[i].name)),
            None => None,
        };
        first(here, each_property_fault(props, fields, path, i + 1))
    }
}

/// The first fault among the members that are not described, from place `i` on.
pub open spec fn each_extra_fault(
    sub: JsonView,
    props: Seq<MemberView>,
    fields: Seq<MemberView>,
    path: Seq<char>,
    i: int,
) -> Option<Seq<char>>
    decreases sub, (if i < fields.len() { fields.len() - i + 1 } else { 1 }),
{
    if i < 0 || i >= fields.len() {
        None
    } else {
        let here = if json::lookup(props, fields[i].name) is Some {
            None
        } else {
            match sub {
                JsonView::Bool(b) => unless(
                    b,
                    place(path) + ": additional property '"@ + fields[i].name + "' is not allowed"@,
                ),
                JsonView::Object(_) => fault(sub, fields[i].value, step(path, fields[i].name)),
                _ => None,
            }
        };
        first(here, each_extra_fault(sub, props, fields, path, i + 1))
    }
}

/// The first fault under the schemas from place `i` on, all of which are to be met.
pub open spec fn all_fault(
    list: Seq<JsonView>,
    v: JsonView,
    path: Seq<char>,
    i: int,
) -> Option<Seq<char>>
    decreases list, (if i < list.len() { list.len() - i } else { 0 }),
{
    if i < 0 || i >= list.len() {
        None
    } else {
        first(fault(list[i], v, path), all_fault(list, v, path, i + 1))
    }
}

/// How many of the schemas from place `i` on find no fault.
pub open spec fn met_count(list: Seq<JsonView>, v: JsonView, path: Seq<char>, i: int) -> nat
    decreases list, (if i < list.len() { list.len() - i } else { 0 }),
{
    if i < 0 || i >= list.len() {
        0
    } else {
        (if fault(list[i], v, path) is None {
            1nat
        } else {
            0nat
        }) + met_count(list, v, path, i + 1)
    }
}

/// The first fault under the keywords that combine schemas.
pub open spec fn combined_fault(
    o: Seq<MemberView>,
    v: JsonView,
    path: Seq<char>,
) -> Option<Seq<char>>
    decreases o, 0nat,
{
    proof {
        member_smaller(o, "allOf"@);
        member_smaller(o, "anyOf"@);
        member_smaller(o, "oneOf"@);
        member_smaller(o, "not"@);
    }
    let f = match json::lookup(o, "allOf"@) {
        Some(JsonView::Array(list)) => all_fault(list, v, path, 0),
        _ => None,
    };
    let f = first(
        f,
        match json::lookup(o, "anyOf"@) {
            Some(JsonView::Array(list)) => unless(
                met_count(list, v, path, 0) > 0,
                place(path) + ": value does not match any schema in anyOf"@,
            ),
            _ => None,
        },
    );
    let f = first(
        f,
        match json::lookup(o, "oneOf"@) {
            Some(JsonView::Array(list)) => {
                let n = met_count(list, v, path, 0);
                unless(
                    n == 1,
                    place(path) + ": value matches "@ + text::decimal(n as int)
                        + " schemas in oneOf"@,
                )
            },
            _ => None,
        },
    );
    first(
        f,
        match json::lookup(o, "not"@) {
            Some(sub) => unless(
                fault(sub, v, path) is Some,
                place(path) + ": value matches the forbidden schema"@,
            ),
            None => None,
        },
    )
}

/// A fault at a path.
fn told(path: &str, what: &str) -> (r: String)
    ensures
        r@ == place(path@) + what@,
{
    let p = path_or_root(path);
    text::cat2(p.as_str(), what)
}

/// A fault at a path, about something.
fn told_of(path: &str, what: &str, about: &str) -> (r: String)
    ensures
        r@ == place(path@) + what@ + about@,
{
    let p = path_or_root(path);
    text::cat3(p.as_str(), what, about)
}

/// A fault at a path, about something, with an end.
fn told_end(path: &str, what: &str, about: &str, end: &str) -> (r: String)
    ensures
        r@ == place(path@) + what@ + about@ + end@,
{
    let p = path_or_root(path);
    text::cat4(p.as_str(), what, about, end)
}

/// The path one step further.
fn deeper(path: &str, name: &str) -> (r: String)
    ensures
        r@ == step(path@, name@),
{
    text::cat3(path, "/", name)
}

/// The result that a fault makes.
pub open spec fn agrees(r: Result<(), String>, f: Option<Seq<char>>) -> bool {
    match r {
        Ok(()) => f is None,
        Err(e) => f == Some(e@),
    }
}

fn check_plain(o: &Vec<(String, Json)>, v: &Json, path: &str) -> (r: Result<(), String>)
    ensures
        agrees(r, plain_fault(json::entries(o@), v@, path@)),
{
    match json::find_member(o, "type") {
        Some(t) => {
            let ok = match t {
                Json::String(s) => matches_type(s.as_str(), v),
                Json::Array(list) => {
                    proof {
                        Json::array_view(*list);
                    }
                    any_type(list, v)
                },
                _ => true,
            };
            if !ok {
                let mut m = told_of(path, ": expected type ", t.to_text().as_str());
                m.append(" but found ");
                m.append(kind_name(v));
                return Err(m);
            }
        },
        None => {},
    }
    match json::find_member(o, "enum") {
        Some(Json::Array(values)) => {
            proof {
                Json::array_view(*values);
            }
            if !any_same(values, v) {
                return Err(told(path, ": value is not one of the allowed values"));
            }
        },
        _ => {},
    }
    match json::find_member(o, "const") {
        Some(c) => {
            if !c.same(v) {
                return Err(told(path, ": value does not match the constant"));
            }
        },
        None => {},
    }
    Ok(())
}

fn any_type(list: &Vec<Json>, v: &Json) -> (r: bool)
    ensures
        r == type_met(Some(JsonView::Array(json::items(list@))), v@),
{
    let mut i: usize = 0;
    while i < list.len()
        invariant
            i <= list.len(),
            forall|k: int|
                0 <= k < i ==> !((#[trigger] json::items(list@)[k]) is String && has_type(
                    json::items(list@)[k]->String_0,
                    v@,
                )),
        decreases list.len() - i,
    {
        assert(json::items(list@)[i as int] == list@[i as int]@);
        match &list[i] {
            Json::String(s) => {
                if matches_type(s.as_str(), v) {
                    return true;
                }
            },
            _ => {},
        }
        i = i + 1;
    }
    false
}

fn any_same(values: &Vec<Json>, v: &Json) -> (r: bool)
    ensures
        r == listed(json::items(values@), v@),
{
    let mut i: usize = 0;
    while i < values.len()
        invariant
            i <= values.len(),
            forall|k: int| 0 <= k < i ==> !(#[trigger] json::items(values@)[k]).same(v@),
        decreases values.len() - i,
    {
        assert(json::items(values@)[i as int] == values@[i as int]@);
        if values[i].same(v) {
            assert(json::items(values@)[i as int].same(v@));
            return true;
        }
        i = i + 1;
    }
    false
}

/// The bound that a keyword sets on a number.
fn read_bound(o: &Vec<(String, Json)>, k: &str) -> (r: Option<u64>)
    ensures
        match r {
            Some(b) => bound(json::entries(o@), k@) == Some(b as int),
            None => bound(json::entries(o@), k@) is None,
        },
{
    match json::find_member(o, k) {
        Some(Json::Number(n)) => Some(n.to_double()),
        _ => None,
    }
}

/// The count that a keyword sets.
fn read_count(o: &Vec<(String, Json)>, k: &str) -> (r: Option<u64>)
    ensures
        match r {
            Some(c) => count(json::entries(o@), k@) == Some(c as int),
            None => count(json::entries(o@), k@) is None,
        },
{
    match json::find_member(o, k) {
        Some(j) => j.as_u64(),
        None => None,
    }
}

/// The fault of a number, about a bound.
fn bound_told(path: &str, d: u64, what: &str, b: u64) -> (r: String)
    ensures
        r@ == place(path@) + ": "@ + json::double_text(d as int) + what@ + json::double_text(
            b as int,
        ),
{
    let n = json::text_of_double(d);
    let b = json::text_of_double(b);
    let mut m = told_of(path, ": ", n.as_str());
    m.append(what);
    m.append(b.as_str());
    m
}

fn check_number(o: &Vec<(String, Json)>, v: &Json, path: &str) -> (r: Result<(), String>)
    ensures
        agrees(r, number_fault(json::entries(o@), v@, path@)),
{
    match v {
        Json::Number(n) => {
            let d: u64 = n.to_double();
            let key: i64 = key_of_double(d);
            match read_bound(o, "minimum") {
                Some(b) => {
                    if key < key_of_double(b) {
                        return Err(bound_told(path, d, " is below minimum ", b));
                    }
                },
                None => {},
            }
            match read_bound(o, "maximum") {
                Some(b) => {
                    if key > key_of_double(b) {
                        return Err(bound_told(path, d, " exceeds maximum ", b));
                    }
                },
                None => {},
            }
            match read_bound(o, "exclusiveMinimum") {
                Some(b) => {
                    if key <= key_of_double(b) {
                        return Err(bound_told(path, d, " is not above ", b));
                    }
                },
                None => {},
            }
            match read_bound(o, "exclusiveMaximum") {
                Some(b) => {
                    if key >= key_of_double(b) {
                        return Err(bound_told(path, d, " is not below ", b));
                    }
                },
                None => {},
            }
            Ok(())
        },
        _ => Ok(()),
    }
}

fn check_string(o: &Vec<(String, Json)>, v: &Json, path: &str) -> (r: Result<(), String>)
    ensures
        agrees(r, string_fault(json::entries(o@), v@, path@)),
{
    match v {
        Json::String(s) => {
            let len: u64 = s.as_str().unicode_len() as u64;
            match read_count(o, "minLength") {
                Some(min) => {
                    if len < min {
                        let n = text::int_text(min as i128);
                        return Err(told_of(path, ": string shorter than ", n.as_str()));
                    }
                },
                None => {},
            }
            match read_count(o, "maxLength") {
                Some(max) => {
                    if len > max {
                        let n = text::int_text(max as i128);
                        return Err(told_of(path, ": string longer than ", n.as_str()));
                    }
                },
                None => {},
            }
            match json::find_member(o, "pattern") {
                Some(Json::String(p)) => match search_pattern(p.as_str(), s.as_str()) {
                    Ok(found) => {
                        if !found {
                            return Err(
                                told_of(path, ": string does not match pattern ", p.as_str()),
                            );
                        }
                    },
                    Err(e) => {
                        let mut m = told_end(path, ": invalid pattern ", p.as_str(), ": ");
                        m.append(e.as_str());
                        return Err(m);
                    },
                },
                _ => {},
            }
            Ok(())
        },
        _ => Ok(()),
    }
}

fn validate_at(schema: &Json, instance: &Json, path: &str) -> (r: Result<(), String>)
    ensures
        agrees(r, fault(schema@, instance@, path@)),
    decreases schema@, 0nat,
{
    match schema {
        Json::Bool(b) => if *b {
            Ok(())
        } else {
            Err(told(path, ": schema forbids any value"))
        },
        Json::Object(o) => {
            proof {
                Json::object_view(*o);
                assert(decreases_to!(schema@ => schema@->Object_0));
            }
            check_plain(o, instance, path)?;
            check_number(o, instance, path)?;
            check_string(o, instance, path)?;
            check_items(o, instance, path)?;
            check_members(o, instance, path)?;
            check_combined(o, instance, path)
        },
        _ => Ok(()),
    }
}

fn check_items(o: &Vec<(String, Json)>, v: &Json, path: &str) -> (r: Result<(), String>)
    ensures
        agrees(r, items_fault(json::entries(o@), v@, path@)),
    decreases json::entries(o@), 0nat,
{
    match v {
        Json::Array(items) => {
            proof {
                Json::array_view(*items);
                member_smaller(json::entries(o@), "items"@);
            }
            match read_count(o, "minItems") {
                Some(min) => {
                    if (items.len() as u64) < min {
                        let n = text::int_text(min as i128);
                        return Err(told_end(path, ": array has fewer than ", n.as_str(), " items"));
                    }
                },
                None => {},
            }
            match read_count(o, "maxItems") {
                Some(max) => {
                    if (items.len() as u64) > max {
                        let n = text::int_text(max as i128);
                        return Err(told_end(path, ": array has more than ", n.as_str(), " items"));
                    }
                },
                None => {},
            }
            match json::find_member(o, "items") {
                Some(sub) => check_each_item(sub, items, path),
                None => Ok(()),
            }
        },
        _ => Ok(()),
    }
}

fn check_each_item(sub: &Json, items: &Vec<Json>, path: &str) -> (r: Result<(), String>)
    ensures
        agrees(r, each_item_fault(sub@, json::items(items@), path@, 0)),
    decreases sub@, 1nat,
{
    let mut i: usize = 0;
    while i < items.len()
        invariant
            i <= items.len(),
            each_item_fault(sub@, json::items(items@), path@, 0) == each_item_fault(
                sub@,
                json::items(items@),
                path@,
                i as int,
            ),
        decreases items.len() - i,
    {
        assert(json::items(items@)[i as int] == items@[i as int]@);
        let n = text::int_text(i as i128);
        let p = deeper(path, n.as_str());
        validate_at(sub, &items[i], p.as_str())?;
        i = i + 1;
    }
    Ok(())
}

fn check_required(
    names: &Vec<Json>,
    fields: &Vec<(String, Json)>,
    path: &str,
) -> (r: Result<(), String>)
    ensures
        agrees(r, required_fault(json::items(names@), json::entries(fields@), path@, 0)),
{
    let mut i: usize = 0;
    while i < names.len()
        invariant
            i <= names.len(),
            required_fault(json::items(names@), json::entries(fields@), path@, 0)
                == required_fault(json::items(names@), json::entries(fields@), path@, i as int),
        decreases names.len() - i,
    {
        assert(json::items(names@)[i as int] == names@[i as int]@);
        match &names[i] {
            Json::String(name) => {
                if json::find_member(fields, name.as_str()).is_none() {
                    return Err(
                        told_end(path, ": required property '", name.as_str(), "' not found"),
                    );
                }
            },
            _ => {},
        }
        i = i + 1;
    }
    Ok(())
}

fn check_members(o: &Vec<(String, Json)>, v: &Json, path: &str) -> (r: Result<(), String>)
    ensures
        agrees(r, members_fault(json::entries(o@), v@, path@)),
    decreases json::entries(o@), 0nat,
{
    match v {
        Json::Object(fields) => {
            proof {
                Json::object_view(*fields);
                member_smaller(json::entries(o@), "properties"@);
                member_smaller(json::entries(o@), "additionalProperties"@);
            }
            match json::find_member(o, "required") {
                Some(Json::Array(names)) => {
                    proof {
                        Json::array_view(*names);
                    }
                    check_required(names, fields, path)?;
                },
                _ => {},
            }
            let none: Vec<(String, Json)> = Vec::new();
            assert(json::entries(none@) =~= seq![]);
            let props = match json::find_member(o, "properties") {
                Some(Json::Object(props)) => {
                    proof {
                        Json::object_view(*props);
                        let p = json::lookup(json::entries(o@), "properties"@)->0;
                        assert(decreases_to!(p => p->Object_0));
                    }
                    check_each_property(props, fields, path)?;
                    props
                },
                _ => &none,
            };
            match json::find_member(o, "additionalProperties") {
                Some(sub) => check_each_extra(sub, props, fields, path),
                None => Ok(()),
            }
        },
        _ => Ok(()),
    }
}

fn check_each_property(
    props: &Vec<(String, Json)>,
    fields: &Vec<(String, Json)>,
    path: &str,
) -> (r: Result<(), String>)
    ensures
        agrees(
            r,
            each_property_fault(json::entries(props@), json::entries(fields@), path@, 0),
        ),
    decreases json::entries(props@), 0nat,
{
    let mut i: usize = 0;
    let ghost ps = json::entries(props@);
    while i < props.len()
        invariant
            i <= props.len(),
            ps == json::entries(props@),
            each_property_fault(ps, json::entries(fields@), path@, 0) == each_property_fault(
                ps,
                json::entries(fields@),
                path@,
                i as int,
            ),
        decreases props.len() - i,
    {
        assert(ps[i as int] == json::member(props@[i as int].0@, props@[i as int].1@));
        assert(decreases_to!(ps => ps[i as int]));
        assert(decreases_to!(ps[i as int] => ps[i as int].value));
        match json::find_member(fields, props[i].0.as_str()) {
            Some(x) => {
                let p = deeper(path, props[i].0.as_str());
                validate_at(&props[i].1, x, p.as_str())?;
            },
            None => {},
        }
        i = i + 1;
    }
    Ok(())
}

fn check_each_extra(
    sub: &Json,
    props: &Vec<(String, Json)>,
    fields: &Vec<(String, Json)>,
    path: &str,
) -> (r: Result<(), String>)
    ensures
        agrees(
            r,
            each_extra_fault(sub@, json::entries(props@), json::entries(fields@), path@, 0),
        ),
    decreases sub@, 1nat,
{
    let mut i: usize = 0;
    let ghost ps = json::entries(props@);
    let ghost fs = json::entries(fields@);
    while i < fields.len()
        invariant
            i <= fields.len(),
            ps == json::entries(props@),
            fs == json::entries(fields@),
            each_extra_fault(sub@, ps, fs, path@, 0) == each_extra_fault(
                sub@,
                ps,
                fs,
                path@,
                i as int,
            ),
        decreases fields.len() - i,
    {
        assert(fs[i as int] == json::member(fields@[i as int].0@, fields@[i as int].1@));
        let name = fields[i].0.as_str();
        if json::find_member(props, name).is_none() {
            match sub {
                Json::Bool(b) => {
                    if !*b {
                        return Err(
                            told_end(path, ": additional property '", name, "' is not allowed"),
                        );
                    }
                },
                Json::Object(_) => {
                    let p = deeper(path, name);
                    validate_at(sub, &fields[i].1, p.as_str())?;
                },
                _ => {},
            }
        }
        i = i + 1;
    }
    Ok(())
}

fn check_all(list: &Vec<Json>, v: &Json, path: &str) -> (r: Result<(), String>)
    ensures
        agrees(r, all_fault(json::items(list@), v@, path@, 0)),
    decreases json::items(list@), 0nat,
{
    let mut i: usize = 0;
    let ghost ls = json::items(list@);
    while i < list.len()
        invariant
            i <= list.len(),
            ls == json::items(list@),
            all_fault(ls, v@, path@, 0) == all_fault(ls, v@, path@, i as int),
        decreases list.len() - i,
    {
        assert(ls[i as int] == list@[i as int]@);
        assert(decreases_to!(ls => ls[i as int]));
        validate_at(&list[i], v, path)?;
        i = i + 1;
    }
    Ok(())
}

fn count_met(list: &Vec<Json>, v: &Json, path: &str) -> (r: usize)
    ensures
        r == met_count(json::items(list@), v@, path@, 0),
    decreases json::items(list@), 0nat,
{
    let mut i: usize = 0;
    let mut n: usize = 0;
    let ghost ls = json::items(list@);
    while i < list.len()
        invariant
            i <= list.len(),
            ls == json::items(list@),
            n <= i,
            met_count(ls, v@, path@, 0) == n + met_count(ls, v@, path@, i as int),
        decreases list.len() - i,
    {
        assert(ls[i as int] == list@[i as int]@);
        assert(decreases_to!(ls => ls[i as int]));
        if validate_at(&list[i], v, path).is_ok() {
            n = n + 1;
        }
        i = i + 1;
    }
    n
}

fn check_combined(o: &Vec<(String, Json)>, v: &Json, path: &str) -> (r: Result<(), String>)
    ensures
        agrees(r, combined_fault(json::entries(o@), v@, path@)),
    decreases json::entries(o@), 0nat,
{
    let ghost os = json::entries(o@);
    proof {
        member_smaller(os, "allOf"@);
        member_smaller(os, "anyOf"@);
        member_smaller(os, "oneOf"@);
        member_smaller(os, "not"@);
    }
    match json::find_member(o, "allOf") {
        Some(Json::Array(list)) => {
            proof {
                Json::array_view(*list);
                assert(decreases_to!(json::lookup(os, "allOf"@)->0 => json::items(list@)));
            }
            check_all(list, v, path)?;
        },
        _ => {},
    }
    match json::find_member(o, "anyOf") {
        Some(Json::Array(list)) => {
            proof {
                Json::array_view(*list);
                assert(decreases_to!(json::lookup(os, "anyOf"@)->0 => json::items(list@)));
            }
            if count_met(list, v, path) == 0 {
                return Err(told(path, ": value does not match any schema in anyOf"));
            }
        },
        _ => {},
    }
    match json::find_member(o, "oneOf") {
        Some(Json::Array(list)) => {
            proof {
                Json::array_view(*list);
                assert(decreases_to!(json::lookup(os, "oneOf"@)->0 => json::items(list@)));
            }
            let n: usize = count_met(list, v, path);
            if n != 1 {
                let t = text::int_text(n as i128);
                return Err(told_end(path, ": value matches ", t.as_str(), " schemas in oneOf"));
            }
        },
        _ => {},
    }
    match json::find_member(o, "not") {
        Some(sub) => {
            if validate_at(sub, v, path).is_ok() {
                return Err(told(path, ": value matches the forbidden schema"));
            }
        },
        None => {},
    }
    Ok(())
}

/// Tells whether a value meets a schema, or what its first fault is.
pub fn validate(schema: &Json, instance: &Json) -> (r: Result<(), String>)
    ensures
        agrees(r, fault(schema@, instance@, ""@)),
        r is Ok <==> valid(schema@, instance@),
{
    proof {
        no_fault_is_valid(schema@, instance@, ""@);
    }
    validate_at(schema, instance, "")
}

/// No fault is found exactly if the value meets the schema, wherever it stands.
pub proof fn no_fault_is_valid(schema: JsonView, v: JsonView, path: Seq<char>)
    ensures
        fault(schema, v, path) is None <==> valid(schema, v),
    decreases schema, 0nat,
{
    match schema {
        JsonView::Object(o) => {
            items_valid(o, v, path);
            members_valid(o, v, path);
            combined_valid(o, v, path);
        },
        _ => {},
    }
}

/// A whole number that meets a schema is within the whole bounds that the schema sets, so one
/// below the minimum is refused. The numbers are of at most 2^53 on either side: larger ones
/// are compared by the doubles nearest to them.
pub proof fn valid_whole_number_is_within(o: Seq<MemberView>, v: int, b: int)
    requires
        -0x20_0000_0000_0000 <= v <= 0x20_0000_0000_0000,
        -0x20_0000_0000_0000 <= b <= 0x20_0000_0000_0000,
        valid(JsonView::Object(o), JsonView::Number(NumberView::Whole(v))),
    ensures
        ({
            let set = Some(JsonView::Number(NumberView::Whole(b)));
            &&& json::lookup(o, "minimum"@) == set ==> b <= v
            &&& json::lookup(o, "maximum"@) == set ==> v <= b
            &&& json::lookup(o, "exclusiveMinimum"@) == set ==> b < v
            &&& json::lookup(o, "exclusiveMaximum"@) == set ==> v < b
        }),
{
    whole_numbers_compare(v, b);
}

proof fn items_valid(o: Seq<MemberView>, v: JsonView, path: Seq<char>)
    ensures
        items_fault(o, v, path) is None <==> valid_items(o, v),
    decreases o, 0nat,
{
    member_smaller(o, "items"@);
    match (v, json::lookup(o, "items"@)) {
        (JsonView::Array(items), Some(sub)) => each_item_valid(sub, items, path, 0),
        _ => {},
    }
}

proof fn each_item_valid(sub: JsonView, items: Seq<JsonView>, path: Seq<char>, i: int)
    requires
        0 <= i <= items.len(),
    ensures
        each_item_fault(sub, items, path, i) is None <==> forall|k: int|
            i <= k < items.len() ==> valid(sub, #[trigger] items[k]),
    decreases sub, items.len() - i + 1,
{
    if i < items.len() {
        no_fault_is_valid(sub, items[i], step(path, text::decimal(i)));
        each_item_valid(sub, items, path, i + 1);
    }
}

proof fn required_valid(names: Seq<JsonView>, fields: Seq<MemberView>, path: Seq<char>, i: int)
    requires
        0 <= i <= names.len(),
    ensures
        required_fault(names, fields, path, i) is None <==> forall|k: int|
            i <= k < names.len() && (#[trigger] names[k]) is String ==> json::lookup(
                fields,
                names[k]->String_0,
            ) is Some,
    decreases names.len() - i,
{
    if i < names.len() {
        required_valid(names, fields, path, i + 1);
    }
}

proof fn members_valid(o: Seq<MemberView>, v: JsonView, path: Seq<char>)
    ensures
        members_fault(o, v, path) is None <==> valid_members(o, v),
    decreases o, 0nat,
{
    member_smaller(o, "properties"@);
    member_smaller(o, "additionalProperties"@);
    match v {
        JsonView::Object(fields) => {
            match json::lookup(o, "required"@) {
                Some(JsonView::Array(names)) => required_valid(names, fields, path, 0),
                _ => {},
            }
            match json::lookup(o, "properties"@) {
                Some(JsonView::Object(props)) => each_property_valid(props, fields, path, 0),
                _ => {},
            }
            match json::lookup(o, "additionalProperties"@) {
                Some(sub) => each_extra_valid(sub, properties(o), fields, path, 0),
                None => {},
            }
        },
        _ => {},
    }
}

proof fn each_property_valid(
    props: Seq<MemberView>,
    fields: Seq<MemberView>,
    path: Seq<char>,
    i: int,
)
    requires
        0 <= i <= props.len(),
    ensures
        each_property_fault(props, fields, path, i) is None <==> forall|k: int|
            i <= k < props.len() ==> match json::lookup(fields, (#[trigger] props[k]).name) {
                Some(x) => valid(props[k].value, x),
                None => true,
            },
    decreases props, props.len() - i,
{
    if i < props.len() {
        assert(decreases_to!(props => props[i]));
        assert(decreases_to!(props[i] => props[i].value));
        match json::lookup(fields, props[i].name) {
            Some(x) => no_fault_is_valid(props[i].value, x, step(path, props[i].name)),
            None => {},
        }
        each_property_valid(props, fields, path, i + 1);
    }
}

proof fn each_extra_valid(
    sub: JsonView,
    props: Seq<MemberView>,
    fields: Seq<MemberView>,
    path: Seq<char>,
    i: int,
)
    requires
        0 <= i <= fields.len(),
    ensures
        each_extra_fault(sub, props, fields, path, i) is None <==> match sub {
            JsonView::Bool(b) => b || forall|k: int|
                i <= k < fields.len() ==> json::lookup(props, (#[trigger] fields[k]).name) is Some,
            JsonView::Object(_) => forall|k: int|
                i <= k < fields.len() && json::lookup(props, (#[trigger] fields[k]).name) is None
                    ==> valid(sub, fields[k].value),
            _ => true,
        },
    decreases sub, fields.len() - i + 1,
{
    if i < fields.len() {
        if sub is Object {
            no_fault_is_valid(sub, fields[i].value, step(path, fields[i].name));
        }
        each_extra_valid(sub, props, fields, path, i + 1);
    }
}

proof fn combined_valid(o: Seq<MemberView>, v: JsonView, path: Seq<char>)
    ensures
        combined_fault(o, v, path) is None <==> valid_combined(o, v),
    decreases o, 0nat,
{
    member_smaller(o, "allOf"@);
    member_smaller(o, "anyOf"@);
    member_smaller(o, "oneOf"@);
    member_smaller(o, "not"@);
    match json::lookup(o, "allOf"@) {
        Some(JsonView::Array(list)) => list_valid(list, v, path, 0),
        _ => {},
    }
    match json::lookup(o, "anyOf"@) {
        Some(JsonView::Array(list)) => list_valid(list, v, path, 0),
        _ => {},
    }
    match json::lookup(o, "oneOf"@) {
        Some(JsonView::Array(list)) => list_valid(list, v, path, 0),
        _ => {},
    }
    match json::lookup(o, "not"@) {
        Some(sub) => no_fault_is_valid(sub, v, path),
        None => {},
    }
}

proof fn list_valid(list: Seq<JsonView>, v: JsonView, path: Seq<char>, i: int)
    requires
        0 <= i <= list.len(),
    ensures
        all_fault(list, v, path, i) is None <==> forall|k: int|
            i <= k < list.len() ==> valid(#[trigger] list[k], v),
        met_count(list, v, path, i) == valid_count(list, v, i),
        met_count(list, v, path, i) > 0 <==> exists|k: int|
            i <= k < list.len() && valid(#[trigger] list[k], v),
    decreases list, list.len() - i,
{
    if i < list.len() {
        no_fault_is_valid(list[i], v, path);
        list_valid(list, v, path, i + 1);
        if met_count(list, v, path, i + 1) > 0 {
            let k = choose|k: int| i + 1 <= k < list.len() && valid(#[trigger] list[k], v);
            assert(valid(list[k], v));
        }
    }
}

} // verus!
