//! How single values, lists and maps are written and read.
use vstd::prelude::*;

use crate::json::{Json, JsonNumber, JsonView, NumberView};
use crate::jsonrpc::RequestId;
use crate::types::content::RoleType;
use crate::types::logging::LoggingLevel;
use crate::types::meta::ProgressToken;
use crate::wire::{MetaMap, Real, TextMap, Wire};

verus! {

/// A text is written as a text, and only a text is read as one.
pub proof fn texts(s: String, j: JsonView)
    ensures
        s.wire() == JsonView::String(s@),
        String::canon(j) == if j is String {
            Some(j)
        } else {
            None
        },
{
}

/// A truth value is written as one, and only a truth value is read as one.
pub proof fn truths(b: bool, j: JsonView)
    ensures
        b.wire() == JsonView::Bool(b),
        bool::canon(j) == if j is Bool {
            Some(j)
        } else {
            None
        },
{
}

/// A whole number is written as one. One is read that has at most 63 bits and a sign; a number
/// with a fraction or an exponent is not.
pub proof fn whole_numbers(n: i64, j: JsonView)
    ensures
        n.wire() == JsonView::Number(NumberView::Whole(n as int)),
        i64::canon(j) == match j {
            JsonView::Number(NumberView::Whole(i)) if i <= 0x7fff_ffff_ffff_ffff => Some(j),
            _ => None,
        },
{
}

/// A number with a fraction is written by its double, and any number is read as its double.
pub proof fn real_numbers(x: Real, j: JsonView)
    ensures
        x.wire() == JsonView::Number(NumberView::Double(x.bits as int)),
        Real::canon(j) is Some <==> j is Number,
        j matches JsonView::Number(NumberView::Double(d)) ==> Real::canon(j) == Some(j),
        j matches JsonView::Number(n) ==> Real::canon(j) == Some(
            JsonView::Number(NumberView::Double(JsonNumber::double(n))),
        ),
{
}

/// Any JSON is written as it stands and read as it stands.
pub proof fn any_json(x: Json, j: JsonView)
    ensures
        x.wire() == x@,
        Json::canon(j) == Some(j),
{
}

/// A list is written item by item, in order. It is read from an array each item of which can
/// be read, item by item and in order.
pub proof fn lists<T: Wire>(v: Vec<T>, j: JsonView)
    ensures
        v.wire() matches JsonView::Array(w) && w.len() == v@.len() && forall|i: int|
            0 <= i < w.len() ==> #[trigger] w[i] == v@[i].wire(),
        Vec::<T>::canon(j) is Some <==> (j matches JsonView::Array(a) && forall|i: int|
            0 <= i < a.len() ==> T::canon(#[trigger] a[i]) is Some),
        Vec::<T>::canon(j) matches Some(c) ==> {
            &&& c is Array
            &&& c->Array_0.len() == j->Array_0.len()
            &&& forall|i: int|
                0 <= i < c->Array_0.len() ==> Some(#[trigger] c->Array_0[i]) == T::canon(
                    j->Array_0[i],
                )
        },
{
}

/// A map of any values is an object with these members. It is read from every object and from
/// nothing else.
pub proof fn maps(m: MetaMap, j: JsonView)
    ensures
        m.wire() == JsonView::Object(m@),
        MetaMap::canon(j) == if j is Object {
            Some(j)
        } else {
            None
        },
{
}

/// A map of texts is an object each member of which is a text.
pub proof fn text_maps(m: TextMap, j: JsonView)
    ensures
        m.wire() matches JsonView::Object(o) && o.len() == m.entries@.len() && forall|i: int|
            0 <= i < o.len() ==> (#[trigger] o[i]).name == m.entries@[i].0@ && o[i].value
                == JsonView::String(m.entries@[i].1@),
        TextMap::canon(j) == match j {
            JsonView::Object(o) if forall|i: int|
                0 <= i < o.len() ==> (#[trigger] o[i]).value is String => Some(j),
            _ => None,
        },
{
}

/// The identity of a request is a whole number or a text, as a number and as a text, and
/// nothing else is read as one.
pub proof fn identities(id: RequestId, j: JsonView)
    ensures
        id matches RequestId::Number(n) ==> id.wire() == JsonView::Number(
            NumberView::Whole(n as int),
        ),
        id matches RequestId::String(s) ==> id.wire() == JsonView::String(s@),
        RequestId::canon(j) == match j {
            JsonView::String(_) => Some(j),
            JsonView::Number(NumberView::Whole(i)) if i <= 0x7fff_ffff_ffff_ffff => Some(j),
            _ => None,
        },
{
}

/// A progress token is a whole number or a text, and nothing else is read as one.
pub proof fn tokens(t: ProgressToken, j: JsonView)
    ensures
        t matches ProgressToken::Number(n) ==> t.wire() == JsonView::Number(
            NumberView::Whole(n as int),
        ),
        t matches ProgressToken::String(s) ==> t.wire() == JsonView::String(s@),
        ProgressToken::canon(j) == match j {
            JsonView::String(_) => Some(j),
            JsonView::Number(NumberView::Whole(i)) if i <= 0x7fff_ffff_ffff_ffff => Some(j),
            _ => None,
        },
{
}

/// The two roles have the names that the protocol gives them. Every name but the assistant's
/// is read as the user's.
pub proof fn roles(r: RoleType, s: Seq<char>, j: JsonView)
    ensures
        r is User <==> r.wire() == JsonView::String("user"@),
        r is Assistant <==> r.wire() == JsonView::String("assistant"@),
        RoleType::canon(JsonView::String("assistant"@)) == Some(JsonView::String("assistant"@)),
        s != "assistant"@ ==> RoleType::canon(JsonView::String(s)) == Some(
            JsonView::String("user"@),
        ),
        !(j is String) ==> RoleType::canon(j) is None,
{
    reveal_strlit("user");
    reveal_strlit("assistant");
    assert("user"@.len() == 4 && "assistant"@.len() == 9);
}

/// Each level of the log has the name that the protocol gives it, in the order of how grave
/// it is.
pub proof fn level_names()
    ensures
        LoggingLevel::Debug.name() == "debug"@,
        LoggingLevel::Info.name() == "info"@,
        LoggingLevel::Notice.name() == "notice"@,
        LoggingLevel::Warning.name() == "warning"@,
        LoggingLevel::Error.name() == "error"@,
        LoggingLevel::Critical.name() == "critical"@,
        LoggingLevel::Alert.name() == "alert"@,
        LoggingLevel::Emergency.name() == "emergency"@,
{
}

/// A level is written as its name. A name is read as the level that has it, also where it is
/// the name of the one member, null, of an object, and nothing else is read as a level.
pub proof fn levels(l: LoggingLevel, s: Seq<char>, j: JsonView)
    ensures
        l.wire() == JsonView::String(l.name()),
        LoggingLevel::canon(l.wire()) == Some(l.wire()),
        LoggingLevel::canon(JsonView::String(s)) is Some <==> s == "debug"@ || s == "info"@ || s
            == "notice"@ || s == "warning"@ || s == "error"@ || s == "critical"@ || s == "alert"@
            || s == "emergency"@,
        LoggingLevel::canon(JsonView::String(s)) matches Some(c) ==> c == JsonView::String(s),
        j matches JsonView::Object(o) ==> LoggingLevel::canon(j) == if o.len() == 1
            && o[0].value is Null {
            LoggingLevel::canon(JsonView::String(o[0].name))
        } else {
            None
        },
        !(j is String) && !(j is Object) ==> LoggingLevel::canon(j) is None,
{
    level_names();
    assert(l.name() == l.name());
    assert(LoggingLevel::Debug.name() == "debug"@);
    assert(LoggingLevel::Info.name() == "info"@);
    assert(LoggingLevel::Notice.name() == "notice"@);
    assert(LoggingLevel::Warning.name() == "warning"@);
    assert(LoggingLevel::Error.name() == "error"@);
    assert(LoggingLevel::Critical.name() == "critical"@);
    assert(LoggingLevel::Alert.name() == "alert"@);
    assert(LoggingLevel::Emergency.name() == "emergency"@);
}

} // verus!
