//! How values are written as JSON and read from it, member by member.
use vstd::prelude::*;

use crate::json;
use crate::json::JsonView;
use crate::types::session as types_session;
use crate::wire::Wire;

pub mod capabilities;
pub mod completion;
pub mod content;
pub mod kinds;
pub mod meta;
pub mod params;
pub mod prompts;
pub mod resources;
pub mod sampling;
pub mod session;
pub mod tools;
pub mod values;

verus! {

/// The value has no members but those named.
pub open spec fn only_named(j: JsonView, names: Seq<Seq<char>>) -> bool {
    forall|k: Seq<char>| j.get(k) is Some ==> #[trigger] names.contains(k)
}

/// The member is there and can be read.
pub open spec fn fits<T: Wire>(j: JsonView, k: Seq<char>) -> bool {
    j.get(k) matches Some(v) && T::canon(v) is Some
}

/// The member is missing, or it can be read.
pub open spec fn fits_opt_not_null<T: Wire>(j: JsonView, k: Seq<char>) -> bool {
    j.get(k) matches Some(v) ==> T::canon(v) is Some
}

/// The member is missing or null, or it can be read.
pub open spec fn fits_opt<T: Wire>(j: JsonView, k: Seq<char>) -> bool {
    j.get(k) matches Some(v) ==> v is Null || T::canon(v) is Some
}

/// The member of `c` is what is read of the member of `j`.
pub open spec fn kept<T: Wire>(j: JsonView, c: JsonView, k: Seq<char>) -> bool {
    j.get(k) matches Some(v) && c.get(k) == T::canon(v)
}

/// The member of `c` is what is read of the member of `j`, and `d` where that is missing.
pub open spec fn kept_or<T: Wire>(j: JsonView, c: JsonView, k: Seq<char>, d: JsonView) -> bool {
    match j.get(k) {
        Some(v) => c.get(k) == T::canon(v),
        None => c.get(k) == Some(d),
    }
}

/// The member of `c` is what is read of the member of `j`, and missing where that is missing
/// or null.
pub open spec fn kept_opt<T: Wire>(j: JsonView, c: JsonView, k: Seq<char>) -> bool {
    match j.get(k) {
        Some(v) => c.get(k) == if v is Null {
            None
        } else {
            T::canon(v)
        },
        None => c.get(k) is None,
    }
}

/// The member is there, and `w` is written for what is read of it.
pub open spec fn kept_of<T: Wire>(j: JsonView, k: Seq<char>, w: JsonView) -> bool {
    j.get(k) matches Some(v) && T::canon(v) == Some(w)
}

/// Where the member is there and not null, `w` is written for what is read of it, and there is
/// none otherwise.
pub open spec fn kept_opt_of<T: Wire>(j: JsonView, k: Seq<char>, w: Option<JsonView>) -> bool {
    w == match j.get(k) {
        Some(v) => if v is Null {
            None
        } else {
            T::canon(v)
        },
        None => None,
    }
}

/// The form of a program of which nothing is said.
pub open spec fn nameless() -> JsonView {
    JsonView::Object(
        seq![
            json::member("name"@, JsonView::String(seq![])),
            json::member("version"@, JsonView::String(seq![])),
        ],
    )
}

/// What is read of a program that is not told is one without a name and a version.
pub proof fn nameless_form()
    ensures
        types_session::empty_implementation() == nameless(),
{
    assert(types_session::empty_implementation()->Object_0 =~= nameless()->Object_0);
}

/// The object that names the items of an array in turn.
pub open spec fn by_place(names: Seq<Seq<char>>, a: Seq<JsonView>) -> JsonView {
    JsonView::Object(Seq::new(a.len(), |i: int| json::member(names[i], a[i])))
}

/// What is found under the `n`th of distinct names.
pub proof fn found_by_place(names: Seq<Seq<char>>, a: Seq<JsonView>, n: int)
    requires
        a.len() <= names.len(),
        0 <= n < names.len(),
        forall|i: int| 0 <= i < names.len() && i != n ==> #[trigger] names[i] != names[n],
    ensures
        by_place(names, a).get(names[n]) == if n < a.len() {
            Some(a[n])
        } else {
            None
        },
    decreases a.len(),
{
    let o = by_place(names, a)->Object_0;
    if a.len() > 0 {
        let less = a.drop_last();
        found_by_place(names, less, n);
        assert(by_place(names, less)->Object_0 =~= o.drop_last());
        assert(o.last() == json::member(names[a.len() - 1], a[a.len() - 1]));
    }
}

} // verus!
