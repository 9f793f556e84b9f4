//! How what goes with a request are written and read.
use vstd::prelude::*;

use crate::json::JsonView;
use crate::laws::forms;
use crate::types::meta::{ProgressToken, RequestParamsMeta};
use crate::wire;
use crate::wire::Wire;

verus! {

/// A `RequestParamsMeta` is written with each of its parts under its own name, and with nothing else.
pub proof fn request_params_meta_written(x: RequestParamsMeta)
    ensures
        x.wire() is Object,
        x.wire().get("progressToken"@) == wire::opt(x.progress_token),
        forms::only_named(x.wire(), seq!["progressToken"@]),
{
    broadcast use crate::wire::group_lookup;

    let names = seq!["progressToken"@];
    assert forall|k: Seq<char>| x.wire().get(k) is Some implies #[trigger] names.contains(k) by {
        if k != "progressToken"@ {
            assert(x.wire().get(k) is None);
        }
        assert(names[0] == "progressToken"@);
    }
}

/// A `RequestParamsMeta` is read from an object exactly if each of its members can be read, and each part
/// is taken from the member of its name.
pub proof fn request_params_meta_read(j: JsonView)
    requires
        j is Object,
    ensures
        RequestParamsMeta::canon(j) is Some <==> forms::fits_opt::<ProgressToken>(j, "progressToken"@),
        RequestParamsMeta::canon(j) matches Some(c) ==> {
            &&& forms::kept_opt::<ProgressToken>(j, c, "progressToken"@)
        },
{
    broadcast use crate::wire::group_lookup;

}

/// A `RequestParamsMeta` is read from an array as from the object that names the items in turn.
pub proof fn request_params_meta_by_place(a: Seq<JsonView>)
    ensures
        RequestParamsMeta::canon(JsonView::Array(a)) == if a.len() <= 1 {
            RequestParamsMeta::canon(forms::by_place(seq!["progressToken"@], a))
        } else {
            None
        },
{
    let names = seq!["progressToken"@];
    assert(names[0] == "progressToken"@);
    if a.len() <= 1 {
        forms::found_by_place(names, a, 0);
    }
}

} // verus!
