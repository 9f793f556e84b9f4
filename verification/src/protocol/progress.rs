//! The token by which a request asks to hear of its progress.
use vstd::prelude::*;

use crate::json;
use crate::json::{set_member, Json, JsonView, MemberView};
use crate::types::meta::{ProgressToken, RequestParamsMeta};
use crate::wire;
use crate::wire::Wire;

verus! {

/// What parameters say about the request.
pub open spec fn meta_of(params: Option<JsonView>) -> Option<JsonView> {
    match params {
        Some(p) => match p.get("_meta"@) {
            Some(m) => if m is Object {
                RequestParamsMeta::canon(m)
            } else {
                None
            },
            None => None,
        },
        None => None,
    }
}

/// Reads what parameters say about the request.
pub fn progress_meta(params: &Option<Json>) -> (r: Option<RequestParamsMeta>)
    ensures
        wire::opt(r) == meta_of(wire::opt(*params)),
{
    match params {
        Some(p) => match p.get("_meta") {
            Some(m) => {
                if !m.is_object() {
                    return None;
                }
                match RequestParamsMeta::from_json(m) {
                    Ok(x) => Some(x),
                    Err(_) => None,
                }
            },
            None => None,
        },
        None => None,
    }
}

/// The members of an object, none of anything else.
pub open spec fn members_or_none(j: Option<JsonView>) -> Seq<MemberView> {
    match j {
        Some(JsonView::Object(o)) => o,
        _ => wire::none(),
    }
}

/// The parameters with a progress token set.
pub open spec fn with_token(params: Option<JsonView>, token: JsonView) -> JsonView {
    let o = members_or_none(params);
    let meta = json::put_member(
        members_or_none(json::lookup(o, "_meta"@)),
        "progressToken"@,
        token,
    );
    JsonView::Object(json::put_member(o, "_meta"@, JsonView::Object(meta)))
}

/// The members of an object, none of anything else.
fn take_members(j: Option<Json>) -> (r: Vec<(String, Json)>)
    ensures
        json::entries(r@) == members_or_none(wire::opt(j)),
{
    match j {
        Some(Json::Object(o)) => {
            proof {
                Json::object_view(o);
            }
            o
        },
        _ => wire::start(),
    }
}

/// Sets the progress token in parameters. Parameters that are no object are
/// replaced by one, so any request can carry a token.
pub fn inject_progress_token(params: &mut Option<Json>, token: &ProgressToken)
    ensures
        wire::opt(*final(params)) == Some(with_token(wire::opt(*old(params)), token.wire())),
{
    let mut obj = take_members(params.take());
    let meta = match json::find_member(&obj, "_meta") {
        Some(m) => Some(m.duplicate()),
        None => None,
    };
    let mut meta = take_members(meta);
    set_member(&mut meta, "progressToken", token.to_json());
    set_member(&mut obj, "_meta", Json::object(meta));
    *params = Some(Json::object(obj));
}

/// A token that was set is the one that is read, whatever the parameters were; the
/// other parameters stay.
pub proof fn token_set_is_read(params: Option<JsonView>, t: ProgressToken, k: Seq<char>)
    ensures
        meta_of(Some(with_token(params, t.wire()))) == Some(
            RequestParamsMeta { progress_token: Some(t) }.wire(),
        ),
        k != "_meta"@ ==> with_token(params, t.wire()).get(k) == json::lookup(
            members_or_none(params),
            k,
        ),
{
    let o = members_or_none(params);
    let inner = members_or_none(json::lookup(o, "_meta"@));
    let meta = JsonView::Object(json::put_member(inner, "progressToken"@, t.wire()));
    json::lookup_put_member(inner, "progressToken"@, t.wire(), "progressToken"@);
    json::lookup_put_member(o, "_meta"@, meta, "_meta"@);
    json::lookup_put_member(o, "_meta"@, meta, k);
    t.round_trip();
}

} // verus!
