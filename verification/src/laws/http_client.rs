//! What a client makes of the answers to what it posts, and what it sends with a post.
use vstd::prelude::*;

use crate::error::JsonRpcErrorCode;
use crate::laws::names;
use crate::protocol::endpoint::UrlView;
use crate::protocol::message;
use crate::protocol::message::{MessageView, ParseErrorView};
use crate::text;
use crate::transport::sse::EventView;
use crate::transport::streamable_http_client::{PostReply, StepView};
use crate::transport::streamable_http_client as client;

verus! {

/// Every post ends in one of four ways, by its status alone unless the status is that of a
/// success: 202 ends it, any other status from 200 to 299 has a body that is to be read or
/// reported, and every other status is reported. So no request is left without an answer or an
/// error.
pub proof fn every_status_is_dealt_with(
    status: u16,
    session_id: Option<String>,
    content_type: Option<String>,
)
    ensures
        ({
            let step = client::post_step(PostReply::Response { status, session_id, content_type });
            &&& step is Done <==> status == 202
            &&& status < 200 || status >= 300 ==> step is Report && step->code
                == JsonRpcErrorCode::InvalidRequest
            &&& status == 404 ==> step->message == "Session terminated"@
            &&& (status < 200 || status >= 300) && status != 404 ==> step->message
                == "HTTP error: "@ + text::decimal(status as int)
            &&& step is ReadJson || step is ReadEvents ==> 200 <= status < 300 && content_type is Some
        }),
{
}

/// The type of the content tells how the body of a success is read: as a message where it
/// holds the name of that type, as events where it holds the name of theirs, and the failure
/// is reported where it holds neither.
pub proof fn every_body_is_read_or_reported(
    status: u16,
    session_id: Option<String>,
    content_type: Option<String>,
)
    requires
        200 <= status < 300,
        status != 202,
    ensures
        ({
            let step = client::post_step(PostReply::Response { status, session_id, content_type });
            match content_type {
                Some(t) => if text::occurs(t@, "application/json"@) {
                    step is ReadJson
                } else if text::occurs(t@, "text/event-stream"@) {
                    step is ReadEvents
                } else {
                    step == StepView::Report {
                        code: JsonRpcErrorCode::InternalError,
                        message: "Unexpected content type: "@ + t@,
                    }
                },
                None => step == StepView::Report {
                    code: JsonRpcErrorCode::InternalError,
                    message: "Unexpected content type: "@ + "<missing>"@,
                },
            }
        }),
{
}

/// A post that could not be sent is reported with the reason.
pub proof fn every_failure_is_reported(why: String)
    ensures
        client::post_step(PostReply::Failed(why)) == (StepView::Report {
            code: JsonRpcErrorCode::InternalError,
            message: "HTTP request failed: "@ + why@,
        }),
        client::post_step(PostReply::NotRunning) == (StepView::Report {
            code: JsonRpcErrorCode::InternalError,
            message: "HTTP request failed: HttpClientService is not running"@,
        }),
{
}

/// The session takes the identity that comes with the answer to its opening, where the answer
/// is a success and names one, and keeps its identity otherwise.
pub proof fn session_named_when_opened(
    session: Seq<char>,
    method: Option<Seq<char>>,
    status: u16,
    session_id: Option<String>,
    content_type: Option<String>,
)
    ensures
        ({
            let reply = PostReply::Response { status, session_id, content_type };
            let after = client::session_after(session, method, reply);
            let opened = method == Some("initialize"@) && 200 <= status < 300 && status != 202;
            &&& opened && session_id is Some && session_id->0@.len() > 0 ==> after == session_id->0@
            &&& !opened || session_id is None || session_id->0@.len() == 0 ==> after == session
        }),
        client::session_after(session, method, PostReply::NotRunning) == session,
{
    names::method_names();
}

/// The headers of a request name the session and the version of the protocol once they are
/// known, and are otherwise those that were there.
pub proof fn session_is_told(
    h: Map<Seq<char>, Seq<char>>,
    session: Seq<char>,
    version: Seq<char>,
    k: Seq<char>,
)
    ensures
        ({
            let told = client::with_session(h, session, version);
            &&& session.len() > 0 ==> told.dom().contains("mcp-session-id"@)
                && told["mcp-session-id"@] == session
            &&& version.len() > 0 ==> told.dom().contains("mcp-protocol-version"@)
                && told["mcp-protocol-version"@] == version
            &&& (session.len() == 0 || k != "mcp-session-id"@) && (version.len() == 0 || k
                != "mcp-protocol-version"@) ==> told.dom().contains(k) == h.dom().contains(k)
                && told[k] == h[k]
        }),
{
    names::header_names();
    names::headers_apart();
}

/// A request says that its body is JSON and that JSON and events are taken as an answer.
pub proof fn default_headers_said(k: Seq<char>)
    ensures
        ({
            let h = client::default_headers();
            &&& h.dom().contains(k) <==> k == "accept"@ || k == "content-type"@
            &&& h["accept"@] == "application/json"@ + ", "@ + "text/event-stream"@
            &&& h["content-type"@] == "application/json"@
        }),
{
    names::header_names();
    names::headers_apart();
}

/// A time to wait is from one millisecond to half an hour.
pub proof fn times_taken(ms: int)
    ensures
        client::valid_timeout(ms) <==> 0 < ms <= 1_800_000,
{
}

/// An event carries a message where it has no name or the name `message`, and its data is one;
/// events of other names carry none.
pub proof fn events_carry_messages(name: Option<Seq<char>>, data: Seq<char>)
    ensures
        ({
            let carried = client::event_message(EventView { event: name, data });
            &&& name is None || name == Some("message"@) ==> match message::message_of(data) {
                Ok(m) => carried == Some(m),
                Err(_) => carried is None,
            }
            &&& name is Some && name != Some("message"@) ==> carried is None
        }),
{
}

/// Where reading does not stop after a response, every message that the events carry is
/// received, in order.
pub proof fn every_event_is_received(events: Seq<EventView>, e: EventView)
    ensures
        client::received(events, false).1 == false,
        client::received(events.push(e), false).0 == match client::event_message(e) {
            Some(m) => client::received(events, false).0.push(m),
            None => client::received(events, false).0,
        },
        client::received(seq![], false).0 == Seq::<MessageView>::empty(),
    decreases events.len(),
{
    assert(events.push(e).drop_last() =~= events);
    if events.len() > 0 {
        every_event_is_received(events.drop_last(), events.last());
        assert(events.drop_last().push(events.last()) =~= events);
    }
}

/// Where reading stops after a response, it goes on until the first one, which is received
/// too, and nothing after it is.
pub proof fn reading_stops_after_response(events: Seq<EventView>, e: EventView)
    ensures
        client::received(events, true).1 ==> client::received(events.push(e), true)
            == client::received(events, true),
        !client::received(events, true).1 ==> match client::event_message(e) {
            Some(m) => client::received(events.push(e), true) == (
                client::received(events, true).0.push(m),
                m is Response,
            ),
            None => client::received(events.push(e), true) == client::received(events, true),
        },
        client::received(seq![], true) == (Seq::<MessageView>::empty(), false),
{
    assert(events.push(e).drop_last() =~= events);
}

/// A request can be answered by an error of the client's own unless it has no identity, or the
/// number zero.
pub proof fn requests_that_can_be_answered(id: crate::RequestId)
    ensures
        client::answerable(Some(id)) <==> id != crate::RequestId::Number(0),
        !client::answerable(None),
{
}

/// The reason for which a text is no message is told in its own words, and as `invalid JSON`
/// where it is not even JSON.
pub proof fn reasons_told(m: Seq<char>, id: crate::json::JsonView, has_method: bool)
    ensures
        client::reason(ParseErrorView::InvalidJson(m)) == "invalid JSON: "@ + m,
        client::reason(ParseErrorView::InvalidMessage { id, message: m, has_method }) == m,
{
}

/// A server that is known under another name is reached under that name, and only where the
/// connection is encrypted.
pub proof fn named_server_is_reached(
    url: Seq<char>,
    server_name: Seq<char>,
    u: UrlView,
    moved: Seq<char>,
)
    ensures
        server_name.len() > 0 && u.scheme == "https"@ ==> client::url_used(
            url,
            server_name,
            Ok(u),
            Some(moved),
        ) == moved,
        server_name.len() == 0 || u.scheme != "https"@ ==> client::url_used(
            url,
            server_name,
            Ok(u),
            Some(moved),
        ) == url && client::lookup_wanted(server_name, Ok(u)) is None,
        server_name.len() > 0 && u.scheme == "https"@ && u.host is Some ==> client::lookup_wanted(
            server_name,
            Ok(u),
        ) == Some(
            (
                u.host->0,
                if u.port is Some {
                    u.port->0
                } else {
                    443
                },
            ),
        ),
{
}

/// The version of the protocol is the text under `protocolVersion` in the result of the
/// response that opens the session; nothing else tells it.
pub proof fn version_is_told(m: MessageView)
    ensures
        client::version_told(m) == match m {
            MessageView::Response { to, result: Some(j), error } => match j.get(
                "protocolVersion"@,
            ) {
                Some(crate::json::JsonView::String(v)) => Some(v),
                _ => None,
            },
            _ => None,
        },
{
}

} // verus!
