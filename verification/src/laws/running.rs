//! The life of a server: what it may be set up with, what it takes while it runs, and the
//! sessions that it keeps.
use vstd::prelude::*;

use crate::error::McpError;
use crate::protocol::endpoint;
use crate::server;
use crate::server::{
    AddPromptOptionalParams, AddResourceOptionalParams, AddResourceTemplateOptionalParams,
    AddToolOptionalParams, FilesFound, McpServer, McpServerFactory, ServerState,
};
use crate::server::dispatch::Handlers;
use crate::server::manager;
use crate::server::manager::{ListenPlan, ServerManager};
use crate::server::session::ServerSession;
use crate::string_map::StringMap;
use crate::text;
use crate::transport::http_message;
use crate::transport::http_message::HttpReply;
use crate::transport::streamable_http_server;
use crate::transport::streamable_http_server::StreamableHttpServerTransport;
use crate::types::config::{
    ClientConfig, ServerConfig, StdioClientConfig, StreamableHttpClientConfig,
    StreamableHttpServerConfig, TlsConfig,
};

verus! {

/// A server has a name that is not blank, a version with a dot in it, and over HTTP from one to
/// 64 workers.
pub proof fn settings_taken(c: ServerConfig)
    ensures
        server::config_valid(c, true) <==> text::trimmed(c.name@).len() > 0 && c.version@.contains(
            '.',
        ),
        server::config_valid(c, false) <==> text::trimmed(c.name@).len() > 0
            && c.version@.contains('.') && 1 <= c.worker_threads <= 64,
{
}

/// The name of a host is at most 253 bytes long, and holds neither white space nor two dots in a
/// row.
pub proof fn host_names_taken(name: Seq<char>)
    ensures
        server::host_valid(name) <==> {
            &&& vstd::utf8::encode_utf8(name).len() <= 253
            &&& !text::occurs(name, ".."@)
            &&& forall|i: int|
                0 <= i < name.len() ==> #[trigger] name[i] != ' ' && name[i] != '\t' && name[i]
                    != '\r' && name[i] != '\n'
        },
{
    if !name.contains(' ') && !name.contains('\t') && !name.contains('\r') && !name.contains('\n') {
        assert forall|i: int| 0 <= i < name.len() implies #[trigger] name[i] != ' ' && name[i]
            != '\t' && name[i] != '\r' && name[i] != '\n' by {
            assert(name.contains(name[i]));
        }
    }
}

/// Encryption that is switched on asks that each file that it names is there and that the name of
/// the host, where it has one, may be one.
pub proof fn encryption_settings_taken(c: TlsConfig, f: FilesFound, r: Result<(), McpError>)
    requires
        call_ensures(server::validate_tls_config, (&c, f), r),
    ensures
        r is Ok <==> server::tls_valid(c, f),
        r is Err ==> r->Err_0.faults_argument("Invalid Streamable HTTP transport configuration"@),
        !c.enabled ==> r is Ok,
        c.enabled && c.cert_file@.len() > 0 && !f.cert ==> r is Err,
        c.enabled && c.key_file@.len() > 0 && !f.key ==> r is Err,
        c.enabled && c.ca_file@.len() > 0 && !f.ca ==> r is Err,
        c.enabled && c.server_name@.len() > 0 && !server::host_valid(c.server_name@) ==> r is Err,
        c.enabled && (c.cert_file@.len() == 0 || f.cert) && (c.key_file@.len() == 0 || f.key) && (
        c.ca_file@.len() == 0 || f.ca) && (c.server_name@.len() == 0 || server::host_valid(
            c.server_name@,
        )) ==> r is Ok,
{
}

/// HTTP asks for an endpoint that can be taken, from one to 64 threads, and encryption that is
/// set up as it must be.
pub proof fn http_settings_taken<A, Z>(c: StreamableHttpServerConfig<A, Z>, f: FilesFound)
    ensures
        server::http_valid(c, f) <==> endpoint::endpoint_fault(c.endpoint@) is None && 1
            <= c.io_threads <= 64 && server::tls_valid(c.tls_config, f),
{
}

/// A server that was just made: nothing to offer, not running, set up as it was told.
pub open spec fn just_made<H: Handlers, A, Z>(s: McpServer<H, A, Z>, c: ServerConfig) -> bool {
    let o = s.offers();
    &&& o.tools@.dom() == Set::<Seq<char>>::empty()
    &&& o.prompts@.dom() == Set::<Seq<char>>::empty()
    &&& o.resources@.dom() == Set::<Seq<char>>::empty()
    &&& o.resources.forms().dom() == Set::<Seq<char>>::empty()
    &&& o.set_level_handler is None && o.complete_handler is None
    &&& o.tools.may_overwrite() && o.prompts.may_overwrite() && o.resources.may_overwrite()
    &&& o.tools.size() == c.tools_page_size && o.resources.size() == c.resources_page_size
    &&& s.stage() == ServerState::Init
    &&& s.configured() == c
}

/// A server on the standard streams is made from settings that may be taken, and from no others.
pub proof fn made_on_streams<H: Handlers, A, Z>(
    c: ServerConfig,
    a: Result<McpServer<H, A, Z>, McpError>,
    b: Result<McpServer<H, A, Z>, McpError>,
)
    requires
        call_ensures(McpServer::<H, A, Z>::new_stdio, (c,), a),
        call_ensures(McpServerFactory::create_stdio_server::<H, A, Z>, (c,), b),
    ensures
        a is Ok <==> server::config_valid(c, true),
        a is Ok ==> just_made(a->Ok_0, c) && a->Ok_0.reached() is None,
        a is Err ==> a->Err_0.faults_argument("Invalid server configuration"@),
        b is Ok <==> a is Ok,
        b is Ok ==> just_made(b->Ok_0, c) && b->Ok_0.reached() is None,
        b is Err ==> b->Err_0.faults_argument("Invalid server configuration"@),
{
}

/// A server over HTTP is made from settings of both that may be taken, and from no others; its
/// own are looked at first.
pub proof fn made_over_http<H: Handlers, A, Z>(
    c: ServerConfig,
    t: StreamableHttpServerConfig<A, Z>,
    f: FilesFound,
    a: Result<McpServer<H, A, Z>, McpError>,
    b: Result<McpServer<H, A, Z>, McpError>,
)
    requires
        call_ensures(McpServer::<H, A, Z>::new_streamable_http, (c, t, f), a),
        call_ensures(McpServerFactory::create_streamable_http_server::<H, A, Z>, (c, t, f), b),
    ensures
        a is Ok <==> server::config_valid(c, false) && server::http_valid(t, f),
        a is Ok ==> just_made(a->Ok_0, c) && a->Ok_0.reached() == Some(t),
        !server::config_valid(c, false) ==> a->Err_0.faults_argument(
            "Invalid server configuration"@,
        ),
        server::config_valid(c, false) && a is Err ==> a->Err_0.faults_argument(
            "Invalid Streamable HTTP transport configuration"@,
        ),
        b is Ok <==> a is Ok,
        b is Ok ==> just_made(b->Ok_0, c) && b->Ok_0.reached() == Some(t),
        b is Err ==> b->Err_0.told() == a->Err_0.told() && b->Err_0 is InvalidArgument,
{
}

/// The stages of a life have their names.
pub proof fn stages_named(s: ServerState, n: &'static str)
    requires
        call_ensures(ServerState::name, (s,), n),
    ensures
        s == ServerState::Init ==> n@ == "INIT"@,
        s == ServerState::Running ==> n@ == "RUNNING"@,
        s == ServerState::Stopped ==> n@ == "STOPPED"@,
{
}

/// A server runs once: it may be run only before it ever ran, and runs where it could be started.
pub proof fn server_runs_once<H: Handlers, A, Z>(
    s: &mut McpServer<H, A, Z>,
    w: McpServer<H, A, Z>,
    started: Result<(), McpError>,
    r: Result<(), McpError>,
    c: Result<(), McpError>,
)
    requires
        call_ensures(McpServer::<H, A, Z>::run, (s, started), r),
        call_ensures(McpServer::<H, A, Z>::check_run, (&w,), c),
    ensures
        c is Ok <==> w.stage() == ServerState::Init,
        c is Err ==> c->Err_0.faults_state(
            "run failed. Server is not in init state, current state: "@ + w.stage().named(),
        ),
        old(s).stage() == ServerState::Init ==> (r is Ok <==> started is Ok) && (r is Err ==> r
            == started),
        old(s).stage() == ServerState::Init && started is Ok ==> final(s).stage()
            == ServerState::Running,
        old(s).stage() == ServerState::Init && started is Err ==> final(s).stage()
            == ServerState::Init,
        old(s).stage() != ServerState::Init ==> final(s).stage() == old(s).stage() && r is Err
            && r->Err_0.faults_state(
            "run failed. Server is not in init state, current state: "@ + old(s).stage().named(),
        ),
        final(s).offers() == old(s).offers() && final(s).configured() == old(s).configured()
            && final(s).reached() == old(s).reached(),
{
}

/// Only a server that runs is stopped, and it says whether it was.
pub proof fn server_stops<H: Handlers, A, Z>(
    s: &mut McpServer<H, A, Z>,
    w: McpServer<H, A, Z>,
    r: bool,
    runs: bool,
    stage: ServerState,
)
    requires
        call_ensures(McpServer::<H, A, Z>::stop, (s,), r),
        call_ensures(McpServer::<H, A, Z>::is_running, (&w,), runs),
        call_ensures(McpServer::<H, A, Z>::state, (&w,), stage),
    ensures
        r <==> old(s).stage() == ServerState::Running,
        r ==> final(s).stage() == ServerState::Stopped,
        !r ==> final(s).stage() == old(s).stage(),
        final(s).offers() == old(s).offers() && final(s).configured() == old(s).configured()
            && final(s).reached() == old(s).reached(),
        runs <==> w.stage() == ServerState::Running,
        stage == w.stage(),
{
}

/// A server that was stopped takes and gives up nothing, and says so.
pub open spec fn turned_away(r: Result<(), McpError>) -> bool {
    r is Err && r->Err_0.faults_state("Cannot perform operation: server has been stopped"@)
}

/// A tool is added to a server that was not stopped, with everything that was said of it.
pub proof fn server_takes_tool<H: Handlers, A, Z>(
    s: &mut McpServer<H, A, Z>,
    name: &str,
    h: H::Tool,
    p: AddToolOptionalParams,
    r: Result<(), McpError>,
    k: Seq<char>,
)
    requires
        call_ensures(McpServer::<H, A, Z>::add_tool_handler, (s, name, h, p), r),
    ensures
        ({
            let before = old(s).offers();
            let after = final(s).offers();
            let t = after.tools@[name@];
            &&& final(s).stage() == old(s).stage() && final(s).configured() == old(s).configured()
                && final(s).reached() == old(s).reached()
            &&& after.prompts == before.prompts && after.resources == before.resources
            &&& after.set_level_handler == before.set_level_handler && after.complete_handler
                == before.complete_handler
            &&& after.tools.may_overwrite() == before.tools.may_overwrite() && after.tools.size()
                == before.tools.size()
            &&& old(s).stage() == ServerState::Stopped ==> turned_away(r)
            &&& old(s).stage() != ServerState::Stopped && name@.len() == 0
                ==> r->Err_0.faults_argument("Tool name cannot be empty"@)
            &&& r is Ok <==> old(s).stage() != ServerState::Stopped && name@.len() > 0 && (
            !before.tools@.dom().contains(name@) || before.tools.may_overwrite())
            &&& r is Err ==> after.tools@ == before.tools@
            &&& r is Err && old(s).stage() != ServerState::Stopped && name@.len() > 0
                ==> r->Err_0.faults_state("Tool '"@ + name@ + "' already exists"@)
            &&& r is Ok ==> after.tools@.dom().contains(name@) && t.name@ == name@ && t.handler == h
                && t.title == p.title && t.description == p.description && t.input_schema
                == p.input_schema && t.output_schema == p.output_schema && t.structured_output
                == p.structured_output && t.annotations == p.annotations && t.icons == p.icons
            &&& r is Ok && k != name@ && before.tools@.dom().contains(k)
                ==> after.tools@.dom().contains(k) && after.tools@[k] == before.tools@[k]
            &&& r is Ok && k != name@ && after.tools@.dom().contains(k)
                ==> before.tools@.dom().contains(k)
        }),
{
}

/// A tool is removed from a server that was not stopped.
pub proof fn server_gives_up_tool<H: Handlers, A, Z>(
    s: &mut McpServer<H, A, Z>,
    name: &str,
    r: Result<(), McpError>,
    k: Seq<char>,
)
    requires
        call_ensures(McpServer::<H, A, Z>::remove_tool, (s, name), r),
    ensures
        ({
            let before = old(s).offers();
            let after = final(s).offers();
            &&& final(s).stage() == old(s).stage() && final(s).configured() == old(s).configured()
                && final(s).reached() == old(s).reached()
            &&& after.prompts == before.prompts && after.resources == before.resources
            &&& after.set_level_handler == before.set_level_handler && after.complete_handler
                == before.complete_handler
            &&& old(s).stage() == ServerState::Stopped ==> turned_away(r)
            &&& old(s).stage() != ServerState::Stopped && name@.len() == 0
                ==> r->Err_0.faults_argument("Tool name cannot be empty"@)
            &&& r is Ok <==> old(s).stage() != ServerState::Stopped && name@.len() > 0
                && before.tools@.dom().contains(name@)
            &&& r is Err && old(s).stage() != ServerState::Stopped && name@.len() > 0
                ==> r->Err_0.faults_state("Tool '"@ + name@ + "' not found"@)
            &&& r is Err ==> after.tools@ == before.tools@
            &&& r is Ok ==> !after.tools@.dom().contains(name@)
            &&& k != name@ ==> after.tools@.dom().contains(k) == before.tools@.dom().contains(k)
                && after.tools@[k] == before.tools@[k]
        }),
{
    assert(r is Err ==> final(s).offers().tools@ == old(s).offers().tools@);
}

/// A prompt is added to a server that was not stopped, with everything that was said of it.
pub proof fn server_takes_prompt<H: Handlers, A, Z>(
    s: &mut McpServer<H, A, Z>,
    name: &str,
    h: H::Prompt,
    p: AddPromptOptionalParams,
    r: Result<(), McpError>,
    k: Seq<char>,
)
    requires
        call_ensures(McpServer::<H, A, Z>::add_prompt_handler, (s, name, h, p), r),
    ensures
        ({
            let before = old(s).offers();
            let after = final(s).offers();
            let t = after.prompts@[name@];
            &&& final(s).stage() == old(s).stage() && final(s).configured() == old(s).configured()
                && final(s).reached() == old(s).reached()
            &&& after.tools == before.tools && after.resources == before.resources
            &&& after.set_level_handler == before.set_level_handler && after.complete_handler
                == before.complete_handler
            &&& after.prompts.may_overwrite() == before.prompts.may_overwrite()
            &&& old(s).stage() == ServerState::Stopped ==> turned_away(r)
            &&& old(s).stage() != ServerState::Stopped && name@.len() == 0
                ==> r->Err_0.faults_argument("Prompt name cannot be empty"@)
            &&& r is Ok <==> old(s).stage() != ServerState::Stopped && name@.len() > 0 && (
            !before.prompts@.dom().contains(name@) || before.prompts.may_overwrite())
            &&& r is Err ==> after.prompts@ == before.prompts@
            &&& r is Err && old(s).stage() != ServerState::Stopped && name@.len() > 0
                ==> r->Err_0.faults_state("Prompt already exists: "@ + name@)
            &&& r is Ok ==> after.prompts@.dom().contains(name@) && t.info.name@ == name@
                && t.handler == h && t.info.title == p.title && t.info.description == p.description
                && t.info.icons == p.icons && t.info.arguments == p.arguments
            &&& r is Ok && k != name@ && before.prompts@.dom().contains(k)
                ==> after.prompts@.dom().contains(k) && after.prompts@[k] == before.prompts@[k]
            &&& r is Ok && k != name@ && after.prompts@.dom().contains(k)
                ==> before.prompts@.dom().contains(k)
        }),
{
}

/// A prompt is removed from a server that was not stopped, whether it was there or not.
pub proof fn server_gives_up_prompt<H: Handlers, A, Z>(
    s: &mut McpServer<H, A, Z>,
    name: &str,
    r: Result<(), McpError>,
    k: Seq<char>,
)
    requires
        call_ensures(McpServer::<H, A, Z>::remove_prompt, (s, name), r),
    ensures
        ({
            let before = old(s).offers();
            let after = final(s).offers();
            &&& final(s).stage() == old(s).stage() && final(s).configured() == old(s).configured()
                && final(s).reached() == old(s).reached()
            &&& after.tools == before.tools && after.resources == before.resources
            &&& after.set_level_handler == before.set_level_handler && after.complete_handler
                == before.complete_handler
            &&& old(s).stage() == ServerState::Stopped ==> turned_away(r) && after.prompts@
                == before.prompts@
            &&& old(s).stage() != ServerState::Stopped ==> r is Ok && !after.prompts@.dom().contains(
                name@,
            )
            &&& k != name@ ==> after.prompts@.dom().contains(k) == before.prompts@.dom().contains(k)
                && after.prompts@[k] == before.prompts@[k]
        }),
{
}

/// A resource is added to a server that was not stopped, with everything that was said of it.
pub proof fn server_takes_resource<H: Handlers, A, Z>(
    s: &mut McpServer<H, A, Z>,
    uri: &str,
    name: &str,
    h: H::Resource,
    p: AddResourceOptionalParams,
    r: Result<(), McpError>,
    k: Seq<char>,
)
    requires
        call_ensures(McpServer::<H, A, Z>::add_resource_handler, (s, uri, name, h, p), r),
    ensures
        ({
            let before = old(s).offers();
            let after = final(s).offers();
            let t = after.resources@[uri@];
            let runs = old(s).stage() != ServerState::Stopped;
            &&& final(s).stage() == old(s).stage() && final(s).configured() == old(s).configured()
                && final(s).reached() == old(s).reached()
            &&& after.tools == before.tools && after.prompts == before.prompts
            &&& after.set_level_handler == before.set_level_handler && after.complete_handler
                == before.complete_handler
            &&& after.resources.forms() == before.resources.forms()
            &&& !runs ==> turned_away(r)
            &&& runs && uri@.len() == 0 ==> r->Err_0.faults_argument(
                "Resource URI cannot be empty"@,
            )
            &&& runs && uri@.len() > 0 && name@.len() == 0 ==> r->Err_0.faults_argument(
                "Resource name cannot be empty"@,
            )
            &&& r is Ok <==> runs && uri@.len() > 0 && name@.len() > 0 && (
            !before.resources@.dom().contains(uri@) || before.resources.may_overwrite())
            &&& r is Err ==> after.resources@ == before.resources@
            &&& r is Err && runs && uri@.len() > 0 && name@.len() > 0 ==> r->Err_0.faults_state(
                "Resource '"@ + uri@ + "' already exists"@,
            )
            &&& r is Ok ==> after.resources@.dom().contains(uri@) && t.info.uri@ == uri@
                && t.info.name@ == name@ && t.handler == h && t.info.title == p.title
                && t.info.description == p.description && t.info.mime_type == p.mime_type
                && t.info.size == p.size && t.info.icons == p.icons && t.info.annotations
                == p.annotations
            &&& r is Ok && k != uri@ && before.resources@.dom().contains(k)
                ==> after.resources@.dom().contains(k) && after.resources@[k]
                == before.resources@[k]
            &&& r is Ok && k != uri@ && after.resources@.dom().contains(k)
                ==> before.resources@.dom().contains(k)
        }),
{
}

/// A resource is removed from a server that was not stopped.
pub proof fn server_gives_up_resource<H: Handlers, A, Z>(
    s: &mut McpServer<H, A, Z>,
    uri: &str,
    r: Result<(), McpError>,
    k: Seq<char>,
)
    requires
        call_ensures(McpServer::<H, A, Z>::remove_resource, (s, uri), r),
    ensures
        ({
            let before = old(s).offers();
            let after = final(s).offers();
            let runs = old(s).stage() != ServerState::Stopped;
            &&& final(s).stage() == old(s).stage() && final(s).configured() == old(s).configured()
                && final(s).reached() == old(s).reached()
            &&& after.tools == before.tools && after.prompts == before.prompts
            &&& after.resources.forms() == before.resources.forms()
            &&& !runs ==> turned_away(r)
            &&& runs && uri@.len() == 0 ==> r->Err_0.faults_argument(
                "Resource URI cannot be empty"@,
            )
            &&& r is Ok <==> runs && uri@.len() > 0 && before.resources@.dom().contains(uri@)
            &&& r is Err && runs && uri@.len() > 0 ==> r->Err_0.faults_state(
                "Resource '"@ + uri@ + "' not found"@,
            )
            &&& r is Err ==> after.resources@ == before.resources@
            &&& r is Ok ==> !after.resources@.dom().contains(uri@)
            &&& k != uri@ ==> after.resources@.dom().contains(k)
                == before.resources@.dom().contains(k) && after.resources@[k]
                == before.resources@[k]
        }),
{
    assert(r is Err ==> final(s).offers().resources@ == old(s).offers().resources@);
}

/// A template is added to a server that was not stopped, with everything that was said of it.
pub proof fn server_takes_template<H: Handlers, A, Z>(
    s: &mut McpServer<H, A, Z>,
    form: &str,
    name: &str,
    p: AddResourceTemplateOptionalParams,
    r: Result<(), McpError>,
    k: Seq<char>,
)
    requires
        call_ensures(McpServer::<H, A, Z>::add_resource_template, (s, form, name, p), r),
    ensures
        ({
            let before = old(s).offers();
            let after = final(s).offers();
            let t = after.resources.forms()[form@];
            let runs = old(s).stage() != ServerState::Stopped;
            &&& final(s).stage() == old(s).stage() && final(s).configured() == old(s).configured()
                && final(s).reached() == old(s).reached()
            &&& after.tools == before.tools && after.prompts == before.prompts
            &&& after.resources@ == before.resources@
            &&& !runs ==> turned_away(r)
            &&& runs && form@.len() == 0 ==> r->Err_0.faults_argument(
                "Resource template URI cannot be empty"@,
            )
            &&& runs && form@.len() > 0 && name@.len() == 0 ==> r->Err_0.faults_argument(
                "Resource template name cannot be empty"@,
            )
            &&& r is Ok <==> runs && form@.len() > 0 && name@.len() > 0 && (
            !before.resources.forms().dom().contains(form@) || before.resources.may_overwrite())
            &&& r is Err ==> after.resources.forms() == before.resources.forms()
            &&& r is Err && runs && form@.len() > 0 && name@.len() > 0 ==> r->Err_0.faults_state(
                "Resource template '"@ + form@ + "' already exists"@,
            )
            &&& r is Ok ==> after.resources.forms().dom().contains(form@) && t.uri_template@ == form@
                && t.name@ == name@ && t.title == p.title && t.description == p.description
                && t.mime_type == p.mime_type && t.icons == p.icons && t.annotations
                == p.annotations
            &&& r is Ok && k != form@ && before.resources.forms().dom().contains(k)
                ==> after.resources.forms().dom().contains(k) && after.resources.forms()[k]
                == before.resources.forms()[k]
            &&& r is Ok && k != form@ && after.resources.forms().dom().contains(k)
                ==> before.resources.forms().dom().contains(k)
        }),
{
}

/// A template is removed from a server that was not stopped.
pub proof fn server_gives_up_template<H: Handlers, A, Z>(
    s: &mut McpServer<H, A, Z>,
    form: &str,
    r: Result<(), McpError>,
    k: Seq<char>,
)
    requires
        call_ensures(McpServer::<H, A, Z>::remove_resource_template, (s, form), r),
    ensures
        ({
            let before = old(s).offers();
            let after = final(s).offers();
            let runs = old(s).stage() != ServerState::Stopped;
            let was = before.resources.forms();
            let is_now = after.resources.forms();
            &&& final(s).stage() == old(s).stage() && final(s).configured() == old(s).configured()
                && final(s).reached() == old(s).reached()
            &&& after.tools == before.tools && after.prompts == before.prompts
            &&& after.resources@ == before.resources@
            &&& !runs ==> turned_away(r)
            &&& runs && form@.len() == 0 ==> r->Err_0.faults_argument(
                "Resource template URI cannot be empty"@,
            )
            &&& r is Ok <==> runs && form@.len() > 0 && was.dom().contains(form@)
            &&& r is Err && runs && form@.len() > 0 ==> r->Err_0.faults_state(
                "Resource template '"@ + form@ + "' not found"@,
            )
            &&& r is Err ==> is_now == was
            &&& r is Ok ==> !is_now.dom().contains(form@)
            &&& k != form@ ==> is_now.dom().contains(k) == was.dom().contains(k) && is_now[k]
                == was[k]
        }),
{
    assert(r is Err ==> final(s).offers().resources.forms() == old(s).offers().resources.forms());
}

/// Handlers for levels and for completions are put in place of what was there, and nothing else
/// changes.
pub proof fn server_takes_handlers<H: Handlers, A, Z>(
    s: &mut McpServer<H, A, Z>,
    t: &mut McpServer<H, A, Z>,
    h: H::Level,
    c: H::Complete,
)
    requires
        call_ensures(McpServer::<H, A, Z>::register_set_logging_level_handler, (s, h), ()),
        call_ensures(McpServer::<H, A, Z>::add_completion, (t, c), ()),
    ensures
        final(s).offers().set_level_handler == Some(h),
        final(s).offers().complete_handler == old(s).offers().complete_handler,
        final(s).offers().tools == old(s).offers().tools && final(s).offers().prompts == old(s).offers().prompts && final(s).offers().resources == old(s).offers().resources,
        final(s).stage() == old(s).stage(),
        final(t).offers().complete_handler == Some(c),
        final(t).offers().set_level_handler == old(t).offers().set_level_handler,
        final(t).offers().tools == old(t).offers().tools && final(t).offers().prompts == old(t).offers().prompts && final(t).offers().resources == old(t).offers().resources,
        final(t).stage() == old(t).stage(),
{
}

/// A server listens at its host and port, under its path or the root.
pub proof fn listening_is_planned(host: &str, port: u16, path: &str, p: ListenPlan)
    requires
        call_ensures(manager::plan_listening, (host, port, path), p),
    ensures
        p.bind@ == host@ + ":"@ + text::decimal(port as int),
        path@.len() > 0 ==> p.path@ == path@,
        path@.len() == 0 ==> p.path@ == "/"@,
{
}

/// A server listens where its endpoint says, and nowhere if it is on the standard streams or its
/// endpoint cannot be read.
pub proof fn server_listens<A, Z, E>(m: ServerManager<A, Z, E>, r: Result<ListenPlan, McpError>)
    requires
        call_ensures(ServerManager::<A, Z, E>::start_http, (&m,), r),
    ensures
        m.reached() is None ==> r is Err && r->Err_0.faults_state(
            "HTTP transport is not configured"@,
        ),
        m.reached() is Some ==> {
            let e = endpoint::server_endpoint(m.reached()->0.endpoint@);
            &&& r is Ok <==> e is Ok
            &&& e is Err ==> r->Err_0.faults_state(e->Err_0)
            &&& e is Ok ==> r->Ok_0.bind@ == (e->Ok_0).1 + ":"@ + text::decimal((e->Ok_0).2)
            &&& e is Ok ==> r->Ok_0.path@ == if (e->Ok_0).3.len() == 0 {
                "/"@
            } else {
                (e->Ok_0).3
            }
        },
{
}

/// A failure inside the server is told with status 500, in plain text.
pub proof fn inner_failure_told(e: &McpError, r: HttpReply)
    requires
        call_ensures(manager::internal_error, (e,), r),
    ensures
        r@ is Full,
        r@->Full_0.status == 500,
        r@->Full_0.headers == seq![("content-type"@, "text/plain"@)],
        r@->Full_0.body == "Error: "@ + e.told(),
{
}

/// A store of sessions starts empty, and finds a session by its identity.
pub proof fn sessions_found<A, Z, E>(
    c: ServerConfig,
    t: Option<StreamableHttpServerConfig<A, Z>>,
    fresh: ServerManager<A, Z, E>,
    m: ServerManager<A, Z, E>,
    id: &str,
    found: Option<&E>,
    n: usize,
    streams: bool,
)
    requires
        call_ensures(ServerManager::<A, Z, E>::new, (c, t), fresh),
        call_ensures(ServerManager::<A, Z, E>::get_session, (&m, id), found),
        call_ensures(ServerManager::<A, Z, E>::session_count, (&m,), n),
        call_ensures(ServerManager::<A, Z, E>::is_stdio, (&m,), streams),
    ensures
        fresh@.dom() == Set::<Seq<char>>::empty() && fresh.configured() == c && fresh.reached() == t,
        found is Some <==> m@.dom().contains(id@),
        found is Some ==> *found->0 == m@[id@],
        n == m@.dom().len(),
        streams <==> m.reached() is None,
{
}

/// A session is kept once it is put in, until it ends or the request that opened it is refused;
/// the others stay.
pub proof fn sessions_come_and_go<A, Z, E>(
    m: &mut ServerManager<A, Z, E>,
    w: &mut ServerManager<A, Z, E>,
    v: &mut ServerManager<A, Z, E>,
    id: String,
    entry: E,
    name: &str,
    created: bool,
    terminated: bool,
    reply: &HttpReply,
    gone: Option<E>,
    all: StringMap<E>,
    k: Seq<char>,
)
    requires
        call_ensures(ServerManager::<A, Z, E>::insert_session, (m, id, entry), ()),
        call_ensures(
            ServerManager::<A, Z, E>::request_handled,
            (w, name, created, terminated, reply),
            gone,
        ),
        call_ensures(ServerManager::<A, Z, E>::stop, (v,), all),
    ensures
        final(m)@.dom().contains(id@) && final(m)@[id@] == entry,
        k != id@ ==> final(m)@.dom().contains(k) == old(m)@.dom().contains(k) && final(m)@[k]
            == old(m)@[k],
        ({
            let refused = reply@ is Full && reply@->Full_0.status >= 400;
            let ends = terminated || (created && refused);
            &&& ends ==> !final(w)@.dom().contains(name@)
            &&& !ends ==> final(w)@ == old(w)@
            &&& k != name@ ==> final(w)@.dom().contains(k) == old(w)@.dom().contains(k) && final(w)@[k] == old(w)@[k]
            &&& gone is Some <==> ends && old(w)@.dom().contains(name@)
            &&& gone is Some ==> gone->0 == old(w)@[name@]
        }),
        all@ == old(v)@ && final(v)@.dom() == Set::<Seq<char>>::empty(),
        final(m).configured() == old(m).configured() && final(m).reached() == old(m).reached(),
        final(w).configured() == old(w).configured() && final(w).reached() == old(w).reached(),
        final(v).configured() == old(v).configured() && final(v).reached() == old(v).reached(),
{
}

/// A session over HTTP starts out as the settings say, under an identity of visible characters
/// unless it has none.
pub proof fn session_is_made<A, Z, E, S, T>(
    m: ServerManager<A, Z, E>,
    id: &str,
    stateless: bool,
    r: Result<(StreamableHttpServerTransport, ServerSession<S, T>), McpError>,
)
    requires
        call_ensures(ServerManager::<A, Z, E>::new_http_session::<S, T>, (&m, id, stateless), r),
    ensures
        r is Ok <==> m.reached() is Some && (stateless || streamable_http_server::visible_ascii(
            id@,
        )),
        m.reached() is None ==> r->Err_0.faults_state("HTTP transport is not configured"@),
        m.reached() is Some && r is Err ==> r->Err_0.faults_argument(
            "Session ID must only contain visible ASCII characters (0x21-0x7E)"@,
        ),
        r is Ok ==> {
            let t = (r->Ok_0).0@;
            let s = (r->Ok_0).1@;
            &&& stateless ==> t.session.len() == 0
            &&& !stateless ==> t.session == id@
            &&& t.json == m.reached()->0.is_json_response_enabled
            &&& t.stateless == stateless && !t.terminated && !t.stream && t.next == 1
            &&& s.id == id@ && s.name == m.configured().name@ && s.version
                == m.configured().version@
            &&& s.transport && s.stateless == stateless && !s.initialized && s.client is None
            &&& (r->Ok_0).1.awaited().next_number() == 1
        },
{
}

/// A header is sent unless it cannot be, or is there only for the words of the status.
pub proof fn headers_sent(h: Seq<(Seq<char>, Seq<char>)>, e: (Seq<char>, Seq<char>))
    ensures
        manager::sent_from(h, 0).contains(e) <==> h.contains(e) && e.0 != "x-status-text"@
            && http_message::sendable(e.0, e.1),
        manager::sent_from(h, 0).len() <= h.len(),
{
    headers_sent_from(h, 0, e);
    if exists|k: int| 0 <= k < h.len() && h[k] == e {
        let k = choose|k: int| 0 <= k < h.len() && h[k] == e;
        assert(h.contains(h[k]));
    }
}

proof fn headers_sent_from(h: Seq<(Seq<char>, Seq<char>)>, i: int, e: (Seq<char>, Seq<char>))
    requires
        0 <= i <= h.len(),
    ensures
        manager::sent_from(h, i).contains(e) <==> (exists|k: int| i <= k < h.len() && h[k] == e)
            && e.0 != "x-status-text"@ && http_message::sendable(e.0, e.1),
        manager::sent_from(h, i).len() <= h.len() - i,
    decreases h.len() - i,
{
    if i < h.len() {
        headers_sent_from(h, i + 1, e);
        let rest = manager::sent_from(h, i + 1);
        let all = manager::sent_from(h, i);
        if h[i].0 != "x-status-text"@ && http_message::sendable(h[i].0, h[i].1) {
            assert(all == seq![h[i]] + rest);
            assert(all[0] == h[i]);
            assert forall|k: int| 0 <= k < rest.len() implies #[trigger] all[k + 1] == rest[k] by {}
            if rest.contains(e) {
                let k = choose|k: int| 0 <= k < rest.len() && rest[k] == e;
                assert(all[k + 1] == e);
            }
            if all.contains(e) {
                let k = choose|k: int| 0 <= k < all.len() && all[k] == e;
                if k > 0 {
                    assert(rest[k - 1] == all[k]);
                }
            }
        }
        if exists|k: int| i <= k < h.len() && h[k] == e {
            let k = choose|k: int| i <= k < h.len() && h[k] == e;
            if k > i {
                assert(i + 1 <= k < h.len() && h[k] == e);
            }
        }
    } else {
        assert(manager::sent_from(h, i) == Seq::<(Seq<char>, Seq<char>)>::empty());
    }
}

/// Everything is set up as a caller who says nothing expects.
pub proof fn set_up_by_default<A, Z>(
    a: StdioClientConfig,
    b: TlsConfig,
    c: StreamableHttpClientConfig,
    d: StreamableHttpServerConfig<A, Z>,
    e: ClientConfig,
    f: ServerConfig,
    at: String,
    g: StreamableHttpServerConfig<A, Z>,
)
    requires
        call_ensures(<StdioClientConfig as Default>::default, (), a),
        call_ensures(<TlsConfig as Default>::default, (), b),
        call_ensures(<StreamableHttpClientConfig as Default>::default, (), c),
        call_ensures(<StreamableHttpServerConfig<A, Z> as Default>::default, (), d),
        call_ensures(<ClientConfig as Default>::default, (), e),
        call_ensures(<ServerConfig as Default>::default, (), f),
        call_ensures(StreamableHttpServerConfig::<A, Z>::new, (at,), g),
    ensures
        a.command@.len() == 0 && a.args@.len() == 0 && a.env@.dom() == Set::<Seq<char>>::empty(),
        !b.enabled && b.verify_peer && b.ca_file@.len() == 0 && b.cert_file@.len() == 0
            && b.key_file@.len() == 0 && b.server_name@.len() == 0,
        c.endpoint@.len() == 0 && c.timeout == 30000 && c.sse_timeout == 30000 && c.headers@.dom()
            == Set::<Seq<char>>::empty(),
        !c.tls_config.enabled && c.tls_config.verify_peer,
        d.endpoint@.len() == 0 && !d.is_json_response_enabled && !d.stateless && d.io_threads == 0
            && d.authenticator is None && d.authorizer is None && !d.tls_config.enabled,
        e.name@ == "MCP Client"@ && e.version@ == "1.0.0"@,
        f.name@ == "MCP Server"@ && f.version@ == "1.0.0"@ && f.worker_threads == 1
            && f.tools_page_size == 50 && f.resources_page_size == 50,
        g.endpoint == at && !g.is_json_response_enabled && !g.stateless && g.io_threads == 1
            && g.authenticator is None && g.authorizer is None && !g.tls_config.enabled
            && g.tls_config.verify_peer,
{
}

} // verus!
