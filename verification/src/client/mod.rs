//! The side of a client.
pub mod session;

pub use crate::client::session::{Callbacks, ClientHandlers, ClientSession};

use vstd::prelude::*;

use crate::error::McpError;
use crate::json::{Json, JsonView};
use crate::jsonrpc::{Message, RequestId};
use crate::protocol::endpoint;
use crate::protocol::is_valid_streamable_http_endpoint;
use crate::protocol::message::MessageView;
use crate::protocol::methods;
use crate::protocol::params::{CompleteRequestParams, ProgressNotificationParams};
use crate::string_map;
use crate::transport::streamable_http_client;
use crate::transport::streamable_http_client::{
    ClientTransportView, StreamableHttpClientTransport,
};
use crate::types::capabilities::{SamplingCapability, ServerCapabilities};
use crate::types::completion::{CompleteReference, CompletionArgument, CompletionContext};
use crate::types::config::{ClientConfig, StreamableHttpClientConfig};
use crate::types::logging::LoggingLevel;
use crate::types::meta::ProgressToken;
use crate::wire;
use crate::wire::{Real, Wire};

verus! {

/// For how many milliseconds the end of a session is waited for.
pub const CLOSE_TIMEOUT: u64 = 1000;

/// A client. Before it is initialized it only takes note of what it has for requests of
/// the server.
pub struct McpClient<H: ClientHandlers, T, P> {
    config: ClientConfig,
    session: Option<ClientSession<H, T, P>>,
    initialized: bool,
    pre_init: Callbacks<H>,
}

impl<H: ClientHandlers, T, P> McpClient<H, T, P> {
    /// The configuration of the client.
    pub closed spec fn configured(&self) -> ClientConfig {
        self.config
    }

    /// The session, if there is one.
    pub closed spec fn current(&self) -> Option<ClientSession<H, T, P>> {
        self.session
    }

    /// The client was initialized, and not closed since.
    pub closed spec fn opened(&self) -> bool {
        self.initialized
    }

    /// What the next session starts with.
    pub closed spec fn prepared(&self) -> Callbacks<H> {
        self.pre_init
    }

    /// A client that was not initialized yet.
    pub fn with_transport(config: ClientConfig) -> (r: Self)
        ensures
            r.configured() == config,
            r.current() is None,
            !r.opened(),
            r.prepared().is_empty(),
    {
        McpClient { config, session: None, initialized: false, pre_init: Callbacks::new() }
    }

    /// The configuration of the client.
    pub fn config(&self) -> (r: &ClientConfig)
        ensures
            *r == self.configured(),
    {
        &self.config
    }

    /// Tells whether the client was initialized, and not closed since.
    pub fn is_initialized(&self) -> (r: bool)
        ensures
            r == self.opened(),
    {
        self.initialized
    }

    /// The session. There is none before the client is initialized.
    pub fn session(&self) -> (r: Result<&ClientSession<H, T, P>, McpError>)
        ensures
            match r {
                Ok(s) => self.opened() && self.current() == Some(*s),
                Err(e) => self.has_no_session(e),
            },
    {
        if !self.initialized {
            return Err(McpError::NotInitialized);
        }
        match &self.session {
            Some(s) => Ok(s),
            None => Err(McpError::state("client session is not created.".to_owned())),
        }
    }

    /// The session, to be changed. There is none before the client is initialized.
    pub fn session_mut(&mut self) -> (r: Result<&mut ClientSession<H, T, P>, McpError>)
        ensures
            final(self).configured() == old(self).configured(),
            final(self).opened() == old(self).opened(),
            final(self).prepared() == old(self).prepared(),
            match r {
                Ok(s) => {
                    &&& old(self).opened()
                    &&& old(self).current() == Some(*s)
                    &&& final(self).current() == Some(*final(s))
                },
                Err(e) => final(self).current() == old(self).current() && old(self).has_no_session(
                    e,
                ),
            },
    {
        if !self.initialized {
            return Err(McpError::NotInitialized);
        }
        match &mut self.session {
            Some(s) => Ok(s),
            None => Err(McpError::state("client session is not created.".to_owned())),
        }
    }

    /// Tells whether the client can be initialized: not while it is.
    pub fn check_initialize(&self) -> (r: Result<(), McpError>)
        ensures
            r is Ok <==> !self.opened(),
            r is Err ==> r->Err_0 is AlreadyInitialized,
    {
        if self.initialized {
            Err(McpError::AlreadyInitialized)
        } else {
            Ok(())
        }
    }

    /// Makes the session of a client whose transport is connected. It starts with what
    /// was set before, and the client counts as initialized from then on.
    pub fn initialize(&mut self) -> (r: Result<(), McpError>)
        ensures
            r is Ok <==> !old(self).opened(),
            match r {
                Ok(()) => {
                    &&& final(self).opened()
                    &&& final(self).prepared().is_empty()
                    &&& final(self).current() is Some
                    &&& ({
                        let s = final(self).current()->0;
                        &&& s@.name == old(self).configured().name@
                        &&& s@.version == old(self).configured().version@
                        &&& !s@.initialized
                        &&& s@.server is None
                        &&& s@.callbacks == old(self).prepared()
                        &&& s@.schemas == Map::<Seq<char>, Json>::empty()
                        &&& s.awaited().next_number() == 1
                        &&& s.awaited().waiting() == Map::<i64, T>::empty()
                    })
                },
                Err(e) => e is AlreadyInitialized && *final(self) == *old(self),
            },
            final(self).configured() == old(self).configured(),
    {
        match self.check_initialize() {
            Ok(()) => {},
            Err(e) => {
                return Err(e);
            },
        }
        let mut callbacks: Callbacks<H> = Callbacks::new();
        std::mem::swap(&mut callbacks, &mut self.pre_init);
        self.session = Some(ClientSession::new(&self.config, callbacks));
        self.initialized = true;
        Ok(())
    }

    /// Forgets the session. Tells whether the client was initialized, so that the
    /// transport is to be closed.
    pub fn close_gracefully(&mut self) -> (r: bool)
        ensures
            r == old(self).opened(),
            !final(self).opened(),
            final(self).current() == if old(self).opened() {
                None
            } else {
                old(self).current()
            },
            final(self).configured() == old(self).configured(),
            final(self).prepared() == old(self).prepared(),
    {
        if !self.initialized {
            return false;
        }
        self.session = None;
        self.initialized = false;
        true
    }

    /// What the server said it can do.
    pub fn get_server_capabilities(&self) -> (r: Result<ServerCapabilities, McpError>)
        ensures
            match r {
                Ok(c) => self.opened() && self.current() is Some && match self.current()->0@.server {
                    Some(x) => c.wire() == x.wire(),
                    None => c.is_default(),
                },
                Err(e) => self.has_no_session(e),
            },
    {
        match self.session() {
            Ok(s) => Ok(s.server_capabilities()),
            Err(e) => Err(e),
        }
    }

    /// There is no session, and the error says why.
    pub open spec fn has_no_session(&self, e: McpError) -> bool {
        if !self.opened() {
            e is NotInitialized
        } else {
            self.current() is None && e.faults_state("client session is not created."@)
        }
    }

    /// The session sends a request and waits for its answer; without a session there is
    /// an error, and nothing changes.
    pub open spec fn asks(
        &self,
        before: &Self,
        method: Seq<char>,
        params: Option<JsonView>,
        waiter: T,
        progress: Option<P>,
        sent: Result<(RequestId, Message), McpError>,
    ) -> bool {
        &&& self.configured() == before.configured()
        &&& self.opened() == before.opened()
        &&& self.prepared() == before.prepared()
        &&& match sent {
            Ok(m) => match (before.current(), self.current()) {
                (Some(a), Some(b)) => before.opened() && b.asks(
                    &a,
                    method,
                    params,
                    waiter,
                    progress,
                    m,
                ),
                _ => false,
            },
            Err(e) => before.has_no_session(e) && self.current() == before.current(),
        }
    }

    /// Asks for a page of the tools.
    pub fn list_tools(
        &mut self,
        cursor: Option<String>,
        waiter: T,
    ) -> (r: Result<(RequestId, Message), McpError>)
        ensures
            final(self).asks(
                &*old(self),
                methods::TOOLS_LIST@,
                Some(session::paged(cursor)),
                waiter,
                None,
                r,
            ),
    {
        match self.session_mut() {
            Ok(s) => Ok(s.list_tools(cursor, waiter)),
            Err(e) => Err(e),
        }
    }

    /// Calls a tool.
    pub fn call_tool(
        &mut self,
        name: &str,
        arguments: &Option<Json>,
        waiter: T,
        progress: Option<P>,
    ) -> (r: Result<(RequestId, Message), McpError>)
        ensures
            final(self).asks(
                &*old(self),
                methods::TOOLS_CALL@,
                Some(session::named(name@, wire::opt(*arguments))),
                waiter,
                progress,
                r,
            ),
    {
        match self.session_mut() {
            Ok(s) => Ok(s.call_tool(name, arguments, waiter, progress)),
            Err(e) => Err(e),
        }
    }

    /// Asks for a page of the resources.
    pub fn list_resources(
        &mut self,
        cursor: Option<String>,
        waiter: T,
    ) -> (r: Result<(RequestId, Message), McpError>)
        ensures
            final(self).asks(
                &*old(self),
                methods::RESOURCES_LIST@,
                Some(session::paged(cursor)),
                waiter,
                None,
                r,
            ),
    {
        match self.session_mut() {
            Ok(s) => Ok(s.list_resources(cursor, waiter)),
            Err(e) => Err(e),
        }
    }

    /// Asks for a resource.
    pub fn read_resource(
        &mut self,
        uri: &str,
        waiter: T,
    ) -> (r: Result<(RequestId, Message), McpError>)
        ensures
            final(self).asks(
                &*old(self),
                methods::RESOURCES_READ@,
                Some(session::one_text("uri"@, uri@)),
                waiter,
                None,
                r,
            ),
    {
        match self.session_mut() {
            Ok(s) => Ok(s.read_resource(uri, waiter)),
            Err(e) => Err(e),
        }
    }

    /// Asks to hear of changes to a resource.
    pub fn subscribe_resource(
        &mut self,
        uri: &str,
        waiter: T,
    ) -> (r: Result<(RequestId, Message), McpError>)
        ensures
            final(self).asks(
                &*old(self),
                methods::RESOURCES_SUBSCRIBE@,
                Some(session::one_text("uri"@, uri@)),
                waiter,
                None,
                r,
            ),
    {
        match self.session_mut() {
            Ok(s) => Ok(s.subscribe_resource(uri, waiter)),
            Err(e) => Err(e),
        }
    }

    /// Asks to hear no more of changes to a resource.
    pub fn unsubscribe_resource(
        &mut self,
        uri: &str,
        waiter: T,
    ) -> (r: Result<(RequestId, Message), McpError>)
        ensures
            final(self).asks(
                &*old(self),
                methods::RESOURCES_UNSUBSCRIBE@,
                Some(session::one_text("uri"@, uri@)),
                waiter,
                None,
                r,
            ),
    {
        match self.session_mut() {
            Ok(s) => Ok(s.unsubscribe_resource(uri, waiter)),
            Err(e) => Err(e),
        }
    }

    /// Asks for the templates of resources.
    pub fn list_resources_templates(
        &mut self,
        waiter: T,
    ) -> (r: Result<(RequestId, Message), McpError>)
        ensures
            final(self).asks(
                &*old(self),
                methods::RESOURCES_TEMPLATES_LIST@,
                Some(JsonView::Null),
                waiter,
                None,
                r,
            ),
    {
        match self.session_mut() {
            Ok(s) => Ok(s.list_resource_templates(waiter)),
            Err(e) => Err(e),
        }
    }

    /// Asks for the prompts.
    pub fn list_prompts(
        &mut self,
        waiter: T,
    ) -> (r: Result<(RequestId, Message), McpError>)
        ensures
            final(self).asks(
                &*old(self),
                methods::PROMPTS_LIST@,
                Some(JsonView::Null),
                waiter,
                None,
                r,
            ),
    {
        match self.session_mut() {
            Ok(s) => Ok(s.list_prompts(waiter)),
            Err(e) => Err(e),
        }
    }

    /// Asks for a prompt.
    pub fn get_prompt(
        &mut self,
        name: &str,
        arguments: &Option<Json>,
        waiter: T,
    ) -> (r: Result<(RequestId, Message), McpError>)
        ensures
            final(self).asks(
                &*old(self),
                methods::PROMPTS_GET@,
                Some(session::named(name@, wire::opt(*arguments))),
                waiter,
                None,
                r,
            ),
    {
        match self.session_mut() {
            Ok(s) => Ok(s.get_prompt(name, arguments, waiter)),
            Err(e) => Err(e),
        }
    }

    /// Asks whether the server is there.
    pub fn send_ping(
        &mut self,
        waiter: T,
    ) -> (r: Result<(RequestId, Message), McpError>)
        ensures
            final(self).asks(
                &*old(self),
                methods::PING@,
                None,
                waiter,
                None,
                r,
            ),
    {
        match self.session_mut() {
            Ok(s) => Ok(s.send_ping(waiter)),
            Err(e) => Err(e),
        }
    }

    /// Sets the level of the log of the server.
    pub fn set_logging_level(
        &mut self,
        level: LoggingLevel,
        waiter: T,
    ) -> (r: Result<(RequestId, Message), McpError>)
        ensures
            final(self).asks(
                &*old(self),
                methods::LOGGING_SET_LEVEL@,
                Some(session::one_text("level"@, level.name())),
                waiter,
                None,
                r,
            ),
    {
        match self.session_mut() {
            Ok(s) => Ok(s.set_logging_level(level, waiter)),
            Err(e) => Err(e),
        }
    }

    /// Asks for a completion.
    pub fn complete(
        &mut self,
        reference: CompleteReference,
        argument: CompletionArgument,
        context: Option<CompletionContext>,
        waiter: T,
    ) -> (r: Result<(RequestId, Message), McpError>)
        ensures
            final(self).asks(
                &*old(self),
                methods::COMPLETION_COMPLETE@,
                Some(CompleteRequestParams { reference, argument, context }.wire()),
                waiter,
                None,
                r,
            ),
    {
        match self.session_mut() {
            Ok(s) => Ok(s.complete(reference, argument, context, waiter)),
            Err(e) => Err(e),
        }
    }

    /// Tells the server that the roots changed.
    pub fn send_roots_list_changed(&self) -> (r: Result<Message, McpError>)
        ensures
            match r {
                Ok(m) => self.opened() && self.current() is Some && m@ == session::bare_notification(
                    methods::NOTIFICATION_ROOTS_LIST_CHANGED@,
                ),
                Err(e) => self.has_no_session(e),
            },
    {
        match self.session() {
            Ok(s) => Ok(s.send_roots_list_changed()),
            Err(e) => Err(e),
        }
    }

    /// Tells the server of the progress of its request.
    pub fn send_progress_notification(
        &self,
        progress_token: ProgressToken,
        progress: Real,
        total: Option<Real>,
        message: Option<String>,
    ) -> (r: Result<Message, McpError>)
        ensures
            match r {
                Ok(m) => self.opened() && self.current() is Some && m@ == (
                MessageView::Notification {
                    method: methods::NOTIFICATION_PROGRESS@,
                    params: Some(
                        ProgressNotificationParams {
                            progress_token,
                            progress,
                            total,
                            message,
                        }.wire(),
                    ),
                }),
                Err(e) => self.has_no_session(e),
            },
    {
        match self.session() {
            Ok(s) => Ok(s.send_progress_notification(progress_token, progress, total, message)),
            Err(e) => Err(e),
        }
    }

    /// Sets what runs when the server asks for the roots.
    pub fn set_list_roots_callback(&mut self, cb: H::ListRoots)
        ensures
            final(self).effective() == (Callbacks {
                list_roots: Some(cb),
                ..old(self).effective()
            }),
            final(self).same_but_callbacks(&*old(self)),
    {
        match &mut self.session {
            Some(s) => s.set_list_roots_callback(cb),
            None => {
                self.pre_init.list_roots = Some(cb);
            },
        }
    }

    /// Sets what runs when the server sends a line of its log.
    pub fn set_logging_callback(&mut self, cb: H::Logging)
        ensures
            final(self).effective() == (Callbacks { logging: Some(cb), ..old(self).effective() }),
            final(self).same_but_callbacks(&*old(self)),
    {
        match &mut self.session {
            Some(s) => s.set_logging_callback(cb),
            None => {
                self.pre_init.logging = Some(cb);
            },
        }
    }

    /// Sets what runs when the server asks the user to fill in a form.
    pub fn set_elicit_callback(&mut self, cb: H::Elicit)
        ensures
            final(self).effective() == (Callbacks { elicit: Some(cb), ..old(self).effective() }),
            final(self).same_but_callbacks(&*old(self)),
    {
        match &mut self.session {
            Some(s) => s.set_elicit_callback(cb),
            None => {
                self.pre_init.elicit = Some(cb);
            },
        }
    }

    /// Sets what runs when the server asks the user to visit a page.
    pub fn set_elicit_url_callback(&mut self, cb: H::ElicitUrl)
        ensures
            final(self).effective() == (Callbacks {
                elicit_url: Some(cb),
                ..old(self).effective()
            }),
            final(self).same_but_callbacks(&*old(self)),
    {
        match &mut self.session {
            Some(s) => s.set_elicit_url_callback(cb),
            None => {
                self.pre_init.elicit_url = Some(cb);
            },
        }
    }

    /// Sets what runs when the server asks for a message of a model, and what it can do.
    pub fn set_sampling_create_message_callback(
        &mut self,
        cb: H::Sampling,
        capability: SamplingCapability,
    )
        ensures
            final(self).effective() == (Callbacks {
                sampling: Some((cb, capability)),
                ..old(self).effective()
            }),
            final(self).same_but_callbacks(&*old(self)),
    {
        match &mut self.session {
            Some(s) => s.set_sampling_create_message_callback(cb, capability),
            None => {
                self.pre_init.sampling = Some((cb, capability));
            },
        }
    }

    /// What the client has for requests of the server: in its session, or for the next
    /// one.
    pub open spec fn effective(&self) -> Callbacks<H> {
        match self.current() {
            Some(s) => s@.callbacks,
            None => self.prepared(),
        }
    }

    /// The same but for what the client has for requests of the server.
    pub open spec fn same_but_callbacks(&self, other: &Self) -> bool {
        &&& self.configured() == other.configured()
        &&& self.opened() == other.opened()
        &&& match (self.current(), other.current()) {
            (Some(a), Some(b)) => {
                &&& a@.name == b@.name && a@.version == b@.version
                &&& a@.initialized == b@.initialized && a@.server == b@.server
                &&& a@.schemas == b@.schemas
                &&& a.awaited() == b.awaited()
                &&& self.prepared() == other.prepared()
            },
            (None, None) => true,
            _ => false,
        }
    }
}

/// Makes clients.
pub struct McpClientFactory;

impl McpClientFactory {
    /// A client over HTTP, and its transport. The endpoint and the times must do.
    pub fn create_streamable_http_client<H: ClientHandlers, T, P>(
        config: ClientConfig,
        transport_config: StreamableHttpClientConfig,
    ) -> (r: Result<(McpClient<H, T, P>, StreamableHttpClientTransport), McpError>)
        ensures
            r is Ok <==> endpoint::endpoint_fault(transport_config.endpoint@) is None
                && streamable_http_client::valid_timeout(transport_config.timeout as int)
                && streamable_http_client::valid_timeout(transport_config.sse_timeout as int),
            match r {
                Ok((c, t)) => {
                    &&& c.configured() == config && c.current() is None && !c.opened()
                    &&& c.prepared().is_empty()
                    &&& t@ == (ClientTransportView {
                        url: transport_config.endpoint@,
                        headers: streamable_http_client::default_headers().union_prefer_right(
                            string_map::texts(transport_config.headers@),
                        ),
                        timeout: transport_config.timeout as int,
                        sse_timeout: transport_config.sse_timeout as int,
                        server_name: transport_config.tls_config.server_name@,
                        session: seq![],
                        version: seq![],
                        running: true,
                    })
                    &&& t.encryption() == transport_config.tls_config
                },
                Err(e) => e.faults_argument(
                    match endpoint::endpoint_fault(transport_config.endpoint@) {
                        Some(f) => f,
                        None => if !streamable_http_client::valid_timeout(
                            transport_config.timeout as int,
                        ) {
                            "Invalid timeout value"@
                        } else {
                            "Invalid SSE read timeout value"@
                        },
                    },
                ),
            },
    {
        match is_valid_streamable_http_endpoint(transport_config.endpoint.as_str()) {
            Ok(()) => {},
            Err(f) => {
                return Err(McpError::InvalidArgument(f));
            },
        }
        match StreamableHttpClientTransport::new(
            transport_config.endpoint,
            transport_config.headers,
            transport_config.timeout,
            transport_config.sse_timeout,
            transport_config.tls_config,
        ) {
            Ok(t) => Ok((McpClient::with_transport(config), t)),
            Err(e) => Err(e),
        }
    }

    /// A client of a server that is started as a program.
    pub fn create_stdio_client<H: ClientHandlers, T, P>(config: ClientConfig) -> (r: McpClient<H, T, P>)
        ensures
            r.configured() == config,
            r.current() is None,
            !r.opened(),
            r.prepared().is_empty(),
    {
        McpClient::with_transport(config)
    }
}

} // verus!
