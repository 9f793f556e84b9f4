//! The configuration of clients and servers. Times are in milliseconds.
use vstd::prelude::*;

use crate::string_map::StringMap;
use crate::types::capabilities::ServerCapabilities;

verus! {

/// The name of a server that is given none.
pub const DEFAULT_SERVER_NAME: &'static str = "MCP Server";

/// The name of a client that is given none.
pub const DEFAULT_CLIENT_NAME: &'static str = "MCP Client";

/// The version of a program that is given none.
pub const DEFAULT_VERSION: &'static str = "1.0.0";

/// How long an answer is waited for, in milliseconds.
pub const DEFAULT_TIMEOUT: u64 = 30_000;

/// How many tools a page holds.
pub const DEFAULT_TOOLS_PAGE_SIZE: usize = 50;

/// How many resources a page holds.
pub const DEFAULT_RESOURCES_PAGE_SIZE: usize = 50;

/// A server that is started as a program.
#[derive(Debug, Clone, PartialEq, Eq)]
pub struct StdioClientConfig {
    pub command: String,
    pub args: Vec<String>,
    pub env: StringMap<String>,
}

impl Default for StdioClientConfig {
    fn default() -> (r: Self)
        ensures
            r.command@.len() == 0,
            r.args@.len() == 0,
            r.env@ == Map::<Seq<char>, String>::empty(),
    {
        StdioClientConfig { command: String::new(), args: Vec::new(), env: StringMap::new() }
    }
}

/// Encryption of the connection.
#[derive(Clone, Debug, PartialEq, Eq)]
pub struct TlsConfig {
    pub enabled: bool,
    pub ca_file: String,
    pub cert_file: String,
    pub key_file: String,
    pub server_name: String,
    pub verify_peer: bool,
}

impl TlsConfig {
    /// No encryption, no files, and peers are verified.
    pub open spec fn is_default(&self) -> bool {
        &&& !self.enabled
        &&& self.ca_file@.len() == 0
        &&& self.cert_file@.len() == 0
        &&& self.key_file@.len() == 0
        &&& self.server_name@.len() == 0
        &&& self.verify_peer
    }
}

impl Default for TlsConfig {
    fn default() -> (r: Self)
        ensures
            r.is_default(),
    {
        TlsConfig {
            enabled: false,
            ca_file: String::new(),
            cert_file: String::new(),
            key_file: String::new(),
            server_name: String::new(),
            verify_peer: true,
        }
    }
}

/// A server that is reached over HTTP.
#[derive(Debug, Clone, PartialEq, Eq)]
pub struct StreamableHttpClientConfig {
    pub endpoint: String,
    pub timeout: u64,
    pub sse_timeout: u64,
    pub headers: StringMap<String>,
    pub tls_config: TlsConfig,
}

impl Default for StreamableHttpClientConfig {
    fn default() -> (r: Self)
        ensures
            r.endpoint@.len() == 0,
            r.timeout == DEFAULT_TIMEOUT,
            r.sse_timeout == DEFAULT_TIMEOUT,
            r.headers@ == Map::<Seq<char>, String>::empty(),
            r.tls_config.is_default(),
    {
        StreamableHttpClientConfig {
            endpoint: String::new(),
            timeout: DEFAULT_TIMEOUT,
            sse_timeout: DEFAULT_TIMEOUT,
            headers: StringMap::new(),
            tls_config: TlsConfig::default(),
        }
    }
}

/// How a server is reached over HTTP. `A` authenticates callers, `Z` decides whether
/// they may go on.
#[derive(Debug, Clone)]
pub struct StreamableHttpServerConfig<A, Z> {
    pub endpoint: String,
    pub is_json_response_enabled: bool,
    pub stateless: bool,
    pub io_threads: u32,
    pub tls_config: TlsConfig,
    pub authenticator: Option<A>,
    pub authorizer: Option<Z>,
}

impl<A, Z> StreamableHttpServerConfig<A, Z> {
    /// Listens at an endpoint, and lets everybody in.
    pub fn new(endpoint: String) -> (r: Self)
        ensures
            r.endpoint == endpoint,
            !r.is_json_response_enabled,
            !r.stateless,
            r.io_threads == 1,
            r.tls_config.is_default(),
            r.authenticator is None,
            r.authorizer is None,
    {
        StreamableHttpServerConfig {
            endpoint,
            is_json_response_enabled: false,
            stateless: false,
            io_threads: 1,
            tls_config: TlsConfig::default(),
            authenticator: None,
            authorizer: None,
        }
    }
}

impl<A, Z> Default for StreamableHttpServerConfig<A, Z> {
    fn default() -> (r: Self)
        ensures
            r.endpoint@.len() == 0,
            !r.is_json_response_enabled,
            !r.stateless,
            r.io_threads == 0,
            r.tls_config.is_default(),
            r.authenticator is None,
            r.authorizer is None,
    {
        StreamableHttpServerConfig {
            endpoint: String::new(),
            is_json_response_enabled: false,
            stateless: false,
            io_threads: 0,
            tls_config: TlsConfig::default(),
            authenticator: None,
            authorizer: None,
        }
    }
}

/// What a client says of itself.
#[derive(Clone, Debug, PartialEq, Eq)]
pub struct ClientConfig {
    pub name: String,
    pub version: String,
}

impl Default for ClientConfig {
    fn default() -> (r: Self)
        ensures
            r.name@ == DEFAULT_CLIENT_NAME@,
            r.version@ == DEFAULT_VERSION@,
    {
        ClientConfig { name: DEFAULT_CLIENT_NAME.to_owned(), version: DEFAULT_VERSION.to_owned() }
    }
}

/// What a server says of itself, and how it works.
#[derive(Debug, Clone, PartialEq)]
pub struct ServerConfig {
    pub name: String,
    pub version: String,
    pub worker_threads: u32,
    pub tools_page_size: usize,
    pub resources_page_size: usize,
    pub capabilities: ServerCapabilities,
}

impl Default for ServerConfig {
    fn default() -> (r: Self)
        ensures
            r.name@ == DEFAULT_SERVER_NAME@,
            r.version@ == DEFAULT_VERSION@,
            r.worker_threads == 1,
            r.tools_page_size == DEFAULT_TOOLS_PAGE_SIZE,
            r.resources_page_size == DEFAULT_RESOURCES_PAGE_SIZE,
            r.capabilities.is_default(),
    {
        ServerConfig {
            name: DEFAULT_SERVER_NAME.to_owned(),
            version: DEFAULT_VERSION.to_owned(),
            worker_threads: 1,
            tools_page_size: DEFAULT_TOOLS_PAGE_SIZE,
            resources_page_size: DEFAULT_RESOURCES_PAGE_SIZE,
            capabilities: ServerCapabilities::default(),
        }
    }
}

} // verus!
