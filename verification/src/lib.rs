//! Clients and servers of the Model Context Protocol: the messages they exchange, the
//! rules by which each side answers, and the two ways on which messages travel, a pair of
//! text streams and HTTP.
//!
//! Every step is a function of plain values: it takes what was received and tells what is
//! to be sent or run. Sockets, processes, timers and handlers are the business of the
//! program around it.
pub mod auth;
pub mod client;
pub mod double;
pub mod error;
pub mod json;
pub mod jsonrpc;
pub mod laws;
pub mod log;
pub mod prelude;
pub mod protocol;
pub mod sampling_validation;
pub mod schema;
pub mod server;
pub mod session;
pub mod string_map;
pub mod text;
pub mod transport;
pub mod types;
pub mod wire;

pub use crate::client::{McpClient, McpClientFactory};
pub use crate::error::{ErrorResult, JsonRpcErrorCode, McpError};
pub use crate::jsonrpc::{Message, Notification, Request, RequestId, Response, RpcError};
pub use crate::server::{McpServer, McpServerFactory, ServerContext};
