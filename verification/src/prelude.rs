//! What most programs need.
pub use crate::auth::{
    AuthProvider, Authenticator, Authorizer, BearerTokenAuthenticator, BearerTokenProvider,
    NoAuthAuthenticator, ScopeBasedAuthorizer, SimpleTokenVerifier, TokenVerifier,
};
pub use crate::client::{Callbacks, ClientHandlers, McpClient, McpClientFactory};
pub use crate::error::{JsonRpcErrorCode, McpError};
pub use crate::json::Json;
pub use crate::server::{
    AddPromptOptionalParams, AddResourceOptionalParams, AddResourceTemplateOptionalParams,
    AddToolOptionalParams, Handlers, McpServer, McpServerFactory, ServerContext,
};
pub use crate::string_map::StringMap;
