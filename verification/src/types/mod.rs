//! The values that peers exchange, and the configuration of clients and servers.
pub mod capabilities;
pub mod completion;
pub mod config;
pub mod content;
pub mod logging;
pub mod meta;
pub mod prompts;
pub mod resources;
pub mod sampling;
pub mod session;
pub mod tools;

pub use crate::types::capabilities::{
    ClientCapabilities, ClientTasksCapability, ElicitationCapability, FormElicitationCapability,
    LoggingCapabilities, PromptsCapabilities, ResourcesCapabilities, RootsCapability,
    SamplingCapability, ServerCapabilities, ToolsCapabilities, UrlElicitationCapability,
};
pub use crate::types::completion::{
    CompleteReference, CompleteResult, Completion, CompletionArgument, CompletionContext,
    PromptReference, ResourceTemplateReference,
};
pub use crate::types::config::{
    ClientConfig, DEFAULT_CLIENT_NAME, DEFAULT_RESOURCES_PAGE_SIZE, DEFAULT_SERVER_NAME,
    DEFAULT_TIMEOUT, DEFAULT_TOOLS_PAGE_SIZE, DEFAULT_VERSION, ServerConfig, StdioClientConfig,
    StreamableHttpClientConfig, StreamableHttpServerConfig, TlsConfig,
};
pub use crate::types::content::{
    Annotations, AudioContent, BlobResourceContents, ContentBlock, EmbeddedResource, Icon,
    ImageContent, ResourceContents, ResourceLink, RoleType, TextContent, TextResourceContents,
};
pub use crate::types::logging::LoggingLevel;
pub use crate::types::meta::{
    ProgressToken, RequestParamsMeta,
};
pub use crate::types::prompts::{
    GetPromptResult, ListPromptsResult, PromptArgument, PromptInfo, PromptMessage,
};
pub use crate::types::resources::{
    ListResourcesResult, ListResourceTemplatesResult, ReadResourceResult, ResourceInfo,
    ResourceTemplate,
};
pub use crate::types::sampling::{
    CreateMessageParams, CreateMessageResult, ModelHint, ModelPreferences, SamplingContent,
    SamplingMessage, SamplingMessageContentBlock, ToolChoice, ToolResultContent, ToolUseContent,
};
pub use crate::types::session::{
    ClientInfo, ElicitResult, EmptyResult, Implementation, InitializeRequestParams,
    InitializeResult, ListRootsResult, Root, ServerInfo,
};
pub use crate::types::tools::{
    CallToolResult, ListToolsResult, Tool, ToolAnnotations,
};
pub use crate::wire::{MetaMap, Real, TextMap};
