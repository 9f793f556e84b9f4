//! Copies say what the values say that they are copies of.
use vstd::prelude::*;

use crate::protocol::params::{
    CallToolParams, CancelledNotificationParams, CompleteRequestParams, ElicitParams,
    GetPromptParams, LoggingMessageNotificationParams, PaginatedParams, ProgressNotificationParams,
    ResourceUpdatedNotificationParams, SetLoggingLevelParams, UriParams,
};
use crate::types::capabilities::{
    ClientCapabilities, LoggingCapabilities, PromptsCapabilities, ResourcesCapabilities,
    ServerCapabilities, ToolsCapabilities,
};
use crate::types::completion::{
    CompleteReference, CompleteResult, Completion, CompletionArgument, CompletionContext,
    PromptReference, ResourceTemplateReference,
};
use crate::types::content::{
    Annotations, AudioContent, BlobResourceContents, ContentBlock, EmbeddedResource, Icon,
    ImageContent, ResourceContents, ResourceLink, TextContent, TextResourceContents,
};
use crate::types::meta::{ProgressToken, RequestParamsMeta};
use crate::types::prompts::{
    GetPromptResult, ListPromptsResult, PromptArgument, PromptInfo, PromptMessage,
};
use crate::types::resources::{
    ListResourceTemplatesResult, ListResourcesResult, ReadResourceResult, ResourceInfo,
    ResourceTemplate,
};
use crate::types::sampling::{
    CreateMessageParams, CreateMessageResult, ModelHint, ModelPreferences, SamplingContent,
    SamplingMessage, SamplingMessageContentBlock, ToolChoice, ToolResultContent, ToolUseContent,
};
use crate::types::session::{
    ElicitResult, EmptyResult, Implementation, InitializeRequestParams, InitializeResult,
    ListRootsResult, Root,
};
use crate::types::tools::{CallToolResult, ListToolsResult, Tool, ToolAnnotations};
use crate::wire::Wire;

verus! {

/// A copy of what is offered says what was copied.
pub proof fn capabilities_copied(
    logging_capabilities: (LoggingCapabilities, LoggingCapabilities),
    prompts_capabilities: (PromptsCapabilities, PromptsCapabilities),
    resources_capabilities: (ResourcesCapabilities, ResourcesCapabilities),
    tools_capabilities: (ToolsCapabilities, ToolsCapabilities),
    server_capabilities: (ServerCapabilities, ServerCapabilities),
    client_capabilities: (ClientCapabilities, ClientCapabilities),
)
    requires
        call_ensures(<LoggingCapabilities as Clone>::clone, (&logging_capabilities.0,), logging_capabilities.1),
        call_ensures(<PromptsCapabilities as Clone>::clone, (&prompts_capabilities.0,), prompts_capabilities.1),
        call_ensures(<ResourcesCapabilities as Clone>::clone, (&resources_capabilities.0,), resources_capabilities.1),
        call_ensures(<ToolsCapabilities as Clone>::clone, (&tools_capabilities.0,), tools_capabilities.1),
        call_ensures(<ServerCapabilities as Clone>::clone, (&server_capabilities.0,), server_capabilities.1),
        call_ensures(<ClientCapabilities as Clone>::clone, (&client_capabilities.0,), client_capabilities.1),
    ensures
        logging_capabilities.1.wire() == logging_capabilities.0.wire(),
        prompts_capabilities.1.wire() == prompts_capabilities.0.wire(),
        resources_capabilities.1.wire() == resources_capabilities.0.wire(),
        tools_capabilities.1.wire() == tools_capabilities.0.wire(),
        server_capabilities.1.wire() == server_capabilities.0.wire(),
        client_capabilities.1.wire() == client_capabilities.0.wire(),
        client_capabilities.1.sampling == client_capabilities.0.sampling && client_capabilities.1.elicitation == client_capabilities.0.elicitation
            && client_capabilities.1.roots == client_capabilities.0.roots && client_capabilities.1.tasks == client_capabilities.0.tasks,
{
}

/// A copy of completions says what was copied.
pub proof fn completion_copied(
    resource_template_reference: (ResourceTemplateReference, ResourceTemplateReference),
    prompt_reference: (PromptReference, PromptReference),
    complete_reference: (CompleteReference, CompleteReference),
    completion_argument: (CompletionArgument, CompletionArgument),
    completion_context: (CompletionContext, CompletionContext),
    completion: (Completion, Completion),
    complete_result: (CompleteResult, CompleteResult),
)
    requires
        call_ensures(<ResourceTemplateReference as Clone>::clone, (&resource_template_reference.0,), resource_template_reference.1),
        call_ensures(<PromptReference as Clone>::clone, (&prompt_reference.0,), prompt_reference.1),
        call_ensures(<CompleteReference as Clone>::clone, (&complete_reference.0,), complete_reference.1),
        call_ensures(<CompletionArgument as Clone>::clone, (&completion_argument.0,), completion_argument.1),
        call_ensures(<CompletionContext as Clone>::clone, (&completion_context.0,), completion_context.1),
        call_ensures(<Completion as Clone>::clone, (&completion.0,), completion.1),
        call_ensures(<CompleteResult as Clone>::clone, (&complete_result.0,), complete_result.1),
    ensures
        resource_template_reference.1.wire() == resource_template_reference.0.wire(),
        prompt_reference.1.wire() == prompt_reference.0.wire(),
        complete_reference.1.wire() == complete_reference.0.wire(),
        completion_argument.1.wire() == completion_argument.0.wire(),
        completion_context.1.wire() == completion_context.0.wire(),
        completion.1.wire() == completion.0.wire(),
        complete_result.1.wire() == complete_result.0.wire(),
{
}

/// A copy of content says what was copied.
pub proof fn content_copied(
    annotations: (Annotations, Annotations),
    icon: (Icon, Icon),
    text_content: (TextContent, TextContent),
    image_content: (ImageContent, ImageContent),
    audio_content: (AudioContent, AudioContent),
    text_resource_contents: (TextResourceContents, TextResourceContents),
    blob_resource_contents: (BlobResourceContents, BlobResourceContents),
    resource_contents: (ResourceContents, ResourceContents),
    embedded_resource: (EmbeddedResource, EmbeddedResource),
    resource_link: (ResourceLink, ResourceLink),
    content_block: (ContentBlock, ContentBlock),
)
    requires
        call_ensures(<Annotations as Clone>::clone, (&annotations.0,), annotations.1),
        call_ensures(<Icon as Clone>::clone, (&icon.0,), icon.1),
        call_ensures(<TextContent as Clone>::clone, (&text_content.0,), text_content.1),
        call_ensures(<ImageContent as Clone>::clone, (&image_content.0,), image_content.1),
        call_ensures(<AudioContent as Clone>::clone, (&audio_content.0,), audio_content.1),
        call_ensures(<TextResourceContents as Clone>::clone, (&text_resource_contents.0,), text_resource_contents.1),
        call_ensures(<BlobResourceContents as Clone>::clone, (&blob_resource_contents.0,), blob_resource_contents.1),
        call_ensures(<ResourceContents as Clone>::clone, (&resource_contents.0,), resource_contents.1),
        call_ensures(<EmbeddedResource as Clone>::clone, (&embedded_resource.0,), embedded_resource.1),
        call_ensures(<ResourceLink as Clone>::clone, (&resource_link.0,), resource_link.1),
        call_ensures(<ContentBlock as Clone>::clone, (&content_block.0,), content_block.1),
    ensures
        annotations.1.wire() == annotations.0.wire(),
        icon.1.wire() == icon.0.wire(),
        text_content.1.wire() == text_content.0.wire(),
        image_content.1.wire() == image_content.0.wire(),
        audio_content.1.wire() == audio_content.0.wire(),
        text_resource_contents.1.wire() == text_resource_contents.0.wire(),
        blob_resource_contents.1.wire() == blob_resource_contents.0.wire(),
        resource_contents.1.wire() == resource_contents.0.wire(),
        embedded_resource.1.wire() == embedded_resource.0.wire(),
        resource_link.1.wire() == resource_link.0.wire(),
        content_block.1.wire() == content_block.0.wire(),
{
}

/// A copy of metadata says what was copied.
pub proof fn meta_copied(
    progress_token: (ProgressToken, ProgressToken),
    request_params_meta: (RequestParamsMeta, RequestParamsMeta),
)
    requires
        call_ensures(<ProgressToken as Clone>::clone, (&progress_token.0,), progress_token.1),
        call_ensures(<RequestParamsMeta as Clone>::clone, (&request_params_meta.0,), request_params_meta.1),
    ensures
        progress_token.1.wire() == progress_token.0.wire(),
        request_params_meta.1.wire() == request_params_meta.0.wire(),
{
}

/// A copy of prompts says what was copied.
pub proof fn prompts_copied(
    prompt_message: (PromptMessage, PromptMessage),
    prompt_argument: (PromptArgument, PromptArgument),
    get_prompt_result: (GetPromptResult, GetPromptResult),
    prompt_info: (PromptInfo, PromptInfo),
    list_prompts_result: (ListPromptsResult, ListPromptsResult),
)
    requires
        call_ensures(<PromptMessage as Clone>::clone, (&prompt_message.0,), prompt_message.1),
        call_ensures(<PromptArgument as Clone>::clone, (&prompt_argument.0,), prompt_argument.1),
        call_ensures(<GetPromptResult as Clone>::clone, (&get_prompt_result.0,), get_prompt_result.1),
        call_ensures(<PromptInfo as Clone>::clone, (&prompt_info.0,), prompt_info.1),
        call_ensures(<ListPromptsResult as Clone>::clone, (&list_prompts_result.0,), list_prompts_result.1),
    ensures
        prompt_message.1.wire() == prompt_message.0.wire(),
        prompt_argument.1.wire() == prompt_argument.0.wire(),
        get_prompt_result.1.wire() == get_prompt_result.0.wire(),
        prompt_info.1.wire() == prompt_info.0.wire(),
        list_prompts_result.1.wire() == list_prompts_result.0.wire(),
{
}

/// A copy of resources says what was copied.
pub proof fn resources_copied(
    resource_info: (ResourceInfo, ResourceInfo),
    resource_template: (ResourceTemplate, ResourceTemplate),
    list_resources_result: (ListResourcesResult, ListResourcesResult),
    read_resource_result: (ReadResourceResult, ReadResourceResult),
    list_resource_templates_result: (ListResourceTemplatesResult, ListResourceTemplatesResult),
)
    requires
        call_ensures(<ResourceInfo as Clone>::clone, (&resource_info.0,), resource_info.1),
        call_ensures(<ResourceTemplate as Clone>::clone, (&resource_template.0,), resource_template.1),
        call_ensures(<ListResourcesResult as Clone>::clone, (&list_resources_result.0,), list_resources_result.1),
        call_ensures(<ReadResourceResult as Clone>::clone, (&read_resource_result.0,), read_resource_result.1),
        call_ensures(<ListResourceTemplatesResult as Clone>::clone, (&list_resource_templates_result.0,), list_resource_templates_result.1),
    ensures
        resource_info.1.wire() == resource_info.0.wire(),
        resource_template.1.wire() == resource_template.0.wire(),
        list_resources_result.1.wire() == list_resources_result.0.wire(),
        read_resource_result.1.wire() == read_resource_result.0.wire(),
        list_resource_templates_result.1.wire() == list_resource_templates_result.0.wire(),
{
}

/// A copy of sampling says what was copied.
pub proof fn sampling_copied(
    tool_use_content: (ToolUseContent, ToolUseContent),
    tool_result_content: (ToolResultContent, ToolResultContent),
    sampling_message_content_block: (SamplingMessageContentBlock, SamplingMessageContentBlock),
    sampling_content: (SamplingContent, SamplingContent),
    sampling_message: (SamplingMessage, SamplingMessage),
    model_hint: (ModelHint, ModelHint),
    model_preferences: (ModelPreferences, ModelPreferences),
    tool_choice: (ToolChoice, ToolChoice),
    create_message_result: (CreateMessageResult, CreateMessageResult),
    create_message_params: (CreateMessageParams, CreateMessageParams),
)
    requires
        call_ensures(<ToolUseContent as Clone>::clone, (&tool_use_content.0,), tool_use_content.1),
        call_ensures(<ToolResultContent as Clone>::clone, (&tool_result_content.0,), tool_result_content.1),
        call_ensures(<SamplingMessageContentBlock as Clone>::clone, (&sampling_message_content_block.0,), sampling_message_content_block.1),
        call_ensures(<SamplingContent as Clone>::clone, (&sampling_content.0,), sampling_content.1),
        call_ensures(<SamplingMessage as Clone>::clone, (&sampling_message.0,), sampling_message.1),
        call_ensures(<ModelHint as Clone>::clone, (&model_hint.0,), model_hint.1),
        call_ensures(<ModelPreferences as Clone>::clone, (&model_preferences.0,), model_preferences.1),
        call_ensures(<ToolChoice as Clone>::clone, (&tool_choice.0,), tool_choice.1),
        call_ensures(<CreateMessageResult as Clone>::clone, (&create_message_result.0,), create_message_result.1),
        call_ensures(<CreateMessageParams as Clone>::clone, (&create_message_params.0,), create_message_params.1),
    ensures
        tool_use_content.1.wire() == tool_use_content.0.wire(),
        tool_result_content.1.wire() == tool_result_content.0.wire(),
        sampling_message_content_block.1.wire() == sampling_message_content_block.0.wire(),
        sampling_content.1.wire() == sampling_content.0.wire(),
        sampling_message.1.wire() == sampling_message.0.wire(),
        model_hint.1.wire() == model_hint.0.wire(),
        model_preferences.1.wire() == model_preferences.0.wire(),
        tool_choice.1.wire() == tool_choice.0.wire(),
        create_message_result.1.wire() == create_message_result.0.wire(),
        create_message_params.1.wire() == create_message_params.0.wire(),
{
}

/// A copy of sessions says what was copied.
pub proof fn session_copied(
    implementation: (Implementation, Implementation),
    initialize_result: (InitializeResult, InitializeResult),
    initialize_request_params: (InitializeRequestParams, InitializeRequestParams),
    root: (Root, Root),
    list_roots_result: (ListRootsResult, ListRootsResult),
    elicit_result: (ElicitResult, ElicitResult),
    empty_result: (EmptyResult, EmptyResult),
)
    requires
        call_ensures(<Implementation as Clone>::clone, (&implementation.0,), implementation.1),
        call_ensures(<InitializeResult as Clone>::clone, (&initialize_result.0,), initialize_result.1),
        call_ensures(<InitializeRequestParams as Clone>::clone, (&initialize_request_params.0,), initialize_request_params.1),
        call_ensures(<Root as Clone>::clone, (&root.0,), root.1),
        call_ensures(<ListRootsResult as Clone>::clone, (&list_roots_result.0,), list_roots_result.1),
        call_ensures(<ElicitResult as Clone>::clone, (&elicit_result.0,), elicit_result.1),
        call_ensures(<EmptyResult as Clone>::clone, (&empty_result.0,), empty_result.1),
    ensures
        implementation.1.wire() == implementation.0.wire(),
        initialize_result.1.wire() == initialize_result.0.wire(),
        initialize_request_params.1.wire() == initialize_request_params.0.wire(),
        root.1.wire() == root.0.wire(),
        list_roots_result.1.wire() == list_roots_result.0.wire(),
        elicit_result.1.wire() == elicit_result.0.wire(),
        empty_result.1.wire() == empty_result.0.wire(),
{
}

/// A copy of tools says what was copied.
pub proof fn tools_copied(
    tool_annotations: (ToolAnnotations, ToolAnnotations),
    tool: (Tool, Tool),
    call_tool_result: (CallToolResult, CallToolResult),
    list_tools_result: (ListToolsResult, ListToolsResult),
)
    requires
        call_ensures(<ToolAnnotations as Clone>::clone, (&tool_annotations.0,), tool_annotations.1),
        call_ensures(<Tool as Clone>::clone, (&tool.0,), tool.1),
        call_ensures(<CallToolResult as Clone>::clone, (&call_tool_result.0,), call_tool_result.1),
        call_ensures(<ListToolsResult as Clone>::clone, (&list_tools_result.0,), list_tools_result.1),
    ensures
        tool_annotations.1.wire() == tool_annotations.0.wire(),
        tool.1.wire() == tool.0.wire(),
        call_tool_result.1.wire() == call_tool_result.0.wire(),
        list_tools_result.1.wire() == list_tools_result.0.wire(),
{
}

/// A copy of parameters says what was copied.
pub proof fn params_copied(
    call_tool_params: (CallToolParams, CallToolParams),
    get_prompt_params: (GetPromptParams, GetPromptParams),
    uri_params: (UriParams, UriParams),
    paginated_params: (PaginatedParams, PaginatedParams),
    set_logging_level_params: (SetLoggingLevelParams, SetLoggingLevelParams),
    elicit_params: (ElicitParams, ElicitParams),
    complete_request_params: (CompleteRequestParams, CompleteRequestParams),
    cancelled_notification_params: (CancelledNotificationParams, CancelledNotificationParams),
    progress_notification_params: (ProgressNotificationParams, ProgressNotificationParams),
    logging_message_notification_params: (LoggingMessageNotificationParams, LoggingMessageNotificationParams),
    resource_updated_notification_params: (ResourceUpdatedNotificationParams, ResourceUpdatedNotificationParams),
)
    requires
        call_ensures(<CallToolParams as Clone>::clone, (&call_tool_params.0,), call_tool_params.1),
        call_ensures(<GetPromptParams as Clone>::clone, (&get_prompt_params.0,), get_prompt_params.1),
        call_ensures(<UriParams as Clone>::clone, (&uri_params.0,), uri_params.1),
        call_ensures(<PaginatedParams as Clone>::clone, (&paginated_params.0,), paginated_params.1),
        call_ensures(<SetLoggingLevelParams as Clone>::clone, (&set_logging_level_params.0,), set_logging_level_params.1),
        call_ensures(<ElicitParams as Clone>::clone, (&elicit_params.0,), elicit_params.1),
        call_ensures(<CompleteRequestParams as Clone>::clone, (&complete_request_params.0,), complete_request_params.1),
        call_ensures(<CancelledNotificationParams as Clone>::clone, (&cancelled_notification_params.0,), cancelled_notification_params.1),
        call_ensures(<ProgressNotificationParams as Clone>::clone, (&progress_notification_params.0,), progress_notification_params.1),
        call_ensures(<LoggingMessageNotificationParams as Clone>::clone, (&logging_message_notification_params.0,), logging_message_notification_params.1),
        call_ensures(<ResourceUpdatedNotificationParams as Clone>::clone, (&resource_updated_notification_params.0,), resource_updated_notification_params.1),
    ensures
        call_tool_params.1.wire() == call_tool_params.0.wire(),
        get_prompt_params.1.wire() == get_prompt_params.0.wire(),
        uri_params.1.wire() == uri_params.0.wire(),
        paginated_params.1.wire() == paginated_params.0.wire(),
        set_logging_level_params.1.wire() == set_logging_level_params.0.wire(),
        elicit_params.1.wire() == elicit_params.0.wire(),
        complete_request_params.1.wire() == complete_request_params.0.wire(),
        cancelled_notification_params.1.wire() == cancelled_notification_params.0.wire(),
        progress_notification_params.1.wire() == progress_notification_params.0.wire(),
        logging_message_notification_params.1.wire() == logging_message_notification_params.0.wire(),
        resource_updated_notification_params.1.wire() == resource_updated_notification_params.0.wire(),
{
}

} // verus!
