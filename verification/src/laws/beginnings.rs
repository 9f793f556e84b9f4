//! What holds of values that were made without saying anything.
use vstd::prelude::*;

use crate::json::MemberView;
use crate::protocol::params::{
    CallToolParams, GetPromptParams, LoggingMessageNotificationParams, PaginatedParams,
    ResourceUpdatedNotificationParams, SetLoggingLevelParams, UriParams,
};
use crate::types::capabilities::{
    ClientCapabilities, ClientTasksCapability, ElicitationCapability, PromptsCapabilities,
    ResourcesCapabilities, RootsCapability, SamplingCapability, ServerCapabilities,
    ToolsCapabilities,
};
use crate::types::completion::{
    CompleteResult, Completion, CompletionArgument, CompletionContext, PromptReference,
    ResourceTemplateReference,
};
use crate::types::content::{
    Annotations, AudioContent, BlobResourceContents, ContentBlock, EmbeddedResource, Icon,
    ImageContent, ResourceContents, ResourceLink, RoleType, TextContent, TextResourceContents,
};
use crate::types::meta::RequestParamsMeta;
use crate::types::prompts::{
    GetPromptResult, ListPromptsResult, PromptArgument, PromptInfo, PromptMessage,
};
use crate::types::resources::{
    ListResourceTemplatesResult, ListResourcesResult, ReadResourceResult, ResourceInfo,
    ResourceTemplate,
};
use crate::types::sampling::{
    CreateMessageParams, CreateMessageResult, ModelHint, ModelPreferences, SamplingContent,
    SamplingMessage, ToolChoice, ToolResultContent, ToolUseContent,
};
use crate::types::session::{
    ElicitResult, EmptyResult, Implementation, InitializeRequestParams, InitializeResult,
    ListRootsResult, Root,
};
use crate::types::tools::{CallToolResult, ListToolsResult, Tool, ToolAnnotations};

verus! {

/// Unless something else is said, nothing is said of what is offered.
pub proof fn capabilities_by_default(
    prompts_capabilities: PromptsCapabilities,
    resources_capabilities: ResourcesCapabilities,
    tools_capabilities: ToolsCapabilities,
    server_capabilities: ServerCapabilities,
    sampling_capability: SamplingCapability,
    elicitation_capability: ElicitationCapability,
    roots_capability: RootsCapability,
    client_tasks_capability: ClientTasksCapability,
    client_capabilities: ClientCapabilities,
)
    requires
        call_ensures(<PromptsCapabilities as Default>::default, (), prompts_capabilities),
        call_ensures(<ResourcesCapabilities as Default>::default, (), resources_capabilities),
        call_ensures(<ToolsCapabilities as Default>::default, (), tools_capabilities),
        call_ensures(<ServerCapabilities as Default>::default, (), server_capabilities),
        call_ensures(<SamplingCapability as Default>::default, (), sampling_capability),
        call_ensures(<ElicitationCapability as Default>::default, (), elicitation_capability),
        call_ensures(<RootsCapability as Default>::default, (), roots_capability),
        call_ensures(<ClientTasksCapability as Default>::default, (), client_tasks_capability),
        call_ensures(<ClientCapabilities as Default>::default, (), client_capabilities),
    ensures
        prompts_capabilities.list_changed is None,
        resources_capabilities.subscribe is None,
        resources_capabilities.list_changed is None,
        tools_capabilities.list_changed is None,
        server_capabilities.experimental is None,
        server_capabilities.logging is None,
        server_capabilities.prompts is None,
        server_capabilities.resources is None,
        server_capabilities.tools is None,
        !sampling_capability.context,
        !sampling_capability.tools,
        elicitation_capability.form is None,
        elicitation_capability.url is None,
        !roots_capability.list_changed,
        !client_tasks_capability.list,
        !client_tasks_capability.cancel,
        !client_tasks_capability.sampling_create_message,
        !client_tasks_capability.elicitation_create,
        client_capabilities.experimental is None,
        client_capabilities.sampling is None,
        client_capabilities.elicitation is None,
        client_capabilities.roots is None,
        client_capabilities.tasks is None,
{
}

/// Unless something else is said, nothing is said of completions.
pub proof fn completion_by_default(
    resource_template_reference: ResourceTemplateReference,
    prompt_reference: PromptReference,
    completion_argument: CompletionArgument,
    completion_context: CompletionContext,
    completion: Completion,
    complete_result: CompleteResult,
)
    requires
        call_ensures(<ResourceTemplateReference as Default>::default, (), resource_template_reference),
        call_ensures(<PromptReference as Default>::default, (), prompt_reference),
        call_ensures(<CompletionArgument as Default>::default, (), completion_argument),
        call_ensures(<CompletionContext as Default>::default, (), completion_context),
        call_ensures(<Completion as Default>::default, (), completion),
        call_ensures(<CompleteResult as Default>::default, (), complete_result),
    ensures
        resource_template_reference.uri@.len() == 0,
        prompt_reference.name@.len() == 0,
        completion_argument.name@.len() == 0,
        completion_argument.value@.len() == 0,
        completion_context.arguments is None,
        completion.values@.len() == 0,
        completion.total is None,
        completion.has_more is None,
        complete_result.completion.is_default(),
        complete_result.meta is None,
{
}

/// Unless something else is said, nothing is said of content.
pub proof fn content_by_default(
    annotations: Annotations,
    icon: Icon,
    text_content: TextContent,
    image_content: ImageContent,
    audio_content: AudioContent,
    text_resource_contents: TextResourceContents,
    blob_resource_contents: BlobResourceContents,
    resource_contents: ResourceContents,
    embedded_resource: EmbeddedResource,
    resource_link: ResourceLink,
    content_block: ContentBlock,
)
    requires
        call_ensures(<Annotations as Default>::default, (), annotations),
        call_ensures(<Icon as Default>::default, (), icon),
        call_ensures(<TextContent as Default>::default, (), text_content),
        call_ensures(<ImageContent as Default>::default, (), image_content),
        call_ensures(<AudioContent as Default>::default, (), audio_content),
        call_ensures(<TextResourceContents as Default>::default, (), text_resource_contents),
        call_ensures(<BlobResourceContents as Default>::default, (), blob_resource_contents),
        call_ensures(<ResourceContents as Default>::default, (), resource_contents),
        call_ensures(<EmbeddedResource as Default>::default, (), embedded_resource),
        call_ensures(<ResourceLink as Default>::default, (), resource_link),
        call_ensures(<ContentBlock as Default>::default, (), content_block),
    ensures
        annotations.audience is None,
        annotations.last_modified is None,
        annotations.priority is None,
        icon.src@.len() == 0,
        icon.mime_type is None,
        icon.sizes is None,
        icon.theme is None,
        text_content.text@.len() == 0,
        text_content.annotations is None,
        image_content.data@.len() == 0,
        image_content.mime_type@.len() == 0,
        image_content.annotations is None,
        audio_content.data@.len() == 0,
        audio_content.mime_type@.len() == 0,
        audio_content.annotations is None,
        text_resource_contents.uri@.len() == 0,
        text_resource_contents.text@.len() == 0,
        text_resource_contents.mime_type is None,
        blob_resource_contents.uri@.len() == 0,
        blob_resource_contents.blob@.len() == 0,
        blob_resource_contents.mime_type is None,
        resource_contents is Text && resource_contents->Text_0.uri@.len() == 0 && resource_contents->Text_0.text@.len() == 0 && resource_contents->Text_0.mime_type is None,
        embedded_resource.resource.is_default(),
        embedded_resource.annotations is None,
        resource_link.uri@.len() == 0,
        resource_link.name@.len() == 0,
        resource_link.title is None,
        resource_link.description is None,
        resource_link.mime_type is None,
        resource_link.size is None,
        resource_link.icons is None,
        resource_link.annotations is None,
        content_block is Text && content_block->Text_0.text@.len() == 0 && content_block->Text_0.annotations is None,
{
}

/// Unless something else is said, nothing is said of metadata.
pub proof fn meta_by_default(
    request_params_meta: RequestParamsMeta,
)
    requires
        call_ensures(<RequestParamsMeta as Default>::default, (), request_params_meta),
    ensures
        request_params_meta.progress_token is None,
{
}

/// Unless something else is said, nothing is said of prompts.
pub proof fn prompts_by_default(
    prompt_message: PromptMessage,
    prompt_argument: PromptArgument,
    get_prompt_result: GetPromptResult,
    prompt_info: PromptInfo,
    list_prompts_result: ListPromptsResult,
)
    requires
        call_ensures(<PromptMessage as Default>::default, (), prompt_message),
        call_ensures(<PromptArgument as Default>::default, (), prompt_argument),
        call_ensures(<GetPromptResult as Default>::default, (), get_prompt_result),
        call_ensures(<PromptInfo as Default>::default, (), prompt_info),
        call_ensures(<ListPromptsResult as Default>::default, (), list_prompts_result),
    ensures
        prompt_message.role == RoleType::User,
        prompt_message.content.is_default(),
        prompt_argument.name@.len() == 0,
        prompt_argument.description is None,
        prompt_argument.required is None,
        prompt_argument.title is None,
        get_prompt_result.description is None,
        get_prompt_result.messages@.len() == 0,
        get_prompt_result.meta is None,
        prompt_info.name@.len() == 0,
        prompt_info.description is None,
        prompt_info.title is None,
        prompt_info.icons is None,
        prompt_info.arguments is None,
        list_prompts_result.prompts@.len() == 0,
        list_prompts_result.next_cursor is None,
        list_prompts_result.meta is None,
{
}

/// Unless something else is said, nothing is said of resources.
pub proof fn resources_by_default(
    resource_info: ResourceInfo,
    resource_template: ResourceTemplate,
    list_resources_result: ListResourcesResult,
    read_resource_result: ReadResourceResult,
    list_resource_templates_result: ListResourceTemplatesResult,
)
    requires
        call_ensures(<ResourceInfo as Default>::default, (), resource_info),
        call_ensures(<ResourceTemplate as Default>::default, (), resource_template),
        call_ensures(<ListResourcesResult as Default>::default, (), list_resources_result),
        call_ensures(<ReadResourceResult as Default>::default, (), read_resource_result),
        call_ensures(<ListResourceTemplatesResult as Default>::default, (), list_resource_templates_result),
    ensures
        resource_info.uri@.len() == 0,
        resource_info.name@.len() == 0,
        resource_info.title is None,
        resource_info.description is None,
        resource_info.mime_type is None,
        resource_info.size is None,
        resource_info.icons is None,
        resource_info.annotations is None,
        resource_template.uri_template@.len() == 0,
        resource_template.name@.len() == 0,
        resource_template.title is None,
        resource_template.description is None,
        resource_template.mime_type is None,
        resource_template.icons is None,
        resource_template.annotations is None,
        list_resources_result.resources@.len() == 0,
        list_resources_result.next_cursor is None,
        list_resources_result.meta is None,
        read_resource_result.contents@.len() == 0,
        read_resource_result.meta is None,
        list_resource_templates_result.resource_templates@.len() == 0,
        list_resource_templates_result.next_cursor is None,
        list_resource_templates_result.meta is None,
{
}

/// Unless something else is said, nothing is said of sampling.
pub proof fn sampling_by_default(
    tool_use_content: ToolUseContent,
    tool_result_content: ToolResultContent,
    sampling_content: SamplingContent,
    sampling_message: SamplingMessage,
    model_hint: ModelHint,
    model_preferences: ModelPreferences,
    tool_choice: ToolChoice,
    create_message_result: CreateMessageResult,
    create_message_params: CreateMessageParams,
)
    requires
        call_ensures(<ToolUseContent as Default>::default, (), tool_use_content),
        call_ensures(<ToolResultContent as Default>::default, (), tool_result_content),
        call_ensures(<SamplingContent as Default>::default, (), sampling_content),
        call_ensures(<SamplingMessage as Default>::default, (), sampling_message),
        call_ensures(<ModelHint as Default>::default, (), model_hint),
        call_ensures(<ModelPreferences as Default>::default, (), model_preferences),
        call_ensures(<ToolChoice as Default>::default, (), tool_choice),
        call_ensures(<CreateMessageResult as Default>::default, (), create_message_result),
        call_ensures(<CreateMessageParams as Default>::default, (), create_message_params),
    ensures
        tool_use_content.id@.len() == 0,
        tool_use_content.name@.len() == 0,
        tool_use_content.input@ == Seq::<MemberView>::empty(),
        tool_use_content.meta is None,
        tool_result_content.tool_use_id@.len() == 0,
        tool_result_content.content@.len() == 0,
        tool_result_content.structured_content is None,
        tool_result_content.is_error is None,
        tool_result_content.meta is None,
        sampling_content is Multiple && sampling_content->Multiple_0@.len() == 0,
        sampling_message.role == RoleType::User,
        sampling_message.content.is_default(),
        sampling_message.meta is None,
        model_hint.name is None,
        model_preferences.hints is None,
        model_preferences.cost_priority is None,
        model_preferences.speed_priority is None,
        model_preferences.intelligence_priority is None,
        tool_choice.mode is None,
        create_message_result.model@.len() == 0,
        create_message_result.stop_reason is None,
        create_message_result.role == RoleType::User,
        create_message_result.content.is_default(),
        create_message_result.meta is None,
        create_message_params.messages@.len() == 0,
        create_message_params.model_preferences is None,
        create_message_params.system_prompt is None,
        create_message_params.include_context is None,
        create_message_params.temperature is None,
        create_message_params.max_tokens == 0,
        create_message_params.stop_sequences is None,
        create_message_params.metadata is None,
        create_message_params.tools is None,
        create_message_params.tool_choice is None,
{
}

/// Unless something else is said, nothing is said of sessions.
pub proof fn session_by_default(
    implementation: Implementation,
    initialize_result: InitializeResult,
    initialize_request_params: InitializeRequestParams,
    root: Root,
    list_roots_result: ListRootsResult,
    elicit_result: ElicitResult,
    empty_result: EmptyResult,
)
    requires
        call_ensures(<Implementation as Default>::default, (), implementation),
        call_ensures(<InitializeResult as Default>::default, (), initialize_result),
        call_ensures(<InitializeRequestParams as Default>::default, (), initialize_request_params),
        call_ensures(<Root as Default>::default, (), root),
        call_ensures(<ListRootsResult as Default>::default, (), list_roots_result),
        call_ensures(<ElicitResult as Default>::default, (), elicit_result),
        call_ensures(<EmptyResult as Default>::default, (), empty_result),
    ensures
        implementation.name@.len() == 0,
        implementation.title is None,
        implementation.version@.len() == 0,
        implementation.website_url is None,
        implementation.icons is None,
        initialize_result.protocol_version@ == "2025-03-26"@,
        initialize_result.capabilities.is_default(),
        initialize_result.server_info.is_default(),
        initialize_result.instructions is None,
        initialize_result.meta is None,
        initialize_request_params.protocol_version@ == "2025-03-26"@,
        initialize_request_params.capabilities.is_default(),
        initialize_request_params.client_info.is_default(),
        initialize_request_params.meta is None,
        root.name is None,
        root.uri@.len() == 0,
        list_roots_result.roots@.len() == 0,
        list_roots_result.meta is None,
        elicit_result.action@.len() == 0,
        elicit_result.content@ == Seq::<MemberView>::empty(),
        elicit_result.meta is None,
        empty_result.meta is None,
{
}

/// Unless something else is said, nothing is said of tools.
pub proof fn tools_by_default(
    tool_annotations: ToolAnnotations,
    tool: Tool,
    call_tool_result: CallToolResult,
    list_tools_result: ListToolsResult,
)
    requires
        call_ensures(<ToolAnnotations as Default>::default, (), tool_annotations),
        call_ensures(<Tool as Default>::default, (), tool),
        call_ensures(<CallToolResult as Default>::default, (), call_tool_result),
        call_ensures(<ListToolsResult as Default>::default, (), list_tools_result),
    ensures
        tool_annotations.title is None,
        tool_annotations.read_only_hint is None,
        tool_annotations.destructive_hint is None,
        tool_annotations.idempotent_hint is None,
        tool_annotations.open_world_hint is None,
        tool.name@.len() == 0,
        tool.title is None,
        tool.description is None,
        tool.input_schema is None,
        tool.output_schema is None,
        tool.annotations is None,
        tool.icons is None,
        call_tool_result.content@.len() == 0,
        call_tool_result.structured_content is None,
        !call_tool_result.is_error,
        call_tool_result.meta is None,
        list_tools_result.tools@.len() == 0,
        list_tools_result.next_cursor is None,
        list_tools_result.meta is None,
{
}

/// Unless something else is said, nothing is said of parameters.
pub proof fn params_by_default(
    call_tool_params: CallToolParams,
    get_prompt_params: GetPromptParams,
    uri_params: UriParams,
    paginated_params: PaginatedParams,
    set_logging_level_params: SetLoggingLevelParams,
    logging_message_notification_params: LoggingMessageNotificationParams,
    resource_updated_notification_params: ResourceUpdatedNotificationParams,
)
    requires
        call_ensures(<CallToolParams as Default>::default, (), call_tool_params),
        call_ensures(<GetPromptParams as Default>::default, (), get_prompt_params),
        call_ensures(<UriParams as Default>::default, (), uri_params),
        call_ensures(<PaginatedParams as Default>::default, (), paginated_params),
        call_ensures(<SetLoggingLevelParams as Default>::default, (), set_logging_level_params),
        call_ensures(<LoggingMessageNotificationParams as Default>::default, (), logging_message_notification_params),
        call_ensures(<ResourceUpdatedNotificationParams as Default>::default, (), resource_updated_notification_params),
    ensures
        call_tool_params.name@.len() == 0,
        call_tool_params.arguments is None,
        call_tool_params.meta is None,
        get_prompt_params.name@.len() == 0,
        get_prompt_params.arguments is None,
        get_prompt_params.meta is None,
        uri_params.uri@.len() == 0,
        uri_params.meta is None,
        paginated_params.cursor is None,
        paginated_params.meta is None,
        set_logging_level_params.level@.len() == 0,
        logging_message_notification_params.level@.len() == 0,
        logging_message_notification_params.logger@.len() == 0,
        logging_message_notification_params.data@ is Null,
        resource_updated_notification_params.uri@.len() == 0,
{
}

} // verus!
