//! The names of methods.
use vstd::prelude::*;

verus! {

pub const INITIALIZE: &'static str = "initialize";

pub const PING: &'static str = "ping";

pub const TOOLS_LIST: &'static str = "tools/list";

pub const TOOLS_CALL: &'static str = "tools/call";

pub const PROMPTS_LIST: &'static str = "prompts/list";

pub const PROMPTS_GET: &'static str = "prompts/get";

pub const RESOURCES_LIST: &'static str = "resources/list";

pub const RESOURCES_READ: &'static str = "resources/read";

pub const RESOURCES_SUBSCRIBE: &'static str = "resources/subscribe";

pub const RESOURCES_UNSUBSCRIBE: &'static str = "resources/unsubscribe";

pub const RESOURCES_TEMPLATES_LIST: &'static str = "resources/templates/list";

pub const LOGGING_SET_LEVEL: &'static str = "logging/setLevel";

pub const COMPLETION_COMPLETE: &'static str = "completion/complete";

pub const ROOTS_LIST: &'static str = "roots/list";

pub const SAMPLING_CREATE_MESSAGE: &'static str = "sampling/createMessage";

pub const ELICITATION_CREATE: &'static str = "elicitation/create";

pub const NOTIFICATION_INITIALIZED: &'static str = "notifications/initialized";

pub const NOTIFICATION_CANCELLED: &'static str = "notifications/cancelled";

pub const NOTIFICATION_PROGRESS: &'static str = "notifications/progress";

pub const NOTIFICATION_MESSAGE: &'static str = "notifications/message";

pub const NOTIFICATION_RESOURCES_UPDATED: &'static str = "notifications/resources/updated";

pub const NOTIFICATION_TOOLS_LIST_CHANGED: &'static str = "notifications/tools/list_changed";

pub const NOTIFICATION_PROMPTS_LIST_CHANGED: &'static str = "notifications/prompts/list_changed";

pub const NOTIFICATION_RESOURCES_LIST_CHANGED: &'static str = "notifications/resources/list_changed";

pub const NOTIFICATION_ROOTS_LIST_CHANGED: &'static str = "notifications/roots/list_changed";

} // verus!
