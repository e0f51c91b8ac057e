//! The method names of the protocol, each as a type that stands for its name.
use vstd::prelude::*;

use super::ConstString;

verus! {

/// The `notifications/cancelled` method.
#[derive(Debug, Clone, Copy, PartialEq, Eq, Default, Structural)]
pub struct CancelledNotificationMethod;

impl ConstString for CancelledNotificationMethod {
    open spec fn spec_value() -> Seq<char> {
        "notifications/cancelled"@
    }

    fn value() -> (r: &'static str) {
        "notifications/cancelled"
    }
}

/// The `initialize` method.
#[derive(Debug, Clone, Copy, PartialEq, Eq, Default, Structural)]
pub struct InitializeResultMethod;

impl ConstString for InitializeResultMethod {
    open spec fn spec_value() -> Seq<char> {
        "initialize"@
    }

    fn value() -> (r: &'static str) {
        "initialize"
    }
}

/// The `notifications/initialized` method.
#[derive(Debug, Clone, Copy, PartialEq, Eq, Default, Structural)]
pub struct InitializedNotificationMethod;

impl ConstString for InitializedNotificationMethod {
    open spec fn spec_value() -> Seq<char> {
        "notifications/initialized"@
    }

    fn value() -> (r: &'static str) {
        "notifications/initialized"
    }
}

/// The `ping` method.
#[derive(Debug, Clone, Copy, PartialEq, Eq, Default, Structural)]
pub struct PingRequestMethod;

impl ConstString for PingRequestMethod {
    open spec fn spec_value() -> Seq<char> {
        "ping"@
    }

    fn value() -> (r: &'static str) {
        "ping"
    }
}

/// The `notifications/progress` method.
#[derive(Debug, Clone, Copy, PartialEq, Eq, Default, Structural)]
pub struct ProgressNotificationMethod;

impl ConstString for ProgressNotificationMethod {
    open spec fn spec_value() -> Seq<char> {
        "notifications/progress"@
    }

    fn value() -> (r: &'static str) {
        "notifications/progress"
    }
}

/// The `resources/list` method.
#[derive(Debug, Clone, Copy, PartialEq, Eq, Default, Structural)]
pub struct ListResourcesRequestMethod;

impl ConstString for ListResourcesRequestMethod {
    open spec fn spec_value() -> Seq<char> {
        "resources/list"@
    }

    fn value() -> (r: &'static str) {
        "resources/list"
    }
}

/// The `resources/templates/list` method.
#[derive(Debug, Clone, Copy, PartialEq, Eq, Default, Structural)]
pub struct ListResourceTemplatesRequestMethod;

impl ConstString for ListResourceTemplatesRequestMethod {
    open spec fn spec_value() -> Seq<char> {
        "resources/templates/list"@
    }

    fn value() -> (r: &'static str) {
        "resources/templates/list"
    }
}

/// The `resources/read` method.
#[derive(Debug, Clone, Copy, PartialEq, Eq, Default, Structural)]
pub struct ReadResourceRequestMethod;

impl ConstString for ReadResourceRequestMethod {
    open spec fn spec_value() -> Seq<char> {
        "resources/read"@
    }

    fn value() -> (r: &'static str) {
        "resources/read"
    }
}

/// The `notifications/resources/list_changed` method.
#[derive(Debug, Clone, Copy, PartialEq, Eq, Default, Structural)]
pub struct ResourceListChangedNotificationMethod;

impl ConstString for ResourceListChangedNotificationMethod {
    open spec fn spec_value() -> Seq<char> {
        "notifications/resources/list_changed"@
    }

    fn value() -> (r: &'static str) {
        "notifications/resources/list_changed"
    }
}

/// The `resources/subscribe` method.
#[derive(Debug, Clone, Copy, PartialEq, Eq, Default, Structural)]
pub struct SubscribeRequestMethod;

impl ConstString for SubscribeRequestMethod {
    open spec fn spec_value() -> Seq<char> {
        "resources/subscribe"@
    }

    fn value() -> (r: &'static str) {
        "resources/subscribe"
    }
}

/// The `resources/unsubscribe` method.
#[derive(Debug, Clone, Copy, PartialEq, Eq, Default, Structural)]
pub struct UnsubscribeRequestMethod;

impl ConstString for UnsubscribeRequestMethod {
    open spec fn spec_value() -> Seq<char> {
        "resources/unsubscribe"@
    }

    fn value() -> (r: &'static str) {
        "resources/unsubscribe"
    }
}

/// The `notifications/resources/updated` method.
#[derive(Debug, Clone, Copy, PartialEq, Eq, Default, Structural)]
pub struct ResourceUpdatedNotificationMethod;

impl ConstString for ResourceUpdatedNotificationMethod {
    open spec fn spec_value() -> Seq<char> {
        "notifications/resources/updated"@
    }

    fn value() -> (r: &'static str) {
        "notifications/resources/updated"
    }
}

/// The `prompts/list` method.
#[derive(Debug, Clone, Copy, PartialEq, Eq, Default, Structural)]
pub struct ListPromptsRequestMethod;

impl ConstString for ListPromptsRequestMethod {
    open spec fn spec_value() -> Seq<char> {
        "prompts/list"@
    }

    fn value() -> (r: &'static str) {
        "prompts/list"
    }
}

/// The `prompts/get` method.
#[derive(Debug, Clone, Copy, PartialEq, Eq, Default, Structural)]
pub struct GetPromptRequestMethod;

impl ConstString for GetPromptRequestMethod {
    open spec fn spec_value() -> Seq<char> {
        "prompts/get"@
    }

    fn value() -> (r: &'static str) {
        "prompts/get"
    }
}

/// The `notifications/prompts/list_changed` method.
#[derive(Debug, Clone, Copy, PartialEq, Eq, Default, Structural)]
pub struct PromptListChangedNotificationMethod;

impl ConstString for PromptListChangedNotificationMethod {
    open spec fn spec_value() -> Seq<char> {
        "notifications/prompts/list_changed"@
    }

    fn value() -> (r: &'static str) {
        "notifications/prompts/list_changed"
    }
}

/// The `notifications/tools/list_changed` method.
#[derive(Debug, Clone, Copy, PartialEq, Eq, Default, Structural)]
pub struct ToolListChangedNotificationMethod;

impl ConstString for ToolListChangedNotificationMethod {
    open spec fn spec_value() -> Seq<char> {
        "notifications/tools/list_changed"@
    }

    fn value() -> (r: &'static str) {
        "notifications/tools/list_changed"
    }
}

/// The `logging/setLevel` method.
#[derive(Debug, Clone, Copy, PartialEq, Eq, Default, Structural)]
pub struct SetLevelRequestMethod;

impl ConstString for SetLevelRequestMethod {
    open spec fn spec_value() -> Seq<char> {
        "logging/setLevel"@
    }

    fn value() -> (r: &'static str) {
        "logging/setLevel"
    }
}

/// The `notifications/message` method.
#[derive(Debug, Clone, Copy, PartialEq, Eq, Default, Structural)]
pub struct LoggingMessageNotificationMethod;

impl ConstString for LoggingMessageNotificationMethod {
    open spec fn spec_value() -> Seq<char> {
        "notifications/message"@
    }

    fn value() -> (r: &'static str) {
        "notifications/message"
    }
}

/// The `sampling/createMessage` method.
#[derive(Debug, Clone, Copy, PartialEq, Eq, Default, Structural)]
pub struct CreateMessageRequestMethod;

impl ConstString for CreateMessageRequestMethod {
    open spec fn spec_value() -> Seq<char> {
        "sampling/createMessage"@
    }

    fn value() -> (r: &'static str) {
        "sampling/createMessage"
    }
}

/// The `completion/complete` method.
#[derive(Debug, Clone, Copy, PartialEq, Eq, Default, Structural)]
pub struct CompleteRequestMethod;

impl ConstString for CompleteRequestMethod {
    open spec fn spec_value() -> Seq<char> {
        "completion/complete"@
    }

    fn value() -> (r: &'static str) {
        "completion/complete"
    }
}

/// The `roots/list` method.
#[derive(Debug, Clone, Copy, PartialEq, Eq, Default, Structural)]
pub struct ListRootsRequestMethod;

impl ConstString for ListRootsRequestMethod {
    open spec fn spec_value() -> Seq<char> {
        "roots/list"@
    }

    fn value() -> (r: &'static str) {
        "roots/list"
    }
}

/// The `notifications/roots/list_changed` method.
#[derive(Debug, Clone, Copy, PartialEq, Eq, Default, Structural)]
pub struct RootsListChangedNotificationMethod;

impl ConstString for RootsListChangedNotificationMethod {
    open spec fn spec_value() -> Seq<char> {
        "notifications/roots/list_changed"@
    }

    fn value() -> (r: &'static str) {
        "notifications/roots/list_changed"
    }
}

/// The `tools/list` method.
#[derive(Debug, Clone, Copy, PartialEq, Eq, Default, Structural)]
pub struct ListToolsRequestMethod;

impl ConstString for ListToolsRequestMethod {
    open spec fn spec_value() -> Seq<char> {
        "tools/list"@
    }

    fn value() -> (r: &'static str) {
        "tools/list"
    }
}

/// The `tools/call` method.
#[derive(Debug, Clone, Copy, PartialEq, Eq, Default, Structural)]
pub struct CallToolRequestMethod;

impl ConstString for CallToolRequestMethod {
    open spec fn spec_value() -> Seq<char> {
        "tools/call"@
    }

    fn value() -> (r: &'static str) {
        "tools/call"
    }
}

} // verus!
