//! The domain model of the A2A protocol: messages, parts, tasks, artifacts,
//! agent cards and the library's error type, each with a mathematical view.
use vstd::prelude::*;
use crate::json::json_object_keys;

verus! {

/// JSON object metadata attached to messages, parts, artifacts and tasks.
pub type Metadata = serde_json::Map<String, serde_json::Value>;

/// The sequence of character sequences that a list of strings stands for.
pub open spec fn strings_view(v: Seq<String>) -> Seq<Seq<char>> {
    v.map_values(|s: String| s@)
}

/// The optional character sequence that an optional string stands for.
pub open spec fn opt_string_view(o: Option<String>) -> Option<Seq<char>> {
    match o {
        Some(s) => Some(s@),
        None => None,
    }
}

/// The optional list of character sequences that an optional list of strings stands for.
pub open spec fn opt_strings_view(o: Option<Vec<String>>) -> Option<Seq<Seq<char>>> {
    match o {
        Some(v) => Some(strings_view(v@)),
        None => None,
    }
}

/// The sender of a message.
#[derive(Clone, Copy, Debug, PartialEq, Eq, Structural)]
pub enum Role {
    User,
    Agent,
}

/// The lifecycle state of a task.
#[derive(Clone, Copy, Debug, PartialEq, Eq, Structural)]
pub enum TaskState {
    Submitted,
    Working,
    InputRequired,
    Completed,
    Canceled,
    Failed,
    Rejected,
    AuthRequired,
    Unknown,
}

/// Errors of the library.
#[derive(Clone, Debug, PartialEq, Eq)]
pub enum A2AError {
    /// The request is not a valid request.
    InvalidRequest(String),
    /// The method named by the request does not exist.
    MethodNotFound(String),
    /// The parameters of the request are invalid.
    InvalidParams(String),
    /// An internal error.
    Internal(String),
    /// No task with the given identifier exists.
    TaskNotFound(String),
    /// The task can no longer be canceled.
    TaskNotCancelable(String),
    /// The operation is not supported.
    UnsupportedOperation(String),
    /// A JSON value could not be read or written.
    JsonParse(String),
    /// The transport failed.
    TransportError(String),
    /// The peer answered with a response that cannot be used.
    InvalidResponse(String),
}

/// The view of an error: its kind with the message as a character sequence.
pub enum A2AErrorView {
    InvalidRequest(Seq<char>),
    MethodNotFound(Seq<char>),
    InvalidParams(Seq<char>),
    Internal(Seq<char>),
    TaskNotFound(Seq<char>),
    TaskNotCancelable(Seq<char>),
    UnsupportedOperation(Seq<char>),
    JsonParse(Seq<char>),
    TransportError(Seq<char>),
    InvalidResponse(Seq<char>),
}

impl View for A2AError {
    type V = A2AErrorView;

    open spec fn view(&self) -> A2AErrorView {
        match self {
            A2AError::InvalidRequest(m) => A2AErrorView::InvalidRequest(m@),
            A2AError::MethodNotFound(m) => A2AErrorView::MethodNotFound(m@),
            A2AError::InvalidParams(m) => A2AErrorView::InvalidParams(m@),
            A2AError::Internal(m) => A2AErrorView::Internal(m@),
            A2AError::TaskNotFound(m) => A2AErrorView::TaskNotFound(m@),
            A2AError::TaskNotCancelable(m) => A2AErrorView::TaskNotCancelable(m@),
            A2AError::UnsupportedOperation(m) => A2AErrorView::UnsupportedOperation(m@),
            A2AError::JsonParse(m) => A2AErrorView::JsonParse(m@),
            A2AError::TransportError(m) => A2AErrorView::TransportError(m@),
            A2AError::InvalidResponse(m) => A2AErrorView::InvalidResponse(m@),
        }
    }
}

impl A2AError {
    /// The JSON-RPC error code that answers the error: the standard codes for
    /// malformed requests, unknown methods, bad parameters and internal
    /// failures, and the A2A codes for missing tasks, tasks that cannot be
    /// canceled and unsupported operations.
    pub open spec fn spec_code(&self) -> i32 {
        match self {
            A2AError::JsonParse(_) => -32700i32,
            A2AError::InvalidRequest(_) => -32600i32,
            A2AError::MethodNotFound(_) => -32601i32,
            A2AError::InvalidParams(_) => -32602i32,
            A2AError::TaskNotFound(_) => -32001i32,
            A2AError::TaskNotCancelable(_) => -32002i32,
            A2AError::UnsupportedOperation(_) => -32004i32,
            A2AError::InvalidResponse(_) => -32006i32,
            A2AError::Internal(_) => -32603i32,
            A2AError::TransportError(_) => -32603i32,
        }
    }

    /// The JSON-RPC error code that answers the error.
    pub fn code(&self) -> (c: i32)
        ensures
            c == self.spec_code(),
    {
        match self {
            A2AError::JsonParse(_) => -32700,
            A2AError::InvalidRequest(_) => -32600,
            A2AError::MethodNotFound(_) => -32601,
            A2AError::InvalidParams(_) => -32602,
            A2AError::TaskNotFound(_) => -32001,
            A2AError::TaskNotCancelable(_) => -32002,
            A2AError::UnsupportedOperation(_) => -32004,
            A2AError::InvalidResponse(_) => -32006,
            A2AError::Internal(_) => -32603,
            A2AError::TransportError(_) => -32603,
        }
    }

    /// The message carried by the error.
    pub open spec fn spec_message(&self) -> String {
        match self {
            A2AError::InvalidRequest(s) => *s,
            A2AError::MethodNotFound(s) => *s,
            A2AError::InvalidParams(s) => *s,
            A2AError::Internal(s) => *s,
            A2AError::TaskNotFound(s) => *s,
            A2AError::TaskNotCancelable(s) => *s,
            A2AError::UnsupportedOperation(s) => *s,
            A2AError::JsonParse(s) => *s,
            A2AError::TransportError(s) => *s,
            A2AError::InvalidResponse(s) => *s,
        }
    }

    /// The message carried by the error.
    pub fn message(&self) -> (m: &String)
        ensures
            *m == self.spec_message(),
            match self {
                A2AError::InvalidRequest(s) => m == s,
                A2AError::MethodNotFound(s) => m == s,
                A2AError::InvalidParams(s) => m == s,
                A2AError::Internal(s) => m == s,
                A2AError::TaskNotFound(s) => m == s,
                A2AError::TaskNotCancelable(s) => m == s,
                A2AError::UnsupportedOperation(s) => m == s,
                A2AError::JsonParse(s) => m == s,
                A2AError::TransportError(s) => m == s,
                A2AError::InvalidResponse(s) => m == s,
            },
    {
        match self {
            A2AError::InvalidRequest(s) => s,
            A2AError::MethodNotFound(s) => s,
            A2AError::InvalidParams(s) => s,
            A2AError::Internal(s) => s,
            A2AError::TaskNotFound(s) => s,
            A2AError::TaskNotCancelable(s) => s,
            A2AError::UnsupportedOperation(s) => s,
            A2AError::JsonParse(s) => s,
            A2AError::TransportError(s) => s,
            A2AError::InvalidResponse(s) => s,
        }
    }
}

/// The view of a result whose success value and error both have views.
pub open spec fn result_view<T: View>(r: Result<T, A2AError>) -> Result<T::V, A2AErrorView> {
    match r {
        Ok(t) => Ok(t@),
        Err(e) => Err(e@),
    }
}

/// The content of a file: a name, a media type, and either inline bytes
/// (base64 text) or a URI.
#[derive(Clone, Debug, PartialEq, Eq)]
pub struct FileContent {
    pub name: Option<String>,
    pub mime_type: Option<String>,
    pub bytes: Option<String>,
    pub uri: Option<String>,
}

pub struct FileContentView {
    pub name: Option<Seq<char>>,
    pub mime_type: Option<Seq<char>>,
    pub bytes: Option<Seq<char>>,
    pub uri: Option<Seq<char>>,
}

impl View for FileContent {
    type V = FileContentView;

    open spec fn view(&self) -> FileContentView {
        FileContentView {
            name: opt_string_view(self.name),
            mime_type: opt_string_view(self.mime_type),
            bytes: opt_string_view(self.bytes),
            uri: opt_string_view(self.uri),
        }
    }
}

/// One piece of the content of a message or an artifact.
#[derive(Clone, Debug, PartialEq)]
pub enum Part {
    Text { text: String, metadata: Option<Metadata> },
    File { file: FileContent, metadata: Option<Metadata> },
    Data { data: Metadata, metadata: Option<Metadata> },
}

/// The view of a part; a data part is seen through the keys of its object.
pub enum PartView {
    Text { text: Seq<char>, metadata: Option<Metadata> },
    File { file: FileContentView, metadata: Option<Metadata> },
    Data { data: Set<Seq<char>>, metadata: Option<Metadata> },
}

impl View for Part {
    type V = PartView;

    open spec fn view(&self) -> PartView {
        match self {
            Part::Text { text, metadata } => PartView::Text { text: text@, metadata: *metadata },
            Part::File { file, metadata } => PartView::File { file: file@, metadata: *metadata },
            Part::Data { data, metadata } => PartView::Data {
                data: json_object_keys(*data),
                metadata: *metadata,
            },
        }
    }
}

/// The views of a sequence of parts.
pub open spec fn parts_view(v: Seq<Part>) -> Seq<PartView> {
    v.map_values(|p: Part| p@)
}

/// A message exchanged between a user and an agent.
#[derive(Clone, Debug, PartialEq)]
pub struct Message {
    pub role: Role,
    pub parts: Vec<Part>,
    pub metadata: Option<Metadata>,
    pub reference_task_ids: Option<Vec<String>>,
    pub message_id: String,
    pub task_id: Option<String>,
    pub context_id: Option<String>,
    pub extensions: Option<Vec<String>>,
    pub kind: String,
}

pub struct MessageView {
    pub role: Role,
    pub parts: Seq<PartView>,
    pub metadata: Option<Metadata>,
    pub reference_task_ids: Option<Seq<Seq<char>>>,
    pub message_id: Seq<char>,
    pub task_id: Option<Seq<char>>,
    pub context_id: Option<Seq<char>>,
    pub extensions: Option<Seq<Seq<char>>>,
    pub kind: Seq<char>,
}

impl View for Message {
    type V = MessageView;

    open spec fn view(&self) -> MessageView {
        MessageView {
            role: self.role,
            parts: parts_view(self.parts@),
            metadata: self.metadata,
            reference_task_ids: opt_strings_view(self.reference_task_ids),
            message_id: self.message_id@,
            task_id: opt_string_view(self.task_id),
            context_id: opt_string_view(self.context_id),
            extensions: opt_strings_view(self.extensions),
            kind: self.kind@,
        }
    }
}

/// The views of a sequence of messages.
pub open spec fn messages_view(v: Seq<Message>) -> Seq<MessageView> {
    v.map_values(|m: Message| m@)
}

/// A point in time in UTC, as whole seconds since the Unix epoch and the
/// nanoseconds past that second.
#[derive(Clone, Copy, Debug, PartialEq, Eq, Structural)]
pub struct UtcTimestamp {
    pub seconds: i64,
    pub subsec_nanos: u32,
}

/// The status of a task: its state, an optional message and the time of the update.
#[derive(Clone, Debug, PartialEq)]
pub struct TaskStatus {
    pub state: TaskState,
    pub message: Option<Message>,
    pub timestamp: Option<UtcTimestamp>,
}

pub struct TaskStatusView {
    pub state: TaskState,
    pub message: Option<MessageView>,
    pub timestamp: Option<UtcTimestamp>,
}

impl View for TaskStatus {
    type V = TaskStatusView;

    open spec fn view(&self) -> TaskStatusView {
        TaskStatusView {
            state: self.state,
            message: match self.message {
                Some(m) => Some(m@),
                None => None,
            },
            timestamp: self.timestamp,
        }
    }
}

/// An output of a task.
#[derive(Clone, Debug, PartialEq)]
pub struct Artifact {
    pub artifact_id: String,
    pub parts: Vec<Part>,
    pub metadata: Option<Metadata>,
}

pub struct ArtifactView {
    pub artifact_id: Seq<char>,
    pub parts: Seq<PartView>,
    pub metadata: Option<Metadata>,
}

impl View for Artifact {
    type V = ArtifactView;

    open spec fn view(&self) -> ArtifactView {
        ArtifactView {
            artifact_id: self.artifact_id@,
            parts: parts_view(self.parts@),
            metadata: self.metadata,
        }
    }
}

/// The views of a sequence of artifacts.
pub open spec fn artifacts_view(v: Seq<Artifact>) -> Seq<ArtifactView> {
    v.map_values(|a: Artifact| a@)
}

/// A unit of work of an agent.
#[derive(Clone, Debug, PartialEq)]
pub struct Task {
    pub id: String,
    pub context_id: String,
    pub status: TaskStatus,
    pub artifacts: Option<Vec<Artifact>>,
    pub history: Option<Vec<Message>>,
    pub metadata: Option<Metadata>,
    pub kind: String,
}

pub struct TaskView {
    pub id: Seq<char>,
    pub context_id: Seq<char>,
    pub status: TaskStatusView,
    pub artifacts: Option<Seq<ArtifactView>>,
    pub history: Option<Seq<MessageView>>,
    pub metadata: Option<Metadata>,
    pub kind: Seq<char>,
}

impl View for Task {
    type V = TaskView;

    open spec fn view(&self) -> TaskView {
        TaskView {
            id: self.id@,
            context_id: self.context_id@,
            status: self.status@,
            artifacts: match self.artifacts {
                Some(a) => Some(artifacts_view(a@)),
                None => None,
            },
            history: match self.history {
                Some(h) => Some(messages_view(h@)),
                None => None,
            },
            metadata: self.metadata,
            kind: self.kind@,
        }
    }
}

/// The organization that provides an agent.
#[derive(Clone, Debug, PartialEq, Eq)]
pub struct AgentProvider {
    pub organization: String,
    pub url: String,
}

pub struct AgentProviderView {
    pub organization: Seq<char>,
    pub url: Seq<char>,
}

impl View for AgentProvider {
    type V = AgentProviderView;

    open spec fn view(&self) -> AgentProviderView {
        AgentProviderView { organization: self.organization@, url: self.url@ }
    }
}

/// A protocol extension that an agent supports (its parameters are not
/// modelled).
#[derive(Clone, Debug, PartialEq, Eq)]
pub struct AgentExtension {
    pub uri: String,
    pub description: Option<String>,
    pub required: Option<bool>,
}

pub struct AgentExtensionView {
    pub uri: Seq<char>,
    pub description: Option<Seq<char>>,
    pub required: Option<bool>,
}

impl View for AgentExtension {
    type V = AgentExtensionView;

    open spec fn view(&self) -> AgentExtensionView {
        AgentExtensionView {
            uri: self.uri@,
            description: opt_string_view(self.description),
            required: self.required,
        }
    }
}

/// The views of a list of extensions.
pub open spec fn extensions_view(v: Seq<AgentExtension>) -> Seq<AgentExtensionView> {
    v.map_values(|e: AgentExtension| e@)
}

/// What an agent supports: streaming, push notifications, a history of state
/// transitions, and protocol extensions.
#[derive(Clone, Debug, PartialEq, Eq)]
pub struct AgentCapabilities {
    pub streaming: bool,
    pub push_notifications: bool,
    pub state_transition_history: bool,
    pub extensions: Option<Vec<AgentExtension>>,
}

pub struct AgentCapabilitiesView {
    pub streaming: bool,
    pub push_notifications: bool,
    pub state_transition_history: bool,
    pub extensions: Option<Seq<AgentExtensionView>>,
}

impl View for AgentCapabilities {
    type V = AgentCapabilitiesView;

    open spec fn view(&self) -> AgentCapabilitiesView {
        AgentCapabilitiesView {
            streaming: self.streaming,
            push_notifications: self.push_notifications,
            state_transition_history: self.state_transition_history,
            extensions: match self.extensions {
                Some(v) => Some(extensions_view(v@)),
                None => None,
            },
        }
    }
}

/// A skill of an agent.
#[derive(Clone, Debug, PartialEq, Eq)]
pub struct AgentSkill {
    pub id: String,
    pub name: String,
    pub description: String,
    pub tags: Vec<String>,
    pub examples: Option<Vec<String>>,
    pub input_modes: Option<Vec<String>>,
    pub output_modes: Option<Vec<String>>,
}

pub struct AgentSkillView {
    pub id: Seq<char>,
    pub name: Seq<char>,
    pub description: Seq<char>,
    pub tags: Seq<Seq<char>>,
    pub examples: Option<Seq<Seq<char>>>,
    pub input_modes: Option<Seq<Seq<char>>>,
    pub output_modes: Option<Seq<Seq<char>>>,
}

impl View for AgentSkill {
    type V = AgentSkillView;

    open spec fn view(&self) -> AgentSkillView {
        AgentSkillView {
            id: self.id@,
            name: self.name@,
            description: self.description@,
            tags: strings_view(self.tags@),
            examples: opt_strings_view(self.examples),
            input_modes: opt_strings_view(self.input_modes),
            output_modes: opt_strings_view(self.output_modes),
        }
    }
}

/// The views of a list of skills.
pub open spec fn skills_view(v: Seq<AgentSkill>) -> Seq<AgentSkillView> {
    v.map_values(|k: AgentSkill| k@)
}

/// Another interface (URL and transport) at which an agent is reached.
#[derive(Clone, Debug, PartialEq, Eq)]
pub struct AgentInterface {
    pub url: String,
    pub transport: String,
}

pub struct AgentInterfaceView {
    pub url: Seq<char>,
    pub transport: Seq<char>,
}

impl View for AgentInterface {
    type V = AgentInterfaceView;

    open spec fn view(&self) -> AgentInterfaceView {
        AgentInterfaceView { url: self.url@, transport: self.transport@ }
    }
}

/// The views of a list of interfaces.
pub open spec fn interfaces_view(v: Seq<AgentInterface>) -> Seq<AgentInterfaceView> {
    v.map_values(|i: AgentInterface| i@)
}

/// A signature of an agent card (JWS protected header and signature; the
/// unprotected header is not modelled).
#[derive(Clone, Debug, PartialEq, Eq)]
pub struct AgentCardSignature {
    pub protected: String,
    pub signature: String,
}

pub struct AgentCardSignatureView {
    pub protected: Seq<char>,
    pub signature: Seq<char>,
}

impl View for AgentCardSignature {
    type V = AgentCardSignatureView;

    open spec fn view(&self) -> AgentCardSignatureView {
        AgentCardSignatureView { protected: self.protected@, signature: self.signature@ }
    }
}

/// The views of a list of signatures.
pub open spec fn signatures_view(v: Seq<AgentCardSignature>) -> Seq<AgentCardSignatureView> {
    v.map_values(|g: AgentCardSignature| g@)
}

/// The public description of an agent (its security requirements and
/// schemes are not modelled).
#[derive(Clone, Debug, PartialEq, Eq)]
pub struct AgentCard {
    pub name: String,
    pub description: String,
    pub url: String,
    pub provider: Option<AgentProvider>,
    pub version: String,
    pub documentation_url: Option<String>,
    pub capabilities: AgentCapabilities,
    pub default_input_modes: Vec<String>,
    pub default_output_modes: Vec<String>,
    pub skills: Vec<AgentSkill>,
    pub supports_authenticated_extended_card: Option<bool>,
    pub signatures: Option<Vec<AgentCardSignature>>,
    pub protocol_version: String,
    pub preferred_transport: Option<String>,
    pub additional_interfaces: Option<Vec<AgentInterface>>,
    pub icon_url: Option<String>,
}

pub struct AgentCardView {
    pub name: Seq<char>,
    pub description: Seq<char>,
    pub url: Seq<char>,
    pub provider: Option<AgentProviderView>,
    pub version: Seq<char>,
    pub documentation_url: Option<Seq<char>>,
    pub capabilities: AgentCapabilitiesView,
    pub default_input_modes: Seq<Seq<char>>,
    pub default_output_modes: Seq<Seq<char>>,
    pub skills: Seq<AgentSkillView>,
    pub supports_authenticated_extended_card: Option<bool>,
    pub signatures: Option<Seq<AgentCardSignatureView>>,
    pub protocol_version: Seq<char>,
    pub preferred_transport: Option<Seq<char>>,
    pub additional_interfaces: Option<Seq<AgentInterfaceView>>,
    pub icon_url: Option<Seq<char>>,
}

impl View for AgentCard {
    type V = AgentCardView;

    open spec fn view(&self) -> AgentCardView {
        AgentCardView {
            name: self.name@,
            description: self.description@,
            url: self.url@,
            provider: match self.provider {
                Some(p) => Some(p@),
                None => None,
            },
            version: self.version@,
            documentation_url: opt_string_view(self.documentation_url),
            capabilities: self.capabilities@,
            default_input_modes: strings_view(self.default_input_modes@),
            default_output_modes: strings_view(self.default_output_modes@),
            skills: skills_view(self.skills@),
            supports_authenticated_extended_card: self.supports_authenticated_extended_card,
            signatures: match self.signatures {
                Some(v) => Some(signatures_view(v@)),
                None => None,
            },
            protocol_version: self.protocol_version@,
            preferred_transport: opt_string_view(self.preferred_transport),
            additional_interfaces: match self.additional_interfaces {
                Some(v) => Some(interfaces_view(v@)),
                None => None,
            },
            icon_url: opt_string_view(self.icon_url),
        }
    }
}

/// How a push notification receiver authenticates the sender.
#[derive(Clone, Debug, PartialEq, Eq)]
pub struct PushNotificationAuthenticationInfo {
    pub schemes: Vec<String>,
    pub credentials: Option<String>,
}

/// Where and how to send push notifications about a task.
#[derive(Clone, Debug, PartialEq, Eq)]
pub struct PushNotificationConfig {
    pub id: Option<String>,
    pub url: String,
    pub token: Option<String>,
    pub authentication: Option<PushNotificationAuthenticationInfo>,
}

/// The push notification configuration of one task.
#[derive(Clone, Debug, PartialEq, Eq)]
pub struct TaskPushNotificationConfig {
    pub task_id: String,
    pub push_notification_config: PushNotificationConfig,
}

/// Filters and paging for listing tasks.
#[derive(Clone, Debug, PartialEq)]
pub struct ListTasksParams {
    pub context_id: Option<String>,
    pub status: Option<TaskState>,
    pub page_size: Option<i32>,
    pub page_token: Option<String>,
    pub history_length: Option<i32>,
    pub include_artifacts: Option<bool>,
    pub last_updated_after: Option<i64>,
    pub metadata: Option<Metadata>,
}

impl ListTasksParams {
    /// No filter and no paging.
    pub open spec fn spec_default() -> ListTasksParams {
        ListTasksParams {
            context_id: None,
            status: None,
            page_size: None,
            page_token: None,
            history_length: None,
            include_artifacts: None,
            last_updated_after: None,
            metadata: None,
        }
    }
}

impl Default for ListTasksParams {
    fn default() -> (r: ListTasksParams)
        ensures
            r == ListTasksParams::spec_default(),
    {
        ListTasksParams {
            context_id: None,
            status: None,
            page_size: None,
            page_token: None,
            history_length: None,
            include_artifacts: None,
            last_updated_after: None,
            metadata: None,
        }
    }
}

/// Names one push notification configuration of a task to read.
#[derive(Clone, Debug, PartialEq)]
pub struct GetTaskPushNotificationConfigParams {
    pub id: String,
    pub push_notification_config_id: Option<String>,
    pub metadata: Option<Metadata>,
}

/// Names the task whose push notification configurations to list.
#[derive(Clone, Debug, PartialEq)]
pub struct ListTaskPushNotificationConfigParams {
    pub id: String,
    pub metadata: Option<Metadata>,
}

/// Names one push notification configuration of a task to delete.
#[derive(Clone, Debug, PartialEq)]
pub struct DeleteTaskPushNotificationConfigParams {
    pub id: String,
    pub push_notification_config_id: String,
    pub metadata: Option<Metadata>,
}

} // verus!
