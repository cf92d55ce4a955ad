//! The wire model of the A2A protocol buffer messages (package `a2a.v1`),
//! each with a mathematical view.
use vstd::prelude::*;
use crate::domain::{strings_view, opt_string_view};

verus! {

/// Protobuf `Struct` metadata on the wire.
pub type WireStruct = prost_types::Struct;

/// `Clone` of a protobuf `Struct`: the copy is the same value.
pub assume_specification[ <prost_types::Struct as Clone>::clone ](s: &prost_types::Struct) -> (r:
    prost_types::Struct)
    ensures
        r == *s,
;

/// The wire enumeration of senders.
#[derive(Clone, Copy, Debug, PartialEq, Eq, Structural)]
pub enum Role {
    Unspecified,
    User,
    Agent,
}

impl Role {
    /// The number that stands for the sender on the wire.
    pub open spec fn spec_value(self) -> i32 {
        match self {
            Role::Unspecified => 0,
            Role::User => 1,
            Role::Agent => 2,
        }
    }

    /// The number that stands for the sender on the wire.
    pub fn value(self) -> (v: i32)
        ensures
            v == self.spec_value(),
    {
        match self {
            Role::Unspecified => 0,
            Role::User => 1,
            Role::Agent => 2,
        }
    }

    /// The sender that a wire number stands for, if any.
    pub open spec fn spec_from_value(v: i32) -> Option<Role> {
        if v == 0 {
            Some(Role::Unspecified)
        } else if v == 1 {
            Some(Role::User)
        } else if v == 2 {
            Some(Role::Agent)
        } else {
            None
        }
    }

    /// The sender that a wire number stands for, if any.
    pub fn from_value(v: i32) -> (r: Option<Role>)
        ensures
            r == Self::spec_from_value(v),
    {
        if v == 0 {
            Some(Role::Unspecified)
        } else if v == 1 {
            Some(Role::User)
        } else if v == 2 {
            Some(Role::Agent)
        } else {
            None
        }
    }
}

/// The wire enumeration of task states.
#[derive(Clone, Copy, Debug, PartialEq, Eq, Structural)]
pub enum TaskState {
    Unspecified,
    Submitted,
    Working,
    Completed,
    Failed,
    Cancelled,
    InputRequired,
    Rejected,
    AuthRequired,
}

impl TaskState {
    /// The number that stands for the state on the wire.
    pub open spec fn spec_value(self) -> i32 {
        match self {
            TaskState::Unspecified => 0,
            TaskState::Submitted => 1,
            TaskState::Working => 2,
            TaskState::Completed => 3,
            TaskState::Failed => 4,
            TaskState::Cancelled => 5,
            TaskState::InputRequired => 6,
            TaskState::Rejected => 7,
            TaskState::AuthRequired => 8,
        }
    }

    /// The number that stands for the state on the wire.
    pub fn value(self) -> (v: i32)
        ensures
            v == self.spec_value(),
    {
        match self {
            TaskState::Unspecified => 0,
            TaskState::Submitted => 1,
            TaskState::Working => 2,
            TaskState::Completed => 3,
            TaskState::Failed => 4,
            TaskState::Cancelled => 5,
            TaskState::InputRequired => 6,
            TaskState::Rejected => 7,
            TaskState::AuthRequired => 8,
        }
    }

    /// The state that a wire number stands for, if any.
    pub open spec fn spec_from_value(v: i32) -> Option<TaskState> {
        if v == 0 {
            Some(TaskState::Unspecified)
        } else if v == 1 {
            Some(TaskState::Submitted)
        } else if v == 2 {
            Some(TaskState::Working)
        } else if v == 3 {
            Some(TaskState::Completed)
        } else if v == 4 {
            Some(TaskState::Failed)
        } else if v == 5 {
            Some(TaskState::Cancelled)
        } else if v == 6 {
            Some(TaskState::InputRequired)
        } else if v == 7 {
            Some(TaskState::Rejected)
        } else if v == 8 {
            Some(TaskState::AuthRequired)
        } else {
            None
        }
    }

    /// The state that a wire number stands for, if any.
    pub fn from_value(v: i32) -> (r: Option<TaskState>)
        ensures
            r == Self::spec_from_value(v),
    {
        if v == 0 {
            Some(TaskState::Unspecified)
        } else if v == 1 {
            Some(TaskState::Submitted)
        } else if v == 2 {
            Some(TaskState::Working)
        } else if v == 3 {
            Some(TaskState::Completed)
        } else if v == 4 {
            Some(TaskState::Failed)
        } else if v == 5 {
            Some(TaskState::Cancelled)
        } else if v == 6 {
            Some(TaskState::InputRequired)
        } else if v == 7 {
            Some(TaskState::Rejected)
        } else if v == 8 {
            Some(TaskState::AuthRequired)
        } else {
            None
        }
    }
}

/// Where the content of a file part comes from.
#[derive(Clone, Debug, PartialEq, Eq)]
pub enum FileSource {
    FileWithUri(String),
    FileWithBytes(Vec<u8>),
}

pub enum FileSourceView {
    FileWithUri(Seq<char>),
    FileWithBytes(Seq<u8>),
}

impl View for FileSource {
    type V = FileSourceView;

    open spec fn view(&self) -> FileSourceView {
        match self {
            FileSource::FileWithUri(u) => FileSourceView::FileWithUri(u@),
            FileSource::FileWithBytes(b) => FileSourceView::FileWithBytes(b@),
        }
    }
}

/// A file part on the wire.
#[derive(Clone, Debug, PartialEq, Eq)]
pub struct FilePart {
    pub file: Option<FileSource>,
    pub media_type: String,
    pub name: String,
}

pub struct FilePartView {
    pub file: Option<FileSourceView>,
    pub media_type: Seq<char>,
    pub name: Seq<char>,
}

impl View for FilePart {
    type V = FilePartView;

    open spec fn view(&self) -> FilePartView {
        FilePartView {
            file: match self.file {
                Some(f) => Some(f@),
                None => None,
            },
            media_type: self.media_type@,
            name: self.name@,
        }
    }
}

/// A structured data part on the wire.
#[derive(Clone, Debug, PartialEq)]
pub struct DataPart {
    pub data: Option<WireStruct>,
}

/// The content of a part on the wire.
#[derive(Clone, Debug, PartialEq)]
pub enum PartContent {
    Text(String),
    File(FilePart),
    Data(DataPart),
}

pub enum PartContentView {
    Text(Seq<char>),
    File(FilePartView),
    Data(Option<WireStruct>),
}

impl View for PartContent {
    type V = PartContentView;

    open spec fn view(&self) -> PartContentView {
        match self {
            PartContent::Text(t) => PartContentView::Text(t@),
            PartContent::File(f) => PartContentView::File(f@),
            PartContent::Data(d) => PartContentView::Data(d.data),
        }
    }
}

/// A part on the wire.
#[derive(Clone, Debug, PartialEq)]
pub struct Part {
    pub part: Option<PartContent>,
    pub metadata: Option<WireStruct>,
}

pub struct PartView {
    pub part: Option<PartContentView>,
    pub metadata: Option<WireStruct>,
}

impl View for Part {
    type V = PartView;

    open spec fn view(&self) -> PartView {
        PartView {
            part: match self.part {
                Some(c) => Some(c@),
                None => None,
            },
            metadata: self.metadata,
        }
    }
}

/// The views of a sequence of wire parts.
pub open spec fn parts_view(v: Seq<Part>) -> Seq<PartView> {
    v.map_values(|p: Part| p@)
}

/// A message on the wire.
#[derive(Clone, Debug, PartialEq)]
pub struct Message {
    pub message_id: String,
    pub context_id: String,
    pub task_id: String,
    pub role: i32,
    pub parts: Vec<Part>,
    pub metadata: Option<WireStruct>,
    pub extensions: Vec<String>,
    pub reference_task_ids: Vec<String>,
}

pub struct MessageView {
    pub message_id: Seq<char>,
    pub context_id: Seq<char>,
    pub task_id: Seq<char>,
    pub role: i32,
    pub parts: Seq<PartView>,
    pub metadata: Option<WireStruct>,
    pub extensions: Seq<Seq<char>>,
    pub reference_task_ids: Seq<Seq<char>>,
}

impl View for Message {
    type V = MessageView;

    open spec fn view(&self) -> MessageView {
        MessageView {
            message_id: self.message_id@,
            context_id: self.context_id@,
            task_id: self.task_id@,
            role: self.role,
            parts: parts_view(self.parts@),
            metadata: self.metadata,
            extensions: strings_view(self.extensions@),
            reference_task_ids: strings_view(self.reference_task_ids@),
        }
    }
}

/// The views of a sequence of wire messages.
pub open spec fn messages_view(v: Seq<Message>) -> Seq<MessageView> {
    v.map_values(|m: Message| m@)
}

/// A point in time on the wire: seconds since the Unix epoch and nanoseconds.
#[derive(Clone, Copy, Debug, PartialEq, Eq, Structural)]
pub struct Timestamp {
    pub seconds: i64,
    pub nanos: i32,
}

/// A task status on the wire.
#[derive(Clone, Debug, PartialEq)]
pub struct TaskStatus {
    pub state: i32,
    pub message: Option<Message>,
    pub timestamp: Option<Timestamp>,
}

pub struct TaskStatusView {
    pub state: i32,
    pub message: Option<MessageView>,
    pub timestamp: Option<Timestamp>,
}

impl View for TaskStatus {
    type V = TaskStatusView;

    open spec fn view(&self) -> TaskStatusView {
        TaskStatusView {
            state: self.state,
            message: match self.message {
                Some(m) => Some(m@),
                None => None,
            },
            timestamp: self.timestamp,
        }
    }
}

/// An artifact on the wire.
#[derive(Clone, Debug, PartialEq)]
pub struct Artifact {
    pub artifact_id: String,
    pub name: String,
    pub description: String,
    pub parts: Vec<Part>,
    pub metadata: Option<WireStruct>,
    pub extensions: Vec<String>,
}

pub struct ArtifactView {
    pub artifact_id: Seq<char>,
    pub name: Seq<char>,
    pub description: Seq<char>,
    pub parts: Seq<PartView>,
    pub metadata: Option<WireStruct>,
    pub extensions: Seq<Seq<char>>,
}

impl View for Artifact {
    type V = ArtifactView;

    open spec fn view(&self) -> ArtifactView {
        ArtifactView {
            artifact_id: self.artifact_id@,
            name: self.name@,
            description: self.description@,
            parts: parts_view(self.parts@),
            metadata: self.metadata,
            extensions: strings_view(self.extensions@),
        }
    }
}

/// The views of a sequence of wire artifacts.
pub open spec fn artifacts_view(v: Seq<Artifact>) -> Seq<ArtifactView> {
    v.map_values(|a: Artifact| a@)
}

/// A task on the wire.
#[derive(Clone, Debug, PartialEq)]
pub struct Task {
    pub id: String,
    pub context_id: String,
    pub status: Option<TaskStatus>,
    pub artifacts: Vec<Artifact>,
    pub history: Vec<Message>,
    pub metadata: Option<WireStruct>,
}

pub struct TaskView {
    pub id: Seq<char>,
    pub context_id: Seq<char>,
    pub status: Option<TaskStatusView>,
    pub artifacts: Seq<ArtifactView>,
    pub history: Seq<MessageView>,
    pub metadata: Option<WireStruct>,
}

impl View for Task {
    type V = TaskView;

    open spec fn view(&self) -> TaskView {
        TaskView {
            id: self.id@,
            context_id: self.context_id@,
            status: match self.status {
                Some(s) => Some(s@),
                None => None,
            },
            artifacts: artifacts_view(self.artifacts@),
            history: messages_view(self.history@),
            metadata: self.metadata,
        }
    }
}

/// The provider of an agent on the wire.
#[derive(Clone, Debug, PartialEq, Eq)]
pub struct AgentProvider {
    pub url: String,
    pub organization: String,
}

pub struct AgentProviderView {
    pub url: Seq<char>,
    pub organization: Seq<char>,
}

impl View for AgentProvider {
    type V = AgentProviderView;

    open spec fn view(&self) -> AgentProviderView {
        AgentProviderView { url: self.url@, organization: self.organization@ }
    }
}

/// A protocol extension on the wire (its parameters are not modelled).
#[derive(Clone, Debug, PartialEq, Eq)]
pub struct AgentExtension {
    pub uri: String,
    pub description: String,
    pub required: bool,
}

pub struct AgentExtensionView {
    pub uri: Seq<char>,
    pub description: Seq<char>,
    pub required: bool,
}

impl View for AgentExtension {
    type V = AgentExtensionView;

    open spec fn view(&self) -> AgentExtensionView {
        AgentExtensionView { uri: self.uri@, description: self.description@, required: self.required }
    }
}

/// The views of a list of wire extensions.
pub open spec fn extensions_view(v: Seq<AgentExtension>) -> Seq<AgentExtensionView> {
    v.map_values(|e: AgentExtension| e@)
}

/// The capabilities of an agent on the wire.
#[derive(Clone, Debug, PartialEq, Eq)]
pub struct AgentCapabilities {
    pub streaming: Option<bool>,
    pub push_notifications: Option<bool>,
    pub extensions: Vec<AgentExtension>,
    pub state_transition_history: Option<bool>,
}

pub struct AgentCapabilitiesView {
    pub streaming: Option<bool>,
    pub push_notifications: Option<bool>,
    pub extensions: Seq<AgentExtensionView>,
    pub state_transition_history: Option<bool>,
}

impl View for AgentCapabilities {
    type V = AgentCapabilitiesView;

    open spec fn view(&self) -> AgentCapabilitiesView {
        AgentCapabilitiesView {
            streaming: self.streaming,
            push_notifications: self.push_notifications,
            extensions: extensions_view(self.extensions@),
            state_transition_history: self.state_transition_history,
        }
    }
}

/// A skill of an agent on the wire.
#[derive(Clone, Debug, PartialEq, Eq)]
pub struct AgentSkill {
    pub id: String,
    pub name: String,
    pub description: String,
    pub tags: Vec<String>,
    pub examples: Vec<String>,
    pub input_modes: Vec<String>,
    pub output_modes: Vec<String>,
}

pub struct AgentSkillView {
    pub id: Seq<char>,
    pub name: Seq<char>,
    pub description: Seq<char>,
    pub tags: Seq<Seq<char>>,
    pub examples: Seq<Seq<char>>,
    pub input_modes: Seq<Seq<char>>,
    pub output_modes: Seq<Seq<char>>,
}

impl View for AgentSkill {
    type V = AgentSkillView;

    open spec fn view(&self) -> AgentSkillView {
        AgentSkillView {
            id: self.id@,
            name: self.name@,
            description: self.description@,
            tags: strings_view(self.tags@),
            examples: strings_view(self.examples@),
            input_modes: strings_view(self.input_modes@),
            output_modes: strings_view(self.output_modes@),
        }
    }
}

/// The views of a list of wire skills.
pub open spec fn skills_view(v: Seq<AgentSkill>) -> Seq<AgentSkillView> {
    v.map_values(|k: AgentSkill| k@)
}

/// An interface of an agent on the wire.
#[derive(Clone, Debug, PartialEq, Eq)]
pub struct AgentInterface {
    pub url: String,
    pub transport: String,
}

pub struct AgentInterfaceView {
    pub url: Seq<char>,
    pub transport: Seq<char>,
}

impl View for AgentInterface {
    type V = AgentInterfaceView;

    open spec fn view(&self) -> AgentInterfaceView {
        AgentInterfaceView { url: self.url@, transport: self.transport@ }
    }
}

/// The views of a list of wire interfaces.
pub open spec fn interfaces_view(v: Seq<AgentInterface>) -> Seq<AgentInterfaceView> {
    v.map_values(|i: AgentInterface| i@)
}

/// A signature of an agent card on the wire (its unprotected header is not
/// modelled).
#[derive(Clone, Debug, PartialEq, Eq)]
pub struct AgentCardSignature {
    pub protected: String,
    pub signature: String,
}

pub struct AgentCardSignatureView {
    pub protected: Seq<char>,
    pub signature: Seq<char>,
}

impl View for AgentCardSignature {
    type V = AgentCardSignatureView;

    open spec fn view(&self) -> AgentCardSignatureView {
        AgentCardSignatureView { protected: self.protected@, signature: self.signature@ }
    }
}

/// The views of a list of wire signatures.
pub open spec fn signatures_view(v: Seq<AgentCardSignature>) -> Seq<AgentCardSignatureView> {
    v.map_values(|g: AgentCardSignature| g@)
}

/// An agent card on the wire (its security requirements and schemes, and
/// the list of supported interfaces that newer peers read, are not modelled).
#[derive(Clone, Debug, PartialEq, Eq)]
pub struct AgentCard {
    pub protocol_version: Option<String>,
    pub name: String,
    pub description: String,
    pub url: Option<String>,
    pub preferred_transport: Option<String>,
    pub additional_interfaces: Vec<AgentInterface>,
    pub provider: Option<AgentProvider>,
    pub version: String,
    pub documentation_url: Option<String>,
    pub capabilities: Option<AgentCapabilities>,
    pub default_input_modes: Vec<String>,
    pub default_output_modes: Vec<String>,
    pub skills: Vec<AgentSkill>,
    pub supports_extended_agent_card: Option<bool>,
    pub signatures: Vec<AgentCardSignature>,
    pub icon_url: Option<String>,
}

pub struct AgentCardView {
    pub protocol_version: Option<Seq<char>>,
    pub name: Seq<char>,
    pub description: Seq<char>,
    pub url: Option<Seq<char>>,
    pub preferred_transport: Option<Seq<char>>,
    pub additional_interfaces: Seq<AgentInterfaceView>,
    pub provider: Option<AgentProviderView>,
    pub version: Seq<char>,
    pub documentation_url: Option<Seq<char>>,
    pub capabilities: Option<AgentCapabilitiesView>,
    pub default_input_modes: Seq<Seq<char>>,
    pub default_output_modes: Seq<Seq<char>>,
    pub skills: Seq<AgentSkillView>,
    pub supports_extended_agent_card: Option<bool>,
    pub signatures: Seq<AgentCardSignatureView>,
    pub icon_url: Option<Seq<char>>,
}

impl View for AgentCard {
    type V = AgentCardView;

    open spec fn view(&self) -> AgentCardView {
        AgentCardView {
            protocol_version: opt_string_view(self.protocol_version),
            name: self.name@,
            description: self.description@,
            url: opt_string_view(self.url),
            preferred_transport: opt_string_view(self.preferred_transport),
            additional_interfaces: interfaces_view(self.additional_interfaces@),
            provider: match self.provider {
                Some(p) => Some(p@),
                None => None,
            },
            version: self.version@,
            documentation_url: opt_string_view(self.documentation_url),
            capabilities: match self.capabilities {
                Some(c) => Some(c@),
                None => None,
            },
            default_input_modes: strings_view(self.default_input_modes@),
            default_output_modes: strings_view(self.default_output_modes@),
            skills: skills_view(self.skills@),
            supports_extended_agent_card: self.supports_extended_agent_card,
            signatures: signatures_view(self.signatures@),
            icon_url: opt_string_view(self.icon_url),
        }
    }
}

/// The request of the `SendMessage` call (its optional configuration is
/// never sent by this library and is not modelled).
#[derive(Clone, Debug, PartialEq)]
pub struct SendMessageRequest {
    pub message: Option<Message>,
    pub task_id: String,
    pub context_id: String,
    pub tenant: String,
}

/// The response of the `SendMessage` call.
#[derive(Clone, Debug, PartialEq)]
pub struct SendMessageResponse {
    pub task: Option<Task>,
}

/// The request of the `GetTask` call; the task is named `tasks/{id}`.
#[derive(Clone, Debug, PartialEq, Eq)]
pub struct GetTaskRequest {
    pub name: String,
    pub history_length: Option<i32>,
    pub tenant: String,
}

/// The request of the `CancelTask` call; the task is named `tasks/{id}`.
#[derive(Clone, Debug, PartialEq, Eq)]
pub struct CancelTaskRequest {
    pub name: String,
    pub reason: String,
    pub tenant: String,
}

/// The request of the `ListTasks` call.
#[derive(Clone, Debug, PartialEq, Eq)]
pub struct ListTasksRequest {
    pub page_size: i32,
    pub page_token: String,
    pub filter: String,
    pub order_by: String,
    pub tenant: String,
}

/// The response of the `ListTasks` call.
#[derive(Clone, Debug, PartialEq)]
pub struct ListTasksResponse {
    pub tasks: Vec<Task>,
    pub next_page_token: String,
    pub page_size: i32,
    pub total_size: i32,
}

} // verus!
