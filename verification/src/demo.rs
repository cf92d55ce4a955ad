//! The decisions of the reimbursement demo (agent backend and web front end):
//! run modes, agent URLs, webhook tokens, expense and chat messages, task
//! listing parameters, retries and webhook authentication. Serving, reading
//! forms and calling the agent are left to the caller.
use vstd::prelude::*;
use vstd::string::{StringExecFns, StrSliceExecFns};
use crate::domain::{
    ListTasksParams, Message, Part, PushNotificationConfig, Role, Task, TaskPushNotificationConfig,
    TaskState, FileContent,
};
use crate::encoding::{base64_encoded, encode_base64};
use crate::ids::{is_random_id_text, is_random_simple_id_text, new_task_id, new_webhook_token};

verus! {

fn same_text(a: &str, b: &str) -> (r: bool)
    ensures
        r == (a@ == b@),
{
    String::from_str(a) == String::from_str(b)
}

// ---------------------------------------------------------------------------
// Run modes and transports
// ---------------------------------------------------------------------------

/// What the demo runs.
#[derive(Clone, Copy, Debug, PartialEq, Eq, Structural)]
pub enum RunMode {
    /// The agent backend only.
    Agent,
    /// The web front end only.
    Frontend,
    /// Both.
    All,
}

/// The run mode that a command-line word names: `agent`, `frontend` or `all`.
pub open spec fn spec_run_mode(word: Seq<char>) -> Option<RunMode> {
    if word == "agent"@ {
        Some(RunMode::Agent)
    } else if word == "frontend"@ {
        Some(RunMode::Frontend)
    } else if word == "all"@ {
        Some(RunMode::All)
    } else {
        None
    }
}

/// The run mode that a command-line word names, if any.
pub fn parse_run_mode(word: &str) -> (r: Option<RunMode>)
    ensures
        r == spec_run_mode(word@),
{
    if same_text(word, "agent") {
        Some(RunMode::Agent)
    } else if same_text(word, "frontend") {
        Some(RunMode::Frontend)
    } else if same_text(word, "all") {
        Some(RunMode::All)
    } else {
        None
    }
}

/// The transports the agent backend serves.
#[derive(Clone, Copy, Debug, PartialEq, Eq, Structural)]
pub enum AgentTransport {
    /// HTTP only.
    Http,
    /// WebSocket only.
    WebSocket,
    /// HTTP and WebSocket.
    Both,
}

/// The transport that a command-line word names: `http`; `websocket` or
/// `ws`; `both` or `all`.
pub open spec fn spec_transport(word: Seq<char>) -> Option<AgentTransport> {
    if word == "http"@ {
        Some(AgentTransport::Http)
    } else if word == "websocket"@ || word == "ws"@ {
        Some(AgentTransport::WebSocket)
    } else if word == "both"@ || word == "all"@ {
        Some(AgentTransport::Both)
    } else {
        None
    }
}

/// The transport that a command-line word names, if any.
pub fn parse_transport(word: &str) -> (r: Option<AgentTransport>)
    ensures
        r == spec_transport(word@),
{
    if same_text(word, "http") {
        Some(AgentTransport::Http)
    } else if same_text(word, "websocket") || same_text(word, "ws") {
        Some(AgentTransport::WebSocket)
    } else if same_text(word, "both") || same_text(word, "all") {
        Some(AgentTransport::Both)
    } else {
        None
    }
}

// ---------------------------------------------------------------------------
// URLs
// ---------------------------------------------------------------------------

/// The decimal digit `d` (below ten) as text.
pub open spec fn digit_text(d: nat) -> Seq<char> {
    if d == 0 {
        "0"@
    } else if d == 1 {
        "1"@
    } else if d == 2 {
        "2"@
    } else if d == 3 {
        "3"@
    } else if d == 4 {
        "4"@
    } else if d == 5 {
        "5"@
    } else if d == 6 {
        "6"@
    } else if d == 7 {
        "7"@
    } else if d == 8 {
        "8"@
    } else {
        "9"@
    }
}

/// The decimal notation of `n`, without leading zeros.
pub open spec fn decimal(n: nat) -> Seq<char>
    decreases n,
{
    if n < 10 {
        digit_text(n)
    } else {
        decimal(n / 10) + digit_text(n % 10)
    }
}

fn digit_str(d: u64) -> (s: &'static str)
    requires
        d < 10,
    ensures
        s@ == digit_text(d as nat),
{
    if d == 0 {
        "0"
    } else if d == 1 {
        "1"
    } else if d == 2 {
        "2"
    } else if d == 3 {
        "3"
    } else if d == 4 {
        "4"
    } else if d == 5 {
        "5"
    } else if d == 6 {
        "6"
    } else if d == 7 {
        "7"
    } else if d == 8 {
        "8"
    } else {
        "9"
    }
}

fn append_decimal(out: &mut String, n: u64)
    ensures
        final(out)@ == old(out)@ + decimal(n as nat),
    decreases n,
{
    if n >= 10 {
        append_decimal(out, n / 10);
    }
    out.append(digit_str(n % 10));
    proof {
        if n >= 10 {
            assert(decimal(n as nat) == decimal((n / 10) as nat) + digit_text((n % 10) as nat));
        }
    }
}

/// `scheme://host:port`.
pub open spec fn spec_url(scheme: Seq<char>, host: Seq<char>, port: u16) -> Seq<char> {
    scheme + "://"@ + host + ":"@ + decimal(port as nat)
}

fn url(scheme: &str, host: &str, port: u16) -> (s: String)
    ensures
        s@ == spec_url(scheme@, host@, port),
{
    let mut s = String::from_str(scheme);
    s.append("://");
    s.append(host);
    s.append(":");
    append_decimal(&mut s, port as u64);
    s
}

/// The HTTP URL of a server: `http://host:port`.
pub fn http_url(host: &str, port: u16) -> (s: String)
    ensures
        s@ == spec_url("http"@, host@, port),
{
    url("http", host, port)
}

/// The WebSocket URL of a server: `ws://host:port`.
pub fn ws_url(host: &str, port: u16) -> (s: String)
    ensures
        s@ == spec_url("ws"@, host@, port),
{
    url("ws", host, port)
}

/// The first of two configured values, if any is present.
pub open spec fn first_present(a: Option<String>, b: Option<String>) -> Option<String> {
    match a {
        Some(x) => Some(x),
        None => b,
    }
}

/// The agent's HTTP URL for the front end: the configured agent HTTP URL,
/// else the configured agent URL, else `http://host:port`.
pub fn agent_http_url(http_url_setting: Option<String>, url_setting: Option<String>, host: &str, port: u16) -> (s:
    String)
    ensures
        s@ == match first_present(http_url_setting, url_setting) {
            Some(u) => u@,
            None => spec_url("http"@, host@, port),
        },
{
    match http_url_setting {
        Some(u) => u,
        None => match url_setting {
            Some(u) => u,
            None => http_url(host, port),
        },
    }
}

/// The agent's WebSocket URL for the front end: the configured one, else
/// `ws://host:port`.
pub fn agent_ws_url(ws_url_setting: Option<String>, host: &str, port: u16) -> (s: String)
    ensures
        s@ == match ws_url_setting {
            Some(u) => u@,
            None => spec_url("ws"@, host@, port),
        },
{
    match ws_url_setting {
        Some(u) => u,
        None => ws_url(host, port),
    }
}

/// The agent URL shown on the front end's index page: the configured agent
/// HTTP URL, else the configured agent URL, else `http://localhost:8080`.
pub fn index_agent_url(http_url_setting: Option<String>, url_setting: Option<String>) -> (s: String)
    ensures
        s@ == match first_present(http_url_setting, url_setting) {
            Some(u) => u@,
            None => "http://localhost:8080"@,
        },
{
    match http_url_setting {
        Some(u) => u,
        None => match url_setting {
            Some(u) => u,
            None => String::from_str("http://localhost:8080"),
        },
    }
}

/// The webhook token: the configured one, else a fresh random token of the
/// form `wh_` and the 32 lower-case hexadecimal digits of a random (version 4)
/// identifier.
pub fn webhook_token(configured: Option<String>) -> (t: String)
    ensures
        configured matches Some(c) ==> t == c,
        configured is None ==> t@.len() == 35 && t@.take(3) == "wh_"@ && is_random_simple_id_text(
            t@.skip(3),
        ),
{
    match configured {
        Some(c) => c,
        None => new_webhook_token(),
    }
}

/// The front end's page for the chat about a task: `/chat/{task_id}`.
pub fn chat_path(task_id: &str) -> (s: String)
    ensures
        s@ == "/chat/"@ + task_id@,
{
    let mut s = String::from_str("/chat/");
    s.append(task_id);
    s
}

// ---------------------------------------------------------------------------
// Messages sent by the front end
// ---------------------------------------------------------------------------

/// A message from the user to the task `task_id` with the given parts: no
/// context, metadata, references or extensions.
pub fn user_message(task_id: String, message_id: String, parts: Vec<Part>) -> (m: Message)
    ensures
        m.role == Role::User,
        m.parts@ == parts@,
        m.metadata is None,
        m.reference_task_ids is None,
        m.message_id == message_id,
        m.task_id == Some(task_id),
        m.context_id is None,
        m.extensions is None,
        m.kind@ == "message"@,
{
    Message {
        role: Role::User,
        parts,
        metadata: None,
        reference_task_ids: None,
        message_id,
        task_id: Some(task_id),
        context_id: None,
        extensions: None,
        kind: String::from_str("message"),
    }
}

/// The address to which the agent pushes task notifications for the front end.
pub open spec fn push_notification_url() -> Seq<char> {
    "http://localhost:3000/webhook/push-notification"@
}

/// The push notification configuration that the front end registers for a
/// task: its webhook, authenticated by the webhook token.
pub fn webhook_push_config(task_id: String, token: String) -> (c: TaskPushNotificationConfig)
    ensures
        c.task_id == task_id,
        c.push_notification_config.id is None,
        c.push_notification_config.url@ == push_notification_url(),
        c.push_notification_config.token == Some(token),
        c.push_notification_config.authentication is None,
{
    TaskPushNotificationConfig {
        task_id,
        push_notification_config: PushNotificationConfig {
            id: None,
            url: String::from_str("http://localhost:3000/webhook/push-notification"),
            token: Some(token),
            authentication: None,
        },
    }
}

/// The expense form of the front end.
#[derive(Clone, Debug, PartialEq, Eq)]
pub struct ExpenseSubmitForm {
    pub category: String,
    pub amount: String,
    pub date: String,
    pub vendor: Option<String>,
    pub description: String,
    pub project_code: Option<String>,
}

/// `prefix value` and a line break where the value is present, else nothing.
pub open spec fn optional_line(prefix: Seq<char>, value: Option<String>) -> Seq<char> {
    match value {
        Some(v) => prefix + v@ + "\n"@,
        None => Seq::empty(),
    }
}

/// The text of the message that submits an expense.
pub open spec fn spec_expense_details(form: ExpenseSubmitForm) -> Seq<char> {
    "I need to submit an expense reimbursement:\n\nCategory: "@ + form.category@
        + "\nAmount: $"@ + form.amount@ + "\nDate: "@ + form.date@ + "\n"@
        + optional_line("Vendor: "@, form.vendor) + "Description: "@ + form.description@
        + "\n"@ + optional_line("Project/Cost Center: "@, form.project_code)
}

fn append_optional_line(out: &mut String, prefix: &str, value: &Option<String>)
    ensures
        final(out)@ == old(out)@ + optional_line(prefix@, *value),
{
    match value {
        Some(v) => {
            out.append(prefix);
            out.append(v.as_str());
            out.append("\n");
        },
        None => {
            assert(old(out)@ + optional_line(prefix@, *value) =~= old(out)@);
        },
    }
}

/// The text of the message that submits an expense: the category, amount
/// (in dollars), date, vendor if given, description and project if given,
/// one per line.
pub fn expense_details(form: &ExpenseSubmitForm) -> (s: String)
    ensures
        s@ == spec_expense_details(*form),
{
    let mut s = String::from_str("I need to submit an expense reimbursement:\n\nCategory: ");
    s.append(form.category.as_str());
    s.append("\nAmount: $");
    s.append(form.amount.as_str());
    s.append("\nDate: ");
    s.append(form.date.as_str());
    s.append("\n");
    append_optional_line(&mut s, "Vendor: ", &form.vendor);
    s.append("Description: ");
    s.append(form.description.as_str());
    s.append("\n");
    append_optional_line(&mut s, "Project/Cost Center: ", &form.project_code);
    s
}

/// The message that submits an expense to a new task.
pub fn expense_message(form: &ExpenseSubmitForm, task_id: String, message_id: String) -> (m:
    Message)
    ensures
        m.role == Role::User,
        m.parts@.len() == 1,
        m.parts@[0] matches Part::Text { text, metadata } && text@ == spec_expense_details(*form)
            && metadata is None,
        m.message_id == message_id,
        m.task_id == Some(task_id),
        m.context_id is None,
        m.metadata is None,
        m.reference_task_ids is None,
        m.extensions is None,
        m.kind@ == "message"@,
{
    let text = expense_details(form);
    let mut parts: Vec<Part> = Vec::new();
    parts.push(Part::Text { text, metadata: None });
    user_message(task_id, message_id, parts)
}

// ---------------------------------------------------------------------------
// The chat form
// ---------------------------------------------------------------------------

/// What a field of the chat form holds, by its name.
#[derive(Clone, Copy, Debug, PartialEq, Eq, Structural)]
pub enum ChatFieldKind {
    /// `task_id`: the task, as text.
    TaskId,
    /// `message`: the text of the message.
    Message,
    /// `receipt`: an uploaded file.
    Receipt,
    /// Any other field, which is ignored.
    Other,
}

/// What a field of the chat form holds, by its name.
pub fn chat_field_kind(name: &str) -> (k: ChatFieldKind)
    ensures
        k == (if name@ == "task_id"@ {
            ChatFieldKind::TaskId
        } else if name@ == "message"@ {
            ChatFieldKind::Message
        } else if name@ == "receipt"@ {
            ChatFieldKind::Receipt
        } else {
            ChatFieldKind::Other
        }),
{
    if same_text(name, "task_id") {
        ChatFieldKind::TaskId
    } else if same_text(name, "message") {
        ChatFieldKind::Message
    } else if same_text(name, "receipt") {
        ChatFieldKind::Receipt
    } else {
        ChatFieldKind::Other
    }
}

/// One field of the chat form, as read.
#[derive(Clone, Debug, PartialEq, Eq)]
pub enum ChatField {
    TaskId(String),
    Message(String),
    Receipt { file_name: Option<String>, content_type: Option<String>, data: Vec<u8> },
    Other,
}

/// The chat form as read so far.
#[derive(Clone, Debug, PartialEq)]
pub struct ChatForm {
    pub task_id: String,
    pub message_text: String,
    pub parts: Vec<Part>,
}

impl ChatForm {
    /// A form with nothing read yet.
    pub fn new() -> (f: ChatForm)
        ensures
            f.task_id@ == Seq::<char>::empty(),
            f.message_text@ == Seq::<char>::empty(),
            f.parts@.len() == 0,
    {
        ChatForm { task_id: String::new(), message_text: String::new(), parts: Vec::new() }
    }

    /// Takes in one more field: the task and the text replace earlier ones, a
    /// non-empty receipt is added as a file part after the earlier ones, an
    /// empty receipt and other fields are ignored.
    pub fn absorb(&mut self, field: ChatField)
        ensures
            match field {
                ChatField::TaskId(t) => final(self).task_id == t
                    && final(self).message_text == old(self).message_text
                    && final(self).parts@ == old(self).parts@,
                ChatField::Message(m) => final(self).message_text == m
                    && final(self).task_id == old(self).task_id
                    && final(self).parts@ == old(self).parts@,
                ChatField::Receipt { file_name, content_type, data } => {
                    &&& final(self).task_id == old(self).task_id
                    &&& final(self).message_text == old(self).message_text
                    &&& if data@.len() == 0 {
                        final(self).parts@ == old(self).parts@
                    } else {
                        &&& final(self).parts@.len() == old(self).parts@.len() + 1
                        &&& final(self).parts@.take(old(self).parts@.len() as int) == old(self).parts@
                        &&& final(self).parts@.last() matches Part::File { file, metadata } && {
                            &&& metadata is None
                            &&& file.uri is None
                            &&& file.name == file_name
                            &&& file.mime_type == content_type
                            &&& file.bytes matches Some(b) && b@ == base64_encoded(data@)
                        }
                    }
                },
                ChatField::Other => *final(self) == *old(self),
            },
    {
        match field {
            ChatField::TaskId(t) => {
                self.task_id = t;
            },
            ChatField::Message(m) => {
                self.message_text = m;
            },
            ChatField::Receipt { file_name, content_type, data } => {
                if data.len() > 0 {
                    let bytes = encode_base64(data.as_slice());
                    let part = Part::File {
                        file: FileContent { bytes: Some(bytes), uri: None, name: file_name, mime_type: content_type },
                        metadata: None,
                    };
                    let ghost before = self.parts@;
                    self.parts.push(part);
                    assert(self.parts@.take(before.len() as int) =~= before);
                }
            },
            ChatField::Other => {},
        }
    }
}

/// Why a chat form cannot be sent.
pub open spec fn spec_chat_form_error(form: ChatForm) -> Option<Seq<char>> {
    if form.task_id@.len() == 0 {
        Some("Missing task_id"@)
    } else if form.message_text@.len() == 0 && form.parts@.len() == 0 {
        Some("Message cannot be empty"@)
    } else {
        None
    }
}

/// The message that a complete chat form sends: the text first, when there
/// is any, then the receipts in the order read; or why the form cannot be
/// sent (no task; or neither text nor receipts).
pub fn chat_message(form: ChatForm, message_id: String) -> (r: Result<Message, String>)
    ensures
        match r {
            Ok(m) => {
                &&& spec_chat_form_error(form) is None
                &&& m.role == Role::User
                &&& m.task_id == Some(form.task_id)
                &&& m.message_id == message_id
                &&& m.context_id is None
                &&& m.metadata is None
                &&& m.reference_task_ids is None
                &&& m.extensions is None
                &&& m.kind@ == "message"@
                &&& if form.message_text@.len() == 0 {
                    m.parts@ == form.parts@
                } else {
                    &&& m.parts@.len() == form.parts@.len() + 1
                    &&& m.parts@[0] == Part::Text { text: form.message_text, metadata: None }
                    &&& m.parts@.skip(1) == form.parts@
                }
            },
            Err(e) => spec_chat_form_error(form) == Some(e@),
        },
{
    let ChatForm { task_id, message_text, parts } = form;
    let ghost old_parts = parts@;
    let mut parts = parts;
    if !message_text.as_str().is_empty() {
        parts.insert(0, Part::Text { text: message_text, metadata: None });
        assert(parts@.skip(1) =~= old_parts);
    }
    if task_id.as_str().is_empty() {
        return Err(String::from_str("Missing task_id"));
    }
    if parts.len() == 0 {
        return Err(String::from_str("Message cannot be empty"));
    }
    Ok(user_message(task_id, message_id, parts))
}

// ---------------------------------------------------------------------------
// The task list, retries and the webhook
// ---------------------------------------------------------------------------

/// The number of tasks asked for when the page names no limit.
pub const DEFAULT_TASK_LIMIT: i32 = 50;

/// The parameters for listing tasks on the front end's task page: the state
/// filter (already read from its name), and the limit as page size (cut to 32
/// bits) or 50 when absent.
pub fn tasks_page_params(status: Option<TaskState>, limit: Option<usize>) -> (p: ListTasksParams)
    ensures
        p.status == status,
        p.page_size == Some(
            match limit {
                Some(l) => l as i32,
                None => DEFAULT_TASK_LIMIT,
            },
        ),
        p.context_id is None,
        p.page_token is None,
        p.history_length is None,
        p.include_artifacts is None,
        p.last_updated_after is None,
        p.metadata is None,
{
    let mut params = ListTasksParams::default();
    params.status = status;
    params.page_size = match limit {
        Some(l) => Some(l as i32),
        None => Some(DEFAULT_TASK_LIMIT),
    };
    params
}

/// How many times the chat page asks for a task before it gives up.
pub const MAX_TASK_FETCH_ATTEMPTS: u32 = 3;

/// After a failed fetch of a task, the count of failures so far if the page
/// asks again, or `None` when it gives up (at the third failure).
pub fn retry_after_failure(failures_before: u32) -> (r: Option<u32>)
    requires
        failures_before < MAX_TASK_FETCH_ATTEMPTS,
    ensures
        failures_before + 1 >= MAX_TASK_FETCH_ATTEMPTS ==> r is None,
        failures_before + 1 < MAX_TASK_FETCH_ATTEMPTS ==> r == Some((failures_before + 1) as u32),
{
    let failures = failures_before + 1;
    if failures >= MAX_TASK_FETCH_ATTEMPTS {
        None
    } else {
        Some(failures)
    }
}

/// A push notification is authentic when its `Authorization` header is
/// `Bearer ` followed by exactly the webhook token.
pub open spec fn spec_push_authorized(header: Option<Seq<char>>, token: Seq<char>) -> bool {
    match header {
        Some(h) => h.len() >= 7 && h.take(7) == "Bearer "@ && h.skip(7) == token,
        None => false,
    }
}

/// Whether a push notification with this `Authorization` header comes from
/// the agent that was given the webhook token.
pub fn push_notification_authorized(header: Option<&str>, token: &str) -> (r: bool)
    ensures
        r == spec_push_authorized(
            match header {
                Some(h) => Some(h@),
                None => None,
            },
            token@,
        ),
{
    match header {
        Some(h) => {
            proof {
                reveal_strlit("Bearer ");
            }
            let n = h.unicode_len();
            if n < 7 {
                return false;
            }
            let scheme = h.substring_char(0, 7);
            if !same_text(scheme, "Bearer ") {
                return false;
            }
            let rest = h.substring_char(7, n);
            same_text(rest, token)
        },
        None => false,
    }
}


// ---------------------------------------------------------------------------
// The agent backend's start-up summary
// ---------------------------------------------------------------------------

/// Where the agent keeps its tasks.
#[derive(Clone, Debug, PartialEq, Eq)]
pub enum StorageSummary {
    /// In memory, lost when the agent stops.
    InMemory,
    /// In an SQL database at `url`.
    Sqlx { url: String },
}

/// How clients authenticate to the agent (only counts of secrets are shown).
#[derive(Clone, Debug, PartialEq, Eq)]
pub enum AuthSummary {
    /// No authentication.
    Open,
    /// Bearer tokens, in an optional format.
    BearerToken { token_count: usize, format: Option<String> },
    /// API keys, read from `location` under `name`.
    ApiKey { key_count: usize, location: String, name: String },
}

/// What the start-up summary of the agent backend shows.
#[derive(Clone, Debug, PartialEq, Eq)]
pub struct AgentInfoSummary {
    pub host: String,
    pub http_port: u16,
    pub ws_port: u16,
    pub transport: String,
    pub storage: StorageSummary,
    pub auth: AuthSummary,
}

/// The storage line of the start-up summary.
pub open spec fn spec_storage_line(storage: StorageSummary) -> Seq<char> {
    match storage {
        StorageSummary::InMemory => "   💾 Storage: In-memory (non-persistent)"@,
        StorageSummary::Sqlx { url } => "   💾 Storage: SQLx ("@ + url@ + ")"@,
    }
}

/// The authentication line of the start-up summary: no secret is shown, only
/// how many there are.
pub open spec fn spec_auth_line(auth: AuthSummary) -> Seq<char> {
    match auth {
        AuthSummary::Open => "   🔓 Authentication: None (public access)"@,
        AuthSummary::BearerToken { token_count, format } => "   🔐 Authentication: Bearer token ("@
            + decimal(token_count as nat) + " token(s)"@ + match format {
            Some(f) => ", format: "@ + f@,
            None => Seq::empty(),
        } + ")"@,
        AuthSummary::ApiKey { key_count, location, name } => "   🔐 Authentication: API key ("@
            + location@ + " "@ + name@ + " '"@ + name@ + "', "@ + decimal(key_count as nat)
            + " key(s))"@,
    }
}

/// The lines of the start-up summary of the agent backend: host, ports,
/// transport, storage and authentication.
pub open spec fn spec_agent_info_lines(info: AgentInfoSummary) -> Seq<Seq<char>> {
    seq![
        "   📍 Host: "@ + info.host@,
        "   🔌 HTTP Port: "@ + decimal(info.http_port as nat),
        "   📡 WebSocket Port: "@ + decimal(info.ws_port as nat),
        "   ⚙️  Transport: "@ + info.transport@,
        spec_storage_line(info.storage),
        spec_auth_line(info.auth),
    ]
}

fn labelled(label: &str, value: &str) -> (s: String)
    ensures
        s@ == label@ + value@,
{
    let mut s = String::from_str(label);
    s.append(value);
    s
}

fn labelled_number(label: &str, n: u64) -> (s: String)
    ensures
        s@ == label@ + decimal(n as nat),
{
    let mut s = String::from_str(label);
    append_decimal(&mut s, n);
    s
}

fn storage_line(storage: &StorageSummary) -> (s: String)
    ensures
        s@ == spec_storage_line(*storage),
{
    match storage {
        StorageSummary::InMemory => String::from_str("   💾 Storage: In-memory (non-persistent)"),
        StorageSummary::Sqlx { url } => {
            let mut s = labelled("   💾 Storage: SQLx (", url.as_str());
            s.append(")");
            s
        },
    }
}

fn auth_line(auth: &AuthSummary) -> (s: String)
    ensures
        s@ == spec_auth_line(*auth),
{
    match auth {
        AuthSummary::Open => String::from_str("   🔓 Authentication: None (public access)"),
        AuthSummary::BearerToken { token_count, format } => {
            let mut s = labelled_number(
                "   🔐 Authentication: Bearer token (",
                *token_count as u64,
            );
            s.append(" token(s)");
            let ghost before = s@;
            match format {
                Some(f) => {
                    s.append(", format: ");
                    s.append(f.as_str());
                },
                None => {
                    assert(before + Seq::<char>::empty() =~= before);
                },
            }
            s.append(")");
            s
        },
        AuthSummary::ApiKey { key_count, location, name } => {
            let mut s = labelled("   🔐 Authentication: API key (", location.as_str());
            s.append(" ");
            s.append(name.as_str());
            s.append(" '");
            s.append(name.as_str());
            s.append("', ");
            append_decimal(&mut s, *key_count as u64);
            s.append(" key(s))");
            s
        },
    }
}

/// The lines of the start-up summary of the agent backend.
pub fn agent_info_lines(info: &AgentInfoSummary) -> (lines: Vec<String>)
    ensures
        crate::domain::strings_view(lines@) == spec_agent_info_lines(*info),
{
    let mut lines: Vec<String> = Vec::new();
    lines.push(labelled("   📍 Host: ", info.host.as_str()));
    lines.push(labelled_number("   🔌 HTTP Port: ", info.http_port as u64));
    lines.push(labelled_number("   📡 WebSocket Port: ", info.ws_port as u64));
    lines.push(labelled("   ⚙️  Transport: ", info.transport.as_str()));
    lines.push(storage_line(&info.storage));
    lines.push(auth_line(&info.auth));
    assert(crate::domain::strings_view(lines@) =~= spec_agent_info_lines(*info));
    lines
}

// ---------------------------------------------------------------------------
// The chat page and the steps after sending
// ---------------------------------------------------------------------------

/// The name under which the chat page shows a task state.
pub open spec fn spec_task_state_label(state: TaskState) -> Seq<char> {
    match state {
        TaskState::Submitted => "Submitted"@,
        TaskState::Working => "Working"@,
        TaskState::InputRequired => "InputRequired"@,
        TaskState::Completed => "Completed"@,
        TaskState::Canceled => "Canceled"@,
        TaskState::Failed => "Failed"@,
        TaskState::Rejected => "Rejected"@,
        TaskState::AuthRequired => "AuthRequired"@,
        TaskState::Unknown => "Unknown"@,
    }
}

/// The name under which the chat page shows a task state.
pub fn task_state_label(state: &TaskState) -> (s: String)
    ensures
        s@ == spec_task_state_label(*state),
{
    match state {
        TaskState::Submitted => String::from_str("Submitted"),
        TaskState::Working => String::from_str("Working"),
        TaskState::InputRequired => String::from_str("InputRequired"),
        TaskState::Completed => String::from_str("Completed"),
        TaskState::Canceled => String::from_str("Canceled"),
        TaskState::Failed => String::from_str("Failed"),
        TaskState::Rejected => String::from_str("Rejected"),
        TaskState::AuthRequired => String::from_str("AuthRequired"),
        TaskState::Unknown => String::from_str("Unknown"),
    }
}

/// What the chat page about a task shows.
#[derive(Clone, Debug, PartialEq)]
pub struct ChatPage {
    pub task_id: String,
    pub messages: Vec<Message>,
    pub task_state: Option<String>,
}

/// The chat page about `task_id`, given the task if fetching it succeeded:
/// its history (none when absent) and the label of its state; when the task
/// could not be fetched, an empty page without a state.
pub fn chat_page(task_id: String, fetched: Option<Task>) -> (page: ChatPage)
    ensures
        page.task_id == task_id,
        match fetched {
            Some(task) => {
                &&& page.messages@ == match task.history {
                    Some(h) => h@,
                    None => Seq::empty(),
                }
                &&& page.task_state matches Some(label) && label@ == spec_task_state_label(
                    task.status.state,
                )
            },
            None => page.messages@.len() == 0 && page.task_state is None,
        },
{
    match fetched {
        Some(task) => {
            let label = task_state_label(&task.status.state);
            let messages = match task.history {
                Some(h) => h,
                None => Vec::new(),
            };
            ChatPage { task_id, messages, task_state: Some(label) }
        },
        None => ChatPage { task_id, messages: Vec::new(), task_state: None },
    }
}

/// Which form of the front end sent a message.
#[derive(Clone, Copy, Debug, PartialEq, Eq, Structural)]
pub enum SentFrom {
    /// The expense form.
    ExpenseForm,
    /// The chat form.
    ChatForm,
}

/// What the front end does next after sending a message.
#[derive(Clone, Debug, PartialEq)]
pub enum FrontendStep {
    /// Register the webhook for the task's push notifications.
    RegisterPush(TaskPushNotificationConfig),
    /// Show the page at this path.
    Redirect(String),
    /// Answer with this failure.
    Fail(String),
}

/// The start of the failure message when sending from a form fails.
pub open spec fn send_failure_prefix(from: SentFrom) -> Seq<char> {
    match from {
        SentFrom::ExpenseForm => "Failed to submit expense: "@,
        SentFrom::ChatForm => "Failed to send message: "@,
    }
}

/// The step after sending a message to the task `task_id` (with `sent` the
/// outcome, its error as text): a message that was sent is followed by
/// registering the webhook with the webhook token; a failure is answered,
/// and no webhook is registered.
pub fn after_send(from: SentFrom, task_id: String, webhook_token: String, sent: Result<(), String>) -> (step:
    FrontendStep)
    ensures
        match sent {
            Ok(_) => step matches FrontendStep::RegisterPush(c) && {
                &&& c.task_id == task_id
                &&& c.push_notification_config.id is None
                &&& c.push_notification_config.url@ == push_notification_url()
                &&& c.push_notification_config.token == Some(webhook_token)
                &&& c.push_notification_config.authentication is None
            },
            Err(e) => step matches FrontendStep::Fail(m) && m@ == send_failure_prefix(from) + e@,
        },
{
    match sent {
        Ok(_) => FrontendStep::RegisterPush(webhook_push_config(task_id, webhook_token)),
        Err(e) => {
            let mut m = match from {
                SentFrom::ExpenseForm => String::from_str("Failed to submit expense: "),
                SentFrom::ChatForm => String::from_str("Failed to send message: "),
            };
            m.append(e.as_str());
            FrontendStep::Fail(m)
        },
    }
}

/// The step after registering the webhook for the task `task_id`: whether
/// or not the registration succeeded, the chat page of the task is shown.
pub fn after_push_registration(task_id: &str, registered: Result<(), String>) -> (step: FrontendStep)
    ensures
        step matches FrontendStep::Redirect(p) && p@ == "/chat/"@ + task_id@,
{
    let _ = registered;
    FrontendStep::Redirect(chat_path(task_id))
}

/// The text of the error page that answers a failure.
pub fn internal_error_text(message: &str) -> (s: String)
    ensures
        s@ == "Internal server error: "@ + message@,
{
    labelled("Internal server error: ", message)
}


// ---------------------------------------------------------------------------
// Calls to the agent
// ---------------------------------------------------------------------------

/// How many history messages the front end asks the agent for, when it sends
/// a message and when it fetches a task.
pub const CHAT_HISTORY_LENGTH: u32 = 50;

/// A call that sends a message to a task through the agent client: the task,
/// the message, the session and how many history messages the reply carries.
#[derive(Clone, Debug, PartialEq)]
pub struct SendCall {
    pub task_id: String,
    pub message: Message,
    pub session_id: Option<String>,
    pub history_length: Option<u32>,
}

/// The call that submits an expense: a fresh random task, the expense
/// message for it with a fresh random message id, no session, and a history
/// of 50 messages.
pub fn expense_submission(form: &ExpenseSubmitForm) -> (c: SendCall)
    ensures
        is_random_id_text(c.task_id@),
        is_random_id_text(c.message.message_id@),
        c.message.role == Role::User,
        c.message.parts@.len() == 1,
        c.message.parts@[0] matches Part::Text { text, metadata } && text@ == spec_expense_details(
            *form,
        ) && metadata is None,
        c.message.task_id == Some(c.task_id),
        c.message.context_id is None,
        c.message.metadata is None,
        c.message.reference_task_ids is None,
        c.message.extensions is None,
        c.message.kind@ == "message"@,
        c.session_id is None,
        c.history_length == Some(CHAT_HISTORY_LENGTH),
{
    let task_id = new_task_id();
    let message_id = new_task_id();
    let message = expense_message(form, task_id.clone(), message_id);
    SendCall { task_id, message, session_id: None, history_length: Some(CHAT_HISTORY_LENGTH) }
}

/// The call that sends a complete chat form to its task: the form's message
/// (its text first, when there is any, then the receipts in the order read)
/// with a fresh random message id, no session, and a history of 50 messages;
/// or why the form cannot be sent (no task; or neither text nor receipts).
pub fn chat_send_call(form: ChatForm) -> (r: Result<SendCall, String>)
    ensures
        match r {
            Ok(c) => {
                &&& spec_chat_form_error(form) is None
                &&& c.task_id == form.task_id
                &&& c.message.role == Role::User
                &&& c.message.task_id == Some(form.task_id)
                &&& is_random_id_text(c.message.message_id@)
                &&& c.message.context_id is None
                &&& c.message.metadata is None
                &&& c.message.reference_task_ids is None
                &&& c.message.extensions is None
                &&& c.message.kind@ == "message"@
                &&& if form.message_text@.len() == 0 {
                    c.message.parts@ == form.parts@
                } else {
                    &&& c.message.parts@.len() == form.parts@.len() + 1
                    &&& c.message.parts@[0] == Part::Text { text: form.message_text, metadata: None }
                    &&& c.message.parts@.skip(1) == form.parts@
                }
                &&& c.session_id is None
                &&& c.history_length == Some(CHAT_HISTORY_LENGTH)
            },
            Err(e) => spec_chat_form_error(form) == Some(e@),
        },
{
    let task_id = form.task_id.clone();
    let message_id = new_task_id();
    match chat_message(form, message_id) {
        Ok(message) => Ok(
            SendCall { task_id, message, session_id: None, history_length: Some(CHAT_HISTORY_LENGTH) },
        ),
        Err(e) => Err(e),
    }
}

/// What the chat page asks the agent for: the task `task_id` with a history
/// of 50 messages.
pub fn chat_task_query(task_id: &str) -> (q: (String, Option<u32>))
    ensures
        q.0@ == task_id@,
        q.1 == Some(CHAT_HISTORY_LENGTH),
{
    (String::from_str(task_id), Some(CHAT_HISTORY_LENGTH))
}

} // verus!
