use a2a_rs::demo::{
    agent_http_url, agent_ws_url, chat_field_kind, chat_message, chat_path, expense_details,
    expense_message, http_url, index_agent_url, parse_run_mode, parse_transport,
    push_notification_authorized, retry_after_failure, tasks_page_params, webhook_push_config,
    webhook_token, ws_url, AgentTransport, ChatField, ChatFieldKind, ChatForm, ExpenseSubmitForm,
    RunMode, after_push_registration, after_send, agent_info_lines, chat_page,
    internal_error_text, task_state_label, AgentInfoSummary, AuthSummary, FrontendStep, SentFrom,
    StorageSummary, chat_send_call, chat_task_query, expense_submission, CHAT_HISTORY_LENGTH,
};
use a2a_rs::domain::{FileContent, Message, Part, Role, Task, TaskState, TaskStatus};

#[test]
fn run_modes_and_transports() {
    assert_eq!(parse_run_mode("agent"), Some(RunMode::Agent));
    assert_eq!(parse_run_mode("frontend"), Some(RunMode::Frontend));
    assert_eq!(parse_run_mode("all"), Some(RunMode::All));
    assert_eq!(parse_run_mode("both"), None);
    assert_eq!(parse_transport("http"), Some(AgentTransport::Http));
    assert_eq!(parse_transport("ws"), Some(AgentTransport::WebSocket));
    assert_eq!(parse_transport("websocket"), Some(AgentTransport::WebSocket));
    assert_eq!(parse_transport("all"), Some(AgentTransport::Both));
    assert_eq!(parse_transport("both"), Some(AgentTransport::Both));
    assert_eq!(parse_transport("grpc"), None);
}

#[test]
fn urls() {
    assert_eq!(http_url("127.0.0.1", 8080), "http://127.0.0.1:8080");
    assert_eq!(ws_url("localhost", 0), "ws://localhost:0");
    assert_eq!(http_url("h", 65535), "http://h:65535");
    assert_eq!(agent_http_url(None, None, "127.0.0.1", 8080), "http://127.0.0.1:8080");
    assert_eq!(
        agent_http_url(None, Some("http://b".to_string()), "h", 1),
        "http://b"
    );
    assert_eq!(
        agent_http_url(Some("http://a".to_string()), Some("http://b".to_string()), "h", 1),
        "http://a"
    );
    assert_eq!(agent_ws_url(None, "127.0.0.1", 8081), "ws://127.0.0.1:8081");
    assert_eq!(index_agent_url(None, None), "http://localhost:8080");
    assert_eq!(chat_path("abc"), "/chat/abc");
}

#[test]
fn webhook_tokens() {
    assert_eq!(webhook_token(Some("secret".to_string())), "secret");
    let t = webhook_token(None);
    assert_eq!(t.len(), 35);
    assert!(t.starts_with("wh_"));
    assert!(t[3..].chars().all(|c| c.is_ascii_digit() || ('a'..='f').contains(&c)));
    let digits: Vec<char> = t[3..].chars().collect();
    assert_eq!(digits[12], '4');
    assert!(['8', '9', 'a', 'b'].contains(&digits[16]));
    let c = webhook_push_config("task".to_string(), t.clone());
    assert_eq!(c.task_id, "task");
    assert_eq!(c.push_notification_config.url, "http://localhost:3000/webhook/push-notification");
    assert_eq!(c.push_notification_config.token, Some(t));
}

#[test]
fn expense_text() {
    let form = ExpenseSubmitForm {
        category: "Travel".to_string(),
        amount: "42.50".to_string(),
        date: "2024-01-02".to_string(),
        vendor: Some("Air Co".to_string()),
        description: "Flight".to_string(),
        project_code: None,
    };
    assert_eq!(
        expense_details(&form),
        "I need to submit an expense reimbursement:\n\nCategory: Travel\nAmount: $42.50\nDate: 2024-01-02\nVendor: Air Co\nDescription: Flight\n"
    );
    let mut form2 = form.clone();
    form2.vendor = None;
    form2.project_code = Some("P-7".to_string());
    assert_eq!(
        expense_details(&form2),
        "I need to submit an expense reimbursement:\n\nCategory: Travel\nAmount: $42.50\nDate: 2024-01-02\nDescription: Flight\nProject/Cost Center: P-7\n"
    );
    let m = expense_message(&form, "task".to_string(), "msg".to_string());
    assert_eq!(m.role, Role::User);
    assert_eq!(m.task_id, Some("task".to_string()));
    assert_eq!(m.parts, vec![Part::Text { text: expense_details(&form), metadata: None }]);
}

#[test]
fn chat_form_builds_the_message() {
    assert_eq!(chat_field_kind("task_id"), ChatFieldKind::TaskId);
    assert_eq!(chat_field_kind("message"), ChatFieldKind::Message);
    assert_eq!(chat_field_kind("receipt"), ChatFieldKind::Receipt);
    assert_eq!(chat_field_kind("other"), ChatFieldKind::Other);

    let mut form = ChatForm::new();
    form.absorb(ChatField::Receipt {
        file_name: Some("r.txt".to_string()),
        content_type: Some("text/plain".to_string()),
        data: b"hello".to_vec(),
    });
    form.absorb(ChatField::Receipt { file_name: None, content_type: None, data: vec![] });
    form.absorb(ChatField::Other);
    form.absorb(ChatField::Message("see receipt".to_string()));
    form.absorb(ChatField::TaskId("task-1".to_string()));
    let m = chat_message(form, "msg-1".to_string()).unwrap();
    assert_eq!(m.task_id, Some("task-1".to_string()));
    assert_eq!(
        m.parts,
        vec![
            Part::Text { text: "see receipt".to_string(), metadata: None },
            Part::File {
                file: FileContent {
                    bytes: Some("aGVsbG8=".to_string()),
                    uri: None,
                    name: Some("r.txt".to_string()),
                    mime_type: Some("text/plain".to_string()),
                },
                metadata: None,
            },
        ]
    );
}

#[test]
fn chat_form_errors() {
    let mut form = ChatForm::new();
    form.absorb(ChatField::Message("hi".to_string()));
    assert_eq!(chat_message(form, "m".to_string()), Err("Missing task_id".to_string()));
    let mut form = ChatForm::new();
    form.absorb(ChatField::TaskId("t".to_string()));
    assert_eq!(chat_message(form, "m".to_string()), Err("Message cannot be empty".to_string()));
}

#[test]
fn task_page_parameters() {
    let p = tasks_page_params(Some(TaskState::Working), None);
    assert_eq!(p.status, Some(TaskState::Working));
    assert_eq!(p.page_size, Some(50));
    let p = tasks_page_params(None, Some(10));
    assert_eq!(p.page_size, Some(10));
}

#[test]
fn retries_stop_at_the_third_failure() {
    assert_eq!(retry_after_failure(0), Some(1));
    assert_eq!(retry_after_failure(1), Some(2));
    assert_eq!(retry_after_failure(2), None);
}

#[test]
fn webhook_authentication() {
    assert!(push_notification_authorized(Some("Bearer wh_abc"), "wh_abc"));
    assert!(!push_notification_authorized(Some("Bearer wh_abd"), "wh_abc"));
    assert!(!push_notification_authorized(Some("bearer wh_abc"), "wh_abc"));
    assert!(!push_notification_authorized(Some("Bearer"), ""));
    assert!(push_notification_authorized(Some("Bearer "), ""));
    assert!(!push_notification_authorized(None, "wh_abc"));
}

#[test]
fn agent_info_summary_lines() {
    let info = AgentInfoSummary {
        host: "127.0.0.1".to_string(),
        http_port: 8080,
        ws_port: 8081,
        transport: "both".to_string(),
        storage: StorageSummary::InMemory,
        auth: AuthSummary::Open,
    };
    assert_eq!(
        agent_info_lines(&info),
        vec![
            "   📍 Host: 127.0.0.1".to_string(),
            "   🔌 HTTP Port: 8080".to_string(),
            "   📡 WebSocket Port: 8081".to_string(),
            "   ⚙️  Transport: both".to_string(),
            "   💾 Storage: In-memory (non-persistent)".to_string(),
            "   🔓 Authentication: None (public access)".to_string(),
        ]
    );
    let mut other = info.clone();
    other.storage = StorageSummary::Sqlx { url: "sqlite://tasks.db".to_string() };
    other.auth = AuthSummary::BearerToken { token_count: 2, format: Some("jwt".to_string()) };
    let lines = agent_info_lines(&other);
    assert_eq!(lines[4], "   💾 Storage: SQLx (sqlite://tasks.db)");
    assert_eq!(lines[5], "   🔐 Authentication: Bearer token (2 token(s), format: jwt)");
    other.auth = AuthSummary::BearerToken { token_count: 1, format: None };
    assert_eq!(agent_info_lines(&other)[5], "   🔐 Authentication: Bearer token (1 token(s))");
    other.auth = AuthSummary::ApiKey {
        key_count: 12,
        location: "header".to_string(),
        name: "X-API-Key".to_string(),
    };
    assert_eq!(
        agent_info_lines(&other)[5],
        "   🔐 Authentication: API key (header X-API-Key 'X-API-Key', 12 key(s))"
    );
}

fn chat_message_from(text: &str) -> Message {
    Message {
        role: Role::User,
        parts: vec![Part::Text { text: text.to_string(), metadata: None }],
        metadata: None,
        reference_task_ids: None,
        message_id: "m".to_string(),
        task_id: Some("t".to_string()),
        context_id: None,
        extensions: None,
        kind: "message".to_string(),
    }
}

#[test]
fn chat_page_shows_history_and_state() {
    let task = Task {
        id: "t".to_string(),
        context_id: "c".to_string(),
        status: TaskStatus { state: TaskState::InputRequired, message: None, timestamp: None },
        artifacts: None,
        history: Some(vec![chat_message_from("hello")]),
        metadata: None,
        kind: "task".to_string(),
    };
    let page = chat_page("t".to_string(), Some(task.clone()));
    assert_eq!(page.task_id, "t");
    assert_eq!(page.messages, vec![chat_message_from("hello")]);
    assert_eq!(page.task_state, Some("InputRequired".to_string()));
    let mut no_history = task;
    no_history.history = None;
    no_history.status.state = TaskState::Completed;
    let page = chat_page("t".to_string(), Some(no_history));
    assert!(page.messages.is_empty());
    assert_eq!(page.task_state, Some("Completed".to_string()));
    let empty = chat_page("gone".to_string(), None);
    assert_eq!(empty.task_id, "gone");
    assert!(empty.messages.is_empty());
    assert_eq!(empty.task_state, None);
    assert_eq!(task_state_label(&TaskState::AuthRequired), "AuthRequired");
    assert_eq!(task_state_label(&TaskState::Canceled), "Canceled");
}

#[test]
fn steps_after_sending() {
    match after_send(SentFrom::ChatForm, "t".to_string(), "tok".to_string(), Ok(())) {
        FrontendStep::RegisterPush(c) => {
            assert_eq!(c.task_id, "t");
            assert_eq!(c.push_notification_config.token, Some("tok".to_string()));
            assert_eq!(c.push_notification_config.url, "http://localhost:3000/webhook/push-notification");
        }
        other => panic!("unexpected step {:?}", other),
    }
    assert_eq!(
        after_send(SentFrom::ChatForm, "t".to_string(), "tok".to_string(), Err("timeout".to_string())),
        FrontendStep::Fail("Failed to send message: timeout".to_string())
    );
    assert_eq!(
        after_send(SentFrom::ExpenseForm, "t".to_string(), "tok".to_string(), Err("boom".to_string())),
        FrontendStep::Fail("Failed to submit expense: boom".to_string())
    );
    assert_eq!(after_push_registration("t", Ok(())), FrontendStep::Redirect("/chat/t".to_string()));
    assert_eq!(
        after_push_registration("t", Err("refused".to_string())),
        FrontendStep::Redirect("/chat/t".to_string())
    );
    assert_eq!(internal_error_text("Unauthorized"), "Internal server error: Unauthorized");
}

#[test]
fn calls_to_the_agent() {
    let form = ExpenseSubmitForm {
        category: "Travel".to_string(),
        amount: "42.00".to_string(),
        date: "2024-01-02".to_string(),
        vendor: None,
        description: "Taxi".to_string(),
        project_code: None,
    };
    let c = expense_submission(&form);
    assert_eq!(c.task_id.len(), 36);
    assert_eq!(c.task_id.chars().nth(14), Some('4'));
    assert_eq!(c.message.task_id, Some(c.task_id.clone()));
    assert_eq!(c.message.message_id.len(), 36);
    assert_ne!(c.message.message_id, c.task_id);
    assert_eq!(c.message.parts, vec![Part::Text { text: expense_details(&form), metadata: None }]);
    assert_eq!(c.session_id, None);
    assert_eq!(c.history_length, Some(50));
    assert_eq!(CHAT_HISTORY_LENGTH, 50);

    let mut chat = ChatForm::new();
    chat.absorb(ChatField::TaskId("t-9".to_string()));
    chat.absorb(ChatField::Message("hello".to_string()));
    let c = chat_send_call(chat).unwrap();
    assert_eq!(c.task_id, "t-9");
    assert_eq!(c.message.task_id, Some("t-9".to_string()));
    assert_eq!(c.message.parts, vec![Part::Text { text: "hello".to_string(), metadata: None }]);
    assert_eq!(c.message.message_id.chars().nth(14), Some('4'));
    assert_eq!(c.session_id, None);
    assert_eq!(c.history_length, Some(50));
    assert_eq!(chat_send_call(ChatForm::new()), Err("Missing task_id".to_string()));

    assert_eq!(chat_task_query("t-9"), ("t-9".to_string(), Some(50)));
}
