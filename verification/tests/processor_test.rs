use a2a_rs::domain::{
    A2AError, DeleteTaskPushNotificationConfigParams, ListTasksParams, Message, Part, Role,
};
use a2a_rs::processor::{
    finish_request, plan_request, plan_request_with_task_id, reply, A2ARequest,
    DefaultRequestProcessor, Handler, HandlerCall, Reply, RequestKind,
};

fn message(task_id: Option<&str>, context_id: Option<&str>) -> Message {
    Message {
        role: Role::User,
        parts: vec![Part::Text { text: "Start a new task".to_string(), metadata: None }],
        metadata: None,
        reference_task_ids: None,
        message_id: "msg-new-task".to_string(),
        task_id: task_id.map(|s| s.to_string()),
        context_id: context_id.map(|s| s.to_string()),
        extensions: None,
        kind: "message".to_string(),
    }
}

#[test]
fn processor_holds_its_handlers() {
    let p = DefaultRequestProcessor::new(1u8, 2u16, 3u32, "agent");
    assert_eq!(*p.message_handler(), 1);
    assert_eq!(*p.task_manager(), 2);
    assert_eq!(*p.notification_manager(), 3);
    assert_eq!(*p.agent_info(), "agent");
    let q = DefaultRequestProcessor::with_handler("handler".to_string(), 7u8);
    assert_eq!(q.message_handler(), "handler");
    assert_eq!(q.task_manager(), "handler");
    assert_eq!(q.notification_manager(), "handler");
    assert_eq!(*q.agent_info(), 7);
}

#[test]
fn message_send_without_task_gets_a_fresh_task_id() {
    let r = plan_request(A2ARequest::SendMessage { message: message(None, None) }).unwrap();
    match r {
        HandlerCall::ProcessMessage { task_id, message, session_id } => {
            assert_eq!(task_id.len(), 36);
            for (i, c) in task_id.chars().enumerate() {
                if i == 8 || i == 13 || i == 18 || i == 23 {
                    assert_eq!(c, '-');
                } else {
                    assert!(c.is_ascii_digit() || ('a'..='f').contains(&c));
                }
            }
            let chars: Vec<char> = task_id.chars().collect();
            assert_eq!(chars[14], '4');
            assert!(['8', '9', 'a', 'b'].contains(&chars[19]));
            assert_eq!(session_id, None);
            assert_eq!(message.message_id, "msg-new-task");
        }
        other => panic!("unexpected call {:?}", other),
    }
}

#[test]
fn message_send_continues_the_named_task_in_its_context() {
    let r = plan_request(A2ARequest::SendMessage {
        message: message(Some("task-existing-123"), Some("ctx-conversation-456")),
    })
    .unwrap();
    assert_eq!(
        r,
        HandlerCall::ProcessMessage {
            task_id: "task-existing-123".to_string(),
            message: message(Some("task-existing-123"), Some("ctx-conversation-456")),
            session_id: Some("ctx-conversation-456".to_string()),
        }
    );
}

#[test]
fn message_stream_uses_the_given_fresh_id() {
    let r = plan_request_with_task_id(
        A2ARequest::SendMessageStreaming { message: message(None, Some("ctx")) },
        "fresh-id".to_string(),
    )
    .unwrap();
    assert_eq!(
        r,
        HandlerCall::ProcessMessage {
            task_id: "fresh-id".to_string(),
            message: message(None, Some("ctx")),
            session_id: Some("ctx".to_string()),
        }
    );
}

#[test]
fn legacy_send_uses_its_task_and_session() {
    let r = plan_request(A2ARequest::SendTask {
        task_id: "task-legacy-123".to_string(),
        session_id: Some("s".to_string()),
        message: message(None, None),
    })
    .unwrap();
    assert_eq!(
        r,
        HandlerCall::ProcessMessage {
            task_id: "task-legacy-123".to_string(),
            message: message(None, None),
            session_id: Some("s".to_string()),
        }
    );
}

#[test]
fn list_tasks_without_params_uses_defaults() {
    let r = plan_request(A2ARequest::ListTasks { params: None }).unwrap();
    assert_eq!(r, HandlerCall::ListTasks { params: ListTasksParams::default() });
    let mut p = ListTasksParams::default();
    p.page_size = Some(25);
    let r = plan_request(A2ARequest::ListTasks { params: Some(p.clone()) }).unwrap();
    assert_eq!(r, HandlerCall::ListTasks { params: p });
}

#[test]
fn missing_config_params_are_invalid() {
    let r = plan_request(A2ARequest::GetTaskPushNotificationConfig { params: None });
    assert_eq!(
        r,
        Err(A2AError::InvalidParams("Missing params for get push notification config".to_string()))
    );
}

#[test]
fn unknown_method_is_not_found() {
    let r = plan_request(A2ARequest::Generic { method: "tasks/frobnicate".to_string() });
    assert_eq!(r, Err(A2AError::MethodNotFound("Method 'tasks/frobnicate' not found".to_string())));
}

#[test]
fn other_requests_map_to_their_handler_calls() {
    assert_eq!(
        plan_request(A2ARequest::TaskResubscription { task_id: "t".to_string(), history_length: Some(3) }),
        Ok(HandlerCall::GetTask { task_id: "t".to_string(), history_length: Some(3) })
    );
    assert_eq!(
        plan_request(A2ARequest::CancelTask { task_id: "t".to_string() }),
        Ok(HandlerCall::CancelTask { task_id: "t".to_string() })
    );
    assert_eq!(plan_request(A2ARequest::GetExtendedCard), Ok(HandlerCall::GetAgentCard));
    assert_eq!(
        plan_request(A2ARequest::GetAuthenticatedExtendedCard),
        Ok(HandlerCall::GetAuthenticatedExtendedCard)
    );
    let params = DeleteTaskPushNotificationConfigParams {
        id: "task-delete-123".to_string(),
        push_notification_config_id: "config-delete-456".to_string(),
        metadata: None,
    };
    assert_eq!(
        plan_request(A2ARequest::DeleteTaskPushNotificationConfig { params: params.clone() }),
        Ok(HandlerCall::DeletePushNotificationConfig { params })
    );
}

#[test]
fn request_kinds() {
    assert_eq!(A2ARequest::GetExtendedCard.kind(), RequestKind::GetExtendedCard);
    assert_eq!(
        A2ARequest::Generic { method: "x".to_string() }.kind(),
        RequestKind::Generic
    );
}

#[test]
fn replies_shape_handler_outcomes() {
    assert_eq!(finish_request(RequestKind::GetTask, Ok::<u8, A2AError>(4)), Ok(Some(4)));
    assert_eq!(
        finish_request(RequestKind::DeleteTaskPushNotificationConfig, Ok::<u8, A2AError>(4)),
        Ok(None)
    );
    assert_eq!(
        finish_request(
            RequestKind::TaskResubscription,
            Err::<u8, A2AError>(A2AError::TaskNotFound("t".to_string()))
        ),
        Ok(None)
    );
    assert_eq!(
        finish_request(
            RequestKind::GetTask,
            Err::<u8, A2AError>(A2AError::TaskNotFound("t".to_string()))
        ),
        Err(A2AError::TaskNotFound("t".to_string()))
    );
    assert_eq!(
        finish_request(
            RequestKind::TaskResubscription,
            Err::<u8, A2AError>(A2AError::Internal("x".to_string()))
        ),
        Err(A2AError::Internal("x".to_string()))
    );
}

#[test]
fn cloned_processor_shares_handlers() {
    let p = DefaultRequestProcessor::new(1u8, 2u16, 3u32, 4u64);
    let q = p.clone();
    assert_eq!(*q.message_handler(), 1);
    assert_eq!(*q.task_manager(), 2);
    assert_eq!(*q.notification_manager(), 3);
    assert_eq!(*q.agent_info(), 4);
}

#[test]
fn each_call_is_made_by_its_handler() {
    let send = plan_request(A2ARequest::SendTask {
        task_id: "t".to_string(),
        session_id: None,
        message: message(Some("t"), None),
    })
    .unwrap();
    assert_eq!(send.handler(), Handler::MessageHandler);
    let get = plan_request(A2ARequest::TaskResubscription { task_id: "t".to_string(), history_length: None })
        .unwrap();
    assert_eq!(get.handler(), Handler::TaskManager);
    let notify = plan_request(A2ARequest::GetTaskPushNotification { task_id: "t".to_string() }).unwrap();
    assert_eq!(notify.handler(), Handler::NotificationManager);
    let card = plan_request(A2ARequest::GetAuthenticatedExtendedCard).unwrap();
    assert_eq!(card.handler(), Handler::AgentInfo);
    let list = plan_request(A2ARequest::ListTasks { params: None }).unwrap();
    assert_eq!(list.handler(), Handler::TaskManager);
}

#[test]
fn replies_carry_the_result_or_the_error() {
    let ok: Reply<u32, &str> = reply(Some(7), Ok(Some("task")));
    assert_eq!(ok, Reply::Success { id: Some(7), result: Some("task") });
    let null: Reply<u32, &str> = reply(Some(8), Ok(None));
    assert_eq!(null, Reply::Success { id: Some(8), result: None });
    let unknown: Reply<u32, &str> =
        reply(Some(9), Err(A2AError::MethodNotFound("Method 'x' not found".to_string())));
    assert_eq!(
        unknown,
        Reply::Error { id: Some(9), code: -32601, message: "Method 'x' not found".to_string() }
    );
    let unread: Reply<u32, &str> = reply(None, Err(A2AError::JsonParse("bad".to_string())));
    assert_eq!(unread, Reply::Error { id: None, code: -32700, message: "bad".to_string() });
}
