use a2a_rs::client::{
    cancel_task_request, get_task_request, list_tasks_request, send_message_request,
    task_from_response, task_from_send_response, tasks_from_list_response, transport_error,
};
use a2a_rs::domain::{A2AError, Message, Part, Role};
use a2a_rs::proto;

fn message() -> Message {
    Message {
        role: Role::User,
        parts: vec![Part::Text { text: "hi".to_string(), metadata: None }],
        metadata: None,
        reference_task_ids: None,
        message_id: "m".to_string(),
        task_id: None,
        context_id: None,
        extensions: None,
        kind: "message".to_string(),
    }
}

fn wire_task() -> proto::Task {
    proto::Task {
        id: "t".to_string(),
        context_id: "c".to_string(),
        status: None,
        artifacts: vec![],
        history: vec![],
        metadata: None,
    }
}

#[test]
fn requests_name_tasks_as_resources() {
    let g = get_task_request("task-1", Some(5));
    assert_eq!(g.name, "tasks/task-1");
    assert_eq!(g.history_length, Some(5));
    assert_eq!(g.tenant, "");
    let c = cancel_task_request("task-2", None);
    assert_eq!(c.name, "tasks/task-2");
    assert_eq!(c.reason, "");
    let c = cancel_task_request("task-2", Some("done".to_string()));
    assert_eq!(c.reason, "done");
}

#[test]
fn list_request_defaults_page_size() {
    let l = list_tasks_request(None, None);
    assert_eq!(l.page_size, 50);
    assert_eq!(l.page_token, "");
    let l = list_tasks_request(Some(10), Some("p2".to_string()));
    assert_eq!(l.page_size, 10);
    assert_eq!(l.page_token, "p2");
}

#[test]
fn send_request_carries_the_converted_message() {
    let r = send_message_request("task-9", &message(), Some("ctx".to_string())).unwrap();
    assert_eq!(r.task_id, "task-9");
    assert_eq!(r.context_id, "ctx");
    assert_eq!(r.message.unwrap().message_id, "m");
    let r = send_message_request("task-9", &message(), None).unwrap();
    assert_eq!(r.context_id, "");
}

#[test]
fn responses_are_read() {
    assert_eq!(
        task_from_send_response(proto::SendMessageResponse { task: None }),
        Err(A2AError::InvalidResponse("No task in response".to_string()))
    );
    let unsupported = Err(A2AError::UnsupportedOperation("Conversion not yet implemented".to_string()));
    assert_eq!(task_from_send_response(proto::SendMessageResponse { task: Some(wire_task()) }), unsupported);
    assert_eq!(task_from_response(wire_task()), unsupported);
    assert_eq!(
        tasks_from_list_response(proto::ListTasksResponse {
            tasks: vec![],
            next_page_token: String::new(),
            page_size: 50,
            total_size: 0,
        }),
        Ok(vec![])
    );
    assert_eq!(
        tasks_from_list_response(proto::ListTasksResponse {
            tasks: vec![wire_task(), wire_task()],
            next_page_token: String::new(),
            page_size: 50,
            total_size: 2,
        }),
        Err(A2AError::UnsupportedOperation("Conversion not yet implemented".to_string()))
    );
    assert_eq!(
        transport_error("unavailable"),
        A2AError::TransportError("gRPC error: unavailable".to_string())
    );
}
