use a2a_rs::convert::to_proto_task;
use a2a_rs::domain::{A2AError, Task, TaskState, TaskStatus};
use a2a_rs::proto;
use a2a_rs::server::{
    grpc_status, list_tasks_params, list_tasks_response, send_message_call, task_id_from_name,
    GrpcCode, GrpcStatus,
};

fn wire_message(task_id: &str, context_id: &str) -> proto::Message {
    proto::Message {
        message_id: "m-1".to_string(),
        context_id: context_id.to_string(),
        task_id: task_id.to_string(),
        role: 1,
        parts: vec![proto::Part { part: Some(proto::PartContent::Text("hi".to_string())), metadata: None }],
        metadata: None,
        extensions: vec![],
        reference_task_ids: vec![],
    }
}

fn send_request(message: Option<proto::Message>) -> proto::SendMessageRequest {
    proto::SendMessageRequest {
        message,
        task_id: String::new(),
        context_id: String::new(),
        tenant: String::new(),
    }
}

#[test]
fn resource_names_name_tasks() {
    assert_eq!(task_id_from_name("tasks/task-123"), Ok("task-123".to_string()));
    let invalid = GrpcStatus { code: GrpcCode::InvalidArgument, message: "Invalid task name format".to_string() };
    assert_eq!(task_id_from_name("tasks/"), Err(invalid.clone()));
    assert_eq!(task_id_from_name("task-123"), Err(invalid.clone()));
    assert_eq!(task_id_from_name("jobs/task-123"), Err(invalid));
}

#[test]
fn errors_become_grpc_statuses() {
    assert_eq!(
        grpc_status(&A2AError::TaskNotFound("Task not found".to_string())),
        GrpcStatus { code: GrpcCode::NotFound, message: "Task not found".to_string() }
    );
    assert_eq!(
        grpc_status(&A2AError::TaskNotCancelable("Task not cancelable".to_string())).code,
        GrpcCode::FailedPrecondition
    );
    assert_eq!(grpc_status(&A2AError::InvalidParams("x".to_string())).code, GrpcCode::InvalidArgument);
    assert_eq!(grpc_status(&A2AError::UnsupportedOperation("x".to_string())).code, GrpcCode::Unimplemented);
    assert_eq!(grpc_status(&A2AError::Internal("x".to_string())).code, GrpcCode::Internal);
}

#[test]
fn send_message_requests_become_handler_calls() {
    let c = send_message_call(send_request(Some(wire_message("t-1", "ctx")))).unwrap();
    assert_eq!(c.task_id, "t-1");
    assert_eq!(c.session_id, Some("ctx".to_string()));
    assert_eq!(c.message.message_id, "m-1");
    let fresh = send_message_call(send_request(Some(wire_message("", "")))).unwrap();
    assert_eq!(fresh.task_id.len(), 36);
    assert_eq!(fresh.task_id.chars().nth(14), Some('4'));
    assert_eq!(fresh.session_id, None);
    assert_eq!(
        send_message_call(send_request(None)),
        Err(GrpcStatus { code: GrpcCode::InvalidArgument, message: "Missing message".to_string() })
    );
    let mut no_content = wire_message("t", "");
    no_content.parts = vec![proto::Part { part: None, metadata: None }];
    assert_eq!(
        send_message_call(send_request(Some(no_content))),
        Err(GrpcStatus { code: GrpcCode::InvalidArgument, message: "Part must have content".to_string() })
    );
}

#[test]
fn list_requests_default_to_fifty_tasks() {
    let request = proto::ListTasksRequest {
        page_size: 0,
        page_token: String::new(),
        filter: String::new(),
        order_by: String::new(),
        tenant: String::new(),
    };
    let p = list_tasks_params(&request);
    assert_eq!(p.page_size, Some(50));
    assert_eq!(p.page_token, None);
    let mut sized = request.clone();
    sized.page_size = 10;
    sized.page_token = "next".to_string();
    let p = list_tasks_params(&sized);
    assert_eq!(p.page_size, Some(10));
    assert_eq!(p.page_token, Some("next".to_string()));
}

#[test]
fn list_responses_carry_the_page() {
    let task = Task {
        id: "t".to_string(),
        context_id: "c".to_string(),
        status: TaskStatus { state: TaskState::Working, message: None, timestamp: None },
        artifacts: None,
        history: None,
        metadata: None,
        kind: "task".to_string(),
    };
    let r = list_tasks_response(&vec![task.clone()], "tok".to_string(), 50, 7).unwrap();
    assert_eq!(r.tasks, vec![to_proto_task(&task).unwrap()]);
    assert_eq!(r.next_page_token, "tok");
    assert_eq!(r.page_size, 50);
    assert_eq!(r.total_size, 7);
}
