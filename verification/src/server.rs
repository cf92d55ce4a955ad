//! The decisions of the gRPC server: which task a request names, what a
//! request to send a message becomes, which page of tasks a listing asks for,
//! and the gRPC status that answers an error. Serving the calls is left to the
//! caller's transport.
use vstd::prelude::*;
use vstd::string::{StringExecFns, StrSliceExecFns};
use crate::convert::{
    convert_all, from_proto_message, lemma_convert_all_err_prefix, lemma_convert_all_step,
    spec_from_proto_message, spec_to_proto_task, to_proto_task,
};
use crate::domain::{A2AError, A2AErrorView, ListTasksParams, Message, Task, TaskView};
use crate::ids::{is_random_id_text, new_task_id};
use crate::proto;

verus! {

/// The gRPC status codes that the server answers with.
#[derive(Clone, Copy, Debug, PartialEq, Eq, Structural)]
pub enum GrpcCode {
    InvalidArgument,
    NotFound,
    FailedPrecondition,
    Unimplemented,
    Internal,
}

/// A gRPC status: its code and message.
#[derive(Clone, Debug, PartialEq, Eq)]
pub struct GrpcStatus {
    pub code: GrpcCode,
    pub message: String,
}

/// The code of the gRPC status that answers an error: a missing task is not
/// found, a task that cannot be canceled fails a precondition, a bad request
/// or bad parameters are invalid arguments, an unknown method or unsupported
/// operation is unimplemented, and anything else is internal.
pub open spec fn spec_grpc_code(e: A2AErrorView) -> GrpcCode {
    match e {
        A2AErrorView::TaskNotFound(_) => GrpcCode::NotFound,
        A2AErrorView::TaskNotCancelable(_) => GrpcCode::FailedPrecondition,
        A2AErrorView::InvalidRequest(_) => GrpcCode::InvalidArgument,
        A2AErrorView::InvalidParams(_) => GrpcCode::InvalidArgument,
        A2AErrorView::MethodNotFound(_) => GrpcCode::Unimplemented,
        A2AErrorView::UnsupportedOperation(_) => GrpcCode::Unimplemented,
        _ => GrpcCode::Internal,
    }
}

/// The message carried by an error view.
pub open spec fn error_text(e: A2AErrorView) -> Seq<char> {
    match e {
        A2AErrorView::InvalidRequest(m) => m,
        A2AErrorView::MethodNotFound(m) => m,
        A2AErrorView::InvalidParams(m) => m,
        A2AErrorView::Internal(m) => m,
        A2AErrorView::TaskNotFound(m) => m,
        A2AErrorView::TaskNotCancelable(m) => m,
        A2AErrorView::UnsupportedOperation(m) => m,
        A2AErrorView::JsonParse(m) => m,
        A2AErrorView::TransportError(m) => m,
        A2AErrorView::InvalidResponse(m) => m,
    }
}

/// `s` is the gRPC status that answers the error `e`: its code, and the
/// error's message.
pub open spec fn answers(s: GrpcStatus, e: A2AErrorView) -> bool {
    s.code == spec_grpc_code(e) && s.message@ == error_text(e)
}

/// The gRPC status that answers an error, with the error's message.
pub fn grpc_status(e: &A2AError) -> (s: GrpcStatus)
    ensures
        answers(s, e@),
{
    let code = match e {
        A2AError::TaskNotFound(_) => GrpcCode::NotFound,
        A2AError::TaskNotCancelable(_) => GrpcCode::FailedPrecondition,
        A2AError::InvalidRequest(_) => GrpcCode::InvalidArgument,
        A2AError::InvalidParams(_) => GrpcCode::InvalidArgument,
        A2AError::MethodNotFound(_) => GrpcCode::Unimplemented,
        A2AError::UnsupportedOperation(_) => GrpcCode::Unimplemented,
        _ => GrpcCode::Internal,
    };
    GrpcStatus { code, message: e.message().clone() }
}

/// The task that a resource name `tasks/{task_id}` names, if the name has
/// that form with a non-empty identifier.
pub open spec fn spec_task_id_from_name(name: Seq<char>) -> Option<Seq<char>> {
    if name.len() > 6 && name.take(6) == "tasks/"@ {
        Some(name.skip(6))
    } else {
        None
    }
}

/// The status that refuses a resource name that names no task.
pub open spec fn invalid_name_text() -> Seq<char> {
    "Invalid task name format"@
}

/// The task that a resource name `tasks/{task_id}` names; any other name is
/// refused as an invalid argument.
pub fn task_id_from_name(name: &str) -> (r: Result<String, GrpcStatus>)
    ensures
        match r {
            Ok(id) => spec_task_id_from_name(name@) == Some(id@),
            Err(s) => spec_task_id_from_name(name@) is None && s.code == GrpcCode::InvalidArgument
                && s.message@ == invalid_name_text(),
        },
{
    proof {
        reveal_strlit("tasks/");
    }
    let n = name.unicode_len();
    if n > 6 {
        let prefix = name.substring_char(0, 6);
        if String::from_str(prefix) == String::from_str("tasks/") {
            let id = name.substring_char(6, n);
            return Ok(String::from_str(id));
        }
    }
    Err(GrpcStatus { code: GrpcCode::InvalidArgument, message: String::from_str("Invalid task name format") })
}

/// The status that refuses a `SendMessage` request without a message.
pub open spec fn missing_message_text() -> Seq<char> {
    "Missing message"@
}

/// What a `SendMessage` request asks the message handler to do: process the
/// message for a task in a session.
#[derive(Clone, Debug, PartialEq)]
pub struct MessageCall {
    pub task_id: String,
    pub message: Message,
    pub session_id: Option<String>,
}

/// What a `SendMessage` request asks for: the request's message read from the
/// wire, handled in the task it names (else a fresh random task) and in the
/// session of its context; or the status that refuses the request (no
/// message, or a message that cannot be read).
pub fn send_message_call(request: proto::SendMessageRequest) -> (r: Result<MessageCall, GrpcStatus>)
    ensures
        match request.message {
            None => r matches Err(s) && s.code == GrpcCode::InvalidArgument && s.message@
                == missing_message_text(),
            Some(pm) => match spec_from_proto_message(pm@) {
                Err(e) => r matches Err(s) && answers(s, e),
                Ok(mv) => r matches Ok(c) && {
                    &&& c.message@ == mv
                    &&& c.session_id == c.message.context_id
                    &&& match c.message.task_id {
                        Some(t) => c.task_id == t,
                        None => is_random_id_text(c.task_id@),
                    }
                },
            },
        },
{
    let pm = match request.message {
        Some(pm) => pm,
        None => {
            return Err(
                GrpcStatus { code: GrpcCode::InvalidArgument, message: String::from_str("Missing message") },
            );
        },
    };
    let message = match from_proto_message(pm) {
        Ok(m) => m,
        Err(e) => return Err(grpc_status(&e)),
    };
    let task_id = match &message.task_id {
        Some(t) => t.clone(),
        None => new_task_id(),
    };
    let session_id = match &message.context_id {
        Some(c) => Some(c.clone()),
        None => None,
    };
    Ok(MessageCall { task_id, message, session_id })
}

/// The number of tasks a listing asks for when the request names none.
pub const SERVER_PAGE_SIZE: i32 = 50;

/// The parameters with which the server lists tasks for a `ListTasks`
/// request: its page size, or 50 where it names none (zero or less), and its
/// page token where it has one; nothing else is filtered.
pub fn list_tasks_params(request: &proto::ListTasksRequest) -> (p: ListTasksParams)
    ensures
        p.page_size == Some(if request.page_size > 0 { request.page_size } else { SERVER_PAGE_SIZE }),
        match p.page_token {
            Some(t) => request.page_token@.len() > 0 && t@ == request.page_token@,
            None => request.page_token@.len() == 0,
        },
        p.context_id is None,
        p.status is None,
        p.history_length is None,
        p.include_artifacts is None,
        p.last_updated_after is None,
        p.metadata is None,
{
    let mut params = ListTasksParams::default();
    params.page_size = Some(if request.page_size > 0 { request.page_size } else { SERVER_PAGE_SIZE });
    params.page_token = if request.page_token.as_str().is_empty() {
        None
    } else {
        Some(request.page_token.clone())
    };
    params
}

/// The views of a list of domain tasks.
pub open spec fn tasks_view(v: Seq<Task>) -> Seq<TaskView> {
    v.map_values(|t: Task| t@)
}

/// The views of a list of wire tasks.
pub open spec fn wire_tasks_view(v: Seq<proto::Task>) -> Seq<proto::TaskView> {
    v.map_values(|t: proto::Task| t@)
}

/// The task conversion to the wire, as a function value.
pub open spec fn to_proto_task_fn() -> spec_fn(TaskView) -> Result<proto::TaskView, A2AErrorView> {
    |t: TaskView| spec_to_proto_task(t)
}

/// The `ListTasks` response for one page of tasks: each task sent in order,
/// with the page's next token, page size and total size; or the error of the
/// first task that cannot be sent.
pub fn list_tasks_response(tasks: &Vec<Task>, next_page_token: String, page_size: i32, total_size: i32) -> (r:
    Result<proto::ListTasksResponse, A2AError>)
    ensures
        match r {
            Ok(resp) => {
                &&& convert_all(tasks_view(tasks@), to_proto_task_fn()) == Ok::<
                    Seq<proto::TaskView>,
                    A2AErrorView,
                >(wire_tasks_view(resp.tasks@))
                &&& resp.next_page_token == next_page_token
                &&& resp.page_size == page_size
                &&& resp.total_size == total_size
            },
            Err(e) => convert_all(tasks_view(tasks@), to_proto_task_fn()) == Err::<
                Seq<proto::TaskView>,
                A2AErrorView,
            >(e@),
        },
{
    let ghost xs = tasks_view(tasks@);
    let mut out: Vec<proto::Task> = Vec::new();
    let mut i: usize = 0;
    assert(xs.take(0) =~= Seq::<TaskView>::empty());
    assert(wire_tasks_view(out@) =~= Seq::<proto::TaskView>::empty());
    while i < tasks.len()
        invariant
            i <= tasks.len(),
            xs == tasks_view(tasks@),
            convert_all(xs.take(i as int), to_proto_task_fn()) == Ok::<
                Seq<proto::TaskView>,
                A2AErrorView,
            >(wire_tasks_view(out@)),
        decreases tasks.len() - i,
    {
        proof {
            lemma_convert_all_step(xs, to_proto_task_fn(), i as int);
        }
        match to_proto_task(&tasks[i]) {
            Ok(q) => {
                let ghost before = out@;
                out.push(q);
                assert(wire_tasks_view(out@) =~= wire_tasks_view(before).push(q@));
            },
            Err(e) => {
                proof {
                    lemma_convert_all_err_prefix(xs, to_proto_task_fn(), i + 1);
                }
                return Err(e);
            },
        }
        i = i + 1;
    }
    assert(xs.take(i as int) =~= xs);
    Ok(proto::ListTasksResponse { tasks: out, next_page_token, page_size, total_size })
}

} // verus!
