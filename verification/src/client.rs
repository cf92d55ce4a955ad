//! The computations of the gRPC client: the requests it sends for each
//! operation and what it makes of the responses. Sending them is left to the
//! caller's transport.
use vstd::prelude::*;
use vstd::string::StringExecFns;
use crate::domain::{A2AError, A2AErrorView, Message, Task, TaskView, result_view};
use crate::proto;
use crate::convert::{from_proto_task, reversed, spec_to_proto_message, to_proto_message};

verus! {

/// The resource name of a task: `tasks/{task_id}`.
pub open spec fn task_resource_name(task_id: Seq<char>) -> Seq<char> {
    "tasks/"@ + task_id
}

fn task_name(task_id: &str) -> (s: String)
    ensures
        s@ == task_resource_name(task_id@),
{
    let mut s = String::from_str("tasks/");
    s.append(task_id);
    s
}

/// The `SendMessage` request for a message to the task `task_id`, or the
/// error that stops converting the message: the context is sent empty when
/// absent, and no tenant is named.
pub fn send_message_request(task_id: &str, message: &Message, context_id: Option<String>) -> (r:
    Result<proto::SendMessageRequest, A2AError>)
    ensures
        match r {
            Ok(req) => spec_to_proto_message(message@) matches Ok(pm) && req.message matches Some(
                m,
            ) && m@ == pm && req.task_id@ == task_id@ && req.context_id@ == match context_id {
                Some(c) => c@,
                None => Seq::<char>::empty(),
            } && req.tenant@ == Seq::<char>::empty(),
            Err(e) => spec_to_proto_message(message@) == Err::<proto::MessageView, A2AErrorView>(
                e@,
            ),
        },
{
    let m = match to_proto_message(message) {
        Ok(m) => m,
        Err(e) => return Err(e),
    };
    let context_id = match context_id {
        Some(c) => c,
        None => String::new(),
    };
    Ok(
        proto::SendMessageRequest {
            message: Some(m),
            task_id: task_id.to_owned(),
            context_id,
            tenant: String::new(),
        },
    )
}

/// The `GetTask` request for the task `task_id`.
pub fn get_task_request(task_id: &str, history_length: Option<i32>) -> (r: proto::GetTaskRequest)
    ensures
        r.name@ == task_resource_name(task_id@),
        r.history_length == history_length,
        r.tenant@ == Seq::<char>::empty(),
{
    proto::GetTaskRequest { name: task_name(task_id), history_length, tenant: String::new() }
}

/// The `CancelTask` request for the task `task_id`; an absent reason is sent
/// empty.
pub fn cancel_task_request(task_id: &str, reason: Option<String>) -> (r: proto::CancelTaskRequest)
    ensures
        r.name@ == task_resource_name(task_id@),
        r.reason@ == match reason {
            Some(s) => s@,
            None => Seq::<char>::empty(),
        },
        r.tenant@ == Seq::<char>::empty(),
{
    let reason = match reason {
        Some(s) => s,
        None => String::new(),
    };
    proto::CancelTaskRequest { name: task_name(task_id), reason, tenant: String::new() }
}

/// The page size asked for when the caller names none.
pub const DEFAULT_PAGE_SIZE: i32 = 50;

/// The `ListTasks` request: the page size defaults to 50, an absent page
/// token is sent empty, and no filter, order or tenant is named.
pub fn list_tasks_request(page_size: Option<i32>, page_token: Option<String>) -> (r:
    proto::ListTasksRequest)
    ensures
        r.page_size == match page_size {
            Some(n) => n,
            None => DEFAULT_PAGE_SIZE,
        },
        r.page_token@ == match page_token {
            Some(s) => s@,
            None => Seq::<char>::empty(),
        },
        r.filter@ == Seq::<char>::empty(),
        r.order_by@ == Seq::<char>::empty(),
        r.tenant@ == Seq::<char>::empty(),
{
    let page_token = match page_token {
        Some(s) => s,
        None => String::new(),
    };
    proto::ListTasksRequest {
        page_size: match page_size {
            Some(n) => n,
            None => DEFAULT_PAGE_SIZE,
        },
        page_token,
        filter: String::new(),
        order_by: String::new(),
        tenant: String::new(),
    }
}

/// The error for a failed gRPC call whose status reads `status`.
pub fn transport_error(status: &str) -> (e: A2AError)
    ensures
        e@ == A2AErrorView::TransportError("gRPC error: "@ + status@),
{
    let mut text = String::from_str("gRPC error: ");
    text.append(status);
    A2AError::TransportError(text)
}

/// The error of every task read from the wire: reading wire tasks is not
/// supported.
pub open spec fn unsupported_task_conversion() -> A2AErrorView {
    A2AErrorView::UnsupportedOperation("Conversion not yet implemented"@)
}

/// The task in a `SendMessage` response: a response without a task is an
/// invalid response; a task is read with `from_proto_task`, which does not
/// support it.
pub fn task_from_send_response(response: proto::SendMessageResponse) -> (r: Result<Task, A2AError>)
    ensures
        result_view(r) == match response.task {
            Some(_) => Err::<TaskView, A2AErrorView>(unsupported_task_conversion()),
            None => Err::<TaskView, A2AErrorView>(
                A2AErrorView::InvalidResponse("No task in response"@),
            ),
        },
{
    match response.task {
        Some(task) => from_proto_task(task),
        None => Err(A2AError::InvalidResponse(String::from_str("No task in response"))),
    }
}

/// The task in a `GetTask` or `CancelTask` response, read with
/// `from_proto_task`, which does not support it.
pub fn task_from_response(task: proto::Task) -> (r: Result<Task, A2AError>)
    ensures
        result_view(r) == Err::<TaskView, A2AErrorView>(unsupported_task_conversion()),
{
    from_proto_task(task)
}

/// The tasks in a `ListTasks` response, each read with `from_proto_task` in
/// order: an empty list is read as no tasks, any other fails as reading its
/// first task does.
pub fn tasks_from_list_response(response: proto::ListTasksResponse) -> (r: Result<
    Vec<Task>,
    A2AError,
>)
    ensures
        response.tasks@.len() == 0 ==> (r matches Ok(v) && v@.len() == 0),
        response.tasks@.len() > 0 ==> (r matches Err(e) && e@ == unsupported_task_conversion()),
{
    let n = response.tasks.len();
    let mut rest = reversed(response.tasks);
    let mut out: Vec<Task> = Vec::new();
    let mut i: usize = 0;
    while i < n
        invariant
            i <= n,
            n == response.tasks@.len(),
            rest.len() == n - i,
            // reading a wire task never succeeds, so no step ends normally
            i == 0,
            out@.len() == 0,
        decreases n - i,
    {
        let task = rest.pop().unwrap();
        match from_proto_task(task) {
            Ok(t) => {
                out.push(t);
            },
            Err(e) => {
                return Err(e);
            },
        }
        i = i + 1;
    }
    Ok(out)
}

} // verus!
