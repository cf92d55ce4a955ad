//! Laws of the decisions of the processor, the client and server, and the
//! demo front end, each stated over all inputs in terms of the inputs and
//! results alone.
use vstd::prelude::*;
use crate::domain::{A2AError, A2AErrorView, TaskState};
use crate::processor::{
    handler_for, spec_finish, spec_reply, spec_plan, A2ARequest, Handler, HandlerCall, Reply,
    RequestKind,
};
use crate::client::task_resource_name;
use crate::server::{spec_grpc_code, spec_task_id_from_name, error_text, GrpcCode};
use crate::demo::{
    decimal, digit_text, spec_url, spec_expense_details, ExpenseSubmitForm, spec_push_authorized, spec_run_mode, spec_transport, spec_chat_form_error,
    AgentTransport, ChatForm, RunMode,
};

verus! {

// ---------------------------------------------------------------------------
// The processor
// ---------------------------------------------------------------------------

/// Which handler makes each call: the message handler processes messages;
/// the notification manager stores and reads the legacy push notification
/// settings; the agent info provider gives the cards; the task manager makes
/// every other call (reads, cancels, listings and push notification configs).
pub proof fn law_call_handlers(c: HandlerCall)
    ensures
        c is ProcessMessage <==> c.spec_handler() == Handler::MessageHandler,
        (c is SetTaskNotification || c is GetTaskNotification) <==> c.spec_handler()
            == Handler::NotificationManager,
        (c is GetAgentCard || c is GetAuthenticatedExtendedCard) <==> c.spec_handler()
            == Handler::AgentInfo,
        (c is GetTask || c is CancelTask || c is ListTasks || c is GetPushNotificationConfig
            || c is ListPushNotificationConfigs || c is DeletePushNotificationConfig) <==> c.spec_handler()
            == Handler::TaskManager,
{
}

/// The reply to a handler's outcome: a value is passed on, except that a
/// deletion is answered with `null`; an error is passed on, except that a
/// resubscription to a task that does not exist yet is answered with `null`.
pub proof fn law_finish<P>(kind: RequestKind, outcome: Result<P, A2AError>)
    ensures
        outcome matches Ok(v) ==> spec_finish(kind, outcome) == (if kind
            == RequestKind::DeleteTaskPushNotificationConfig {
            Ok::<Option<P>, A2AError>(None)
        } else {
            Ok::<Option<P>, A2AError>(Some(v))
        }),
        outcome matches Err(e) ==> spec_finish(kind, outcome) == (if kind
            == RequestKind::TaskResubscription && e is TaskNotFound {
            Ok::<Option<P>, A2AError>(None)
        } else {
            Err::<Option<P>, A2AError>(e)
        }),
{
}

/// A reply keeps the request's identifier; it is a success holding the
/// result exactly when the outcome is one, and otherwise an error with the
/// error's JSON-RPC code and message.
pub proof fn law_reply<I, V>(id: Option<I>, outcome: Result<Option<V>, A2AError>)
    ensures
        outcome matches Ok(v) ==> spec_reply(id, outcome) == (Reply::<I, V>::Success { id, result: v }),
        outcome matches Err(e) ==> spec_reply(id, outcome) == (Reply::<I, V>::Error {
            id,
            code: e.spec_code(),
            message: e.spec_message(),
        }),
{
}

/// The JSON-RPC codes of the errors: parse error -32700, invalid request
/// -32600, method not found -32601, invalid params -32602, task not found
/// -32001, task not cancelable -32002, unsupported operation -32004, invalid
/// response -32006, and -32603 for internal and transport errors.
pub proof fn law_error_codes(e: A2AError)
    ensures
        e is JsonParse ==> e.spec_code() == -32700,
        e is InvalidRequest ==> e.spec_code() == -32600,
        e is MethodNotFound ==> e.spec_code() == -32601,
        e is InvalidParams ==> e.spec_code() == -32602,
        e is TaskNotFound ==> e.spec_code() == -32001,
        e is TaskNotCancelable ==> e.spec_code() == -32002,
        e is UnsupportedOperation ==> e.spec_code() == -32004,
        e is InvalidResponse ==> e.spec_code() == -32006,
        (e is Internal || e is TransportError) ==> e.spec_code() == -32603,
{
}

/// Every request but an unknown method is planned to a call that the handler
/// of its method makes.
pub proof fn law_planned_by_method(request: A2ARequest, fresh: String)
    ensures
        spec_plan(request, fresh) matches Ok(c) ==> Some(c.spec_handler()) == handler_for(
            request.spec_kind(),
        ),
        request.spec_kind() == RequestKind::SendMessage ==> handler_for(request.spec_kind()) == Some(
            Handler::MessageHandler,
        ),
        request.spec_kind() == RequestKind::GetTask ==> handler_for(request.spec_kind()) == Some(
            Handler::TaskManager,
        ),
        request.spec_kind() == RequestKind::SetTaskPushNotification ==> handler_for(
            request.spec_kind(),
        ) == Some(Handler::NotificationManager),
        request.spec_kind() == RequestKind::GetExtendedCard ==> handler_for(request.spec_kind())
            == Some(Handler::AgentInfo),
{
}

// ---------------------------------------------------------------------------
// The client and the server
// ---------------------------------------------------------------------------

/// The server reads back the task that the client names: the resource name
/// of a task is `tasks/` followed by its identifier, and for every non-empty
/// identifier the server reads that identifier from it.
pub proof fn law_resource_names(task_id: Seq<char>)
    ensures
        task_resource_name(task_id).len() == task_id.len() + 6,
        task_resource_name(task_id).skip(6) == task_id,
        task_id.len() > 0 ==> spec_task_id_from_name(task_resource_name(task_id)) == Some(task_id),
        spec_task_id_from_name(task_id) matches Some(id) ==> task_resource_name(id) == task_id,
{
    reveal_strlit("tasks/");
    assert(task_resource_name(task_id).skip(6) =~= task_id);
    assert(task_resource_name(task_id).take(6) =~= "tasks/"@);
    if let Some(id) = spec_task_id_from_name(task_id) {
        assert(task_resource_name(id) =~= task_id.take(6) + task_id.skip(6));
        assert(task_id.take(6) + task_id.skip(6) =~= task_id);
    }
}

/// The gRPC status of each error: a missing task is not found, a task that
/// cannot be canceled fails a precondition, bad requests and parameters are
/// invalid arguments, unknown methods and unsupported operations are
/// unimplemented, and every other error is internal; the status carries the
/// error's own message.
pub proof fn law_grpc_codes(e: A2AErrorView)
    ensures
        e is TaskNotFound <==> spec_grpc_code(e) == GrpcCode::NotFound,
        e is TaskNotCancelable <==> spec_grpc_code(e) == GrpcCode::FailedPrecondition,
        (e is InvalidRequest || e is InvalidParams) <==> spec_grpc_code(e) == GrpcCode::InvalidArgument,
        (e is MethodNotFound || e is UnsupportedOperation) <==> spec_grpc_code(e)
            == GrpcCode::Unimplemented,
        (e is Internal || e is JsonParse || e is TransportError || e is InvalidResponse) <==> spec_grpc_code(
            e,
        ) == GrpcCode::Internal,
        e matches A2AErrorView::TaskNotFound(m) ==> error_text(e) == m,
        e matches A2AErrorView::Internal(m) ==> error_text(e) == m,
{
}

// ---------------------------------------------------------------------------
// The demo
// ---------------------------------------------------------------------------

/// A run mode is named by exactly one word: `agent`, `frontend` or `all`;
/// every other word names none.
pub proof fn law_run_mode_words(word: Seq<char>)
    ensures
        spec_run_mode(word) == Some(RunMode::Agent) <==> word == "agent"@,
        spec_run_mode(word) == Some(RunMode::Frontend) <==> word == "frontend"@,
        spec_run_mode(word) == Some(RunMode::All) <==> word == "all"@,
{
    reveal_strlit("agent");
    reveal_strlit("frontend");
    reveal_strlit("all");
    assert("agent"@.len() == 5);
    assert("frontend"@.len() == 8);
    assert("all"@.len() == 3);
}

/// A transport is named by its words: `http`; `websocket` or `ws`; `both` or
/// `all`; every other word names none.
pub proof fn law_transport_words(word: Seq<char>)
    ensures
        spec_transport(word) == Some(AgentTransport::Http) <==> word == "http"@,
        spec_transport(word) == Some(AgentTransport::WebSocket) <==> (word == "websocket"@ || word
            == "ws"@),
        spec_transport(word) == Some(AgentTransport::Both) <==> (word == "both"@ || word == "all"@),
{
    reveal_strlit("http");
    reveal_strlit("websocket");
    reveal_strlit("ws");
    reveal_strlit("both");
    reveal_strlit("all");
    assert("http"@.len() == 4 && "both"@.len() == 4 && "http"@[0] != "both"@[0]);
    assert("websocket"@.len() == 9 && "ws"@.len() == 2 && "all"@.len() == 3);
}

/// A push notification is authentic exactly when its header is `Bearer `
/// followed by the webhook token.
pub proof fn law_push_authorized(header: Option<Seq<char>>, token: Seq<char>)
    ensures
        spec_push_authorized(header, token) <==> header == Some("Bearer "@ + token),
{
    reveal_strlit("Bearer ");
    if let Some(h) = header {
        if spec_push_authorized(header, token) {
            assert(h =~= h.take(7) + h.skip(7));
        }
        if h == "Bearer "@ + token {
            assert(h.take(7) =~= "Bearer "@);
            assert(h.skip(7) =~= token);
        }
    }
}

/// A chat form cannot be sent without a task, whatever else it holds; with a
/// task it cannot be sent only when it has neither text nor receipts.
pub proof fn law_chat_form_errors(form: ChatForm)
    ensures
        form.task_id@.len() == 0 ==> spec_chat_form_error(form) == Some("Missing task_id"@),
        form.task_id@.len() > 0 ==> (spec_chat_form_error(form) is Some <==> (
        form.message_text@.len() == 0 && form.parts@.len() == 0)),
        form.task_id@.len() > 0 && form.message_text@.len() == 0 && form.parts@.len() == 0
            ==> spec_chat_form_error(form) == Some("Message cannot be empty"@),
{
}

/// The numeric value of a text of decimal digits.
pub open spec fn digits_value(s: Seq<char>) -> int
    decreases s.len(),
{
    if s.len() == 0 {
        0
    } else {
        digits_value(s.drop_last()) * 10 + (s.last() as int - 48)
    }
}

/// A decimal digit character.
pub open spec fn is_decimal_digit(c: char) -> bool {
    '0' <= c && c <= '9'
}

proof fn lemma_digit_text(d: nat)
    requires
        d < 10,
    ensures
        digit_text(d).len() == 1,
        digit_text(d)[0] as int == d + 48,
{
    reveal_strlit("0");
    reveal_strlit("1");
    reveal_strlit("2");
    reveal_strlit("3");
    reveal_strlit("4");
    reveal_strlit("5");
    reveal_strlit("6");
    reveal_strlit("7");
    reveal_strlit("8");
    reveal_strlit("9");
}

/// The decimal text of a number (as in ports and counts) consists of digits
/// only, has no leading zero, and reads back as the number.
pub proof fn law_decimal(n: nat)
    ensures
        decimal(n).len() > 0,
        forall|i: int| 0 <= i < decimal(n).len() ==> #[trigger] is_decimal_digit(decimal(n)[i]),
        n > 0 ==> decimal(n)[0] != '0',
        digits_value(decimal(n)) == n,
    decreases n,
{
    if n < 10 {
        lemma_digit_text(n);
        let d = decimal(n);
        assert(d.drop_last().len() == 0);
        assert(digits_value(d.drop_last()) == 0);
    } else {
        law_decimal(n / 10);
        lemma_digit_text(n % 10);
        let front = decimal(n / 10);
        let d = decimal(n);
        assert(d == front + digit_text(n % 10));
        assert(d.drop_last() =~= front);
        assert(d.last() == digit_text(n % 10)[0]);
        assert forall|i: int| 0 <= i < d.len() implies #[trigger] is_decimal_digit(d[i]) by {
            if i < front.len() {
                assert(d[i] == front[i]);
            }
        }
        assert(d[0] == front[0]);
        assert(digits_value(d) == digits_value(front) * 10 + (d.last() as int - 48));
        assert((n / 10) * 10 + n % 10 == n);
    }
}


/// A server URL reads back into its parts: the scheme, then `://`, then the
/// host, then `:`, then the port in decimal digits.
pub proof fn law_url_reads_back(scheme: Seq<char>, host: Seq<char>, port: u16)
    ensures
        ({
            let u = spec_url(scheme, host, port);
            let a = scheme.len() as int;
            let b = a + 3 + host.len();
            &&& u.take(a) == scheme
            &&& u.subrange(a, a + 3) == "://"@
            &&& u.subrange(a + 3, b) == host
            &&& u[b] == ':'
            &&& digits_value(u.skip(b + 1)) == port
        }),
{
    reveal_strlit("://");
    reveal_strlit(":");
    law_decimal(port as nat);
    let u = spec_url(scheme, host, port);
    let a = scheme.len() as int;
    let b = a + 3 + host.len();
    assert(u.take(a) =~= scheme);
    assert(u.subrange(a, a + 3) =~= "://"@);
    assert(u.subrange(a + 3, b) =~= host);
    assert(u.skip(b + 1) =~= decimal(port as nat));
}

/// The text of an expense message names the vendor and the project only when
/// the form gives them: adding a vendor adds exactly the line `Vendor: ` and
/// the vendor, and adding a project exactly the line `Project/Cost Center: `
/// and the project; the text always starts with the request and the
/// category.
pub proof fn law_expense_lines(form: ExpenseSubmitForm, vendor: String, project: String)
    ensures
        spec_expense_details(ExpenseSubmitForm { vendor: Some(vendor), ..form }).len()
            == spec_expense_details(ExpenseSubmitForm { vendor: None, ..form }).len()
            + "Vendor: "@.len() + vendor@.len() + 1,
        spec_expense_details(ExpenseSubmitForm { project_code: Some(project), ..form }).len()
            == spec_expense_details(ExpenseSubmitForm { project_code: None, ..form }).len()
            + "Project/Cost Center: "@.len() + project@.len() + 1,
        spec_expense_details(form).take(
            ("I need to submit an expense reimbursement:\n\nCategory: "@.len() + form.category@.len()) as int,
        ) == "I need to submit an expense reimbursement:\n\nCategory: "@ + form.category@,
{
    reveal_strlit("\n");
    assert("\n"@.len() == 1);
    let head = "I need to submit an expense reimbursement:\n\nCategory: "@ + form.category@;
    assert(spec_expense_details(form).take(head.len() as int) =~= head);
}

} // verus!
