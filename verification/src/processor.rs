//! The default JSON-RPC request processor: it holds the business handlers,
//! decides for each request which handler call answers it, and shapes the
//! handler's outcome into the reply. Running the (asynchronous) handler
//! calls is left to the caller.
use std::sync::Arc;
use vstd::prelude::*;
use vstd::string::StringExecFns;
use crate::ids::{is_random_id_text, new_task_id};
use crate::domain::{
    A2AError, A2AErrorView, DeleteTaskPushNotificationConfigParams,
    GetTaskPushNotificationConfigParams, ListTaskPushNotificationConfigParams, ListTasksParams,
    Message, TaskPushNotificationConfig,
};

verus! {

/// `Arc::clone`: another handle on the same value.
#[verifier::external_body]
fn share<T>(a: &Arc<T>) -> (r: Arc<T>)
    ensures
        r == *a,
{
    a.clone()
}

/// Default implementation of a request processor that routes requests to business handlers
pub struct DefaultRequestProcessor<M, T, N, A> {
    /// Message handler
    message_handler: Arc<M>,
    /// Task manager
    task_manager: Arc<T>,
    /// Notification manager
    notification_manager: Arc<N>,
    /// Agent info provider
    agent_info: Arc<A>,
}

impl<M, T, N, A> DefaultRequestProcessor<M, T, N, A> {
    /// The handler of messages.
    pub closed spec fn spec_message_handler(&self) -> M {
        *self.message_handler
    }

    /// The manager of tasks.
    pub closed spec fn spec_task_manager(&self) -> T {
        *self.task_manager
    }

    /// The manager of push notifications.
    pub closed spec fn spec_notification_manager(&self) -> N {
        *self.notification_manager
    }

    /// The provider of the agent card.
    pub closed spec fn spec_agent_info(&self) -> A {
        *self.agent_info
    }

    /// Create a new request processor with the given handlers
    pub fn new(message_handler: M, task_manager: T, notification_manager: N, agent_info: A) -> (r:
        Self)
        ensures
            r.spec_message_handler() == message_handler,
            r.spec_task_manager() == task_manager,
            r.spec_notification_manager() == notification_manager,
            r.spec_agent_info() == agent_info,
    {
        DefaultRequestProcessor {
            message_handler: Arc::new(message_handler),
            task_manager: Arc::new(task_manager),
            notification_manager: Arc::new(notification_manager),
            agent_info: Arc::new(agent_info),
        }
    }

    /// The handler of messages.
    pub fn message_handler(&self) -> (r: &M)
        ensures
            *r == self.spec_message_handler(),
    {
        &*self.message_handler
    }

    /// The manager of tasks.
    pub fn task_manager(&self) -> (r: &T)
        ensures
            *r == self.spec_task_manager(),
    {
        &*self.task_manager
    }

    /// The manager of push notifications.
    pub fn notification_manager(&self) -> (r: &N)
        ensures
            *r == self.spec_notification_manager(),
    {
        &*self.notification_manager
    }

    /// The provider of the agent card.
    pub fn agent_info(&self) -> (r: &A)
        ensures
            *r == self.spec_agent_info(),
    {
        &*self.agent_info
    }
}

impl<M, T, N, A> Clone for DefaultRequestProcessor<M, T, N, A> {
    /// Another processor that shares the same handlers.
    fn clone(&self) -> (r: Self)
        ensures
            r.spec_message_handler() == self.spec_message_handler(),
            r.spec_task_manager() == self.spec_task_manager(),
            r.spec_notification_manager() == self.spec_notification_manager(),
            r.spec_agent_info() == self.spec_agent_info(),
    {
        DefaultRequestProcessor {
            message_handler: share(&self.message_handler),
            task_manager: share(&self.task_manager),
            notification_manager: share(&self.notification_manager),
            agent_info: share(&self.agent_info),
        }
    }
}

impl<H, A> DefaultRequestProcessor<H, H, H, A> {
    /// Create a new request processor with a single handler that implements all traits
    pub fn with_handler(handler: H, agent_info: A) -> (r: Self)
        ensures
            r.spec_message_handler() == handler,
            r.spec_task_manager() == handler,
            r.spec_notification_manager() == handler,
            r.spec_agent_info() == agent_info,
    {
        let handler_arc = Arc::new(handler);
        DefaultRequestProcessor {
            message_handler: share(&handler_arc),
            task_manager: share(&handler_arc),
            notification_manager: handler_arc,
            agent_info: Arc::new(agent_info),
        }
    }
}

/// A JSON-RPC request of the A2A protocol, as far as routing reads it: the
/// method and the parameters that are handed on to the handlers.
#[derive(Clone, Debug, PartialEq)]
pub enum A2ARequest {
    /// `tasks/send` (legacy API).
    SendTask { task_id: String, session_id: Option<String>, message: Message },
    /// `message/send`.
    SendMessage { message: Message },
    /// `tasks/get`.
    GetTask { task_id: String, history_length: Option<u32> },
    /// `tasks/cancel`.
    CancelTask { task_id: String },
    /// `tasks/pushNotification/set`.
    SetTaskPushNotification { config: TaskPushNotificationConfig },
    /// `tasks/pushNotification/get`.
    GetTaskPushNotification { task_id: String },
    /// `tasks/resubscribe`.
    TaskResubscription { task_id: String, history_length: Option<u32> },
    /// `tasks/sendSubscribe` (legacy API).
    SendTaskStreaming { task_id: String, session_id: Option<String>, message: Message },
    /// `message/stream`.
    SendMessageStreaming { message: Message },
    /// `agent/getExtendedCard`.
    GetExtendedCard,
    /// `tasks/list`.
    ListTasks { params: Option<ListTasksParams> },
    /// `tasks/pushNotificationConfig/get`.
    GetTaskPushNotificationConfig { params: Option<GetTaskPushNotificationConfigParams> },
    /// `tasks/pushNotificationConfig/list`.
    ListTaskPushNotificationConfigs { params: ListTaskPushNotificationConfigParams },
    /// `tasks/pushNotificationConfig/delete`.
    DeleteTaskPushNotificationConfig { params: DeleteTaskPushNotificationConfigParams },
    /// `agent/getAuthenticatedExtendedCard`.
    GetAuthenticatedExtendedCard,
    /// Any other method.
    Generic { method: String },
}

/// The method of a request, without its parameters.
#[derive(Clone, Copy, Debug, PartialEq, Eq, Structural)]
pub enum RequestKind {
    SendTask,
    SendMessage,
    GetTask,
    CancelTask,
    SetTaskPushNotification,
    GetTaskPushNotification,
    TaskResubscription,
    SendTaskStreaming,
    SendMessageStreaming,
    GetExtendedCard,
    ListTasks,
    GetTaskPushNotificationConfig,
    ListTaskPushNotificationConfigs,
    DeleteTaskPushNotificationConfig,
    GetAuthenticatedExtendedCard,
    Generic,
}

impl A2ARequest {
    /// The method of the request.
    pub open spec fn spec_kind(&self) -> RequestKind {
        match self {
            A2ARequest::SendTask { .. } => RequestKind::SendTask,
            A2ARequest::SendMessage { .. } => RequestKind::SendMessage,
            A2ARequest::GetTask { .. } => RequestKind::GetTask,
            A2ARequest::CancelTask { .. } => RequestKind::CancelTask,
            A2ARequest::SetTaskPushNotification { .. } => RequestKind::SetTaskPushNotification,
            A2ARequest::GetTaskPushNotification { .. } => RequestKind::GetTaskPushNotification,
            A2ARequest::TaskResubscription { .. } => RequestKind::TaskResubscription,
            A2ARequest::SendTaskStreaming { .. } => RequestKind::SendTaskStreaming,
            A2ARequest::SendMessageStreaming { .. } => RequestKind::SendMessageStreaming,
            A2ARequest::GetExtendedCard => RequestKind::GetExtendedCard,
            A2ARequest::ListTasks { .. } => RequestKind::ListTasks,
            A2ARequest::GetTaskPushNotificationConfig { .. } => RequestKind::GetTaskPushNotificationConfig,
            A2ARequest::ListTaskPushNotificationConfigs { .. } => RequestKind::ListTaskPushNotificationConfigs,
            A2ARequest::DeleteTaskPushNotificationConfig { .. } => RequestKind::DeleteTaskPushNotificationConfig,
            A2ARequest::GetAuthenticatedExtendedCard => RequestKind::GetAuthenticatedExtendedCard,
            A2ARequest::Generic { .. } => RequestKind::Generic,
        }
    }

    /// The method of the request.
    pub fn kind(&self) -> (k: RequestKind)
        ensures
            k == self.spec_kind(),
    {
        match self {
            A2ARequest::SendTask { .. } => RequestKind::SendTask,
            A2ARequest::SendMessage { .. } => RequestKind::SendMessage,
            A2ARequest::GetTask { .. } => RequestKind::GetTask,
            A2ARequest::CancelTask { .. } => RequestKind::CancelTask,
            A2ARequest::SetTaskPushNotification { .. } => RequestKind::SetTaskPushNotification,
            A2ARequest::GetTaskPushNotification { .. } => RequestKind::GetTaskPushNotification,
            A2ARequest::TaskResubscription { .. } => RequestKind::TaskResubscription,
            A2ARequest::SendTaskStreaming { .. } => RequestKind::SendTaskStreaming,
            A2ARequest::SendMessageStreaming { .. } => RequestKind::SendMessageStreaming,
            A2ARequest::GetExtendedCard => RequestKind::GetExtendedCard,
            A2ARequest::ListTasks { .. } => RequestKind::ListTasks,
            A2ARequest::GetTaskPushNotificationConfig { .. } => RequestKind::GetTaskPushNotificationConfig,
            A2ARequest::ListTaskPushNotificationConfigs { .. } => RequestKind::ListTaskPushNotificationConfigs,
            A2ARequest::DeleteTaskPushNotificationConfig { .. } => RequestKind::DeleteTaskPushNotificationConfig,
            A2ARequest::GetAuthenticatedExtendedCard => RequestKind::GetAuthenticatedExtendedCard,
            A2ARequest::Generic { .. } => RequestKind::Generic,
        }
    }

    /// A `message/send` or `message/stream` request whose message names no
    /// task: answering it needs a fresh task identifier.
    pub open spec fn needs_fresh_task_id(&self) -> bool {
        match self {
            A2ARequest::SendMessage { message } => message.task_id is None,
            A2ARequest::SendMessageStreaming { message } => message.task_id is None,
            _ => false,
        }
    }
}

/// The handler call that answers a request.
#[derive(Clone, Debug, PartialEq)]
pub enum HandlerCall {
    /// The message handler processes `message` for the task `task_id` in the
    /// session `session_id`.
    ProcessMessage { task_id: String, message: Message, session_id: Option<String> },
    /// The task manager reads a task with at most `history_length` messages of history.
    GetTask { task_id: String, history_length: Option<u32> },
    /// The task manager cancels a task.
    CancelTask { task_id: String },
    /// The notification manager stores a push notification configuration.
    SetTaskNotification { config: TaskPushNotificationConfig },
    /// The notification manager reads the push notification configuration of a task.
    GetTaskNotification { task_id: String },
    /// The task manager lists tasks.
    ListTasks { params: ListTasksParams },
    /// The task manager reads one push notification configuration.
    GetPushNotificationConfig { params: GetTaskPushNotificationConfigParams },
    /// The task manager lists the push notification configurations of a task.
    ListPushNotificationConfigs { params: ListTaskPushNotificationConfigParams },
    /// The task manager deletes one push notification configuration.
    DeletePushNotificationConfig { params: DeleteTaskPushNotificationConfigParams },
    /// The agent info provider gives the agent card.
    GetAgentCard,
    /// The agent info provider gives the authenticated extended agent card.
    GetAuthenticatedExtendedCard,
}

/// The handler call for a new message: the task is the one the message names,
/// else `fresh`; the session is the message's context.
pub open spec fn spec_message_call(message: Message, fresh: String) -> HandlerCall {
    HandlerCall::ProcessMessage {
        task_id: match message.task_id {
            Some(t) => t,
            None => fresh,
        },
        session_id: message.context_id,
        message,
    }
}

/// The handler call that answers `request`, or the error that answers it
/// without a call; `fresh` is the task identifier used for a new message that
/// names no task.
pub open spec fn spec_plan(request: A2ARequest, fresh: String) -> Result<HandlerCall, A2AErrorView> {
    match request {
        A2ARequest::SendTask { task_id, session_id, message } => Ok(
            HandlerCall::ProcessMessage { task_id, message, session_id },
        ),
        A2ARequest::SendMessage { message } => Ok(spec_message_call(message, fresh)),
        A2ARequest::GetTask { task_id, history_length } => Ok(
            HandlerCall::GetTask { task_id, history_length },
        ),
        A2ARequest::CancelTask { task_id } => Ok(HandlerCall::CancelTask { task_id }),
        A2ARequest::SetTaskPushNotification { config } => Ok(
            HandlerCall::SetTaskNotification { config },
        ),
        A2ARequest::GetTaskPushNotification { task_id } => Ok(
            HandlerCall::GetTaskNotification { task_id },
        ),
        A2ARequest::TaskResubscription { task_id, history_length } => Ok(
            HandlerCall::GetTask { task_id, history_length },
        ),
        A2ARequest::SendTaskStreaming { task_id, session_id, message } => Ok(
            HandlerCall::ProcessMessage { task_id, message, session_id },
        ),
        A2ARequest::SendMessageStreaming { message } => Ok(spec_message_call(message, fresh)),
        A2ARequest::GetExtendedCard => Ok(HandlerCall::GetAgentCard),
        A2ARequest::ListTasks { params } => Ok(
            HandlerCall::ListTasks {
                params: match params {
                    Some(p) => p,
                    None => ListTasksParams::spec_default(),
                },
            },
        ),
        A2ARequest::GetTaskPushNotificationConfig { params } => match params {
            Some(p) => Ok(HandlerCall::GetPushNotificationConfig { params: p }),
            None => Err(
                A2AErrorView::InvalidParams("Missing params for get push notification config"@),
            ),
        },
        A2ARequest::ListTaskPushNotificationConfigs { params } => Ok(
            HandlerCall::ListPushNotificationConfigs { params },
        ),
        A2ARequest::DeleteTaskPushNotificationConfig { params } => Ok(
            HandlerCall::DeletePushNotificationConfig { params },
        ),
        A2ARequest::GetAuthenticatedExtendedCard => Ok(HandlerCall::GetAuthenticatedExtendedCard),
        A2ARequest::Generic { method } => Err(
            A2AErrorView::MethodNotFound("Method '"@ + method@ + "' not found"@),
        ),
    }
}

/// `r` is the planned call or error `planned`.
pub open spec fn plan_is(planned: Result<HandlerCall, A2AErrorView>, r: Result<HandlerCall, A2AError>) -> bool {
    match r {
        Ok(c) => planned == Ok::<HandlerCall, A2AErrorView>(c),
        Err(e) => planned == Err::<HandlerCall, A2AErrorView>(e@),
    }
}

fn message_call(message: Message, fresh: String) -> (c: HandlerCall)
    ensures
        c == spec_message_call(message, fresh),
{
    let task_id = match &message.task_id {
        Some(t) => t.clone(),
        None => fresh,
    };
    let session_id = match &message.context_id {
        Some(c) => Some(c.clone()),
        None => None,
    };
    HandlerCall::ProcessMessage { task_id, message, session_id }
}

/// Decides which handler call answers `request`, using `fresh` as the task
/// identifier of a new message that names no task.
pub fn plan_request_with_task_id(request: A2ARequest, fresh: String) -> (r: Result<
    HandlerCall,
    A2AError,
>)
    ensures
        plan_is(spec_plan(request, fresh), r),
{
    match request {
        A2ARequest::SendTask { task_id, session_id, message } => Ok(
            HandlerCall::ProcessMessage { task_id, message, session_id },
        ),
        A2ARequest::SendMessage { message } => Ok(message_call(message, fresh)),
        A2ARequest::GetTask { task_id, history_length } => Ok(
            HandlerCall::GetTask { task_id, history_length },
        ),
        A2ARequest::CancelTask { task_id } => Ok(HandlerCall::CancelTask { task_id }),
        A2ARequest::SetTaskPushNotification { config } => Ok(
            HandlerCall::SetTaskNotification { config },
        ),
        A2ARequest::GetTaskPushNotification { task_id } => Ok(
            HandlerCall::GetTaskNotification { task_id },
        ),
        A2ARequest::TaskResubscription { task_id, history_length } => Ok(
            HandlerCall::GetTask { task_id, history_length },
        ),
        A2ARequest::SendTaskStreaming { task_id, session_id, message } => Ok(
            HandlerCall::ProcessMessage { task_id, message, session_id },
        ),
        A2ARequest::SendMessageStreaming { message } => Ok(message_call(message, fresh)),
        A2ARequest::GetExtendedCard => Ok(HandlerCall::GetAgentCard),
        A2ARequest::ListTasks { params } => {
            let params = match params {
                Some(p) => p,
                None => ListTasksParams::default(),
            };
            Ok(HandlerCall::ListTasks { params })
        },
        A2ARequest::GetTaskPushNotificationConfig { params } => match params {
            Some(p) => Ok(HandlerCall::GetPushNotificationConfig { params: p }),
            None => Err(
                A2AError::InvalidParams(
                    String::from_str("Missing params for get push notification config"),
                ),
            ),
        },
        A2ARequest::ListTaskPushNotificationConfigs { params } => Ok(
            HandlerCall::ListPushNotificationConfigs { params },
        ),
        A2ARequest::DeleteTaskPushNotificationConfig { params } => Ok(
            HandlerCall::DeletePushNotificationConfig { params },
        ),
        A2ARequest::GetAuthenticatedExtendedCard => Ok(HandlerCall::GetAuthenticatedExtendedCard),
        A2ARequest::Generic { method } => {
            let mut text = String::from_str("Method '");
            text.append(method.as_str());
            text.append("' not found");
            Err(A2AError::MethodNotFound(text))
        },
    }
}

/// Decides which handler call answers `request`; a new message that names no
/// task gets a fresh random (version 4) task identifier in hyphenated form.
pub fn plan_request(request: A2ARequest) -> (r: Result<HandlerCall, A2AError>)
    ensures
        request.needs_fresh_task_id() ==> exists|fresh: String|
            #![trigger spec_plan(request, fresh)]
            is_random_id_text(fresh@) && plan_is(spec_plan(request, fresh), r),
        !request.needs_fresh_task_id() ==> forall|fresh: String|
            #![trigger spec_plan(request, fresh)]
            plan_is(spec_plan(request, fresh), r),
{
    let needs_id = match &request {
        A2ARequest::SendMessage { message } => message.task_id.is_none(),
        A2ARequest::SendMessageStreaming { message } => message.task_id.is_none(),
        _ => false,
    };
    let fresh = if needs_id {
        new_task_id()
    } else {
        String::new()
    };
    let ghost g_request = request;
    let ghost g_fresh = fresh;
    let r = plan_request_with_task_id(request, fresh);
    assert(plan_is(spec_plan(g_request, g_fresh), r));
    r
}

/// One of the four handlers of the processor.
#[derive(Clone, Copy, Debug, PartialEq, Eq, Structural)]
pub enum Handler {
    /// The message handler.
    MessageHandler,
    /// The task manager.
    TaskManager,
    /// The notification manager.
    NotificationManager,
    /// The agent info provider.
    AgentInfo,
}

impl HandlerCall {
    /// The handler that makes the call.
    pub open spec fn spec_handler(&self) -> Handler {
        match self {
            HandlerCall::ProcessMessage { .. } => Handler::MessageHandler,
            HandlerCall::GetTask { .. } => Handler::TaskManager,
            HandlerCall::CancelTask { .. } => Handler::TaskManager,
            HandlerCall::SetTaskNotification { .. } => Handler::NotificationManager,
            HandlerCall::GetTaskNotification { .. } => Handler::NotificationManager,
            HandlerCall::ListTasks { .. } => Handler::TaskManager,
            HandlerCall::GetPushNotificationConfig { .. } => Handler::TaskManager,
            HandlerCall::ListPushNotificationConfigs { .. } => Handler::TaskManager,
            HandlerCall::DeletePushNotificationConfig { .. } => Handler::TaskManager,
            HandlerCall::GetAgentCard => Handler::AgentInfo,
            HandlerCall::GetAuthenticatedExtendedCard => Handler::AgentInfo,
        }
    }

    /// The handler that makes the call.
    pub fn handler(&self) -> (h: Handler)
        ensures
            h == self.spec_handler(),
    {
        match self {
            HandlerCall::ProcessMessage { .. } => Handler::MessageHandler,
            HandlerCall::GetTask { .. } => Handler::TaskManager,
            HandlerCall::CancelTask { .. } => Handler::TaskManager,
            HandlerCall::SetTaskNotification { .. } => Handler::NotificationManager,
            HandlerCall::GetTaskNotification { .. } => Handler::NotificationManager,
            HandlerCall::ListTasks { .. } => Handler::TaskManager,
            HandlerCall::GetPushNotificationConfig { .. } => Handler::TaskManager,
            HandlerCall::ListPushNotificationConfigs { .. } => Handler::TaskManager,
            HandlerCall::DeletePushNotificationConfig { .. } => Handler::TaskManager,
            HandlerCall::GetAgentCard => Handler::AgentInfo,
            HandlerCall::GetAuthenticatedExtendedCard => Handler::AgentInfo,
        }
    }
}

/// The handler that answers each method: the message handler the message
/// methods (`tasks/send`, `message/send`, `tasks/sendSubscribe`,
/// `message/stream`); the notification manager the legacy push notification
/// methods; the agent info provider the agent card methods; the task manager
/// every other known method. An unknown method has no handler.
pub open spec fn handler_for(kind: RequestKind) -> Option<Handler> {
    match kind {
        RequestKind::SendTask => Some(Handler::MessageHandler),
        RequestKind::SendMessage => Some(Handler::MessageHandler),
        RequestKind::SendTaskStreaming => Some(Handler::MessageHandler),
        RequestKind::SendMessageStreaming => Some(Handler::MessageHandler),
        RequestKind::GetTask => Some(Handler::TaskManager),
        RequestKind::CancelTask => Some(Handler::TaskManager),
        RequestKind::TaskResubscription => Some(Handler::TaskManager),
        RequestKind::ListTasks => Some(Handler::TaskManager),
        RequestKind::GetTaskPushNotificationConfig => Some(Handler::TaskManager),
        RequestKind::ListTaskPushNotificationConfigs => Some(Handler::TaskManager),
        RequestKind::DeleteTaskPushNotificationConfig => Some(Handler::TaskManager),
        RequestKind::SetTaskPushNotification => Some(Handler::NotificationManager),
        RequestKind::GetTaskPushNotification => Some(Handler::NotificationManager),
        RequestKind::GetExtendedCard => Some(Handler::AgentInfo),
        RequestKind::GetAuthenticatedExtendedCard => Some(Handler::AgentInfo),
        RequestKind::Generic => None,
    }
}

/// Every request that the processor answers with a handler call is answered
/// by the handler of its method, and by no other of the four: the message
/// handler, task manager, notification manager or agent info provider as
/// `handler_for` gives it.
pub proof fn law_request_handler(request: A2ARequest, fresh: String)
    ensures
        spec_plan(request, fresh) matches Ok(c) ==> handler_for(request.spec_kind()) == Some(
            c.spec_handler(),
        ),
        request.spec_kind() != RequestKind::Generic ==> handler_for(request.spec_kind()) is Some,
{
}

/// A JSON-RPC reply to the request with identifier `id`: a result (`None`
/// standing for JSON `null`), or an error with its code and message.
#[derive(Clone, Debug, PartialEq)]
pub enum Reply<I, V> {
    Success { id: Option<I>, result: Option<V> },
    Error { id: Option<I>, code: i32, message: String },
}

/// The reply that answers the outcome of a request under its identifier: the
/// result, or the error's JSON-RPC code and message. A request that could not
/// be read at all is answered under no identifier.
pub open spec fn spec_reply<I, V>(id: Option<I>, outcome: Result<Option<V>, A2AError>) -> Reply<I, V> {
    match outcome {
        Ok(result) => Reply::Success { id, result },
        Err(e) => Reply::Error { id, code: e.spec_code(), message: e.spec_message() },
    }
}

/// The reply that answers the outcome of a request under its identifier.
pub fn reply<I, V>(id: Option<I>, outcome: Result<Option<V>, A2AError>) -> (r: Reply<I, V>)
    ensures
        r == spec_reply(id, outcome),
{
    match outcome {
        Ok(result) => Reply::Success { id, result },
        Err(e) => {
            let code = e.code();
            let message = e.message().clone();
            Reply::Error { id, code, message }
        },
    }
}

/// The reply to a request given the outcome of its handler call: the
/// handler's value, or `None` for a JSON `null` result. A deletion is
/// answered with `null`; a resubscription to a task that does not exist yet is
/// answered with `null` too; every other error is passed on.
pub open spec fn spec_finish<P>(kind: RequestKind, outcome: Result<P, A2AError>) -> Result<
    Option<P>,
    A2AError,
> {
    match outcome {
        Ok(p) => if kind == RequestKind::DeleteTaskPushNotificationConfig {
            Ok(None)
        } else {
            Ok(Some(p))
        },
        Err(e) => if kind == RequestKind::TaskResubscription && e is TaskNotFound {
            Ok(None)
        } else {
            Err(e)
        },
    }
}

/// Shapes the outcome of the handler call for a request of kind `kind` into
/// the result of the reply.
pub fn finish_request<P>(kind: RequestKind, outcome: Result<P, A2AError>) -> (r: Result<
    Option<P>,
    A2AError,
>)
    ensures
        r == spec_finish(kind, outcome),
{
    match outcome {
        Ok(p) => match kind {
            RequestKind::DeleteTaskPushNotificationConfig => Ok(None),
            _ => Ok(Some(p)),
        },
        Err(e) => match kind {
            RequestKind::TaskResubscription => match e {
                A2AError::TaskNotFound(_) => Ok(None),
                _ => Err(e),
            },
            _ => Err(e),
        },
    }
}

/// The processor refuses a request without calling a handler exactly when its
/// method is unknown, or it asks for a push notification configuration without
/// naming one.
pub proof fn law_refused_requests(request: A2ARequest, fresh: String)
    ensures
        spec_plan(request, fresh) is Err <==> (request is Generic || request matches A2ARequest::GetTaskPushNotificationConfig { params: None }),
{
}

/// A new message is handled in the task it names, or else in a fresh task,
/// and in the session of its context; the message itself is handed on.
pub proof fn law_message_task_and_session(message: Message, fresh: String)
    ensures
        spec_plan(A2ARequest::SendMessage { message }, fresh) == spec_plan(
            A2ARequest::SendMessageStreaming { message },
            fresh,
        ),
        spec_plan(A2ARequest::SendMessage { message }, fresh) matches Ok(
            HandlerCall::ProcessMessage { task_id, message: m, session_id },
        ) && m == message && session_id == message.context_id && (message.task_id matches Some(t)
            ==> task_id == t) && (message.task_id is None ==> task_id == fresh),
{
}

} // verus!
