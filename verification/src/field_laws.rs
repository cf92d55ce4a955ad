//! Laws that fix, field by field, what each conversion and decision gives:
//! which input field every output field comes from, in terms of the inputs
//! alone.
use vstd::prelude::*;
use crate::domain::{
    A2AErrorView, ArtifactView, MessageView, PartView, Role, TaskState, TaskStatusView, TaskView,
    FileContentView,
};
use crate::proto;
use crate::encoding::base64_decoded;
use crate::encoding::base64_encoded;
use crate::convert::{
    convert_all, spec_from_proto_message, spec_from_proto_part, spec_from_proto_role,
    spec_from_proto_task_state, spec_to_proto_artifact, spec_to_proto_message, spec_to_proto_part,
    spec_to_proto_role, spec_to_proto_task, spec_to_proto_task_state, spec_to_proto_task_status,
    to_proto_artifact_fn, to_proto_message_fn, to_proto_part_fn, from_proto_part_fn, or_empty,
    or_empty_list, none_if_empty, none_if_empty_list,
};
use crate::laws::law_convert_all_elementwise;
use crate::processor::{spec_plan, A2ARequest, HandlerCall};
use crate::domain::{AgentCardView, ListTasksParams};
use crate::convert::{
    spec_to_proto_agent_card, spec_to_proto_capabilities, spec_to_proto_extension,
    spec_to_proto_interface, spec_to_proto_signature, spec_to_proto_skill,
};
use crate::demo::spec_task_state_label;

verus! {

// ---------------------------------------------------------------------------
// Task states and roles
// ---------------------------------------------------------------------------

/// Every domain task state is sent as the wire state of the same name, with
/// the wire number of the A2A protocol: submitted 1, working 2, completed 3,
/// failed 4, canceled 5, input required 6, rejected 7, auth required 8, and
/// unknown as unspecified 0. Distinct states are sent as distinct numbers.
pub proof fn law_task_state_numbers(s: TaskState, t: TaskState)
    ensures
        spec_to_proto_task_state(TaskState::Submitted).spec_value() == 1,
        spec_to_proto_task_state(TaskState::Working).spec_value() == 2,
        spec_to_proto_task_state(TaskState::Completed).spec_value() == 3,
        spec_to_proto_task_state(TaskState::Failed).spec_value() == 4,
        spec_to_proto_task_state(TaskState::Canceled).spec_value() == 5,
        spec_to_proto_task_state(TaskState::InputRequired).spec_value() == 6,
        spec_to_proto_task_state(TaskState::Rejected).spec_value() == 7,
        spec_to_proto_task_state(TaskState::AuthRequired).spec_value() == 8,
        spec_to_proto_task_state(TaskState::Unknown).spec_value() == 0,
        spec_to_proto_task_state(s).spec_value() == spec_to_proto_task_state(t).spec_value() ==> s
            == t,
{
}

/// A wire state number is read as the domain state of the same name: 1 to 8
/// as submitted, working, completed, failed, canceled, input required,
/// rejected and auth required; every other number as unknown.
pub proof fn law_task_state_read(n: i32)
    ensures
        n == 1 ==> spec_from_proto_task_state(n) == TaskState::Submitted,
        n == 2 ==> spec_from_proto_task_state(n) == TaskState::Working,
        n == 3 ==> spec_from_proto_task_state(n) == TaskState::Completed,
        n == 4 ==> spec_from_proto_task_state(n) == TaskState::Failed,
        n == 5 ==> spec_from_proto_task_state(n) == TaskState::Canceled,
        n == 6 ==> spec_from_proto_task_state(n) == TaskState::InputRequired,
        n == 7 ==> spec_from_proto_task_state(n) == TaskState::Rejected,
        n == 8 ==> spec_from_proto_task_state(n) == TaskState::AuthRequired,
        !(1 <= n <= 8) ==> spec_from_proto_task_state(n) == TaskState::Unknown,
{
}

/// The user is sent as wire role 1 and the agent as 2; wire role 2 is read as
/// the agent and every other number as the user.
pub proof fn law_role_numbers(n: i32)
    ensures
        spec_to_proto_role(Role::User) == 1,
        spec_to_proto_role(Role::Agent) == 2,
        n == 2 ==> spec_from_proto_role(n) == Role::Agent,
        n != 2 ==> spec_from_proto_role(n) == Role::User,
{
}

// ---------------------------------------------------------------------------
// Parts
// ---------------------------------------------------------------------------

/// What a domain part is sent as: a text part as its text; a file part with
/// a URI as that URI, and otherwise as the bytes its base64 text decodes to
/// (an internal error when it does not decode, or when there is neither URI
/// nor text), in both cases with the wire name taken from the file name and
/// the wire media type from the mime type (empty when absent); a data part as
/// data without content. The wire part never carries metadata.
pub proof fn law_part_sent(p: PartView)
    ensures
        p matches PartView::Text { text, .. } ==> spec_to_proto_part(p) == Ok::<
            proto::PartView,
            A2AErrorView,
        >(proto::PartView { part: Some(proto::PartContentView::Text(text)), metadata: None }),
        p matches PartView::File { file, .. } ==> file_sent(file, spec_to_proto_part(p)),
        p matches PartView::Data { .. } ==> spec_to_proto_part(p) == Ok::<
            proto::PartView,
            A2AErrorView,
        >(proto::PartView { part: Some(proto::PartContentView::Data(None)), metadata: None }),
{
}

/// `r` is what the domain file `file` is sent as.
pub open spec fn file_sent(file: FileContentView, r: Result<proto::PartView, A2AErrorView>) -> bool {
    match file.uri {
        Some(u) => r == Ok::<proto::PartView, A2AErrorView>(
            wire_file(proto::FileSourceView::FileWithUri(u), file),
        ),
        None => match file.bytes {
            Some(text) => match base64_decoded(text) {
                Ok(b) => r == Ok::<proto::PartView, A2AErrorView>(
                    wire_file(proto::FileSourceView::FileWithBytes(b), file),
                ),
                Err(m) => r == Err::<proto::PartView, A2AErrorView>(
                    A2AErrorView::Internal("Failed to decode base64: "@ + m),
                ),
            },
            None => r == Err::<proto::PartView, A2AErrorView>(
                A2AErrorView::Internal("File must have either URI or bytes"@),
            ),
        },
    }
}

/// A wire file part with the given source, named by the file's name and
/// typed by its mime type.
pub open spec fn wire_file(source: proto::FileSourceView, file: FileContentView) -> proto::PartView {
    proto::PartView {
        part: Some(
            proto::PartContentView::File(
                proto::FilePartView {
                    file: Some(source),
                    media_type: or_empty(file.mime_type),
                    name: or_empty(file.name),
                },
            ),
        ),
        metadata: None,
    }
}

/// What a wire part is read as: a text part as its text; a file part as a
/// file whose name comes from the wire name and whose mime type from the wire
/// media type (absent when empty), with the wire URI as its URI or the base64
/// encoding of the wire bytes as its text; a data part as an empty object;
/// a file part without a source, or a part without content, as an invalid
/// request. The domain part never carries metadata.
pub proof fn law_part_read(q: proto::PartView)
    ensures
        q.part matches Some(proto::PartContentView::Text(text)) ==> spec_from_proto_part(q) == Ok::<
            PartView,
            A2AErrorView,
        >(PartView::Text { text, metadata: None }),
        q.part matches Some(proto::PartContentView::File(fp)) ==> match fp.file {
            Some(proto::FileSourceView::FileWithUri(u)) => spec_from_proto_part(q) == Ok::<
                PartView,
                A2AErrorView,
            >(
                PartView::File {
                    file: FileContentView {
                        name: none_if_empty(fp.name),
                        mime_type: none_if_empty(fp.media_type),
                        bytes: None,
                        uri: Some(u),
                    },
                    metadata: None,
                },
            ),
            Some(proto::FileSourceView::FileWithBytes(b)) => spec_from_proto_part(q) == Ok::<
                PartView,
                A2AErrorView,
            >(
                PartView::File {
                    file: FileContentView {
                        name: none_if_empty(fp.name),
                        mime_type: none_if_empty(fp.media_type),
                        bytes: Some(base64_encoded(b)),
                        uri: None,
                    },
                    metadata: None,
                },
            ),
            None => spec_from_proto_part(q) == Err::<PartView, A2AErrorView>(
                A2AErrorView::InvalidRequest("File part must have either URI or bytes"@),
            ),
        },
        q.part matches Some(proto::PartContentView::Data(_)) ==> spec_from_proto_part(q) == Ok::<
            PartView,
            A2AErrorView,
        >(PartView::Data { data: Set::empty(), metadata: None }),
        q.part is None ==> spec_from_proto_part(q) == Err::<PartView, A2AErrorView>(
            A2AErrorView::InvalidRequest("Part must have content"@),
        ),
{
}

// ---------------------------------------------------------------------------
// Lists, messages, statuses, artifacts and tasks
// ---------------------------------------------------------------------------

/// `ys` holds, in order, what each element of `xs` converts to with `f`.
pub open spec fn converted_in_order<A, B>(
    xs: Seq<A>,
    f: spec_fn(A) -> Result<B, A2AErrorView>,
    ys: Seq<B>,
) -> bool {
    &&& ys.len() == xs.len()
    &&& forall|i: int| 0 <= i < xs.len() ==> #[trigger] f(xs[i]) == Ok::<B, A2AErrorView>(ys[i])
}

/// Every element of `xs` converts with `f`.
pub open spec fn all_convert<A, B>(xs: Seq<A>, f: spec_fn(A) -> Result<B, A2AErrorView>) -> bool {
    forall|i: int| 0 <= i < xs.len() ==> #[trigger] f(xs[i]) is Ok
}

/// What a domain message is sent as: it is sent exactly when every part can
/// be sent; the wire message then keeps the message id, carries the task,
/// context, extensions and referenced tasks (empty when absent), the role's
/// wire number, no metadata, and the parts sent one by one in order.
pub proof fn law_message_sent(m: MessageView)
    ensures
        spec_to_proto_message(m) is Ok <==> all_convert(m.parts, to_proto_part_fn()),
        spec_to_proto_message(m) matches Ok(pm) ==> {
            &&& pm.message_id == m.message_id
            &&& pm.task_id == or_empty(m.task_id)
            &&& pm.context_id == or_empty(m.context_id)
            &&& pm.role == (if m.role == Role::Agent { 2i32 } else { 1i32 })
            &&& pm.metadata is None
            &&& pm.extensions == or_empty_list(m.extensions)
            &&& pm.reference_task_ids == or_empty_list(m.reference_task_ids)
            &&& converted_in_order(m.parts, to_proto_part_fn(), pm.parts)
        },
{
    law_convert_all_elementwise(m.parts, to_proto_part_fn());
}

/// What a wire message is read as: it is read exactly when every part can be
/// read; the domain message then keeps the message id, reads empty task,
/// context, extensions and referenced tasks as absent, reads role 2 as the
/// agent and any other as the user, has no metadata and the kind `message`,
/// and holds the parts read one by one in order.
pub proof fn law_message_read(pm: proto::MessageView)
    ensures
        spec_from_proto_message(pm) is Ok <==> all_convert(pm.parts, from_proto_part_fn()),
        spec_from_proto_message(pm) matches Ok(m) ==> {
            &&& m.message_id == pm.message_id
            &&& m.task_id == none_if_empty(pm.task_id)
            &&& m.context_id == none_if_empty(pm.context_id)
            &&& m.role == (if pm.role == 2 { Role::Agent } else { Role::User })
            &&& m.metadata is None
            &&& m.kind == "message"@
            &&& m.extensions == none_if_empty_list(pm.extensions)
            &&& m.reference_task_ids == none_if_empty_list(pm.reference_task_ids)
            &&& converted_in_order(pm.parts, from_proto_part_fn(), m.parts)
        },
{
    law_convert_all_elementwise(pm.parts, from_proto_part_fn());
}

/// What a domain status is sent as: it is sent exactly when its message, if
/// any, can be sent; the wire status then has the state's wire number, the
/// message as sent, and the time's seconds and nanoseconds.
pub proof fn law_status_sent(s: TaskStatusView)
    ensures
        spec_to_proto_task_status(s) is Ok <==> (s.message matches Some(m) ==> spec_to_proto_message(
            m,
        ) is Ok),
        spec_to_proto_task_status(s) matches Ok(ps) ==> {
            &&& ps.state == spec_to_proto_task_state(s.state).spec_value()
            &&& match s.message {
                Some(m) => ps.message matches Some(pm) && spec_to_proto_message(m) == Ok::<
                    proto::MessageView,
                    A2AErrorView,
                >(pm),
                None => ps.message is None,
            }
            &&& match s.timestamp {
                Some(t) => ps.timestamp matches Some(pt) && pt.seconds == t.seconds && pt.nanos
                    == t.subsec_nanos as i32,
                None => ps.timestamp is None,
            }
        },
{
}

/// What a domain artifact is sent as: it is sent exactly when every part can
/// be sent; the wire artifact then keeps the artifact id, holds the parts
/// sent one by one in order, and has no name, description, metadata or
/// extensions.
pub proof fn law_artifact_sent(a: ArtifactView)
    ensures
        spec_to_proto_artifact(a) is Ok <==> all_convert(a.parts, to_proto_part_fn()),
        spec_to_proto_artifact(a) matches Ok(pa) ==> {
            &&& pa.artifact_id == a.artifact_id
            &&& converted_in_order(a.parts, to_proto_part_fn(), pa.parts)
            &&& pa.name.len() == 0
            &&& pa.description.len() == 0
            &&& pa.metadata is None
            &&& pa.extensions.len() == 0
        },
{
    law_convert_all_elementwise(a.parts, to_proto_part_fn());
}

/// What a domain task is sent as: it is sent exactly when its status, every
/// artifact and every history message can be sent; the wire task then keeps
/// the task and context ids, carries the status as sent, the artifacts and
/// the history sent one by one in order (none where absent), and no
/// metadata.
pub proof fn law_task_sent(t: TaskView)
    ensures
        spec_to_proto_task(t) is Ok <==> {
            &&& spec_to_proto_task_status(t.status) is Ok
            &&& all_convert(or_empty_list(t.artifacts), to_proto_artifact_fn())
            &&& all_convert(or_empty_list(t.history), to_proto_message_fn())
        },
        spec_to_proto_task(t) matches Ok(pt) ==> {
            &&& pt.id == t.id
            &&& pt.context_id == t.context_id
            &&& pt.status matches Some(ps) && spec_to_proto_task_status(t.status) == Ok::<
                proto::TaskStatusView,
                A2AErrorView,
            >(ps)
            &&& converted_in_order(or_empty_list(t.artifacts), to_proto_artifact_fn(), pt.artifacts)
            &&& converted_in_order(or_empty_list(t.history), to_proto_message_fn(), pt.history)
            &&& pt.metadata is None
        },
{
    law_convert_all_elementwise(or_empty_list(t.artifacts), to_proto_artifact_fn());
    law_convert_all_elementwise(or_empty_list(t.history), to_proto_message_fn());
    assert(or_empty_list(t.artifacts) =~= or_empty_list(t.artifacts));
    if t.artifacts is None {
        assert(convert_all(Seq::<ArtifactView>::empty(), to_proto_artifact_fn()) == Ok::<
            Seq<proto::ArtifactView>,
            A2AErrorView,
        >(Seq::empty()));
    }
    if t.history is None {
        assert(convert_all(Seq::<MessageView>::empty(), to_proto_message_fn()) == Ok::<
            Seq<proto::MessageView>,
            A2AErrorView,
        >(Seq::empty()));
    }
}


// ---------------------------------------------------------------------------
// Routing of requests
// ---------------------------------------------------------------------------

/// Each request is answered by the handler call that its method names, with
/// the request's own parameters: `tasks/send` and `tasks/sendSubscribe`
/// process the message for the named task and session; `tasks/get` and
/// `tasks/resubscribe` read the named task with the asked history length;
/// `tasks/cancel` cancels the named task; the push notification methods store
/// or read the named configuration; `tasks/list` lists with the given
/// parameters (the defaults when absent); the push notification config
/// methods hand their parameters on; the card methods read the card.
pub proof fn law_plan_routes(request: A2ARequest, fresh: String)
    ensures
        request matches A2ARequest::SendTask { task_id, session_id, message } ==> spec_plan(
            request,
            fresh,
        ) == Ok::<HandlerCall, A2AErrorView>(HandlerCall::ProcessMessage { task_id, message, session_id }),
        request matches A2ARequest::SendTaskStreaming { task_id, session_id, message } ==> spec_plan(
            request,
            fresh,
        ) == Ok::<HandlerCall, A2AErrorView>(HandlerCall::ProcessMessage { task_id, message, session_id }),
        request matches A2ARequest::GetTask { task_id, history_length } ==> spec_plan(request, fresh)
            == Ok::<HandlerCall, A2AErrorView>(HandlerCall::GetTask { task_id, history_length }),
        request matches A2ARequest::TaskResubscription { task_id, history_length } ==> spec_plan(
            request,
            fresh,
        ) == Ok::<HandlerCall, A2AErrorView>(HandlerCall::GetTask { task_id, history_length }),
        request matches A2ARequest::CancelTask { task_id } ==> spec_plan(request, fresh) == Ok::<
            HandlerCall,
            A2AErrorView,
        >(HandlerCall::CancelTask { task_id }),
        request matches A2ARequest::SetTaskPushNotification { config } ==> spec_plan(request, fresh)
            == Ok::<HandlerCall, A2AErrorView>(HandlerCall::SetTaskNotification { config }),
        request matches A2ARequest::GetTaskPushNotification { task_id } ==> spec_plan(request, fresh)
            == Ok::<HandlerCall, A2AErrorView>(HandlerCall::GetTaskNotification { task_id }),
        request matches A2ARequest::ListTasks { params } ==> spec_plan(request, fresh) == Ok::<
            HandlerCall,
            A2AErrorView,
        >(
            HandlerCall::ListTasks {
                params: match params {
                    Some(p) => p,
                    None => ListTasksParams::spec_default(),
                },
            },
        ),
        request matches A2ARequest::GetTaskPushNotificationConfig { params: Some(p) } ==> spec_plan(
            request,
            fresh,
        ) == Ok::<HandlerCall, A2AErrorView>(HandlerCall::GetPushNotificationConfig { params: p }),
        request matches A2ARequest::ListTaskPushNotificationConfigs { params } ==> spec_plan(
            request,
            fresh,
        ) == Ok::<HandlerCall, A2AErrorView>(HandlerCall::ListPushNotificationConfigs { params }),
        request matches A2ARequest::DeleteTaskPushNotificationConfig { params } ==> spec_plan(
            request,
            fresh,
        ) == Ok::<HandlerCall, A2AErrorView>(HandlerCall::DeletePushNotificationConfig { params }),
        request is GetExtendedCard ==> spec_plan(request, fresh) == Ok::<HandlerCall, A2AErrorView>(
            HandlerCall::GetAgentCard,
        ),
        request is GetAuthenticatedExtendedCard ==> spec_plan(request, fresh) == Ok::<
            HandlerCall,
            A2AErrorView,
        >(HandlerCall::GetAuthenticatedExtendedCard),
        request matches A2ARequest::GetTaskPushNotificationConfig { params: None } ==> spec_plan(
            request,
            fresh,
        ) == Err::<HandlerCall, A2AErrorView>(
            A2AErrorView::InvalidParams("Missing params for get push notification config"@),
        ),
        request matches A2ARequest::Generic { method } ==> spec_plan(request, fresh) == Err::<
            HandlerCall,
            A2AErrorView,
        >(A2AErrorView::MethodNotFound("Method '"@ + method@ + "' not found"@)),
{
}

// ---------------------------------------------------------------------------
// Agent cards
// ---------------------------------------------------------------------------

/// Every field of the wire card comes from the same-named field of the
/// domain card: name, description, version, URL and protocol version (both
/// present), icon and documentation URLs, preferred transport, the default
/// modes, the extended card flag and the provider; the capabilities are
/// always present with each flag as given and the extensions sent one by
/// one; the skills, interfaces and signatures are sent one by one in order,
/// each keeping its fields (absent lists as empty ones).
pub proof fn law_agent_card_fields(c: AgentCardView)
    ensures
        ({
            let w = spec_to_proto_agent_card(c);
            &&& w.name == c.name
            &&& w.description == c.description
            &&& w.version == c.version
            &&& w.url == Some(c.url)
            &&& w.protocol_version == Some(c.protocol_version)
            &&& w.icon_url == c.icon_url
            &&& w.documentation_url == c.documentation_url
            &&& w.preferred_transport == c.preferred_transport
            &&& w.default_input_modes == c.default_input_modes
            &&& w.default_output_modes == c.default_output_modes
            &&& w.supports_extended_agent_card == c.supports_authenticated_extended_card
            &&& match c.provider {
                Some(p) => w.provider matches Some(wp) && wp.url == p.url && wp.organization
                    == p.organization,
                None => w.provider is None,
            }
            &&& w.capabilities matches Some(cap) && {
                &&& cap.streaming == Some(c.capabilities.streaming)
                &&& cap.push_notifications == Some(c.capabilities.push_notifications)
                &&& cap.state_transition_history == Some(c.capabilities.state_transition_history)
                &&& cap.extensions.len() == or_empty_list(c.capabilities.extensions).len()
                &&& forall|i: int|
                    0 <= i < cap.extensions.len() ==> {
                        let e = #[trigger] or_empty_list(c.capabilities.extensions)[i];
                        &&& cap.extensions[i].uri == e.uri
                        &&& cap.extensions[i].description == or_empty(e.description)
                        &&& cap.extensions[i].required == (e.required == Some(true))
                    }
            }
            &&& w.skills.len() == c.skills.len()
            &&& forall|i: int|
                0 <= i < c.skills.len() ==> {
                    let k = #[trigger] c.skills[i];
                    &&& w.skills[i].id == k.id
                    &&& w.skills[i].name == k.name
                    &&& w.skills[i].description == k.description
                    &&& w.skills[i].tags == k.tags
                    &&& w.skills[i].examples == or_empty_list(k.examples)
                    &&& w.skills[i].input_modes == or_empty_list(k.input_modes)
                    &&& w.skills[i].output_modes == or_empty_list(k.output_modes)
                }
            &&& w.additional_interfaces.len() == or_empty_list(c.additional_interfaces).len()
            &&& forall|i: int|
                0 <= i < w.additional_interfaces.len() ==> {
                    let f = #[trigger] or_empty_list(c.additional_interfaces)[i];
                    w.additional_interfaces[i].url == f.url && w.additional_interfaces[i].transport
                        == f.transport
                }
            &&& w.signatures.len() == or_empty_list(c.signatures).len()
            &&& forall|i: int|
                0 <= i < w.signatures.len() ==> {
                    let g = #[trigger] or_empty_list(c.signatures)[i];
                    w.signatures[i].protected == g.protected && w.signatures[i].signature
                        == g.signature
                }
        }),
{
}

// ---------------------------------------------------------------------------
// Labels of task states
// ---------------------------------------------------------------------------

/// The chat page labels each task state with the name of its variant, so
/// distinct states get distinct labels.
pub proof fn law_task_state_labels(s: TaskState, t: TaskState)
    ensures
        spec_task_state_label(TaskState::Submitted) == "Submitted"@,
        spec_task_state_label(TaskState::Working) == "Working"@,
        spec_task_state_label(TaskState::InputRequired) == "InputRequired"@,
        spec_task_state_label(TaskState::Completed) == "Completed"@,
        spec_task_state_label(TaskState::Canceled) == "Canceled"@,
        spec_task_state_label(TaskState::Failed) == "Failed"@,
        spec_task_state_label(TaskState::Rejected) == "Rejected"@,
        spec_task_state_label(TaskState::AuthRequired) == "AuthRequired"@,
        spec_task_state_label(TaskState::Unknown) == "Unknown"@,
        spec_task_state_label(s) == spec_task_state_label(t) ==> s == t,
{
    reveal_strlit("Submitted");
    reveal_strlit("Working");
    reveal_strlit("InputRequired");
    reveal_strlit("Completed");
    reveal_strlit("Canceled");
    reveal_strlit("Failed");
    reveal_strlit("Rejected");
    reveal_strlit("AuthRequired");
    reveal_strlit("Unknown");
    if spec_task_state_label(s) == spec_task_state_label(t) {
        let a = spec_task_state_label(s);
        let b = spec_task_state_label(t);
        assert(a.len() == b.len());
        assert(a[0] == b[0]);
        assert(a[1] == b[1]);
        assert(a[2] == b[2]);
    }
}

} // verus!
