//! Conversions between the domain model and the wire (protocol buffer) model.
use vstd::prelude::*;
use vstd::string::*;
use crate::domain::{
    AgentCapabilities, AgentCapabilitiesView, AgentCardSignature, AgentCardSignatureView,
    AgentExtension, AgentExtensionView, AgentInterface, AgentInterfaceView, AgentProviderView,
    AgentSkill, AgentSkillView, extensions_view, interfaces_view, signatures_view, skills_view,
    A2AError, A2AErrorView, AgentCard, Artifact, FileContent, Message, Part, PartView, Role, Task,
    TaskState, TaskStatus, FileContentView, MessageView, ArtifactView, TaskView, AgentCardView,
    TaskStatusView, opt_string_view, opt_strings_view, strings_view, parts_view,
    messages_view, artifacts_view, result_view,
};
use crate::proto;
use crate::json::empty_json_object;
use crate::encoding::{base64_decoded, base64_encoded, decode_base64, encode_base64};
use crate::laws::{
    law_message_round_trip, law_part_round_trip, law_wire_message_round_trip,
    law_wire_part_round_trip, message_kept, part_kept, part_survives_wire, text_comes_back,
    wire_bytes_come_back, wire_message_kept, wire_part_kept,
};

verus! {

// ---------------------------------------------------------------------------
// Sequences of conversions
// ---------------------------------------------------------------------------

/// Converts every element of `xs` with `f`, in order; the result is the
/// converted sequence, or the error of the first element that fails.
pub open spec fn convert_all<A, B>(xs: Seq<A>, f: spec_fn(A) -> Result<B, A2AErrorView>) -> Result<
    Seq<B>,
    A2AErrorView,
>
    decreases xs.len(),
{
    if xs.len() == 0 {
        Ok(Seq::empty())
    } else {
        match convert_all(xs.drop_last(), f) {
            Ok(done) => match f(xs.last()) {
                Ok(y) => Ok(done.push(y)),
                Err(e) => Err(e),
            },
            Err(e) => Err(e),
        }
    }
}

/// The empty character sequence where a value is absent.
pub open spec fn or_empty(o: Option<Seq<char>>) -> Seq<char> {
    match o {
        Some(s) => s,
        None => Seq::empty(),
    }
}

/// The empty list where a list is absent.
pub open spec fn or_empty_list<T>(o: Option<Seq<T>>) -> Seq<T> {
    match o {
        Some(s) => s,
        None => Seq::empty(),
    }
}

/// Absent where the character sequence is empty.
pub open spec fn none_if_empty(s: Seq<char>) -> Option<Seq<char>> {
    if s.len() == 0 {
        None
    } else {
        Some(s)
    }
}

/// Absent where the list is empty.
pub open spec fn none_if_empty_list<T>(s: Seq<T>) -> Option<Seq<T>> {
    if s.len() == 0 {
        None
    } else {
        Some(s)
    }
}

fn clone_string_or_empty(o: &Option<String>) -> (s: String)
    ensures
        s@ == or_empty(opt_string_view(*o)),
{
    match o {
        Some(s) => s.clone(),
        None => String::new(),
    }
}

fn string_or_none(s: String) -> (o: Option<String>)
    ensures
        opt_string_view(o) == none_if_empty(s@),
{
    if s.as_str().is_empty() {
        None
    } else {
        Some(s)
    }
}

fn clone_strings(v: &Vec<String>) -> (r: Vec<String>)
    ensures
        strings_view(r@) == strings_view(v@),
{
    let mut r: Vec<String> = Vec::new();
    let mut i: usize = 0;
    while i < v.len()
        invariant
            i <= v.len(),
            r.len() == i,
            forall|k: int| 0 <= k < i ==> #[trigger] r@[k]@ == v@[k]@,
        decreases v.len() - i,
    {
        let s = v[i].clone();
        r.push(s);
        i = i + 1;
    }
    assert(strings_view(r@) =~= strings_view(v@));
    r
}

fn clone_strings_or_empty(o: &Option<Vec<String>>) -> (r: Vec<String>)
    ensures
        strings_view(r@) == or_empty_list(opt_strings_view(*o)),
{
    match o {
        Some(v) => clone_strings(v),
        None => {
            let r: Vec<String> = Vec::new();
            assert(strings_view(r@) =~= Seq::<Seq<char>>::empty());
            r
        },
    }
}

fn strings_or_none(v: Vec<String>) -> (o: Option<Vec<String>>)
    ensures
        opt_strings_view(o) == none_if_empty_list(strings_view(v@)),
{
    if v.len() == 0 {
        None
    } else {
        Some(v)
    }
}

// ---------------------------------------------------------------------------
// Task states and roles
// ---------------------------------------------------------------------------

/// The wire state that a domain state is sent as.
pub open spec fn spec_to_proto_task_state(state: TaskState) -> proto::TaskState {
    match state {
        TaskState::Submitted => proto::TaskState::Submitted,
        TaskState::Working => proto::TaskState::Working,
        TaskState::Completed => proto::TaskState::Completed,
        TaskState::Failed => proto::TaskState::Failed,
        TaskState::Canceled => proto::TaskState::Cancelled,
        TaskState::InputRequired => proto::TaskState::InputRequired,
        TaskState::Rejected => proto::TaskState::Rejected,
        TaskState::AuthRequired => proto::TaskState::AuthRequired,
        TaskState::Unknown => proto::TaskState::Unspecified,
    }
}

/// The domain state that a wire state number is read as: every number that
/// names no known state, and the unspecified state, is read as `Unknown`.
pub open spec fn spec_from_proto_task_state(value: i32) -> TaskState {
    match proto::TaskState::spec_from_value(value) {
        Some(proto::TaskState::Submitted) => TaskState::Submitted,
        Some(proto::TaskState::Working) => TaskState::Working,
        Some(proto::TaskState::Completed) => TaskState::Completed,
        Some(proto::TaskState::Failed) => TaskState::Failed,
        Some(proto::TaskState::Cancelled) => TaskState::Canceled,
        Some(proto::TaskState::InputRequired) => TaskState::InputRequired,
        Some(proto::TaskState::Rejected) => TaskState::Rejected,
        Some(proto::TaskState::AuthRequired) => TaskState::AuthRequired,
        _ => TaskState::Unknown,
    }
}

/// Convert a domain TaskState to a proto TaskState
pub fn to_proto_task_state(state: &TaskState) -> (r: proto::TaskState)
    ensures
        r == spec_to_proto_task_state(*state),
{
    match state {
        TaskState::Submitted => proto::TaskState::Submitted,
        TaskState::Working => proto::TaskState::Working,
        TaskState::Completed => proto::TaskState::Completed,
        TaskState::Failed => proto::TaskState::Failed,
        TaskState::Canceled => proto::TaskState::Cancelled,
        TaskState::InputRequired => proto::TaskState::InputRequired,
        TaskState::Rejected => proto::TaskState::Rejected,
        TaskState::AuthRequired => proto::TaskState::AuthRequired,
        TaskState::Unknown => proto::TaskState::Unspecified,
    }
}

/// Convert a proto TaskState to a domain TaskState; never fails.
pub fn from_proto_task_state(state: i32) -> (r: Result<TaskState, A2AError>)
    ensures
        r == Ok::<TaskState, A2AError>(spec_from_proto_task_state(state)),
{
    match proto::TaskState::from_value(state) {
        Some(proto::TaskState::Submitted) => Ok(TaskState::Submitted),
        Some(proto::TaskState::Working) => Ok(TaskState::Working),
        Some(proto::TaskState::Completed) => Ok(TaskState::Completed),
        Some(proto::TaskState::Failed) => Ok(TaskState::Failed),
        Some(proto::TaskState::Cancelled) => Ok(TaskState::Canceled),
        Some(proto::TaskState::InputRequired) => Ok(TaskState::InputRequired),
        Some(proto::TaskState::Rejected) => Ok(TaskState::Rejected),
        Some(proto::TaskState::AuthRequired) => Ok(TaskState::AuthRequired),
        _ => Ok(TaskState::Unknown),
    }
}

/// The wire number that a domain role is sent as.
pub open spec fn spec_to_proto_role(role: Role) -> i32 {
    match role {
        Role::User => proto::Role::User.spec_value(),
        Role::Agent => proto::Role::Agent.spec_value(),
    }
}

/// The domain role that a wire role number is read as: the agent role is read
/// as `Agent`, every other number as `User`.
pub open spec fn spec_from_proto_role(value: i32) -> Role {
    match proto::Role::spec_from_value(value) {
        Some(proto::Role::User) => Role::User,
        Some(proto::Role::Agent) => Role::Agent,
        _ => Role::User,
    }
}

fn to_proto_role(role: Role) -> (v: i32)
    ensures
        v == spec_to_proto_role(role),
{
    match role {
        Role::User => proto::Role::User.value(),
        Role::Agent => proto::Role::Agent.value(),
    }
}

fn from_proto_role(value: i32) -> (r: Role)
    ensures
        r == spec_from_proto_role(value),
{
    match proto::Role::from_value(value) {
        Some(proto::Role::User) => Role::User,
        Some(proto::Role::Agent) => Role::Agent,
        _ => Role::User,
    }
}

// ---------------------------------------------------------------------------
// Parts
// ---------------------------------------------------------------------------

/// The wire part that a domain part is sent as, or the error that stops it:
/// a file part is sent by its URI when it has one, else by its decoded inline
/// bytes; metadata and the contents of data parts are not sent.
pub open spec fn spec_to_proto_part(p: PartView) -> Result<proto::PartView, A2AErrorView> {
    match p {
        PartView::Text { text, .. } => Ok(
            proto::PartView { part: Some(proto::PartContentView::Text(text)), metadata: None },
        ),
        PartView::File { file, .. } => match file.uri {
            Some(uri) => Ok(
                proto::PartView {
                    part: Some(
                        proto::PartContentView::File(
                            proto::FilePartView {
                                file: Some(proto::FileSourceView::FileWithUri(uri)),
                                media_type: or_empty(file.mime_type),
                                name: or_empty(file.name),
                            },
                        ),
                    ),
                    metadata: None,
                },
            ),
            None => match file.bytes {
                Some(text) => match base64_decoded(text) {
                    Ok(bytes) => Ok(
                        proto::PartView {
                            part: Some(
                                proto::PartContentView::File(
                                    proto::FilePartView {
                                        file: Some(proto::FileSourceView::FileWithBytes(bytes)),
                                        media_type: or_empty(file.mime_type),
                                        name: or_empty(file.name),
                                    },
                                ),
                            ),
                            metadata: None,
                        },
                    ),
                    Err(msg) => Err(A2AErrorView::Internal("Failed to decode base64: "@ + msg)),
                },
                None => Err(A2AErrorView::Internal("File must have either URI or bytes"@)),
            },
        },
        PartView::Data { .. } => Ok(
            proto::PartView { part: Some(proto::PartContentView::Data(None)), metadata: None },
        ),
    }
}

/// Convert a domain Part to a proto Part. A domain part whose content the
/// wire carries is sent, and reading what was sent gives the part back
/// (inline bytes included).
pub fn to_proto_part(part: &Part) -> (r: Result<proto::Part, A2AError>)
    ensures
        result_view(r) == spec_to_proto_part(part@),
        text_comes_back(part@),
        part_kept(part@) ==> (r matches Ok(q) && spec_from_proto_part(q@) == Ok::<
            PartView,
            A2AErrorView,
        >(part@)),
{
    let r = to_proto_part_content(part);
    proof {
        if part_kept(part@) {
            law_part_round_trip(part@);
        }
    }
    r
}

fn to_proto_part_content(part: &Part) -> (r: Result<proto::Part, A2AError>)
    ensures
        result_view(r) == spec_to_proto_part(part@),
        text_comes_back(part@),
{
    let part_content = match part {
        Part::Text { text, .. } => proto::PartContent::Text(text.clone()),
        Part::File { file, .. } => {
            let file_part = match &file.uri {
                Some(uri) => proto::FilePart {
                    file: Some(proto::FileSource::FileWithUri(uri.clone())),
                    media_type: clone_string_or_empty(&file.mime_type),
                    name: clone_string_or_empty(&file.name),
                },
                None => match &file.bytes {
                    Some(bytes_str) => match decode_base64(bytes_str.as_str()) {
                        Ok(bytes_vec) => proto::FilePart {
                            file: Some(proto::FileSource::FileWithBytes(bytes_vec)),
                            media_type: clone_string_or_empty(&file.mime_type),
                            name: clone_string_or_empty(&file.name),
                        },
                        Err(msg) => {
                            let mut text = String::from_str("Failed to decode base64: ");
                            text.append(msg.as_str());
                            return Err(A2AError::Internal(text));
                        },
                    },
                    None => {
                        return Err(
                            A2AError::Internal(String::from_str("File must have either URI or bytes")),
                        );
                    },
                },
            };
            proto::PartContent::File(file_part)
        },
        Part::Data { .. } => proto::PartContent::Data(proto::DataPart { data: None }),
    };
    Ok(proto::Part { part: Some(part_content), metadata: None })
}

/// The domain part that a wire part is read as, or the error that stops it:
/// inline bytes are read as their base64 text, empty names and media types as
/// absent, and a data part as an empty object; metadata is not read.
pub open spec fn spec_from_proto_part(p: proto::PartView) -> Result<PartView, A2AErrorView> {
    match p.part {
        Some(proto::PartContentView::Text(text)) => Ok(PartView::Text { text, metadata: None }),
        Some(proto::PartContentView::File(fp)) => match fp.file {
            Some(proto::FileSourceView::FileWithUri(uri)) => Ok(
                PartView::File {
                    file: FileContentView {
                        name: none_if_empty(fp.name),
                        mime_type: none_if_empty(fp.media_type),
                        bytes: None,
                        uri: Some(uri),
                    },
                    metadata: None,
                },
            ),
            Some(proto::FileSourceView::FileWithBytes(bytes)) => Ok(
                PartView::File {
                    file: FileContentView {
                        name: none_if_empty(fp.name),
                        mime_type: none_if_empty(fp.media_type),
                        bytes: Some(base64_encoded(bytes)),
                        uri: None,
                    },
                    metadata: None,
                },
            ),
            None => Err(A2AErrorView::InvalidRequest("File part must have either URI or bytes"@)),
        },
        Some(proto::PartContentView::Data(_)) => Ok(
            PartView::Data { data: Set::empty(), metadata: None },
        ),
        None => Err(A2AErrorView::InvalidRequest("Part must have content"@)),
    }
}

/// Convert a proto Part to a domain Part. A wire part whose content the
/// domain model keeps is read, and sending what was read gives the wire part
/// back (inline bytes included).
pub fn from_proto_part(part: proto::Part) -> (r: Result<Part, A2AError>)
    ensures
        result_view(r) == spec_from_proto_part(part@),
        r is Ok ==> wire_bytes_come_back(part@),
        wire_part_kept(part@) ==> (r matches Ok(p) && spec_to_proto_part(p@) == Ok::<
            proto::PartView,
            A2AErrorView,
        >(part@)),
{
    let ghost q = part@;
    let r = from_proto_part_content(part);
    proof {
        if wire_part_kept(q) {
            law_wire_part_round_trip(q);
        }
    }
    r
}

fn from_proto_part_content(part: proto::Part) -> (r: Result<Part, A2AError>)
    ensures
        result_view(r) == spec_from_proto_part(part@),
        r is Ok ==> wire_bytes_come_back(part@),
{
    match part.part {
        Some(proto::PartContent::Text(text)) => Ok(Part::Text { text, metadata: None }),
        Some(proto::PartContent::File(file_part)) => {
            let (uri, bytes) = match file_part.file {
                Some(proto::FileSource::FileWithUri(uri)) => (Some(uri), None),
                Some(proto::FileSource::FileWithBytes(bytes_vec)) => {
                    let bytes_str = encode_base64(bytes_vec.as_slice());
                    (None, Some(bytes_str))
                },
                None => {
                    return Err(
                        A2AError::InvalidRequest(
                            String::from_str("File part must have either URI or bytes"),
                        ),
                    );
                },
            };
            let file_content = FileContent {
                name: string_or_none(file_part.name),
                mime_type: string_or_none(file_part.media_type),
                bytes,
                uri,
            };
            Ok(Part::File { file: file_content, metadata: None })
        },
        Some(proto::PartContent::Data(_data_part)) => {
            Ok(Part::Data { data: empty_json_object(), metadata: None })
        },
        None => Err(A2AError::InvalidRequest(String::from_str("Part must have content"))),
    }
}

/// The part conversion to the wire, as a function value.
pub open spec fn to_proto_part_fn() -> spec_fn(PartView) -> Result<proto::PartView, A2AErrorView> {
    |p: PartView| spec_to_proto_part(p)
}

/// The part conversion from the wire, as a function value.
pub open spec fn from_proto_part_fn() -> spec_fn(proto::PartView) -> Result<PartView, A2AErrorView> {
    |p: proto::PartView| spec_from_proto_part(p)
}

/// When a prefix of `xs` already fails to convert, the whole of `xs` fails
/// with the same error.
pub proof fn lemma_convert_all_err_prefix<A, B>(
    xs: Seq<A>,
    f: spec_fn(A) -> Result<B, A2AErrorView>,
    k: int,
)
    requires
        0 <= k <= xs.len(),
        convert_all(xs.take(k), f) is Err,
    ensures
        convert_all(xs, f) == convert_all(xs.take(k), f),
    decreases xs.len(),
{
    if k == xs.len() {
        assert(xs.take(k) =~= xs);
    } else {
        assert(xs.drop_last().take(k) =~= xs.take(k));
        lemma_convert_all_err_prefix(xs.drop_last(), f, k);
    }
}

/// Converting one more element extends the conversion of a prefix.
pub proof fn lemma_convert_all_step<A, B>(
    xs: Seq<A>,
    f: spec_fn(A) -> Result<B, A2AErrorView>,
    i: int,
)
    requires
        0 <= i < xs.len(),
    ensures
        convert_all(xs.take(i + 1), f) == match convert_all(xs.take(i), f) {
            Ok(done) => match f(xs[i]) {
                Ok(y) => Ok(done.push(y)),
                Err(e) => Err(e),
            },
            Err(e) => Err(e),
        },
{
    assert(xs.take(i + 1).drop_last() =~= xs.take(i));
    assert(xs.take(i + 1).last() == xs[i]);
}

fn to_proto_parts(parts: &Vec<Part>) -> (r: Result<Vec<proto::Part>, A2AError>)
    ensures
        match r {
            Ok(v) => convert_all(parts_view(parts@), to_proto_part_fn()) == Ok::<
                Seq<proto::PartView>,
                A2AErrorView,
            >(proto::parts_view(v@)) && forall|k: int|
                0 <= k < parts@.len() ==> #[trigger] text_comes_back(parts_view(parts@)[k]),
            Err(e) => convert_all(parts_view(parts@), to_proto_part_fn()) == Err::<
                Seq<proto::PartView>,
                A2AErrorView,
            >(e@),
        },
{
    let ghost xs = parts_view(parts@);
    let mut out: Vec<proto::Part> = Vec::new();
    let mut i: usize = 0;
    assert(xs.take(0) =~= Seq::<PartView>::empty());
    assert(proto::parts_view(out@) =~= Seq::<proto::PartView>::empty());
    while i < parts.len()
        invariant
            i <= parts.len(),
            xs == parts_view(parts@),
            convert_all(xs.take(i as int), to_proto_part_fn()) == Ok::<
                Seq<proto::PartView>,
                A2AErrorView,
            >(proto::parts_view(out@)),
            forall|k: int| 0 <= k < i ==> #[trigger] text_comes_back(xs[k]),
        decreases parts.len() - i,
    {
        proof {
            lemma_convert_all_step(xs, to_proto_part_fn(), i as int);
        }
        match to_proto_part(&parts[i]) {
            Ok(q) => {
                let ghost before = out@;
                out.push(q);
                assert(proto::parts_view(out@) =~= proto::parts_view(before).push(q@));
            },
            Err(e) => {
                proof {
                    lemma_convert_all_err_prefix(xs, to_proto_part_fn(), i + 1);
                }
                return Err(e);
            },
        }
        i = i + 1;
    }
    assert(xs.take(i as int) =~= xs);
    Ok(out)
}

pub(crate) fn reversed<T>(v: Vec<T>) -> (r: Vec<T>)
    ensures
        r.len() == v.len(),
        forall|k: int| 0 <= k < v.len() ==> #[trigger] r@[k] == v@[v.len() - 1 - k],
{
    let ghost orig = v@;
    let mut v = v;
    let mut r: Vec<T> = Vec::new();
    while v.len() > 0
        invariant
            v.len() + r.len() == orig.len(),
            v@ == orig.take(v.len() as int),
            forall|k: int| 0 <= k < r.len() ==> #[trigger] r@[k] == orig[orig.len() - 1 - k],
        decreases v.len(),
    {
        let x = v.pop().unwrap();
        r.push(x);
    }
    r
}

fn from_proto_parts(parts: Vec<proto::Part>) -> (r: Result<Vec<Part>, A2AError>)
    ensures
        match r {
            Ok(v) => convert_all(proto::parts_view(parts@), from_proto_part_fn()) == Ok::<
                Seq<PartView>,
                A2AErrorView,
            >(parts_view(v@)) && forall|k: int|
                0 <= k < parts@.len() ==> #[trigger] wire_bytes_come_back(
                    proto::parts_view(parts@)[k],
                ),
            Err(e) => convert_all(proto::parts_view(parts@), from_proto_part_fn()) == Err::<
                Seq<PartView>,
                A2AErrorView,
            >(e@),
        },
{
    let ghost xs = proto::parts_view(parts@);
    let n = parts.len();
    let mut rest = reversed(parts);
    let mut out: Vec<Part> = Vec::new();
    let mut i: usize = 0;
    assert(xs.take(0) =~= Seq::<proto::PartView>::empty());
    assert(parts_view(out@) =~= Seq::<PartView>::empty());
    while i < n
        invariant
            i <= n,
            n == xs.len(),
            xs == proto::parts_view(parts@),
            rest.len() == n - i,
            forall|k: int| 0 <= k < n - i ==> (#[trigger] rest@[k])@ == xs[n - 1 - k],
            convert_all(xs.take(i as int), from_proto_part_fn()) == Ok::<Seq<PartView>, A2AErrorView>(
                parts_view(out@),
            ),
            forall|k: int| 0 <= k < i ==> #[trigger] wire_bytes_come_back(xs[k]),
        decreases n - i,
    {
        proof {
            lemma_convert_all_step(xs, from_proto_part_fn(), i as int);
        }
        let ghost before_rest = rest@;
        let p = rest.pop().unwrap();
        assert(p@ == xs[i as int]);
        assert(forall|k: int| 0 <= k < n - i - 1 ==> rest@[k] == before_rest[k]);
        match from_proto_part(p) {
            Ok(q) => {
                let ghost before = out@;
                out.push(q);
                assert(parts_view(out@) =~= parts_view(before).push(q@));
            },
            Err(e) => {
                proof {
                    lemma_convert_all_err_prefix(xs, from_proto_part_fn(), i + 1);
                }
                return Err(e);
            },
        }
        i = i + 1;
    }
    assert(xs.take(i as int) =~= xs);
    Ok(out)
}

// ---------------------------------------------------------------------------
// Messages
// ---------------------------------------------------------------------------

/// The wire message that a domain message is sent as, or the error of its
/// first part that cannot be sent: absent identifiers and lists are sent
/// empty, metadata and the message kind are not sent.
pub open spec fn spec_to_proto_message(m: MessageView) -> Result<proto::MessageView, A2AErrorView> {
    match convert_all(m.parts, to_proto_part_fn()) {
        Ok(parts) => Ok(
            proto::MessageView {
                message_id: m.message_id,
                context_id: or_empty(m.context_id),
                task_id: or_empty(m.task_id),
                role: spec_to_proto_role(m.role),
                parts,
                metadata: None,
                extensions: or_empty_list(m.extensions),
                reference_task_ids: or_empty_list(m.reference_task_ids),
            },
        ),
        Err(e) => Err(e),
    }
}

/// Every list of domain parts whose content the wire carries is sent
/// without error.
proof fn lemma_kept_parts_sent(ps: Seq<PartView>)
    requires
        forall|i: int| 0 <= i < ps.len() ==> part_kept(#[trigger] ps[i]),
    ensures
        convert_all(ps, to_proto_part_fn()) is Ok,
{
    crate::laws::law_convert_all_elementwise(ps, to_proto_part_fn());
    assert forall|i: int| 0 <= i < ps.len() implies #[trigger] to_proto_part_fn()(ps[i]) is Ok by {
        assert(part_kept(ps[i]));
    }
}

/// Convert a domain Message to a proto Message. A domain message whose
/// content the wire carries is sent, and reading what was sent gives the
/// message back (inline bytes included).
pub fn to_proto_message(message: &Message) -> (r: Result<proto::Message, A2AError>)
    ensures
        result_view(r) == spec_to_proto_message(message@),
        message_kept(message@) ==> (r matches Ok(pm) && spec_from_proto_message(pm@) == Ok::<
            MessageView,
            A2AErrorView,
        >(message@)),
{
    let ghost m = message@;
    let role_value = to_proto_role(message.role);
    let parts = match to_proto_parts(&message.parts) {
        Ok(parts) => parts,
        Err(e) => {
            proof {
                if message_kept(m) {
                    lemma_kept_parts_sent(m.parts);
                }
            }
            return Err(e);
        },
    };
    proof {
        if message_kept(m) {
            assert forall|i: int| 0 <= i < m.parts.len() implies #[trigger] part_survives_wire(
                m.parts[i],
            ) by {
                assert(part_kept(m.parts[i]));
                assert(text_comes_back(m.parts[i]));
            }
            law_message_round_trip(m);
        }
    }
    Ok(
        proto::Message {
            message_id: message.message_id.clone(),
            context_id: clone_string_or_empty(&message.context_id),
            task_id: clone_string_or_empty(&message.task_id),
            role: role_value,
            parts,
            metadata: None,
            extensions: clone_strings_or_empty(&message.extensions),
            reference_task_ids: clone_strings_or_empty(&message.reference_task_ids),
        },
    )
}

/// The domain message that a wire message is read as, or the error of its
/// first part that cannot be read: empty identifiers and lists are read as
/// absent, every role but the agent role as the user, and the kind is
/// `"message"`; metadata is not read.
pub open spec fn spec_from_proto_message(m: proto::MessageView) -> Result<MessageView, A2AErrorView> {
    match convert_all(m.parts, from_proto_part_fn()) {
        Ok(parts) => Ok(
            MessageView {
                role: spec_from_proto_role(m.role),
                parts,
                metadata: None,
                reference_task_ids: none_if_empty_list(m.reference_task_ids),
                message_id: m.message_id,
                task_id: none_if_empty(m.task_id),
                context_id: none_if_empty(m.context_id),
                extensions: none_if_empty_list(m.extensions),
                kind: "message"@,
            },
        ),
        Err(e) => Err(e),
    }
}

/// Every list of wire parts whose content is kept is read without error.
proof fn lemma_kept_parts_read(ps: Seq<proto::PartView>)
    requires
        forall|i: int| 0 <= i < ps.len() ==> wire_part_kept(#[trigger] ps[i]),
    ensures
        convert_all(ps, from_proto_part_fn()) is Ok,
{
    crate::laws::law_convert_all_elementwise(ps, from_proto_part_fn());
    assert forall|i: int| 0 <= i < ps.len() implies #[trigger] from_proto_part_fn()(ps[i]) is Ok by {
        assert(wire_part_kept(ps[i]));
    }
}

/// Convert a proto Message to a domain Message. A wire message whose content
/// the domain model keeps is read, and sending what was read gives the wire
/// message back (inline bytes included).
pub fn from_proto_message(message: proto::Message) -> (r: Result<Message, A2AError>)
    ensures
        result_view(r) == spec_from_proto_message(message@),
        wire_message_kept(message@) ==> (r matches Ok(m) && spec_to_proto_message(m@) == Ok::<
            proto::MessageView,
            A2AErrorView,
        >(message@)),
{
    let ghost pm = message@;
    let role = from_proto_role(message.role);
    let parts = match from_proto_parts(message.parts) {
        Ok(parts) => parts,
        Err(e) => {
            proof {
                if wire_message_kept(pm) {
                    lemma_kept_parts_read(pm.parts);
                }
            }
            return Err(e);
        },
    };
    proof {
        if wire_message_kept(pm) {
            assert forall|i: int| 0 <= i < pm.parts.len() implies #[trigger] crate::laws::wire_part_survives(
                pm.parts[i],
            ) by {
                assert(wire_part_kept(pm.parts[i]));
                assert(wire_bytes_come_back(pm.parts[i]));
            }
            law_wire_message_round_trip(pm);
        }
    }
    Ok(
        Message {
            message_id: message.message_id,
            role,
            parts,
            metadata: None,
            reference_task_ids: strings_or_none(message.reference_task_ids),
            task_id: string_or_none(message.task_id),
            context_id: string_or_none(message.context_id),
            extensions: strings_or_none(message.extensions),
            kind: String::from_str("message"),
        },
    )
}

/// The message conversion to the wire, as a function value.
pub open spec fn to_proto_message_fn() -> spec_fn(MessageView) -> Result<proto::MessageView, A2AErrorView> {
    |m: MessageView| spec_to_proto_message(m)
}

fn to_proto_messages(messages: &Vec<Message>) -> (r: Result<Vec<proto::Message>, A2AError>)
    ensures
        match r {
            Ok(v) => convert_all(messages_view(messages@), to_proto_message_fn()) == Ok::<
                Seq<proto::MessageView>,
                A2AErrorView,
            >(proto::messages_view(v@)),
            Err(e) => convert_all(messages_view(messages@), to_proto_message_fn()) == Err::<
                Seq<proto::MessageView>,
                A2AErrorView,
            >(e@),
        },
{
    let ghost xs = messages_view(messages@);
    let mut out: Vec<proto::Message> = Vec::new();
    let mut i: usize = 0;
    assert(xs.take(0) =~= Seq::<MessageView>::empty());
    assert(proto::messages_view(out@) =~= Seq::<proto::MessageView>::empty());
    while i < messages.len()
        invariant
            i <= messages.len(),
            xs == messages_view(messages@),
            convert_all(xs.take(i as int), to_proto_message_fn()) == Ok::<
                Seq<proto::MessageView>,
                A2AErrorView,
            >(proto::messages_view(out@)),
        decreases messages.len() - i,
    {
        proof {
            lemma_convert_all_step(xs, to_proto_message_fn(), i as int);
        }
        match to_proto_message(&messages[i]) {
            Ok(q) => {
                let ghost before = out@;
                out.push(q);
                assert(proto::messages_view(out@) =~= proto::messages_view(before).push(q@));
            },
            Err(e) => {
                proof {
                    lemma_convert_all_err_prefix(xs, to_proto_message_fn(), i + 1);
                }
                return Err(e);
            },
        }
        i = i + 1;
    }
    assert(xs.take(i as int) =~= xs);
    Ok(out)
}

// ---------------------------------------------------------------------------
// Task statuses, artifacts and tasks
// ---------------------------------------------------------------------------

/// The wire timestamp that a domain time is sent as: the seconds, and the
/// nanoseconds as a 32-bit signed number.
pub open spec fn spec_to_proto_timestamp(t: crate::domain::UtcTimestamp) -> proto::Timestamp {
    proto::Timestamp { seconds: t.seconds, nanos: t.subsec_nanos as i32 }
}

/// The wire status that a domain status is sent as, or the error of its
/// message.
pub open spec fn spec_to_proto_task_status(s: TaskStatusView) -> Result<
    proto::TaskStatusView,
    A2AErrorView,
> {
    let message = match s.message {
        Some(m) => match spec_to_proto_message(m) {
            Ok(pm) => Ok(Some(pm)),
            Err(e) => Err(e),
        },
        None => Ok(None),
    };
    match message {
        Ok(message) => Ok(
            proto::TaskStatusView {
                state: spec_to_proto_task_state(s.state).spec_value(),
                message,
                timestamp: match s.timestamp {
                    Some(t) => Some(spec_to_proto_timestamp(t)),
                    None => None,
                },
            },
        ),
        Err(e) => Err(e),
    }
}

/// Convert a domain TaskStatus to a proto TaskStatus
pub fn to_proto_task_status(status: &TaskStatus) -> (r: Result<proto::TaskStatus, A2AError>)
    ensures
        result_view(r) == spec_to_proto_task_status(status@),
{
    let message = match &status.message {
        Some(m) => match to_proto_message(m) {
            Ok(pm) => Some(pm),
            Err(e) => return Err(e),
        },
        None => None,
    };
    let timestamp = match &status.timestamp {
        Some(dt) => Some(proto::Timestamp { seconds: dt.seconds, nanos: dt.subsec_nanos as i32 }),
        None => None,
    };
    Ok(
        proto::TaskStatus {
            state: to_proto_task_state(&status.state).value(),
            message,
            timestamp,
        },
    )
}

/// Convert a proto TaskStatus to a domain TaskStatus: not supported, so it
/// always fails.
pub fn from_proto_task_status(_status: proto::TaskStatus) -> (r: Result<TaskStatus, A2AError>)
    ensures
        result_view(r) == Err::<TaskStatusView, A2AErrorView>(
            A2AErrorView::UnsupportedOperation("Conversion not yet implemented"@),
        ),
{
    Err(A2AError::UnsupportedOperation(String::from_str("Conversion not yet implemented")))
}

/// The wire artifact that a domain artifact is sent as, or the error of its
/// first part that cannot be sent: the name, description and extensions are
/// sent empty, metadata is not sent.
pub open spec fn spec_to_proto_artifact(a: ArtifactView) -> Result<proto::ArtifactView, A2AErrorView> {
    match convert_all(a.parts, to_proto_part_fn()) {
        Ok(parts) => Ok(
            proto::ArtifactView {
                artifact_id: a.artifact_id,
                name: Seq::empty(),
                description: Seq::empty(),
                parts,
                metadata: None,
                extensions: Seq::empty(),
            },
        ),
        Err(e) => Err(e),
    }
}

/// Convert a domain Artifact to a proto Artifact
pub fn to_proto_artifact(artifact: &Artifact) -> (r: Result<proto::Artifact, A2AError>)
    ensures
        result_view(r) == spec_to_proto_artifact(artifact@),
{
    let parts = match to_proto_parts(&artifact.parts) {
        Ok(parts) => parts,
        Err(e) => return Err(e),
    };
    let extensions: Vec<String> = Vec::new();
    assert(strings_view(extensions@) =~= Seq::<Seq<char>>::empty());
    Ok(
        proto::Artifact {
            artifact_id: artifact.artifact_id.clone(),
            name: String::new(),
            description: String::new(),
            parts,
            metadata: None,
            extensions,
        },
    )
}

/// Convert a proto Artifact to a domain Artifact: not supported, so it always
/// fails.
pub fn from_proto_artifact(_artifact: proto::Artifact) -> (r: Result<Artifact, A2AError>)
    ensures
        result_view(r) == Err::<ArtifactView, A2AErrorView>(
            A2AErrorView::UnsupportedOperation("Conversion not yet implemented"@),
        ),
{
    Err(A2AError::UnsupportedOperation(String::from_str("Conversion not yet implemented")))
}

/// The artifact conversion to the wire, as a function value.
pub open spec fn to_proto_artifact_fn() -> spec_fn(ArtifactView) -> Result<proto::ArtifactView, A2AErrorView> {
    |a: ArtifactView| spec_to_proto_artifact(a)
}

fn to_proto_artifacts(artifacts: &Vec<Artifact>) -> (r: Result<Vec<proto::Artifact>, A2AError>)
    ensures
        match r {
            Ok(v) => convert_all(artifacts_view(artifacts@), to_proto_artifact_fn()) == Ok::<
                Seq<proto::ArtifactView>,
                A2AErrorView,
            >(proto::artifacts_view(v@)),
            Err(e) => convert_all(artifacts_view(artifacts@), to_proto_artifact_fn()) == Err::<
                Seq<proto::ArtifactView>,
                A2AErrorView,
            >(e@),
        },
{
    let ghost xs = artifacts_view(artifacts@);
    let mut out: Vec<proto::Artifact> = Vec::new();
    let mut i: usize = 0;
    assert(xs.take(0) =~= Seq::<ArtifactView>::empty());
    assert(proto::artifacts_view(out@) =~= Seq::<proto::ArtifactView>::empty());
    while i < artifacts.len()
        invariant
            i <= artifacts.len(),
            xs == artifacts_view(artifacts@),
            convert_all(xs.take(i as int), to_proto_artifact_fn()) == Ok::<
                Seq<proto::ArtifactView>,
                A2AErrorView,
            >(proto::artifacts_view(out@)),
        decreases artifacts.len() - i,
    {
        proof {
            lemma_convert_all_step(xs, to_proto_artifact_fn(), i as int);
        }
        match to_proto_artifact(&artifacts[i]) {
            Ok(q) => {
                let ghost before = out@;
                out.push(q);
                assert(proto::artifacts_view(out@) =~= proto::artifacts_view(before).push(q@));
            },
            Err(e) => {
                proof {
                    lemma_convert_all_err_prefix(xs, to_proto_artifact_fn(), i + 1);
                }
                return Err(e);
            },
        }
        i = i + 1;
    }
    assert(xs.take(i as int) =~= xs);
    Ok(out)
}

/// Converts an optional list with `f`; an absent list is an empty one.
pub open spec fn convert_optional<A, B>(
    o: Option<Seq<A>>,
    f: spec_fn(A) -> Result<B, A2AErrorView>,
) -> Result<Seq<B>, A2AErrorView> {
    match o {
        Some(xs) => convert_all(xs, f),
        None => Ok(Seq::empty()),
    }
}

/// The wire task that a domain task is sent as, or the first error met in
/// its status, then its artifacts, then its history; metadata and the task
/// kind are not sent.
pub open spec fn spec_to_proto_task(t: TaskView) -> Result<proto::TaskView, A2AErrorView> {
    match spec_to_proto_task_status(t.status) {
        Ok(status) => match convert_optional(t.artifacts, to_proto_artifact_fn()) {
            Ok(artifacts) => match convert_optional(t.history, to_proto_message_fn()) {
                Ok(history) => Ok(
                    proto::TaskView {
                        id: t.id,
                        context_id: t.context_id,
                        status: Some(status),
                        artifacts,
                        history,
                        metadata: None,
                    },
                ),
                Err(e) => Err(e),
            },
            Err(e) => Err(e),
        },
        Err(e) => Err(e),
    }
}

/// Convert a domain Task to a proto Task
pub fn to_proto_task(task: &Task) -> (r: Result<proto::Task, A2AError>)
    ensures
        result_view(r) == spec_to_proto_task(task@),
{
    let status = match to_proto_task_status(&task.status) {
        Ok(s) => s,
        Err(e) => return Err(e),
    };
    let artifacts = match &task.artifacts {
        Some(arts) => match to_proto_artifacts(arts) {
            Ok(a) => a,
            Err(e) => return Err(e),
        },
        None => {
            let a: Vec<proto::Artifact> = Vec::new();
            assert(proto::artifacts_view(a@) =~= Seq::<proto::ArtifactView>::empty());
            a
        },
    };
    let history = match &task.history {
        Some(hist) => match to_proto_messages(hist) {
            Ok(h) => h,
            Err(e) => return Err(e),
        },
        None => {
            let h: Vec<proto::Message> = Vec::new();
            assert(proto::messages_view(h@) =~= Seq::<proto::MessageView>::empty());
            h
        },
    };
    Ok(
        proto::Task {
            id: task.id.clone(),
            context_id: task.context_id.clone(),
            status: Some(status),
            artifacts,
            history,
            metadata: None,
        },
    )
}

/// Convert a proto Task to a domain Task: not supported, so it always fails.
pub fn from_proto_task(_task: proto::Task) -> (r: Result<Task, A2AError>)
    ensures
        result_view(r) == Err::<TaskView, A2AErrorView>(
            A2AErrorView::UnsupportedOperation("Conversion not yet implemented"@),
        ),
{
    Err(A2AError::UnsupportedOperation(String::from_str("Conversion not yet implemented")))
}

// ---------------------------------------------------------------------------
// Agent cards
// ---------------------------------------------------------------------------

/// The wire provider that a provider is sent as.
pub open spec fn spec_to_proto_provider(p: AgentProviderView) -> proto::AgentProviderView {
    proto::AgentProviderView { url: p.url, organization: p.organization }
}

/// The wire extension that an extension is sent as: an absent description
/// is sent empty, and an absent `required` as not required.
pub open spec fn spec_to_proto_extension(e: AgentExtensionView) -> proto::AgentExtensionView {
    proto::AgentExtensionView {
        uri: e.uri,
        description: or_empty(e.description),
        required: match e.required {
            Some(b) => b,
            None => false,
        },
    }
}

/// The wire capabilities that capabilities are sent as: every flag is sent,
/// and an absent list of extensions is sent empty.
pub open spec fn spec_to_proto_capabilities(c: AgentCapabilitiesView) -> proto::AgentCapabilitiesView {
    proto::AgentCapabilitiesView {
        streaming: Some(c.streaming),
        push_notifications: Some(c.push_notifications),
        extensions: or_empty_list(c.extensions).map_values(
            |e: AgentExtensionView| spec_to_proto_extension(e),
        ),
        state_transition_history: Some(c.state_transition_history),
    }
}

/// The wire skill that a skill is sent as: absent lists are sent empty.
pub open spec fn spec_to_proto_skill(k: AgentSkillView) -> proto::AgentSkillView {
    proto::AgentSkillView {
        id: k.id,
        name: k.name,
        description: k.description,
        tags: k.tags,
        examples: or_empty_list(k.examples),
        input_modes: or_empty_list(k.input_modes),
        output_modes: or_empty_list(k.output_modes),
    }
}

/// The wire interface that an interface is sent as.
pub open spec fn spec_to_proto_interface(i: AgentInterfaceView) -> proto::AgentInterfaceView {
    proto::AgentInterfaceView { url: i.url, transport: i.transport }
}

/// The wire signature that a signature is sent as.
pub open spec fn spec_to_proto_signature(g: AgentCardSignatureView) -> proto::AgentCardSignatureView {
    proto::AgentCardSignatureView { protected: g.protected, signature: g.signature }
}

/// The wire card that a domain card is sent as: every field is carried over,
/// the URL and protocol version as present values, the provider, capabilities,
/// skills, interfaces and signatures each converted in order, and absent lists
/// sent empty.
pub open spec fn spec_to_proto_agent_card(c: AgentCardView) -> proto::AgentCardView {
    proto::AgentCardView {
        protocol_version: Some(c.protocol_version),
        name: c.name,
        description: c.description,
        url: Some(c.url),
        preferred_transport: c.preferred_transport,
        additional_interfaces: or_empty_list(c.additional_interfaces).map_values(
            |i: AgentInterfaceView| spec_to_proto_interface(i),
        ),
        provider: match c.provider {
            Some(p) => Some(spec_to_proto_provider(p)),
            None => None,
        },
        version: c.version,
        documentation_url: c.documentation_url,
        capabilities: Some(spec_to_proto_capabilities(c.capabilities)),
        default_input_modes: c.default_input_modes,
        default_output_modes: c.default_output_modes,
        skills: c.skills.map_values(|k: AgentSkillView| spec_to_proto_skill(k)),
        supports_extended_agent_card: c.supports_authenticated_extended_card,
        signatures: or_empty_list(c.signatures).map_values(
            |g: AgentCardSignatureView| spec_to_proto_signature(g),
        ),
        icon_url: c.icon_url,
    }
}

fn clone_opt_string(o: &Option<String>) -> (r: Option<String>)
    ensures
        opt_string_view(r) == opt_string_view(*o),
{
    match o {
        Some(s) => Some(s.clone()),
        None => None,
    }
}

fn to_proto_extensions(v: &Vec<AgentExtension>) -> (r: Vec<proto::AgentExtension>)
    ensures
        proto::extensions_view(r@) == extensions_view(v@).map_values(
            |e: AgentExtensionView| spec_to_proto_extension(e),
        ),
{
    let mut r: Vec<proto::AgentExtension> = Vec::new();
    let mut i: usize = 0;
    while i < v.len()
        invariant
            i <= v.len(),
            r.len() == i,
            forall|k: int| 0 <= k < i ==> #[trigger] r@[k]@ == spec_to_proto_extension(v@[k]@),
        decreases v.len() - i,
    {
        let e = &v[i];
        let required = match e.required {
            Some(b) => b,
            None => false,
        };
        r.push(
            proto::AgentExtension {
                uri: e.uri.clone(),
                description: clone_string_or_empty(&e.description),
                required,
            },
        );
        i = i + 1;
    }
    assert(proto::extensions_view(r@) =~= extensions_view(v@).map_values(
        |e: AgentExtensionView| spec_to_proto_extension(e),
    ));
    r
}

fn to_proto_capabilities(c: &AgentCapabilities) -> (r: proto::AgentCapabilities)
    ensures
        r@ == spec_to_proto_capabilities(c@),
{
    let extensions = match &c.extensions {
        Some(v) => to_proto_extensions(v),
        None => {
            let r: Vec<proto::AgentExtension> = Vec::new();
            assert(proto::extensions_view(r@) =~= Seq::<AgentExtensionView>::empty().map_values(
                |e: AgentExtensionView| spec_to_proto_extension(e),
            ));
            r
        },
    };
    proto::AgentCapabilities {
        streaming: Some(c.streaming),
        push_notifications: Some(c.push_notifications),
        extensions,
        state_transition_history: Some(c.state_transition_history),
    }
}

fn to_proto_skills(v: &Vec<AgentSkill>) -> (r: Vec<proto::AgentSkill>)
    ensures
        proto::skills_view(r@) == skills_view(v@).map_values(|k: AgentSkillView| spec_to_proto_skill(k)),
{
    let mut r: Vec<proto::AgentSkill> = Vec::new();
    let mut i: usize = 0;
    while i < v.len()
        invariant
            i <= v.len(),
            r.len() == i,
            forall|k: int| 0 <= k < i ==> #[trigger] r@[k]@ == spec_to_proto_skill(v@[k]@),
        decreases v.len() - i,
    {
        let k = &v[i];
        r.push(
            proto::AgentSkill {
                id: k.id.clone(),
                name: k.name.clone(),
                description: k.description.clone(),
                tags: clone_strings(&k.tags),
                examples: clone_strings_or_empty(&k.examples),
                input_modes: clone_strings_or_empty(&k.input_modes),
                output_modes: clone_strings_or_empty(&k.output_modes),
            },
        );
        i = i + 1;
    }
    assert(proto::skills_view(r@) =~= skills_view(v@).map_values(
        |k: AgentSkillView| spec_to_proto_skill(k),
    ));
    r
}

fn to_proto_interfaces(o: &Option<Vec<AgentInterface>>) -> (r: Vec<proto::AgentInterface>)
    ensures
        proto::interfaces_view(r@) == or_empty_list(
            match *o {
                Some(v) => Some(interfaces_view(v@)),
                None => None,
            },
        ).map_values(|i: AgentInterfaceView| spec_to_proto_interface(i)),
{
    let mut r: Vec<proto::AgentInterface> = Vec::new();
    match o {
        Some(v) => {
            let mut i: usize = 0;
            while i < v.len()
                invariant
                    i <= v.len(),
                    r.len() == i,
                    forall|k: int|
                        0 <= k < i ==> #[trigger] r@[k]@ == spec_to_proto_interface(v@[k]@),
                decreases v.len() - i,
            {
                r.push(proto::AgentInterface { url: v[i].url.clone(), transport: v[i].transport.clone() });
                i = i + 1;
            }
            assert(proto::interfaces_view(r@) =~= interfaces_view(v@).map_values(
                |i: AgentInterfaceView| spec_to_proto_interface(i),
            ));
        },
        None => {
            assert(proto::interfaces_view(r@) =~= Seq::<AgentInterfaceView>::empty().map_values(
                |i: AgentInterfaceView| spec_to_proto_interface(i),
            ));
        },
    }
    r
}

fn to_proto_signatures(o: &Option<Vec<AgentCardSignature>>) -> (r: Vec<proto::AgentCardSignature>)
    ensures
        proto::signatures_view(r@) == or_empty_list(
            match *o {
                Some(v) => Some(signatures_view(v@)),
                None => None,
            },
        ).map_values(|g: AgentCardSignatureView| spec_to_proto_signature(g)),
{
    let mut r: Vec<proto::AgentCardSignature> = Vec::new();
    match o {
        Some(v) => {
            let mut i: usize = 0;
            while i < v.len()
                invariant
                    i <= v.len(),
                    r.len() == i,
                    forall|k: int|
                        0 <= k < i ==> #[trigger] r@[k]@ == spec_to_proto_signature(v@[k]@),
                decreases v.len() - i,
            {
                r.push(
                    proto::AgentCardSignature {
                        protected: v[i].protected.clone(),
                        signature: v[i].signature.clone(),
                    },
                );
                i = i + 1;
            }
            assert(proto::signatures_view(r@) =~= signatures_view(v@).map_values(
                |g: AgentCardSignatureView| spec_to_proto_signature(g),
            ));
        },
        None => {
            assert(proto::signatures_view(r@) =~= Seq::<AgentCardSignatureView>::empty().map_values(
                |g: AgentCardSignatureView| spec_to_proto_signature(g),
            ));
        },
    }
    r
}

/// Convert AgentCard to a proto AgentCard, with its full structure; never
/// fails.
pub fn to_proto_agent_card(agent_card: &AgentCard) -> (r: Result<proto::AgentCard, A2AError>)
    ensures
        result_view(r) == Ok::<proto::AgentCardView, A2AErrorView>(
            spec_to_proto_agent_card(agent_card@),
        ),
{
    let provider = match &agent_card.provider {
        Some(p) => Some(proto::AgentProvider { url: p.url.clone(), organization: p.organization.clone() }),
        None => None,
    };
    Ok(
        proto::AgentCard {
            protocol_version: Some(agent_card.protocol_version.clone()),
            name: agent_card.name.clone(),
            description: agent_card.description.clone(),
            url: Some(agent_card.url.clone()),
            preferred_transport: clone_opt_string(&agent_card.preferred_transport),
            additional_interfaces: to_proto_interfaces(&agent_card.additional_interfaces),
            provider,
            version: agent_card.version.clone(),
            documentation_url: clone_opt_string(&agent_card.documentation_url),
            capabilities: Some(to_proto_capabilities(&agent_card.capabilities)),
            default_input_modes: clone_strings(&agent_card.default_input_modes),
            default_output_modes: clone_strings(&agent_card.default_output_modes),
            skills: to_proto_skills(&agent_card.skills),
            supports_extended_agent_card: agent_card.supports_authenticated_extended_card,
            signatures: to_proto_signatures(&agent_card.signatures),
            icon_url: clone_opt_string(&agent_card.icon_url),
        },
    )
}

/// Convert a proto AgentCard to domain types: not supported, so it always
/// fails.
pub fn from_proto_agent_card(_card: proto::AgentCard) -> (r: Result<(), A2AError>)
    ensures
        match r {
            Ok(_) => false,
            Err(e) => e@ == A2AErrorView::UnsupportedOperation("Conversion not yet implemented"@),
        },
{
    Err(A2AError::UnsupportedOperation(String::from_str("Conversion not yet implemented")))
}

} // verus!
