//! Laws of the wire conversions: what survives a trip to the wire and back.
use vstd::prelude::*;
use crate::domain::{A2AErrorView, MessageView, PartView, Role, TaskState};
use crate::proto;
use crate::encoding::{base64_decoded, base64_encoded};
use crate::convert::{
    convert_all, from_proto_part_fn, spec_from_proto_message, spec_from_proto_part,
    spec_from_proto_role, spec_from_proto_task_state, spec_to_proto_message, spec_to_proto_part,
    spec_to_proto_role, spec_to_proto_task_state, to_proto_part_fn, or_empty, or_empty_list,
    none_if_empty, none_if_empty_list,
};

verus! {

/// Converting a list element by element and back gives the list again when
/// each element goes there and back unchanged.
pub proof fn lemma_convert_all_round_trip<A, B>(
    xs: Seq<A>,
    f: spec_fn(A) -> Result<B, A2AErrorView>,
    g: spec_fn(B) -> Result<A, A2AErrorView>,
)
    requires
        forall|i: int|
            0 <= i < xs.len() ==> (#[trigger] f(xs[i]) matches Ok(y) && g(y) == Ok::<
                A,
                A2AErrorView,
            >(xs[i])),
    ensures
        convert_all(xs, f) matches Ok(ys) && convert_all(ys, g) == Ok::<Seq<A>, A2AErrorView>(xs),
    decreases xs.len(),
{
    if xs.len() == 0 {
        assert(xs =~= Seq::<A>::empty());
    } else {
        let front = xs.drop_last();
        assert forall|i: int| 0 <= i < front.len() implies (#[trigger] f(front[i]) matches Ok(y)
            && g(y) == Ok::<A, A2AErrorView>(front[i])) by {
            assert(front[i] == xs[i]);
        }
        lemma_convert_all_round_trip(front, f, g);
        let ys0 = convert_all(front, f)->Ok_0;
        let last = xs[xs.len() - 1];
        assert(f(last) matches Ok(y) && g(y) == Ok::<A, A2AErrorView>(last));
        let y = f(last)->Ok_0;
        let ys = ys0.push(y);
        assert(convert_all(xs, f) == Ok::<Seq<B>, A2AErrorView>(ys));
        assert(ys.drop_last() =~= ys0);
        assert(ys.last() == y);
        assert(convert_all(ys, g) == Ok::<Seq<A>, A2AErrorView>(front.push(last)));
        assert(front.push(last) =~= xs);
    }
}

/// Every domain task state survives the trip to its wire number and back.
pub proof fn law_task_state_round_trip(state: TaskState)
    ensures
        spec_from_proto_task_state(spec_to_proto_task_state(state).spec_value()) == state,
{
}

/// Every known wire task state (numbers 1 to 8) survives the trip to the
/// domain and back; every other number is read as `Unknown`.
pub proof fn law_wire_task_state_round_trip(value: i32)
    ensures
        1 <= value <= 8 ==> spec_to_proto_task_state(spec_from_proto_task_state(value)).spec_value()
            == value,
        !(1 <= value <= 8) ==> spec_from_proto_task_state(value) == TaskState::Unknown,
{
}

/// Every domain role survives the trip to the wire and back.
pub proof fn law_role_round_trip(role: Role)
    ensures
        spec_from_proto_role(spec_to_proto_role(role)) == role,
{
}

/// An optional name that is not present-but-empty.
pub open spec fn not_present_empty(o: Option<Seq<char>>) -> bool {
    o != Some(Seq::<char>::empty())
}

/// A list that is not present-but-empty.
pub open spec fn not_present_empty_list<T>(o: Option<Seq<T>>) -> bool {
    o != Some(Seq::<T>::empty())
}

/// A name that is absent or non-empty is kept by sending it as a possibly
/// empty name and reading an empty name as absent.
pub proof fn lemma_present_nonempty(o: Option<Seq<char>>)
    requires
        not_present_empty(o),
    ensures
        none_if_empty(or_empty(o)) == o,
{
    if let Some(s) = o {
        if s.len() == 0 {
            assert(s =~= Seq::<char>::empty());
        }
    }
}

/// A list that is absent or non-empty is kept by sending it as a possibly
/// empty list and reading an empty list as absent.
pub proof fn lemma_present_nonempty_list<T>(o: Option<Seq<T>>)
    requires
        not_present_empty_list(o),
    ensures
        none_if_empty_list(or_empty_list(o)) == o,
{
    if let Some(s) = o {
        if s.len() == 0 {
            assert(s =~= Seq::<T>::empty());
        }
    }
}

/// A domain part whose content the wire carries: no metadata; a file with
/// non-empty name and media type where they are present and either a URI and
/// no inline bytes, or inline bytes whose base64 text decodes; a data part
/// with an empty object.
pub open spec fn part_kept(p: PartView) -> bool {
    match p {
        PartView::Text { metadata, .. } => metadata is None,
        PartView::File { file, metadata } => {
            &&& metadata is None
            &&& not_present_empty(file.name)
            &&& not_present_empty(file.mime_type)
            &&& match file.uri {
                Some(_) => file.bytes is None,
                None => match file.bytes {
                    Some(text) => base64_decoded(text) is Ok,
                    None => false,
                },
            }
        },
        PartView::Data { data, metadata } => metadata is None && data == Set::<Seq<char>>::empty(),
    }
}

/// The inline base64 text of a domain file part without a URI, where it
/// decodes, is the encoding of the bytes it decodes to. Every part that
/// `to_proto_part` handles has this property.
pub open spec fn text_comes_back(p: PartView) -> bool {
    match p {
        PartView::File { file, .. } => match file.uri {
            Some(_) => true,
            None => match file.bytes {
                Some(text) => match base64_decoded(text) {
                    Ok(b) => base64_encoded(b) == text,
                    Err(_) => true,
                },
                None => true,
            },
        },
        _ => true,
    }
}

/// A domain part that the wire carries without loss: its content is carried,
/// and its inline text is the encoding of its bytes.
pub open spec fn part_survives_wire(p: PartView) -> bool {
    part_kept(p) && text_comes_back(p)
}

/// A domain part that the wire carries without loss comes back unchanged.
pub proof fn law_part_round_trip(p: PartView)
    requires
        part_survives_wire(p),
    ensures
        spec_to_proto_part(p) matches Ok(q) && spec_from_proto_part(q) == Ok::<
            PartView,
            A2AErrorView,
        >(p),
{
    match p {
        PartView::File { file, metadata } => {
            lemma_present_nonempty(file.name);
            lemma_present_nonempty(file.mime_type);
        },
        _ => {},
    }
}

/// A domain message whose content the wire carries: its kind is
/// `"message"`, it has no metadata, no present-but-empty identifier or list,
/// and the content of every part is carried.
pub open spec fn message_kept(m: MessageView) -> bool {
    &&& m.kind == "message"@
    &&& m.metadata is None
    &&& not_present_empty(m.task_id)
    &&& not_present_empty(m.context_id)
    &&& not_present_empty_list(m.extensions)
    &&& not_present_empty_list(m.reference_task_ids)
    &&& forall|i: int| 0 <= i < m.parts.len() ==> part_kept(#[trigger] m.parts[i])
}

/// A domain message that the wire carries without loss: its kind is
/// `"message"`, it has no metadata, no present-but-empty identifier or list,
/// and every part survives the wire.
pub open spec fn message_survives_wire(m: MessageView) -> bool {
    &&& m.kind == "message"@
    &&& m.metadata is None
    &&& not_present_empty(m.task_id)
    &&& not_present_empty(m.context_id)
    &&& not_present_empty_list(m.extensions)
    &&& not_present_empty_list(m.reference_task_ids)
    &&& forall|i: int| 0 <= i < m.parts.len() ==> part_survives_wire(#[trigger] m.parts[i])
}

/// A domain message that the wire carries without loss comes back unchanged
/// after a trip to the wire and back.
pub proof fn law_message_round_trip(m: MessageView)
    requires
        message_survives_wire(m),
    ensures
        spec_to_proto_message(m) matches Ok(pm) && spec_from_proto_message(pm) == Ok::<
            MessageView,
            A2AErrorView,
        >(m),
{
    assert forall|i: int| 0 <= i < m.parts.len() implies (#[trigger] to_proto_part_fn()(m.parts[i])
        matches Ok(y) && from_proto_part_fn()(y) == Ok::<PartView, A2AErrorView>(m.parts[i])) by {
        law_part_round_trip(m.parts[i]);
    }
    lemma_convert_all_round_trip(m.parts, to_proto_part_fn(), from_proto_part_fn());
    lemma_present_nonempty(m.task_id);
    lemma_present_nonempty(m.context_id);
    lemma_present_nonempty_list(m.extensions);
    lemma_present_nonempty_list(m.reference_task_ids);
    law_role_round_trip(m.role);
}

/// Reading an empty name as absent and sending an absent name as empty gives
/// the name back.
pub proof fn lemma_empty_as_absent(s: Seq<char>)
    ensures
        or_empty(none_if_empty(s)) == s,
{
    if s.len() == 0 {
        assert(s =~= Seq::<char>::empty());
    }
}

/// Reading an empty list as absent and sending an absent list as empty gives
/// the list back.
pub proof fn lemma_empty_list_as_absent<T>(s: Seq<T>)
    ensures
        or_empty_list(none_if_empty_list(s)) == s,
{
    if s.len() == 0 {
        assert(s =~= Seq::<T>::empty());
    }
}

/// A wire part whose content the domain model keeps: it has content and no
/// metadata, a file part names its source, and a data part carries no
/// structure.
pub open spec fn wire_part_kept(q: proto::PartView) -> bool {
    &&& q.metadata is None
    &&& match q.part {
        Some(proto::PartContentView::Text(_)) => true,
        Some(proto::PartContentView::File(fp)) => fp.file is Some,
        Some(proto::PartContentView::Data(d)) => d is None,
        None => false,
    }
}

/// The inline bytes of a wire part, if any, come back from their base64
/// text. Every part that `from_proto_part` reads has this property.
pub open spec fn wire_bytes_come_back(q: proto::PartView) -> bool {
    match q.part {
        Some(proto::PartContentView::File(fp)) => match fp.file {
            Some(proto::FileSourceView::FileWithBytes(b)) => base64_decoded(base64_encoded(b))
                == Ok::<Seq<u8>, Seq<char>>(b),
            _ => true,
        },
        _ => true,
    }
}

/// A wire part that the domain model keeps without loss: its content is kept,
/// and its inline bytes come back from their base64 text.
pub open spec fn wire_part_survives(q: proto::PartView) -> bool {
    wire_part_kept(q) && wire_bytes_come_back(q)
}

/// A wire part that the domain model keeps without loss comes back unchanged
/// after a trip to the domain and back.
pub proof fn law_wire_part_round_trip(q: proto::PartView)
    requires
        wire_part_survives(q),
    ensures
        spec_from_proto_part(q) matches Ok(p) && spec_to_proto_part(p) == Ok::<
            proto::PartView,
            A2AErrorView,
        >(q),
{
    if let Some(proto::PartContentView::File(fp)) = q.part {
        lemma_empty_as_absent(fp.name);
        lemma_empty_as_absent(fp.media_type);
    }
}

/// A wire message whose content the domain model keeps: its role is the user
/// or the agent, it has no metadata, and the content of every part is kept.
pub open spec fn wire_message_kept(pm: proto::MessageView) -> bool {
    &&& (pm.role == 1 || pm.role == 2)
    &&& pm.metadata is None
    &&& forall|i: int| 0 <= i < pm.parts.len() ==> wire_part_kept(#[trigger] pm.parts[i])
}

/// A wire message that the domain model keeps without loss: its role is the
/// user or the agent, it has no metadata, and every part survives.
pub open spec fn wire_message_survives(pm: proto::MessageView) -> bool {
    &&& (pm.role == 1 || pm.role == 2)
    &&& pm.metadata is None
    &&& forall|i: int| 0 <= i < pm.parts.len() ==> wire_part_survives(#[trigger] pm.parts[i])
}

/// A wire message that the domain model keeps without loss comes back
/// unchanged after a trip to the domain and back.
pub proof fn law_wire_message_round_trip(pm: proto::MessageView)
    requires
        wire_message_survives(pm),
    ensures
        spec_from_proto_message(pm) matches Ok(m) && spec_to_proto_message(m) == Ok::<
            proto::MessageView,
            A2AErrorView,
        >(pm),
{
    assert forall|i: int| 0 <= i < pm.parts.len() implies (#[trigger] from_proto_part_fn()(
        pm.parts[i],
    ) matches Ok(y) && to_proto_part_fn()(y) == Ok::<proto::PartView, A2AErrorView>(
        pm.parts[i],
    )) by {
        law_wire_part_round_trip(pm.parts[i]);
    }
    lemma_convert_all_round_trip(pm.parts, from_proto_part_fn(), to_proto_part_fn());
    lemma_empty_as_absent(pm.task_id);
    lemma_empty_as_absent(pm.context_id);
    lemma_empty_list_as_absent(pm.extensions);
    lemma_empty_list_as_absent(pm.reference_task_ids);
}

/// Converting a list element by element succeeds exactly when every element
/// converts; the result then holds each element's conversion in order, and a
/// failure is the error of the first element that fails.
pub proof fn law_convert_all_elementwise<A, B>(xs: Seq<A>, f: spec_fn(A) -> Result<B, A2AErrorView>)
    ensures
        convert_all(xs, f) is Ok <==> forall|i: int| 0 <= i < xs.len() ==> #[trigger] f(xs[i]) is Ok,
        convert_all(xs, f) matches Ok(ys) ==> ys.len() == xs.len() && forall|i: int|
            0 <= i < xs.len() ==> #[trigger] f(xs[i]) == Ok::<B, A2AErrorView>(ys[i]),
        convert_all(xs, f) matches Err(e) ==> exists|i: int|
            0 <= i < xs.len() && #[trigger] f(xs[i]) == Err::<B, A2AErrorView>(e) && forall|j: int|
                0 <= j < i ==> #[trigger] f(xs[j]) is Ok,
    decreases xs.len(),
{
    if xs.len() > 0 {
        let front = xs.drop_last();
        law_convert_all_elementwise(front, f);
        assert forall|i: int| 0 <= i < front.len() implies front[i] == xs[i] by {}
        let last = xs.len() - 1;
        match convert_all(front, f) {
            Ok(ys0) => {
                if f(xs[last]) is Ok {
                    let ys = ys0.push(f(xs[last])->Ok_0);
                    assert forall|i: int| 0 <= i < xs.len() implies #[trigger] f(xs[i]) == Ok::<
                        B,
                        A2AErrorView,
                    >(ys[i]) by {
                        if i < last {
                            assert(f(front[i]) == Ok::<B, A2AErrorView>(ys0[i]));
                        }
                    }
                } else {
                    assert(f(xs[last]) == Err::<B, A2AErrorView>(f(xs[last])->Err_0));
                    assert forall|j: int| 0 <= j < last implies #[trigger] f(xs[j]) is Ok by {
                        assert(f(front[j]) is Ok);
                    }
                }
            },
            Err(e) => {
                let i = choose|i: int|
                    0 <= i < front.len() && #[trigger] f(front[i]) == Err::<B, A2AErrorView>(e)
                        && forall|j: int| 0 <= j < i ==> #[trigger] f(front[j]) is Ok;
                assert(f(xs[i]) == Err::<B, A2AErrorView>(e));
                assert forall|j: int| 0 <= j < i implies #[trigger] f(xs[j]) is Ok by {
                    assert(f(front[j]) is Ok);
                }
            },
        }
    }
}

/// Sending a message to the wire succeeds exactly when every one of its parts
/// can be sent; the wire message then holds the parts' conversions in order,
/// and a failure is the error of the first part that cannot be sent.
pub proof fn law_message_sent_part_by_part(m: MessageView)
    ensures
        spec_to_proto_message(m) is Ok <==> forall|i: int|
            0 <= i < m.parts.len() ==> #[trigger] spec_to_proto_part(m.parts[i]) is Ok,
        spec_to_proto_message(m) matches Ok(pm) ==> pm.parts.len() == m.parts.len() && forall|i: int|
            0 <= i < m.parts.len() ==> #[trigger] spec_to_proto_part(m.parts[i]) == Ok::<
                proto::PartView,
                A2AErrorView,
            >(pm.parts[i]),
        spec_to_proto_message(m) matches Err(e) ==> exists|i: int|
            0 <= i < m.parts.len() && #[trigger] spec_to_proto_part(m.parts[i]) == Err::<
                proto::PartView,
                A2AErrorView,
            >(e) && forall|j: int| 0 <= j < i ==> #[trigger] spec_to_proto_part(m.parts[j]) is Ok,
{
    law_convert_all_elementwise(m.parts, to_proto_part_fn());
    assert forall|i: int| 0 <= i < m.parts.len() implies #[trigger] spec_to_proto_part(m.parts[i])
        == to_proto_part_fn()(m.parts[i]) by {}
}

} // verus!
