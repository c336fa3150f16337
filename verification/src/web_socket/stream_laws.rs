//! What holds of whole runs of the task of incoming messages.

use super::stream::{
    payload_step, Payload, PendingPayload, StreamAction, StreamEvent, StreamIdle, StreamStep,
};
use crate::entities::{DocumentWSData, DocumentWSDataType};
use crate::errors::{FlowyError, FlowyResult};
use crate::payload::bytes_content;
use bytes::Bytes;
use vstd::prelude::*;

verus! {

/// One turn of the task: what ended its wait, and what comes of the message where that was
/// one.
pub struct StreamTurn {
    pub event: StreamEvent,
    pub result: FlowyResult<()>,
}

/// The messages that the task handles, one after the other, when it begins to wait and goes
/// through these turns.
pub open spec fn handled(idle: StreamIdle, turns: Seq<StreamTurn>) -> Seq<DocumentWSData>
    decreases turns.len(),
{
    if turns.len() == 0 {
        Seq::empty()
    } else {
        match idle.next(turns[0].event) {
            StreamAction::Handle { msg, wait } => seq![msg] + handled(
                wait.next(turns[0].result).0,
                turns.drop_first(),
            ),
            StreamAction::Exit => Seq::empty(),
        }
    }
}

/// The messages that the queue gave in these turns.
pub open spec fn received(turns: Seq<StreamTurn>) -> Seq<DocumentWSData>
    decreases turns.len(),
{
    if turns.len() == 0 {
        Seq::empty()
    } else {
        let rest = received(turns.drop_first());
        match turns[0].event {
            StreamEvent::Received(Some(msg)) => seq![msg] + rest,
            _ => rest,
        }
    }
}

/// The turn ends the task: the queue has ended, or a stop was heard.
pub open spec fn ends_stream(turn: StreamTurn) -> bool {
    turn.event is Stopped || turn.event == StreamEvent::Received(None)
}

/// Until the queue ends or a stop is heard, every message that the queue gives is handled,
/// once, and in the order in which it came.
pub proof fn law_every_message_in_order(idle: StreamIdle, turns: Seq<StreamTurn>)
    requires
        forall|i: int| 0 <= i < turns.len() ==> !ends_stream(#[trigger] turns[i]),
    ensures
        handled(idle, turns) == received(turns),
    decreases turns.len(),
{
    if turns.len() > 0 {
        assert(!ends_stream(turns[0]));
        let rest = turns.drop_first();
        assert forall|i: int| 0 <= i < rest.len() implies !ends_stream(#[trigger] rest[i]) by {
            assert(!ends_stream(turns[i + 1]));
        }
        if let StreamAction::Handle { msg, wait } = idle.next(turns[0].event) {
            law_every_message_in_order(wait.next(turns[0].result).0, rest);
        }
    }
}

/// Once the queue has ended or a stop was heard, nothing more is handled.
pub proof fn law_nothing_handled_after_the_end(
    idle: StreamIdle,
    before: Seq<StreamTurn>,
    end: StreamTurn,
    after: Seq<StreamTurn>,
)
    requires
        ends_stream(end),
    ensures
        handled(idle, before + seq![end] + after) == handled(idle, before),
    decreases before.len(),
{
    let all = before + seq![end] + after;
    if before.len() == 0 {
        assert(all[0] == end);
    } else {
        assert(all[0] == before[0]);
        assert(all.drop_first() =~= before.drop_first() + seq![end] + after);
        if let StreamAction::Handle { msg, wait } = idle.next(before[0].event) {
            law_nothing_handled_after_the_end(
                wait.next(before[0].result).0,
                before.drop_first(),
                end,
                after,
            );
        }
    }
}

/// What comes of the messages plays no part in which of them are handled: a failure does not
/// end the task.
pub proof fn law_failures_do_not_end_the_stream(
    idle: StreamIdle,
    turns: Seq<StreamTurn>,
    others: Seq<StreamTurn>,
)
    requires
        turns.len() == others.len(),
        forall|i: int|
            0 <= i < turns.len() ==> (#[trigger] turns[i]).event == (#[trigger] others[i]).event,
    ensures
        handled(idle, turns) == handled(idle, others),
    decreases turns.len(),
{
    if turns.len() > 0 {
        assert(turns[0].event == others[0].event);
        let (rest, other_rest) = (turns.drop_first(), others.drop_first());
        assert forall|i: int| 0 <= i < rest.len() implies (#[trigger] rest[i]).event == (
        #[trigger] other_rest[i]).event by {
            assert(turns[i + 1].event == others[i + 1].event);
        }
        if let StreamAction::Handle { msg, wait } = idle.next(turns[0].event) {
            law_failures_do_not_end_the_stream(wait.next(turns[0].result).0, rest, other_rest);
        }
    }
}

/// A call on the consumer of the messages.
pub enum ConsumerCall<R, N> {
    PushRevision(Bytes),
    Ack(String, DocumentWSDataType),
    RevisionInRange(R),
    NewUser(N),
}

/// How everything turns out that the handling of a message waits for once its payload is a
/// shared buffer.
pub struct Outcomes<R, N> {
    pub push: FlowyResult<()>,
    pub ack: FlowyResult<()>,
    pub range: FlowyResult<R>,
    pub sent: FlowyResult<()>,
    pub user: FlowyResult<N>,
    pub connected: FlowyResult<()>,
}

/// How many more waits a step has before it at most.
pub open spec fn waits<R, N>(step: StreamStep<R, N>) -> nat {
    match step {
        StreamStep::ReceivePush { .. } => 2,
        StreamStep::DecodeRange { .. } => 2,
        StreamStep::SendRange { .. } => 1,
        StreamStep::DecodeUser { .. } => 2,
        StreamStep::ConnectUser { .. } => 1,
        StreamStep::ReceiveAck { .. } => 1,
        StreamStep::Done(_) => 0,
    }
}

/// The calls on the consumer that a step and what follows it make, and the result in which
/// they end.
pub open spec fn transcript<R, N>(step: StreamStep<R, N>, o: Outcomes<R, N>) -> (
    Seq<ConsumerCall<R, N>>,
    FlowyResult<()>,
)
    decreases waits(step),
{
    match step {
        StreamStep::ReceivePush { bytes, wait } => {
            let (calls, result) = transcript(wait.next::<R, N>(o.push), o);
            (seq![ConsumerCall::PushRevision(bytes)] + calls, result)
        },
        StreamStep::DecodeRange { bytes, wait } => transcript(wait.next::<R, N>(o.range), o),
        StreamStep::SendRange { range, wait } => {
            let (calls, result) = transcript(wait.next::<R, N>(o.sent), o);
            (seq![ConsumerCall::RevisionInRange(range)] + calls, result)
        },
        StreamStep::DecodeUser { bytes, wait } => transcript(wait.next::<R, N>(o.user), o),
        StreamStep::ConnectUser { new_user, wait } => {
            let (calls, result) = transcript(wait.next::<R, N>(o.connected), o);
            (seq![ConsumerCall::NewUser(new_user)] + calls, result)
        },
        StreamStep::ReceiveAck { id, ty, wait } => {
            let (calls, result) = transcript(wait.next::<R, N>(o.ack), o);
            (seq![ConsumerCall::Ack(id, ty)] + calls, result)
        },
        StreamStep::Done(result) => (Seq::empty(), result),
    }
}

/// The calls on the consumer that the handling of a message makes, and its result.
pub open spec fn handling<R, N>(payload: Result<Payload, String>, o: Outcomes<R, N>) -> (
    Seq<ConsumerCall<R, N>>,
    FlowyResult<()>,
) {
    transcript(payload_step::<R, N>(payload), o)
}

/// The payload is that of the message.
pub open spec fn payload_of(msg: DocumentWSData, payload: Payload) -> bool {
    payload.holds(PendingPayload { ty: msg.ty, id: msg.id, data: msg.data })
}

/// A pushed revision is handed to the consumer with the payload of its message. If the
/// consumer takes it, it is acknowledged with the id and the type of the message, and
/// all is well whatever comes of that; if not, there is no acknowledgement, and the
/// consumer's error is the result.
pub proof fn law_push_is_acknowledged<R, N>(
    msg: DocumentWSData,
    payload: Payload,
    o: Outcomes<R, N>,
)
    requires
        payload_of(msg, payload),
        msg.ty == DocumentWSDataType::PushRev,
    ensures
        bytes_content(payload.bytes) == msg.data@,
        o.push is Ok ==> handling(Ok(payload), o) == (
            seq![
                ConsumerCall::<R, N>::PushRevision(payload.bytes),
                ConsumerCall::<R, N>::Ack(msg.id, msg.ty),
            ],
            Ok::<(), FlowyError>(()),
        ),
        o.push is Err ==> handling(Ok(payload), o) == (
            seq![ConsumerCall::<R, N>::PushRevision(payload.bytes)],
            o.push,
        ),
{
    reveal_with_fuel(transcript, 3);
    if o.push is Ok {
        assert(handling(Ok(payload), o).0 =~= seq![
            ConsumerCall::<R, N>::PushRevision(payload.bytes),
            ConsumerCall::<R, N>::Ack(msg.id, msg.ty),
        ]);
    } else {
        assert(handling(Ok(payload), o).0 =~= seq![
            ConsumerCall::<R, N>::PushRevision(payload.bytes),
        ]);
    }
}

/// A request for revisions is decoded from the payload of its message. It ends with the
/// consumer's own answer to the decoded range, or, where the range does not decode, with
/// that error and without a call.
pub proof fn law_pull_is_answered<R, N>(msg: DocumentWSData, payload: Payload, o: Outcomes<R, N>)
    requires
        payload_of(msg, payload),
        msg.ty == DocumentWSDataType::PullRev,
    ensures
        payload_step::<R, N>(Ok(payload)) matches StreamStep::DecodeRange { bytes, .. }
            && bytes_content(bytes) == msg.data@,
        o.range matches Ok(range) ==> handling(Ok(payload), o) == (
            seq![ConsumerCall::<R, N>::RevisionInRange(range)],
            o.sent,
        ),
        o.range matches Err(e) ==> handling(Ok(payload), o) == (
            Seq::<ConsumerCall<R, N>>::empty(),
            Err::<(), FlowyError>(e),
        ),
{
    reveal_with_fuel(transcript, 3);
    if let Ok(range) = o.range {
        assert(handling(Ok(payload), o).0 =~= seq![ConsumerCall::<R, N>::RevisionInRange(range)]);
    }
}

/// An acknowledgement reaches the consumer with the id of its message, and all is well
/// whatever the consumer answers.
pub proof fn law_ack_reaches_the_consumer<R, N>(
    msg: DocumentWSData,
    payload: Payload,
    o: Outcomes<R, N>,
)
    requires
        payload_of(msg, payload),
        msg.ty == DocumentWSDataType::Ack,
    ensures
        handling(Ok(payload), o) == (
            seq![ConsumerCall::<R, N>::Ack(msg.id, msg.ty)],
            Ok::<(), FlowyError>(()),
        ),
{
    reveal_with_fuel(transcript, 3);
    assert(handling(Ok(payload), o).0 =~= seq![ConsumerCall::<R, N>::Ack(msg.id, msg.ty)]);
}

/// A new user is decoded from the payload of its message and made known to the consumer, and
/// all is well whatever the consumer answers; where the user does not decode, that error is
/// the result and there is no call.
pub proof fn law_new_user_is_announced<R, N>(
    msg: DocumentWSData,
    payload: Payload,
    o: Outcomes<R, N>,
)
    requires
        payload_of(msg, payload),
        msg.ty == DocumentWSDataType::UserConnect,
    ensures
        payload_step::<R, N>(Ok(payload)) matches StreamStep::DecodeUser { bytes, .. }
            && bytes_content(bytes) == msg.data@,
        o.user matches Ok(new_user) ==> handling(Ok(payload), o) == (
            seq![ConsumerCall::<R, N>::NewUser(new_user)],
            Ok::<(), FlowyError>(()),
        ),
        o.user matches Err(e) ==> handling(Ok(payload), o) == (
            Seq::<ConsumerCall<R, N>>::empty(),
            Err::<(), FlowyError>(e),
        ),
{
    reveal_with_fuel(transcript, 3);
    if let Ok(new_user) = o.user {
        assert(handling(Ok(payload), o).0 =~= seq![ConsumerCall::<R, N>::NewUser(new_user)]);
    }
}

/// Where the conversion of the payload does not come to its end, the consumer hears nothing
/// of the message, and the result is an internal error.
pub proof fn law_lost_payload_is_an_internal_error<R, N>(cause: String, o: Outcomes<R, N>)
    ensures
        handling(Err(cause), o) == (
            Seq::<ConsumerCall<R, N>>::empty(),
            Err::<(), FlowyError>(FlowyError::Internal(cause)),
        ),
{
}

/// The failures that the task notes, in this order, when it begins to wait and goes through
/// these turns.
pub open spec fn noted(idle: StreamIdle, turns: Seq<StreamTurn>) -> Seq<FlowyError>
    decreases turns.len(),
{
    if turns.len() == 0 {
        Seq::empty()
    } else {
        match idle.next(turns[0].event) {
            StreamAction::Handle { wait, .. } => {
                let (waiting, failure) = wait.next(turns[0].result);
                let rest = noted(waiting, turns.drop_first());
                match failure {
                    Some(e) => seq![e] + rest,
                    None => rest,
                }
            },
            StreamAction::Exit => Seq::empty(),
        }
    }
}

/// The errors in which the messages of these turns ended, in the order of the turns.
pub open spec fn failures(turns: Seq<StreamTurn>) -> Seq<FlowyError>
    decreases turns.len(),
{
    if turns.len() == 0 {
        Seq::empty()
    } else {
        let rest = failures(turns.drop_first());
        match (turns[0].event, turns[0].result) {
            (StreamEvent::Received(Some(_)), Err(e)) => seq![e] + rest,
            _ => rest,
        }
    }
}

/// Until the queue ends or a stop is heard, every failure of a message is noted, once, as it
/// is and in its order, and nothing else is.
pub proof fn law_every_failed_message_is_noted(idle: StreamIdle, turns: Seq<StreamTurn>)
    requires
        forall|i: int| 0 <= i < turns.len() ==> !ends_stream(#[trigger] turns[i]),
    ensures
        noted(idle, turns) == failures(turns),
    decreases turns.len(),
{
    if turns.len() > 0 {
        assert(!ends_stream(turns[0]));
        let rest = turns.drop_first();
        assert forall|i: int| 0 <= i < rest.len() implies !ends_stream(#[trigger] rest[i]) by {
            assert(!ends_stream(turns[i + 1]));
        }
        if let StreamAction::Handle { msg, wait } = idle.next(turns[0].event) {
            law_every_failed_message_is_noted(wait.next(turns[0].result).0, rest);
        }
    }
}

/// The task goes on from every message, and ends on nothing but a stop or the end of its
/// queue.
pub proof fn law_stream_ends_only_at_an_end(idle: StreamIdle, turn: StreamTurn)
    ensures
        idle.next(turn.event) is Exit <==> ends_stream(turn),
{
}

} // verus!
