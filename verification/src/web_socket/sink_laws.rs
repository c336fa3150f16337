//! What holds of whole runs of the task of outgoing messages.

use super::signals::{tick_link, tick_refused, ticks_sent, Tick};
use super::sink::{next_revision, SinkAction, SinkEvent, SinkIdle, SinkStep, TickAction};
use crate::entities::DocumentWSData;
use crate::errors::{FlowyError, FlowyResult};
use tokio::sync::mpsc;
use vstd::prelude::*;

verus! {

/// What one sending puts through the web socket, and its result, by the answers of the
/// provider and of the web socket.
pub open spec fn sending(
    next: FlowyResult<Option<DocumentWSData>>,
    socket: Result<(), String>,
) -> (Seq<DocumentWSData>, FlowyResult<()>) {
    match next_revision(next) {
        SinkStep::Send(data, wait) => (seq![data], wait.next(socket)),
        SinkStep::Done(result) => (Seq::empty(), result),
    }
}

/// One turn of the task: what ended its wait, and, where that was a tick, what the provider
/// and the web socket answer to the sending.
pub struct SinkTurn {
    pub event: SinkEvent,
    pub next: FlowyResult<Option<DocumentWSData>>,
    pub socket: Result<(), String>,
}

impl SinkTurn {
    /// What the sending of this turn puts through the web socket.
    pub open spec fn sent(self) -> Seq<DocumentWSData> {
        sending(self.next, self.socket).0
    }

    /// What the sending of this turn comes to.
    pub open spec fn result(self) -> FlowyResult<()> {
        sending(self.next, self.socket).1
    }
}

/// How often the task sends the next message when it begins to wait and goes through these
/// turns.
pub open spec fn sends(idle: SinkIdle, turns: Seq<SinkTurn>) -> nat
    decreases turns.len(),
{
    if turns.len() == 0 {
        0
    } else {
        match idle.next(turns[0].event) {
            SinkAction::SendNext(wait) => 1 + sends(
                wait.next(turns[0].result()).0,
                turns.drop_first(),
            ),
            SinkAction::Exit => 0,
        }
    }
}

/// What the task puts through the web socket, in this order, when it begins to wait and goes
/// through these turns.
pub open spec fn sent_over(idle: SinkIdle, turns: Seq<SinkTurn>) -> Seq<DocumentWSData>
    decreases turns.len(),
{
    if turns.len() == 0 {
        Seq::empty()
    } else {
        match idle.next(turns[0].event) {
            SinkAction::SendNext(wait) => turns[0].sent() + sent_over(
                wait.next(turns[0].result()).0,
                turns.drop_first(),
            ),
            SinkAction::Exit => Seq::empty(),
        }
    }
}

/// What the provider gives on the ticks of these turns, in the order of the turns.
pub open spec fn given(turns: Seq<SinkTurn>) -> Seq<DocumentWSData>
    decreases turns.len(),
{
    if turns.len() == 0 {
        Seq::empty()
    } else {
        let rest = given(turns.drop_first());
        match (turns[0].event, turns[0].next) {
            (SinkEvent::Ticked(Some(_)), Ok(Some(data))) => seq![data] + rest,
            _ => rest,
        }
    }
}

/// How often the clock ticked in these turns.
pub open spec fn ticks(turns: Seq<SinkTurn>) -> nat
    decreases turns.len(),
{
    if turns.len() == 0 {
        0
    } else {
        let rest = ticks(turns.drop_first());
        match turns[0].event {
            SinkEvent::Ticked(Some(_)) => 1 + rest,
            _ => rest,
        }
    }
}

/// The turn ends the task: the clock has ended, or a stop was heard.
pub open spec fn ends_sink(turn: SinkTurn) -> bool {
    turn.event is Stopped || turn.event == SinkEvent::Ticked(None)
}

/// Until the clock ends or a stop is heard, there is one sending for every tick.
pub proof fn law_one_sending_for_each_tick(idle: SinkIdle, turns: Seq<SinkTurn>)
    requires
        forall|i: int| 0 <= i < turns.len() ==> !ends_sink(#[trigger] turns[i]),
    ensures
        sends(idle, turns) == ticks(turns),
    decreases turns.len(),
{
    if turns.len() > 0 {
        assert(!ends_sink(turns[0]));
        let rest = turns.drop_first();
        assert forall|i: int| 0 <= i < rest.len() implies !ends_sink(#[trigger] rest[i]) by {
            assert(!ends_sink(turns[i + 1]));
        }
        if let SinkAction::SendNext(wait) = idle.next(turns[0].event) {
            law_one_sending_for_each_tick(wait.next(turns[0].result()).0, rest);
        }
    }
}

/// Once the clock has ended or a stop was heard, nothing more is sent.
pub proof fn law_nothing_sent_after_the_end(
    idle: SinkIdle,
    before: Seq<SinkTurn>,
    end: SinkTurn,
    after: Seq<SinkTurn>,
)
    requires
        ends_sink(end),
    ensures
        sends(idle, before + seq![end] + after) == sends(idle, before),
        sent_over(idle, before + seq![end] + after) == sent_over(idle, before),
    decreases before.len(),
{
    let all = before + seq![end] + after;
    if before.len() == 0 {
        assert(all[0] == end);
    } else {
        assert(all[0] == before[0]);
        assert(all.drop_first() =~= before.drop_first() + seq![end] + after);
        if let SinkAction::SendNext(wait) = idle.next(before[0].event) {
            law_nothing_sent_after_the_end(
                wait.next(before[0].result()).0,
                before.drop_first(),
                end,
                after,
            );
        }
    }
}

/// What comes of the sendings plays no part in how often there is one: a failure does not
/// end the task.
pub proof fn law_failures_do_not_end_the_sink(
    idle: SinkIdle,
    turns: Seq<SinkTurn>,
    others: Seq<SinkTurn>,
)
    requires
        turns.len() == others.len(),
        forall|i: int|
            0 <= i < turns.len() ==> (#[trigger] turns[i]).event == (#[trigger] others[i]).event,
    ensures
        sends(idle, turns) == sends(idle, others),
    decreases turns.len(),
{
    if turns.len() > 0 {
        assert(turns[0].event == others[0].event);
        let (rest, other_rest) = (turns.drop_first(), others.drop_first());
        assert forall|i: int| 0 <= i < rest.len() implies (#[trigger] rest[i]).event == (
        #[trigger] other_rest[i]).event by {
            assert(turns[i + 1].event == others[i + 1].event);
        }
        if let SinkAction::SendNext(wait) = idle.next(turns[0].event) {
            law_failures_do_not_end_the_sink(wait.next(turns[0].result()).0, rest, other_rest);
        }
    }
}

/// One sending puts exactly what the provider gave through the web socket: nothing where it
/// had nothing or failed. It fails with the provider's error as it is, and with an internal
/// error where the web socket failed.
pub proof fn law_provider_decides_what_is_sent(
    next: FlowyResult<Option<DocumentWSData>>,
    socket: Result<(), String>,
)
    ensures
        next matches Ok(Some(data)) ==> sending(next, socket).0 == seq![data],
        next matches Ok(Some(_)) ==> (sending(next, socket).1 is Ok <==> socket is Ok),
        next matches Ok(Some(_)) ==> (socket matches Err(cause) ==> sending(next, socket).1 == Err::<
            (),
            FlowyError,
        >(FlowyError::Internal(cause))),
        next matches Ok(None) ==> sending(next, socket).0.len() == 0 && sending(next, socket).1
            is Ok,
        next matches Err(e) ==> sending(next, socket).0.len() == 0 && sending(next, socket).1
            == Err::<(), FlowyError>(e),
{
}

/// Until the clock ends or a stop is heard, the task puts through the web socket what the
/// provider gives, each once and in its order, and nothing else; neither a provider nor a web
/// socket that fails changes that for what comes later.
pub proof fn law_all_that_is_given_is_sent_in_order(idle: SinkIdle, turns: Seq<SinkTurn>)
    requires
        forall|i: int| 0 <= i < turns.len() ==> !ends_sink(#[trigger] turns[i]),
    ensures
        sent_over(idle, turns) == given(turns),
    decreases turns.len(),
{
    if turns.len() > 0 {
        assert(!ends_sink(turns[0]));
        let rest = turns.drop_first();
        assert forall|i: int| 0 <= i < rest.len() implies !ends_sink(#[trigger] rest[i]) by {
            assert(!ends_sink(turns[i + 1]));
        }
        if let SinkAction::SendNext(wait) = idle.next(turns[0].event) {
            law_all_that_is_given_is_sent_in_order(wait.next(turns[0].result()).0, rest);
        }
    }
}

/// The task goes on from every tick, and ends on nothing but a stop or the end of its clock.
pub proof fn law_sink_ends_only_at_an_end(idle: SinkIdle, turn: SinkTurn)
    ensures
        idle.next(turn.event) is Exit <==> ends_sink(turn),
{
}

/// The end of the clock passed one tick on, or had it refused, and says which.
pub open spec fn ticked(
    before: mpsc::UnboundedSender<Tick>,
    action: TickAction,
    after: mpsc::UnboundedSender<Tick>,
) -> bool {
    &&& tick_link(after) == tick_link(before)
    &&& action == TickAction::Wait ==> ticks_sent(after) == ticks_sent(before) + 1
    &&& action == TickAction::End ==> ticks_sent(after) == ticks_sent(before)
    &&& tick_refused(after) <==> action == TickAction::End
    &&& tick_refused(before) ==> action == TickAction::End
}

/// The clock does not end before somebody has closed its queue: for as long as no tick was
/// refused, each has been passed on and there will be another; and once one was refused there
/// is never one again.
pub proof fn law_clock_ends_only_when_refused(
    senders: Seq<mpsc::UnboundedSender<Tick>>,
    actions: Seq<TickAction>,
)
    requires
        senders.len() == actions.len() + 1,
        forall|i: int|
            0 <= i < actions.len() ==> ticked(senders[i], #[trigger] actions[i], senders[i + 1]),
    ensures
        tick_link(senders.last()) == tick_link(senders[0]),
        !tick_refused(senders.last()) ==> ticks_sent(senders.last()) == ticks_sent(senders[0])
            + actions.len() && forall|i: int|
            0 <= i < actions.len() ==> #[trigger] actions[i] == TickAction::Wait,
        forall|i: int, j: int|
            0 <= i <= j < actions.len() && (#[trigger] actions[i]) == TickAction::End ==> (
            #[trigger] actions[j]) == TickAction::End,
    decreases actions.len(),
{
    if actions.len() > 0 {
        let (shorter, fewer) = (senders.drop_last(), actions.drop_last());
        assert forall|i: int| 0 <= i < fewer.len() implies ticked(
            shorter[i],
            #[trigger] fewer[i],
            shorter[i + 1],
        ) by {
            assert(ticked(senders[i], actions[i], senders[i + 1]));
        }
        law_clock_ends_only_when_refused(shorter, fewer);
        let n = actions.len() - 1;
        assert(ticked(senders[n], actions[n], senders[n + 1]));
        assert forall|i: int| 0 <= i < n implies fewer[i] == #[trigger] actions[i] by {}
    }
}

/// The failures that the task notes, in this order, when it begins to wait and goes through
/// these turns.
pub open spec fn noted(idle: SinkIdle, turns: Seq<SinkTurn>) -> Seq<FlowyError>
    decreases turns.len(),
{
    if turns.len() == 0 {
        Seq::empty()
    } else {
        match idle.next(turns[0].event) {
            SinkAction::SendNext(wait) => {
                let (waiting, failure) = wait.next(turns[0].result());
                let rest = noted(waiting, turns.drop_first());
                match failure {
                    Some(e) => seq![e] + rest,
                    None => rest,
                }
            },
            SinkAction::Exit => Seq::empty(),
        }
    }
}

/// The failures of the provider and of the web socket on the ticks of these turns, in the
/// order of the turns: the provider's own error, or an internal one with the cause that the
/// web socket gave.
pub open spec fn failures(turns: Seq<SinkTurn>) -> Seq<FlowyError>
    decreases turns.len(),
{
    if turns.len() == 0 {
        Seq::empty()
    } else {
        let rest = failures(turns.drop_first());
        match (turns[0].event, turns[0].next, turns[0].socket) {
            (SinkEvent::Ticked(Some(_)), Err(e), _) => seq![e] + rest,
            (SinkEvent::Ticked(Some(_)), Ok(Some(_)), Err(cause)) => seq![FlowyError::Internal(cause)]
                + rest,
            _ => rest,
        }
    }
}

/// Until the clock ends or a stop is heard, every failure is noted, once, as it is and in its
/// order, and nothing else is.
pub proof fn law_every_failed_sending_is_noted(idle: SinkIdle, turns: Seq<SinkTurn>)
    requires
        forall|i: int| 0 <= i < turns.len() ==> !ends_sink(#[trigger] turns[i]),
    ensures
        noted(idle, turns) == failures(turns),
    decreases turns.len(),
{
    if turns.len() > 0 {
        assert(!ends_sink(turns[0]));
        let rest = turns.drop_first();
        assert forall|i: int| 0 <= i < rest.len() implies !ends_sink(#[trigger] rest[i]) by {
            assert(!ends_sink(turns[i + 1]));
        }
        if let SinkAction::SendNext(wait) = idle.next(turns[0].event) {
            law_every_failed_sending_is_noted(wait.next(turns[0].result()).0, rest);
        }
    }
}

} // verus!
