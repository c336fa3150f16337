//! What holds of the web socket of a document over several calls.

use super::editor::EditorHttpWebSocket;
use super::signals::{
    message_end, message_link, message_refused, messages_sent, state_capacity, state_end, state_link,
    state_unheard, states_missed, states_sent, stop_capacity, stop_end, stop_link, stop_unheard,
    stops_missed, stops_sent, SinkStopRx,
};
use super::sink::DocumentWebSocketSink;
use super::stream::{DocumentWebSocketStream, StreamIdle};
use super::stream_laws::{
    ends_stream, handled, law_every_message_in_order, received, StreamTurn,
};
use crate::entities::{DocumentWSData, WSConnectState};
use tokio::sync::broadcast;
use vstd::prelude::*;

verus! {

/// How many stop signals of the editor were given for this listener.
pub open spec fn stops_for<P: ?Sized, C: ?Sized, W: ?Sized>(
    editor: EditorHttpWebSocket<P, C, W>,
    rx: SinkStopRx,
) -> int {
    if stop_end(rx) == stop_link(editor.stop()) {
        stops_sent(editor.stop()) - stops_missed(rx)
    } else {
        0
    }
}

/// The states that the editor has announced for this listener, oldest first.
pub open spec fn states_for<P: ?Sized, C: ?Sized, W: ?Sized>(
    editor: EditorHttpWebSocket<P, C, W>,
    rx: broadcast::Receiver<WSConnectState>,
) -> Seq<WSConnectState> {
    if state_end(rx) == state_link(editor.states()) {
        states_sent(editor.states()).skip(states_missed(rx) as int)
    } else {
        Seq::empty()
    }
}

/// The editor has given one stop signal, which was heard or found no listener, and is as it
/// was otherwise.
pub open spec fn stop_given<P: ?Sized, C: ?Sized, W: ?Sized>(
    before: EditorHttpWebSocket<P, C, W>,
    heard: bool,
    after: EditorHttpWebSocket<P, C, W>,
) -> bool {
    &&& after.same_wiring(&before)
    &&& after.messages() == before.messages()
    &&& after.states() == before.states()
    &&& stops_sent(after.stop()) == stops_sent(before.stop()) + if heard {
        1int
    } else {
        0int
    }
    &&& stop_unheard(after.stop()) <==> !heard
}

/// The editor has been given one connection state to announce, which went out or found no
/// listener, and is as it was otherwise.
pub open spec fn state_given<P: ?Sized, C: ?Sized, W: ?Sized>(
    before: EditorHttpWebSocket<P, C, W>,
    state: WSConnectState,
    heard: bool,
    after: EditorHttpWebSocket<P, C, W>,
) -> bool {
    &&& after.same_wiring(&before)
    &&& after.messages() == before.messages()
    &&& after.stop() == before.stop()
    &&& states_sent(after.states()) == if heard {
        states_sent(before.states()).push(state)
    } else {
        states_sent(before.states())
    }
    &&& state_unheard(after.states()) <==> !heard
}

/// How many of these signals were heard.
pub open spec fn heard_count(heard: Seq<bool>) -> nat
    decreases heard.len(),
{
    if heard.len() == 0 {
        0
    } else {
        heard_count(heard.drop_last()) + if heard.last() {
            1nat
        } else {
            0nat
        }
    }
}

/// The listener was made from this editor, or before it had sent what it has sent by now.
pub open spec fn listens<P: ?Sized, C: ?Sized, W: ?Sized>(
    editor: EditorHttpWebSocket<P, C, W>,
    rx: broadcast::Receiver<WSConnectState>,
) -> bool {
    &&& state_end(rx) == state_link(editor.states())
    &&& states_missed(rx) <= states_sent(editor.states()).len()
}

/// A stop signal that an editor gives right after it has made its tasks either is meant for
/// both of them, or found no listener.
pub proof fn law_stop_reaches_both_tasks<P: ?Sized, C: ?Sized, W: ?Sized>(
    before: EditorHttpWebSocket<P, C, W>,
    sink: DocumentWebSocketSink<P, W>,
    stream: DocumentWebSocketStream<C>,
    heard: bool,
    after: EditorHttpWebSocket<P, C, W>,
)
    requires
        before.drives_sink(sink),
        before.drives_stream(stream),
        stop_given(before, heard, after),
    ensures
        sink.stop() matches Some(rx) && stops_for(before, rx) == 0 && (stops_for(after, rx) == 1
            || stop_unheard(after.stop())),
        stream.stop() matches Some(rx) && stops_for(before, rx) == 0 && (stops_for(after, rx) == 1
            || stop_unheard(after.stop())),
        heard <==> !stop_unheard(after.stop()),
{
}

/// However often an editor gives the stop signal, each signal either has gone out to all who
/// listen or found no listener, a listener has got just those that were heard, and nothing
/// but the stop broadcast has changed.
pub proof fn law_every_stop_is_heard_or_finds_nobody<P: ?Sized, C: ?Sized, W: ?Sized>(
    editors: Seq<EditorHttpWebSocket<P, C, W>>,
    heard: Seq<bool>,
    rx: SinkStopRx,
)
    requires
        editors.len() == heard.len() + 1,
        forall|i: int|
            0 <= i < heard.len() ==> stop_given(editors[i], #[trigger] heard[i], editors[i + 1]),
        stop_end(rx) == stop_link(editors[0].stop()),
    ensures
        editors.last().same_wiring(&editors[0]),
        editors.last().messages() == editors[0].messages(),
        editors.last().states() == editors[0].states(),
        stops_for(editors.last(), rx) == stops_for(editors[0], rx) + heard_count(heard),
        forall|i: int|
            0 <= i < heard.len() ==> (#[trigger] heard[i] || stop_unheard(editors[i + 1].stop())),
    decreases heard.len(),
{
    if heard.len() > 0 {
        let (shorter, fewer) = (editors.drop_last(), heard.drop_last());
        assert forall|i: int| 0 <= i < fewer.len() implies stop_given(
            shorter[i],
            #[trigger] fewer[i],
            shorter[i + 1],
        ) by {
            assert(stop_given(editors[i], heard[i], editors[i + 1]));
        }
        law_every_stop_is_heard_or_finds_nobody(shorter, fewer, rx);
        let n = heard.len() - 1;
        assert(stop_given(editors[n], heard[n], editors[n + 1]));
        assert forall|i: int| 0 <= i < heard.len() implies (#[trigger] heard[i] || stop_unheard(
            editors[i + 1].stop(),
        )) by {
            assert(stop_given(editors[i], heard[i], editors[i + 1]));
        }
    }
}

/// A listener for connection states hears what is announced after it was made, in the order
/// of the announcements, and nothing from before.
pub proof fn law_listener_hears_what_follows<P: ?Sized, C: ?Sized, W: ?Sized>(
    made: EditorHttpWebSocket<P, C, W>,
    rx: broadcast::Receiver<WSConnectState>,
    before: EditorHttpWebSocket<P, C, W>,
    state: WSConnectState,
    after: EditorHttpWebSocket<P, C, W>,
)
    requires
        state_end(rx) == state_link(made.states()),
        states_missed(rx) == states_sent(made.states()).len(),
        before.same_wiring(&made),
        states_sent(made.states()).is_prefix_of(states_sent(before.states())),
        after.same_wiring(&before),
        states_sent(after.states()) == states_sent(before.states()).push(state),
    ensures
        states_for(made, rx) == Seq::<WSConnectState>::empty(),
        states_for(after, rx) == states_for(before, rx).push(state),
{
    assert(states_for(made, rx) =~= Seq::<WSConnectState>::empty());
    assert(states_for(after, rx) =~= states_for(before, rx).push(state));
}

/// A state that an editor is given to announce either is, for every listener there is, the
/// newest of the states that were announced for it, or found no listener and nothing was
/// announced.
pub proof fn law_every_listener_hears_the_state<P: ?Sized, C: ?Sized, W: ?Sized>(
    before: EditorHttpWebSocket<P, C, W>,
    listeners: Seq<broadcast::Receiver<WSConnectState>>,
    state: WSConnectState,
    heard: bool,
    after: EditorHttpWebSocket<P, C, W>,
)
    requires
        forall|i: int| 0 <= i < listeners.len() ==> listens(before, #[trigger] listeners[i]),
        state_given(before, state, heard, after),
    ensures
        heard ==> forall|i: int|
            0 <= i < listeners.len() ==> states_for(after, #[trigger] listeners[i]) == states_for(
                before,
                listeners[i],
            ).push(state),
        !heard ==> state_unheard(after.states()) && forall|i: int|
            0 <= i < listeners.len() ==> states_for(after, #[trigger] listeners[i]) == states_for(
                before,
                listeners[i],
            ),
        forall|i: int| 0 <= i < listeners.len() ==> listens(after, #[trigger] listeners[i]),
{
    if heard {
        assert forall|i: int| 0 <= i < listeners.len() implies states_for(
            after,
            #[trigger] listeners[i],
        ) == states_for(before, listeners[i]).push(state) by {
            assert(listens(before, listeners[i]));
            assert(states_for(after, listeners[i]) =~= states_for(before, listeners[i]).push(state));
        }
    }
    assert forall|i: int| 0 <= i < listeners.len() implies listens(
        after,
        #[trigger] listeners[i],
    ) by {
        assert(listens(before, listeners[i]));
    }
}

/// A stop neither closes nor fills the broadcast of connection states: a state that is
/// announced after it either reaches a listener from before it, behind what it had, or found
/// no listener at all.
pub proof fn law_states_go_on_after_a_stop<P: ?Sized, C: ?Sized, W: ?Sized>(
    before: EditorHttpWebSocket<P, C, W>,
    rx: broadcast::Receiver<WSConnectState>,
    stop_heard: bool,
    stopped: EditorHttpWebSocket<P, C, W>,
    state: WSConnectState,
    heard: bool,
    after: EditorHttpWebSocket<P, C, W>,
)
    requires
        listens(before, rx),
        stop_given(before, stop_heard, stopped),
        state_given(stopped, state, heard, after),
    ensures
        states_for(stopped, rx) == states_for(before, rx),
        heard ==> states_for(after, rx) == states_for(before, rx).push(state),
        !heard ==> state_unheard(after.states()) && states_for(after, rx) == states_for(before, rx),
{
    law_every_listener_hears_the_state(stopped, seq![rx], state, heard, after);
    assert(seq![rx][0] == rx);
}

/// Messages that come in one after the other, and are all taken, stand in the queue in this
/// order, each once and as it came, of whatever document they speak, behind those from
/// before.
pub proof fn law_messages_are_queued_in_order<P: ?Sized, C: ?Sized, W: ?Sized>(
    editors: Seq<EditorHttpWebSocket<P, C, W>>,
    data: Seq<DocumentWSData>,
)
    requires
        editors.len() == data.len() + 1,
        forall|i: int|
            0 <= i < data.len() ==> messages_sent(editors[i + 1].messages()) == messages_sent(
                editors[i].messages(),
            ).push(#[trigger] data[i]),
    ensures
        messages_sent(editors.last().messages()) == messages_sent(editors[0].messages()) + data,
    decreases data.len(),
{
    if data.len() == 0 {
        assert(messages_sent(editors[0].messages()) + data =~= messages_sent(
            editors[0].messages(),
        ));
    } else {
        let (shorter, fewer) = (editors.drop_last(), data.drop_last());
        assert forall|i: int| 0 <= i < fewer.len() implies messages_sent(shorter[i + 1].messages())
            == messages_sent(shorter[i].messages()).push(#[trigger] fewer[i]) by {
            assert(data[i] == fewer[i]);
        }
        law_messages_are_queued_in_order(shorter, fewer);
        assert(data[data.len() - 1] == data.last());
        assert(messages_sent(editors[0].messages()) + data =~= (messages_sent(
            editors[0].messages(),
        ) + fewer).push(data.last()));
    }
}

/// What an editor has received is handled in the order in which it was received: as far as
/// the queue has given it on in that order, and no stop was heard.
pub proof fn law_received_messages_are_handled<P: ?Sized, C: ?Sized, W: ?Sized>(
    editor: EditorHttpWebSocket<P, C, W>,
    idle: StreamIdle,
    turns: Seq<StreamTurn>,
    given: int,
)
    requires
        0 <= given <= messages_sent(editor.messages()).len(),
        received(turns) == messages_sent(editor.messages()).take(given),
        forall|i: int| 0 <= i < turns.len() ==> !ends_stream(#[trigger] turns[i]),
    ensures
        handled(idle, turns) == messages_sent(editor.messages()).take(given),
{
    law_every_message_in_order(idle, turns);
}

/// A call on an editor, and whether it found somebody: a message that came in and was taken
/// or refused, a stop, or a connection state.
pub enum EditorCall {
    Receive(DocumentWSData, bool),
    Stop(bool),
    Announce(WSConnectState, bool),
}

/// The editor has been called once.
pub open spec fn called<P: ?Sized, C: ?Sized, W: ?Sized>(
    before: EditorHttpWebSocket<P, C, W>,
    call: EditorCall,
    after: EditorHttpWebSocket<P, C, W>,
) -> bool {
    match call {
        EditorCall::Receive(data, taken) => message_given(before, data, taken, after),
        EditorCall::Stop(heard) => stop_given(before, heard, after),
        EditorCall::Announce(state, heard) => state_given(before, state, heard, after),
    }
}

/// The editor has been given one message, which was taken or refused, and is as it was
/// otherwise.
pub open spec fn message_given<P: ?Sized, C: ?Sized, W: ?Sized>(
    before: EditorHttpWebSocket<P, C, W>,
    data: DocumentWSData,
    taken: bool,
    after: EditorHttpWebSocket<P, C, W>,
) -> bool {
    &&& after.same_wiring(&before)
    &&& after.stop() == before.stop()
    &&& after.states() == before.states()
    &&& messages_sent(after.messages()) == if taken {
        messages_sent(before.messages()).push(data)
    } else {
        messages_sent(before.messages())
    }
    &&& message_refused(after.messages()) <==> !taken
    &&& message_refused(before.messages()) ==> !taken
}

/// The messages among these calls that were taken, in their order.
pub open spec fn messages_taken(calls: Seq<EditorCall>) -> Seq<DocumentWSData>
    decreases calls.len(),
{
    if calls.len() == 0 {
        Seq::empty()
    } else {
        let earlier = messages_taken(calls.drop_last());
        match calls.last() {
            EditorCall::Receive(data, true) => earlier.push(data),
            _ => earlier,
        }
    }
}

/// How many of these calls were stops that were heard.
pub open spec fn stops_heard(calls: Seq<EditorCall>) -> nat
    decreases calls.len(),
{
    if calls.len() == 0 {
        0
    } else {
        let earlier = stops_heard(calls.drop_last());
        match calls.last() {
            EditorCall::Stop(true) => earlier + 1,
            _ => earlier,
        }
    }
}

/// The connection states among these calls that were heard, in their order.
pub open spec fn states_heard(calls: Seq<EditorCall>) -> Seq<WSConnectState>
    decreases calls.len(),
{
    if calls.len() == 0 {
        Seq::empty()
    } else {
        let earlier = states_heard(calls.drop_last());
        match calls.last() {
            EditorCall::Announce(state, true) => earlier.push(state),
            _ => earlier,
        }
    }
}

/// Over any calls on an editor, in any mixture, its queue gets exactly the messages that came
/// in and were taken, each once and in their order; its stop listeners get exactly the stops;
/// and its listeners for connection states get exactly the states that were announced, in
/// their order. None of the three gets anything from a call of another kind: not a message
/// from a state, and not a stop from either.
pub proof fn law_calls_reach_their_own_listeners<P: ?Sized, C: ?Sized, W: ?Sized>(
    editors: Seq<EditorHttpWebSocket<P, C, W>>,
    calls: Seq<EditorCall>,
)
    requires
        editors.len() == calls.len() + 1,
        forall|i: int|
            0 <= i < calls.len() ==> called(editors[i], #[trigger] calls[i], editors[i + 1]),
    ensures
        editors.last().same_wiring(&editors[0]),
        messages_sent(editors.last().messages()) == messages_sent(editors[0].messages())
            + messages_taken(calls),
        stops_sent(editors.last().stop()) == stops_sent(editors[0].stop()) + stops_heard(calls),
        states_sent(editors.last().states()) == states_sent(editors[0].states()) + states_heard(
            calls,
        ),
    decreases calls.len(),
{
    if calls.len() == 0 {
        assert(messages_sent(editors[0].messages()) + messages_taken(calls) =~= messages_sent(
            editors[0].messages(),
        ));
        assert(states_sent(editors[0].states()) + states_heard(calls) =~= states_sent(
            editors[0].states(),
        ));
    } else {
        let (shorter, fewer) = (editors.drop_last(), calls.drop_last());
        assert forall|i: int| 0 <= i < fewer.len() implies called(
            shorter[i],
            #[trigger] fewer[i],
            shorter[i + 1],
        ) by {
            assert(called(editors[i], calls[i], editors[i + 1]));
        }
        law_calls_reach_their_own_listeners(shorter, fewer);
        let n = calls.len() - 1;
        assert(called(editors[n], calls[n], editors[n + 1]));
        let (messages, states) = (
            messages_sent(editors[0].messages()),
            states_sent(editors[0].states()),
        );
        assert(messages_sent(editors.last().messages()) =~= messages + messages_taken(calls));
        assert(states_sent(editors.last().states()) =~= states + states_heard(calls));
    }
}

/// Between two stops no task hears one: whatever messages come in and whatever states are
/// announced, a listener for stops has got just what it had.
pub proof fn law_no_stop_without_a_stop<P: ?Sized, C: ?Sized, W: ?Sized>(
    editors: Seq<EditorHttpWebSocket<P, C, W>>,
    calls: Seq<EditorCall>,
    rx: SinkStopRx,
)
    requires
        editors.len() == calls.len() + 1,
        forall|i: int|
            0 <= i < calls.len() ==> called(editors[i], #[trigger] calls[i], editors[i + 1]),
        forall|i: int| 0 <= i < calls.len() ==> !((#[trigger] calls[i]) is Stop),
    ensures
        editors.last().stop() == editors[0].stop(),
        stops_for(editors.last(), rx) == stops_for(editors[0], rx),
    decreases calls.len(),
{
    if calls.len() > 0 {
        let (shorter, fewer) = (editors.drop_last(), calls.drop_last());
        assert forall|i: int| 0 <= i < fewer.len() implies called(
            shorter[i],
            #[trigger] fewer[i],
            shorter[i + 1],
        ) && !(fewer[i] is Stop) by {
            assert(called(editors[i], calls[i], editors[i + 1]));
            assert(!(calls[i] is Stop));
        }
        law_no_stop_without_a_stop(shorter, fewer, rx);
        let n = calls.len() - 1;
        assert(called(editors[n], calls[n], editors[n + 1]));
        assert(!(calls[n] is Stop));
    }
}

/// What the incoming task of a newly opened editor is given to handle is exactly what the
/// editor was given to receive and took: each message once, unchanged and in its order, as
/// far as the queue has given it on in that order and no stop was heard.
pub proof fn law_received_once_is_handled_once<P: ?Sized, C: ?Sized, W: ?Sized>(
    editors: Seq<EditorHttpWebSocket<P, C, W>>,
    calls: Seq<EditorCall>,
    idle: StreamIdle,
    turns: Seq<StreamTurn>,
    given: int,
)
    requires
        editors.len() == calls.len() + 1,
        messages_sent(editors[0].messages()) == Seq::<DocumentWSData>::empty(),
        forall|i: int|
            0 <= i < calls.len() ==> called(editors[i], #[trigger] calls[i], editors[i + 1]),
        0 <= given <= messages_taken(calls).len(),
        received(turns) == messages_sent(editors.last().messages()).take(given),
        forall|i: int| 0 <= i < turns.len() ==> !ends_stream(#[trigger] turns[i]),
    ensures
        handled(idle, turns) == messages_taken(calls).take(given),
{
    law_calls_reach_their_own_listeners(editors, calls);
    assert(messages_sent(editors.last().messages()) =~= messages_taken(calls));
    law_received_messages_are_handled(editors.last(), idle, turns, given);
}

/// The two tasks of an editor are about its document, work with its provider, its web socket
/// and its consumer, take their messages from its queue and hear its stops from now on.
pub proof fn law_tasks_serve_their_editor<P: ?Sized, C: ?Sized, W: ?Sized>(
    editor: EditorHttpWebSocket<P, C, W>,
    sink: DocumentWebSocketSink<P, W>,
    stream: DocumentWebSocketStream<C>,
)
    requires
        editor.drives_sink(sink),
        editor.drives_stream(stream),
    ensures
        sink.doc() == editor.doc() && stream.doc() == editor.doc(),
        sink.source() == editor.source(),
        sink.socket() == editor.socket(),
        stream.target() == editor.target(),
        stream.messages() matches Some(rx) && message_end(rx) == message_link(editor.messages()),
        sink.stop() matches Some(rx) && stop_end(rx) == stop_link(editor.stop()) && stops_missed(rx)
            == stops_sent(editor.stop()),
        stream.stop() matches Some(rx) && stop_end(rx) == stop_link(editor.stop()) && stops_missed(
            rx,
        ) == stops_sent(editor.stop()),
{
}

/// No call on an editor changes what it is about: its document, its provider, its consumer,
/// its web socket, and where its messages, stops and states go.
pub proof fn law_calls_keep_the_wiring<P: ?Sized, C: ?Sized, W: ?Sized>(
    before: EditorHttpWebSocket<P, C, W>,
    call: EditorCall,
    after: EditorHttpWebSocket<P, C, W>,
)
    requires
        called(before, call, after),
    ensures
        after.doc() == before.doc(),
        after.source() == before.source(),
        after.target() == before.target(),
        after.socket() == before.socket(),
        after.started() == before.started(),
        message_link(after.messages()) == message_link(before.messages()),
        stop_link(after.stop()) == stop_link(before.stop()),
        stop_capacity(after.stop()) == stop_capacity(before.stop()),
        state_link(after.states()) == state_link(before.states()),
        state_capacity(after.states()) == state_capacity(before.states()),
{
}

} // verus!
