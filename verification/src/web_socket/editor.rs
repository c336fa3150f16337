//! The web socket of one open document: where its messages come in, where its connection
//! state is announced, and from where its two tasks are stopped.

use super::signals::{
    message_channel, message_end, message_link, message_refused, message_send, messages_sent,
    state_capacity, state_channel, state_end, state_link, state_send, state_subscribe,
    state_unheard, states_missed, states_sent, stop_capacity, stop_channel, stop_end, stop_link,
    stop_send, stop_subscribe, stop_unheard, stops_missed, stops_sent, MessageTx, StateTx, StopTx,
};
use super::sink::DocumentWebSocketSink;
use super::stream::DocumentWebSocketStream;
use crate::entities::{DocumentWSData, WSConnectState};
use std::sync::Arc;
use tokio::sync::{broadcast, mpsc};
use vstd::prelude::*;

verus! {

/// How many signals the two broadcasts keep for a slow listener.
pub const SIGNAL_CAPACITY: usize = 2;

/// The web socket of one open document. `P` provides the outgoing messages, `C` consumes the
/// incoming ones, and `W` is the web socket that all documents share.
#[verifier::reject_recursive_types(P)]
#[verifier::reject_recursive_types(C)]
#[verifier::reject_recursive_types(W)]
pub struct EditorHttpWebSocket<P: ?Sized, C: ?Sized, W: ?Sized> {
    doc_id: String,
    data_provider: Arc<P>,
    stream_consumer: Arc<C>,
    ws: Arc<W>,
    ws_msg_tx: MessageTx,
    ws_msg_rx: Option<mpsc::UnboundedReceiver<DocumentWSData>>,
    stop_sync_tx: StopTx,
    state: StateTx,
}

impl<P: ?Sized, C: ?Sized, W: ?Sized> EditorHttpWebSocket<P, C, W> {
    /// The id of the document.
    pub closed spec fn doc(&self) -> Seq<char> {
        self.doc_id@
    }

    /// The provider of the outgoing messages.
    pub closed spec fn source(&self) -> Arc<P> {
        self.data_provider
    }

    /// The consumer of the incoming messages.
    pub closed spec fn target(&self) -> Arc<C> {
        self.stream_consumer
    }

    /// The web socket.
    pub closed spec fn socket(&self) -> Arc<W> {
        self.ws
    }

    /// The sending end of the queue of incoming messages.
    pub closed spec fn messages(&self) -> MessageTx {
        self.ws_msg_tx
    }

    /// The sending end of the stop broadcast.
    pub closed spec fn stop(&self) -> StopTx {
        self.stop_sync_tx
    }

    /// The sending end of the broadcast of connection states.
    pub closed spec fn states(&self) -> StateTx {
        self.state
    }

    /// The tasks have been made.
    pub closed spec fn started(&self) -> bool {
        self.ws_msg_rx is None
    }

    /// Nothing but the three channels may differ, and each of them only by what has been
    /// sent, was refused or went unheard.
    pub open spec fn same_wiring(&self, other: &Self) -> bool {
        &&& self.doc() == other.doc()
        &&& self.source() == other.source()
        &&& self.target() == other.target()
        &&& self.socket() == other.socket()
        &&& self.started() == other.started()
        &&& message_link(self.messages()) == message_link(other.messages())
        &&& stop_link(self.stop()) == stop_link(other.stop())
        &&& stop_capacity(self.stop()) == stop_capacity(other.stop())
        &&& state_link(self.states()) == state_link(other.states())
        &&& state_capacity(self.states()) == state_capacity(other.states())
    }

    /// The task sends what this editor's provider has, through its web socket, and hears the
    /// stop signals that the editor gives from now on.
    pub open spec fn drives_sink(&self, sink: DocumentWebSocketSink<P, W>) -> bool {
        &&& sink.doc() == self.doc()
        &&& sink.source() == self.source()
        &&& sink.socket() == self.socket()
        &&& sink.stop() matches Some(rx) && stop_end(rx) == stop_link(self.stop())
            && stops_missed(rx) == stops_sent(self.stop())
    }

    /// The task takes this editor's messages to its consumer, and hears the stop signals that
    /// the editor gives from now on.
    pub open spec fn drives_stream(&self, stream: DocumentWebSocketStream<C>) -> bool {
        &&& stream.doc() == self.doc()
        &&& stream.target() == self.target()
        &&& stream.messages() matches Some(rx) && message_end(rx) == message_link(self.messages())
        &&& stream.stop() matches Some(rx) && stop_end(rx) == stop_link(self.stop())
            && stops_missed(rx) == stops_sent(self.stop())
    }

    /// Opens the web socket of a document, and hands out the two tasks that are to run for
    /// it. Nothing has been received, announced or stopped; the incoming task drains this
    /// editor's queue, and both tasks hear every stop signal that it will give.
    pub fn new(
        doc_id: &str,
        ws: Arc<W>,
        data_provider: Arc<P>,
        stream_consumer: Arc<C>,
    ) -> (r: (Self, DocumentWebSocketSink<P, W>, DocumentWebSocketStream<C>))
        ensures
            r.0.doc() == doc_id@,
            r.0.source() == data_provider,
            r.0.target() == stream_consumer,
            r.0.socket() == ws,
            r.0.started(),
            messages_sent(r.0.messages()) == Seq::<DocumentWSData>::empty(),
            !message_refused(r.0.messages()),
            stops_sent(r.0.stop()) == 0,
            !stop_unheard(r.0.stop()),
            stop_capacity(r.0.stop()) == SIGNAL_CAPACITY,
            states_sent(r.0.states()) == Seq::<WSConnectState>::empty(),
            !state_unheard(r.0.states()),
            state_capacity(r.0.states()) == SIGNAL_CAPACITY,
            r.0.drives_sink(r.1),
            r.0.drives_stream(r.2),
            r.1.doc() == doc_id@,
            r.1.source() == data_provider,
            r.1.socket() == ws,
            r.1.stop() matches Some(rx) && stop_end(rx) == stop_link(r.0.stop()) && stops_missed(rx)
                == 0,
            r.2.doc() == doc_id@,
            r.2.target() == stream_consumer,
            r.2.messages() matches Some(rx) && message_end(rx) == message_link(r.0.messages()),
            r.2.stop() matches Some(rx) && stop_end(rx) == stop_link(r.0.stop()) && stops_missed(rx)
                == 0,
    {
        let (ws_msg_tx, ws_msg_rx) = message_channel();
        let (stop_sync_tx, _) = stop_channel(SIGNAL_CAPACITY);
        let doc_id = doc_id.to_string();
        let (state, _) = state_channel(SIGNAL_CAPACITY);
        let mut manager = EditorHttpWebSocket {
            doc_id,
            data_provider,
            stream_consumer,
            ws,
            ws_msg_tx,
            ws_msg_rx: Some(ws_msg_rx),
            stop_sync_tx,
            state,
        };
        let (sink, stream) = manager.start_web_socket();
        (manager, sink, stream)
    }

    /// Makes the two tasks of the web socket. There is one receiving end, so this happens
    /// once.
    fn start_web_socket(&mut self) -> (r: (
        DocumentWebSocketSink<P, W>,
        DocumentWebSocketStream<C>,
    ))
        requires
            old(self).ws_msg_rx matches Some(rx) && message_end(rx) == message_link(
                old(self).ws_msg_tx,
            ),
        ensures
            final(self).started(),
            *final(self) == (EditorHttpWebSocket { ws_msg_rx: None, ..*old(self) }),
            final(self).drives_sink(r.0),
            final(self).drives_stream(r.1),
    {
        let ws_msg_rx = self.ws_msg_rx.take().unwrap();
        let sink = DocumentWebSocketSink::new(
            self.doc_id.as_str(),
            self.data_provider.clone(),
            self.ws.clone(),
            stop_subscribe(&self.stop_sync_tx),
        );
        let stream = DocumentWebSocketStream::new(
            self.doc_id.as_str(),
            self.stream_consumer.clone(),
            ws_msg_rx,
            stop_subscribe(&self.stop_sync_tx),
        );
        (sink, stream)
    }

    /// The id of the document.
    pub fn doc_id(&self) -> (r: &str)
        ensures
            r@ == self.doc(),
    {
        self.doc_id.as_str()
    }

    /// A listener for connection states. It hears those that are announced from now on.
    pub fn scribe_state(&self) -> (rx: broadcast::Receiver<WSConnectState>)
        ensures
            state_end(rx) == state_link(self.states()),
            states_missed(rx) == states_sent(self.states()).len(),
    {
        state_subscribe(&self.state)
    }

    /// Gives the stop signal. Says whether any task was there to hear it: either the signal
    /// has gone out, or it found no listener. Whether a task still listens is for the tasks to
    /// decide.
    pub fn stop_web_socket(&mut self) -> (heard: bool)
        ensures
            final(self).same_wiring(old(self)),
            final(self).messages() == old(self).messages(),
            final(self).states() == old(self).states(),
            heard ==> stops_sent(final(self).stop()) == stops_sent(old(self).stop()) + 1,
            !heard ==> stops_sent(final(self).stop()) == stops_sent(old(self).stop()),
            stop_unheard(final(self).stop()) <==> !heard,
        opens_invariants none
    {
        stop_heard(stop_send(&mut self.stop_sync_tx))
    }

    /// Puts a message that has come in behind those before it, for the incoming task. Where
    /// that task is gone, the message comes back, and so does every message after it.
    pub fn receive(&mut self, doc_data: DocumentWSData) -> (r: Result<(), DocumentWSData>)
        ensures
            final(self).same_wiring(old(self)),
            final(self).stop() == old(self).stop(),
            final(self).states() == old(self).states(),
            r is Ok ==> messages_sent(final(self).messages()) == messages_sent(
                old(self).messages(),
            ).push(doc_data),
            r matches Err(back) ==> back == doc_data && messages_sent(final(self).messages())
                == messages_sent(old(self).messages()),
            message_refused(final(self).messages()) <==> r is Err,
            message_refused(old(self).messages()) ==> r is Err,
        opens_invariants none
    {
        message_send(&mut self.ws_msg_tx, doc_data)
    }

    /// Announces the state of the connection to all who listen, behind the states before
    /// it. Where nobody listens, the state comes back.
    pub fn connect_state_changed(&mut self, state: &WSConnectState) -> (r: Result<
        (),
        WSConnectState,
    >)
        ensures
            final(self).same_wiring(old(self)),
            final(self).messages() == old(self).messages(),
            final(self).stop() == old(self).stop(),
            r is Ok ==> states_sent(final(self).states()) == states_sent(old(self).states()).push(
                *state,
            ),
            r matches Err(back) ==> back == *state && states_sent(final(self).states())
                == states_sent(old(self).states()),
            state_unheard(final(self).states()) <==> r is Err,
        opens_invariants none
    {
        match state_send(&mut self.state, *state) {
            Ok(_) => Ok(()),
            Err(back) => Err(back),
        }
    }
}

/// Whether a stop signal was heard, by what came of giving it: the number of those who
/// listened, or that nobody did.
pub fn stop_heard(given: Result<usize, ()>) -> (heard: bool)
    ensures
        heard <==> given is Ok,
    opens_invariants none
{
    match given {
        Ok(_) => true,
        Err(_) => false,
    }
}

} // verus!
