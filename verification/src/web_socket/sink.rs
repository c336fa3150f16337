//! Outgoing messages: the task that, at every tick, asks for the next message and sends it.

use super::signals::{
    tick_channel, tick_end, tick_link, tick_refused, tick_send, ticks_sent, SinkStopRx, Tick,
};
use crate::entities::DocumentWSData;
use crate::errors::{FlowyError, FlowyResult};
use std::sync::Arc;
use tokio::sync::mpsc;
use vstd::prelude::*;

verus! {

/// What ends a wait of the task of outgoing messages.
pub enum SinkEvent {
    /// The clock ticked, or it will never tick again.
    Ticked(Option<Tick>),
    /// The wait for the stop signal ended, with a signal or without one.
    Stopped,
}

/// What the task of outgoing messages does next.
pub enum SinkAction {
    /// Send the next message, and wait for nothing else until that is done.
    SendNext(SinkBusy),
    /// End the task.
    Exit,
}

/// The task waits for the clock and for the stop signal.
pub struct SinkIdle {}

/// The task sends a message.
pub struct SinkBusy {}

impl SinkIdle {
    /// What the task does when its wait has ended.
    pub open spec fn next(self, event: SinkEvent) -> SinkAction {
        match event {
            SinkEvent::Ticked(Some(_)) => SinkAction::SendNext(SinkBusy {  }),
            SinkEvent::Ticked(None) => SinkAction::Exit,
            SinkEvent::Stopped => SinkAction::Exit,
        }
    }

    /// Goes on when the wait has ended: with a sending at a tick, or to the end of the task
    /// where the clock has ended or a stop was heard.
    pub fn woken(self, event: SinkEvent) -> (action: SinkAction)
        ensures
            action == self.next(event),
    {
        match event {
            SinkEvent::Ticked(result) => match result {
                Some(_) => SinkAction::SendNext(SinkBusy {  }),
                None => SinkAction::Exit,
            },
            SinkEvent::Stopped => SinkAction::Exit,
        }
    }
}

impl SinkBusy {
    /// How the task goes on when a sending has ended, and the failure that it notes.
    pub open spec fn next(self, result: FlowyResult<()>) -> (SinkIdle, Option<FlowyError>) {
        match result {
            Ok(_) => (SinkIdle {  }, None),
            Err(e) => (SinkIdle {  }, Some(e)),
        }
    }

    /// Goes on when a sending has ended: back to waiting, whatever came of it. A failure is
    /// noted.
    pub fn sent(self, result: FlowyResult<()>) -> (r: (SinkIdle, Option<FlowyError>))
        ensures
            r == self.next(result),
    {
        match result {
            Ok(_) => (SinkIdle {  }, None),
            Err(e) => (SinkIdle {  }, Some(e)),
        }
    }
}

/// What becomes of the provider's answer.
pub enum SinkStep {
    /// Send this message through the web socket.
    Send(DocumentWSData, AwaitSend),
    /// Nothing is left to do for this tick.
    Done(FlowyResult<()>),
}

/// A message that the web socket is sending.
pub struct AwaitSend {}

impl AwaitSend {
    /// The result that follows the web socket's answer.
    pub open spec fn next(self, outcome: Result<(), String>) -> FlowyResult<()> {
        match outcome {
            Ok(_) => Ok(()),
            Err(cause) => Err(FlowyError::Internal(cause)),
        }
    }

    /// Ends the sending of a message. A web socket that could not send it is an internal
    /// error.
    pub fn sent(self, outcome: Result<(), String>) -> (r: FlowyResult<()>)
        ensures
            r == self.next(outcome),
    {
        match outcome {
            Ok(_) => Ok(()),
            Err(cause) => Err(FlowyError::internal_error(cause)),
        }
    }
}

/// What follows the provider's answer: what it gave is sent; where it has nothing, all
/// revisions are in step and there is nothing to do.
pub open spec fn next_revision(next: FlowyResult<Option<DocumentWSData>>) -> SinkStep {
    match next {
        Err(e) => SinkStep::Done(Err(e)),
        Ok(None) => SinkStep::Done(Ok(())),
        Ok(Some(data)) => SinkStep::Send(data, AwaitSend {  }),
    }
}

/// What the clock does after it has tried to pass a tick on.
#[derive(Clone, Copy, Debug, PartialEq, Eq, Structural)]
pub enum TickAction {
    /// Wait for the next beat, and pass a tick on then.
    Wait,
    /// Nobody listens any more: end.
    End,
}

/// The outgoing side of a document's web socket. `P` provides the messages, `W` is the web
/// socket.
#[verifier::reject_recursive_types(P)]
#[verifier::reject_recursive_types(W)]
pub struct DocumentWebSocketSink<P: ?Sized, W: ?Sized> {
    provider: Arc<P>,
    ws_sender: Arc<W>,
    stop_rx: Option<SinkStopRx>,
    doc_id: String,
}

impl<P: ?Sized, W: ?Sized> DocumentWebSocketSink<P, W> {
    /// The id of the document.
    pub closed spec fn doc(&self) -> Seq<char> {
        self.doc_id@
    }

    /// The provider of the messages.
    pub closed spec fn source(&self) -> Arc<P> {
        self.provider
    }

    /// The web socket.
    pub closed spec fn socket(&self) -> Arc<W> {
        self.ws_sender
    }

    /// The listener for the stop signal, until the task takes it.
    pub closed spec fn stop(&self) -> Option<SinkStopRx> {
        self.stop_rx
    }

    /// The outgoing side of the document's web socket, not yet running.
    pub fn new(
        doc_id: &str,
        provider: Arc<P>,
        ws_sender: Arc<W>,
        stop_rx: SinkStopRx,
    ) -> (r: Self)
        ensures
            r.doc() == doc_id@,
            r.source() == provider,
            r.socket() == ws_sender,
            r.stop() == Some(stop_rx),
    {
        DocumentWebSocketSink {
            provider,
            ws_sender,
            stop_rx: Some(stop_rx),
            doc_id: doc_id.to_owned(),
        }
    }

    /// The id of the document.
    pub fn doc_id(&self) -> (r: &str)
        ensures
            r@ == self.doc(),
    {
        self.doc_id.as_str()
    }

    /// The provider of the messages.
    pub fn provider(&self) -> (r: Arc<P>)
        ensures
            r == self.source(),
    {
        self.provider.clone()
    }

    /// The web socket.
    pub fn ws_sender(&self) -> (r: Arc<W>)
        ensures
            r == self.socket(),
    {
        self.ws_sender.clone()
    }

    /// Begins the task: takes the listener that it waits on, makes the queue of its clock,
    /// and waits. It can be begun once.
    pub fn run(&mut self) -> (r: (
        SinkStopRx,
        mpsc::UnboundedSender<Tick>,
        mpsc::UnboundedReceiver<Tick>,
        SinkIdle,
    ))
        requires
            old(self).stop() is Some,
        ensures
            Some(r.0) == old(self).stop(),
            tick_end(r.2) == tick_link(r.1),
            ticks_sent(r.1) == 0,
            !tick_refused(r.1),
            final(self).stop() is None,
            final(self).doc() == old(self).doc(),
            final(self).source() == old(self).source(),
            final(self).socket() == old(self).socket(),
        opens_invariants none
    {
        let (tx, rx) = tick_channel();
        let mut stop_rx: Option<SinkStopRx> = None;
        std::mem::swap(&mut stop_rx, &mut self.stop_rx);
        match stop_rx {
            Some(stop_rx) => (stop_rx, tx, rx, SinkIdle {  }),
            None => vstd::pervasive::unreached(),
        }
    }

    /// Goes on with what the provider has answered.
    pub fn send_next_revision(next: FlowyResult<Option<DocumentWSData>>) -> (step: SinkStep)
        ensures
            step == next_revision(next),
    {
        match next {
            Err(e) => SinkStep::Done(Err(e)),
            Ok(None) => SinkStep::Done(Ok(())),
            Ok(Some(data)) => SinkStep::Send(data, AwaitSend {  }),
        }
    }
}

/// What the clock does after it has tried to pass a tick on: it goes on for as long as
/// somebody takes the ticks.
pub fn tick_action(sent: Result<(), Tick>) -> (action: TickAction)
    ensures
        sent is Ok ==> action == TickAction::Wait,
        sent is Err ==> action == TickAction::End,
    opens_invariants none
{
    match sent {
        Ok(_) => TickAction::Wait,
        Err(_) => TickAction::End,
    }
}

/// Passes one tick on, and says whether there will be another. There will be none once a tick
/// was refused. How long somebody takes the ticks is for the receiving task to decide.
pub fn tick(sender: &mut mpsc::UnboundedSender<Tick>) -> (action: TickAction)
    ensures
        tick_link(*final(sender)) == tick_link(*old(sender)),
        action == TickAction::Wait ==> ticks_sent(*final(sender)) == ticks_sent(*old(sender)) + 1,
        action == TickAction::End ==> ticks_sent(*final(sender)) == ticks_sent(*old(sender)),
        tick_refused(*final(sender)) <==> action == TickAction::End,
        tick_refused(*old(sender)) ==> action == TickAction::End,
    opens_invariants none
{
    tick_action(tick_send(sender))
}

} // verus!
