//! Incoming messages: the task that takes them off the queue one by one and hands each to
//! the consumer of the document.
//!
//! The consumer answers later, so the handling of a message is cut where it waits. Each
//! piece says what to do next and keeps what the following piece needs.

use super::signals::SinkStopRx;
use crate::entities::{DocumentWSData, DocumentWSDataType};
use crate::errors::{FlowyError, FlowyResult};
use crate::payload::{bytes_content, bytes_from};
use bytes::Bytes;
use std::sync::Arc;
use tokio::sync::mpsc;
use vstd::prelude::*;

verus! {

/// What ends a wait of the task of incoming messages.
pub enum StreamEvent {
    /// The queue gave a message, or nothing more will ever come from it.
    Received(Option<DocumentWSData>),
    /// The wait for the stop signal ended, with a signal or without one.
    Stopped,
}

/// What the task of incoming messages does next.
pub enum StreamAction {
    /// Handle this message, and wait for nothing else until that is done.
    Handle { msg: DocumentWSData, wait: StreamBusy },
    /// End the task.
    Exit,
}

/// The task waits for the queue and for the stop signal.
pub struct StreamIdle {}

/// The task handles a message.
pub struct StreamBusy {}

impl StreamIdle {
    /// What the task does when its wait has ended.
    pub open spec fn next(self, event: StreamEvent) -> StreamAction {
        match event {
            StreamEvent::Received(Some(msg)) => StreamAction::Handle { msg, wait: StreamBusy {  } },
            StreamEvent::Received(None) => StreamAction::Exit,
            StreamEvent::Stopped => StreamAction::Exit,
        }
    }

    /// Goes on when the wait has ended: with the message that came, or to the end of the
    /// task where the queue has ended or a stop was heard.
    pub fn woken(self, event: StreamEvent) -> (action: StreamAction)
        ensures
            action == self.next(event),
    {
        match event {
            StreamEvent::Received(result) => match result {
                Some(msg) => StreamAction::Handle { msg, wait: StreamBusy {  } },
                None => StreamAction::Exit,
            },
            StreamEvent::Stopped => StreamAction::Exit,
        }
    }
}

impl StreamBusy {
    /// How the task goes on when a message has been handled, and the failure that it notes.
    pub open spec fn next(self, result: FlowyResult<()>) -> (StreamIdle, Option<FlowyError>) {
        match result {
            Ok(_) => (StreamIdle {  }, None),
            Err(e) => (StreamIdle {  }, Some(e)),
        }
    }

    /// Goes on when a message has been handled: back to waiting, whatever came of the
    /// message. A failure is noted.
    pub fn handled(self, result: FlowyResult<()>) -> (r: (StreamIdle, Option<FlowyError>))
        ensures
            r == self.next(result),
    {
        match result {
            Ok(_) => (StreamIdle {  }, None),
            Err(e) => (StreamIdle {  }, Some(e)),
        }
    }
}

/// The next thing to do for a message, once its payload is a shared buffer. `R` is a
/// decoded range of revisions, `N` a decoded new user.
#[allow(inconsistent_fields)]
pub enum StreamStep<R, N> {
    /// Hand the pushed revision to the consumer.
    ReceivePush { bytes: Bytes, wait: AwaitPush },
    /// Decode the range of revisions that is asked for.
    DecodeRange { bytes: Bytes, wait: AwaitRange },
    /// Have the consumer send the revisions in the range.
    SendRange { range: R, wait: AwaitSent },
    /// Decode the user who has connected.
    DecodeUser { bytes: Bytes, wait: AwaitUser },
    /// Tell the consumer about the user.
    ConnectUser { new_user: N, wait: AwaitConnected },
    /// Have the consumer take note of the acknowledgement of the message.
    ReceiveAck { id: String, ty: DocumentWSDataType, wait: AwaitAck },
    /// The message is dealt with.
    Done(FlowyResult<()>),
}

/// A message whose payload has yet to become a shared buffer.
pub struct PendingPayload {
    pub ty: DocumentWSDataType,
    pub id: String,
    pub data: Vec<u8>,
}

/// A message whose payload is a shared buffer.
pub struct Payload {
    pub ty: DocumentWSDataType,
    pub id: String,
    pub bytes: Bytes,
}

/// A pushed revision that the consumer is taking.
pub struct AwaitPush {
    pub ty: DocumentWSDataType,
    pub id: String,
}

/// A range that is being decoded.
pub struct AwaitRange {}

/// Revisions that the consumer is sending.
pub struct AwaitSent {}

/// A new user who is being decoded.
pub struct AwaitUser {}

/// A new user about whom the consumer is being told.
pub struct AwaitConnected {}

/// An acknowledgement that the consumer is taking.
pub struct AwaitAck {}

impl Payload {
    /// The same message, with its payload in a shared buffer.
    pub open spec fn holds(self, pending: PendingPayload) -> bool {
        &&& self.ty == pending.ty
        &&& self.id == pending.id
        &&& bytes_content(self.bytes) == pending.data@
    }
}

impl PendingPayload {
    /// Turns the payload of the message into a shared buffer.
    pub fn convert(self) -> (payload: Payload)
        ensures
            payload.holds(self),
    {
        Payload { ty: self.ty, id: self.id, bytes: bytes_from(self.data) }
    }
}

/// What follows the conversion of a payload.
pub open spec fn payload_step<R, N>(outcome: Result<Payload, String>) -> StreamStep<R, N> {
    match outcome {
        Err(cause) => StreamStep::Done(Err(FlowyError::Internal(cause))),
        Ok(Payload { ty, id, bytes }) => match ty {
            DocumentWSDataType::PushRev => StreamStep::ReceivePush {
                bytes,
                wait: AwaitPush { ty, id },
            },
            DocumentWSDataType::PullRev => StreamStep::DecodeRange { bytes, wait: AwaitRange {  } },
            DocumentWSDataType::Ack => StreamStep::ReceiveAck { id, ty, wait: AwaitAck {  } },
            DocumentWSDataType::UserConnect => StreamStep::DecodeUser {
                bytes,
                wait: AwaitUser {  },
            },
        },
    }
}

impl AwaitPush {
    /// What follows the consumer's answer to a pushed revision.
    pub open spec fn next<R, N>(self, outcome: FlowyResult<()>) -> StreamStep<R, N> {
        match outcome {
            Ok(_) => StreamStep::ReceiveAck { id: self.id, ty: self.ty, wait: AwaitAck {  } },
            Err(e) => StreamStep::Done(Err(e)),
        }
    }

    /// Goes on after the consumer has taken, or refused, the pushed revision. Only one that
    /// was taken is acknowledged.
    pub fn received<R, N>(self, outcome: FlowyResult<()>) -> (step: StreamStep<R, N>)
        ensures
            step == self.next::<R, N>(outcome),
    {
        match outcome {
            Ok(_) => StreamStep::ReceiveAck { id: self.id, ty: self.ty, wait: AwaitAck {  } },
            Err(e) => StreamStep::Done(Err(e)),
        }
    }
}

impl AwaitRange {
    /// What follows the decoding of a range.
    pub open spec fn next<R, N>(self, outcome: FlowyResult<R>) -> StreamStep<R, N> {
        match outcome {
            Ok(range) => StreamStep::SendRange { range, wait: AwaitSent {  } },
            Err(e) => StreamStep::Done(Err(e)),
        }
    }

    /// Goes on after the decoding of the range.
    pub fn decoded<R, N>(self, outcome: FlowyResult<R>) -> (step: StreamStep<R, N>)
        ensures
            step == self.next::<R, N>(outcome),
    {
        match outcome {
            Ok(range) => StreamStep::SendRange { range, wait: AwaitSent {  } },
            Err(e) => StreamStep::Done(Err(e)),
        }
    }
}

impl AwaitSent {
    /// What follows the sending of the revisions in a range.
    pub open spec fn next<R, N>(self, outcome: FlowyResult<()>) -> StreamStep<R, N> {
        StreamStep::Done(outcome)
    }

    /// Goes on after the revisions have been sent, or could not be.
    pub fn sent<R, N>(self, outcome: FlowyResult<()>) -> (step: StreamStep<R, N>)
        ensures
            step == self.next::<R, N>(outcome),
    {
        StreamStep::Done(outcome)
    }
}

impl AwaitUser {
    /// What follows the decoding of a new user.
    pub open spec fn next<R, N>(self, outcome: FlowyResult<N>) -> StreamStep<R, N> {
        match outcome {
            Ok(new_user) => StreamStep::ConnectUser { new_user, wait: AwaitConnected {  } },
            Err(e) => StreamStep::Done(Err(e)),
        }
    }

    /// Goes on after the decoding of the new user.
    pub fn decoded<R, N>(self, outcome: FlowyResult<N>) -> (step: StreamStep<R, N>)
        ensures
            step == self.next::<R, N>(outcome),
    {
        match outcome {
            Ok(new_user) => StreamStep::ConnectUser { new_user, wait: AwaitConnected {  } },
            Err(e) => StreamStep::Done(Err(e)),
        }
    }
}

impl AwaitConnected {
    /// What follows the consumer's answer about a new user.
    pub open spec fn next<R, N>(self, outcome: FlowyResult<()>) -> StreamStep<R, N> {
        StreamStep::Done(Ok(()))
    }

    /// Goes on after the consumer has been told about the new user. Its answer is not
    /// looked at.
    pub fn connected<R, N>(self, outcome: FlowyResult<()>) -> (step: StreamStep<R, N>)
        ensures
            step == self.next::<R, N>(outcome),
    {
        let _ = outcome;
        StreamStep::Done(Ok(()))
    }
}

impl AwaitAck {
    /// What follows the consumer's answer to an acknowledgement.
    pub open spec fn next<R, N>(self, outcome: FlowyResult<()>) -> StreamStep<R, N> {
        StreamStep::Done(Ok(()))
    }

    /// Goes on after the consumer has taken note of the acknowledgement. Its answer is not
    /// looked at.
    pub fn acknowledged<R, N>(self, outcome: FlowyResult<()>) -> (step: StreamStep<R, N>)
        ensures
            step == self.next::<R, N>(outcome),
    {
        let _ = outcome;
        StreamStep::Done(Ok(()))
    }
}

/// The incoming side of a document's web socket. `C` is the consumer of the messages.
#[verifier::reject_recursive_types(C)]
pub struct DocumentWebSocketStream<C: ?Sized> {
    doc_id: String,
    consumer: Arc<C>,
    ws_msg_rx: Option<mpsc::UnboundedReceiver<DocumentWSData>>,
    stop_rx: Option<SinkStopRx>,
}

impl<C: ?Sized> DocumentWebSocketStream<C> {
    /// The id of the document.
    pub closed spec fn doc(&self) -> Seq<char> {
        self.doc_id@
    }

    /// The consumer of the messages.
    pub closed spec fn target(&self) -> Arc<C> {
        self.consumer
    }

    /// The receiving end of the queue, until the task takes it.
    pub closed spec fn messages(&self) -> Option<mpsc::UnboundedReceiver<DocumentWSData>> {
        self.ws_msg_rx
    }

    /// The listener for the stop signal, until the task takes it.
    pub closed spec fn stop(&self) -> Option<SinkStopRx> {
        self.stop_rx
    }

    /// The incoming side of the document's web socket, not yet running.
    pub fn new(
        doc_id: &str,
        consumer: Arc<C>,
        ws_msg_rx: mpsc::UnboundedReceiver<DocumentWSData>,
        stop_rx: SinkStopRx,
    ) -> (r: Self)
        ensures
            r.doc() == doc_id@,
            r.target() == consumer,
            r.messages() == Some(ws_msg_rx),
            r.stop() == Some(stop_rx),
    {
        DocumentWebSocketStream {
            doc_id: doc_id.to_owned(),
            consumer,
            ws_msg_rx: Some(ws_msg_rx),
            stop_rx: Some(stop_rx),
        }
    }

    /// The id of the document.
    pub fn doc_id(&self) -> (r: &str)
        ensures
            r@ == self.doc(),
    {
        self.doc_id.as_str()
    }

    /// The consumer of the messages.
    pub fn consumer(&self) -> (r: Arc<C>)
        ensures
            r == self.target(),
    {
        self.consumer.clone()
    }

    /// Begins the task: takes the two ends that it waits on, and waits. They can be taken
    /// once.
    pub fn run(&mut self) -> (r: (
        mpsc::UnboundedReceiver<DocumentWSData>,
        SinkStopRx,
        StreamIdle,
    ))
        requires
            old(self).messages() is Some,
            old(self).stop() is Some,
        ensures
            Some(r.0) == old(self).messages(),
            Some(r.1) == old(self).stop(),
            final(self).messages() is None,
            final(self).stop() is None,
            final(self).doc() == old(self).doc(),
            final(self).target() == old(self).target(),
    {
        let receiver = self.ws_msg_rx.take().unwrap();
        let stop_rx = self.stop_rx.take().unwrap();
        (receiver, stop_rx, StreamIdle {  })
    }

    /// Begins the handling of a message: its payload is to become a shared buffer.
    pub fn handle_message(msg: DocumentWSData) -> (pending: PendingPayload)
        ensures
            pending == (PendingPayload { ty: msg.ty, id: msg.id, data: msg.data }),
    {
        let DocumentWSData { doc_id: _, ty, data, id } = msg;
        PendingPayload { ty, id, data }
    }

    /// Goes on after the conversion of the payload: by the type of the message, or with an
    /// internal error where the conversion did not come to its end.
    pub fn converted<R, N>(outcome: Result<Payload, String>) -> (step: StreamStep<R, N>)
        ensures
            step == payload_step::<R, N>(outcome),
    {
        let Payload { ty, id, bytes } = match outcome {
            Ok(payload) => payload,
            Err(cause) => {
                return StreamStep::Done(Err(FlowyError::internal_error(cause)));
            },
        };
        match ty {
            DocumentWSDataType::PushRev => StreamStep::ReceivePush {
                bytes,
                wait: AwaitPush { ty, id },
            },
            DocumentWSDataType::PullRev => StreamStep::DecodeRange { bytes, wait: AwaitRange {  } },
            DocumentWSDataType::Ack => StreamStep::ReceiveAck { id, ty, wait: AwaitAck {  } },
            DocumentWSDataType::UserConnect => StreamStep::DecodeUser {
                bytes,
                wait: AwaitUser {  },
            },
        }
    }
}

} // verus!
