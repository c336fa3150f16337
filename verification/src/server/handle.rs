//! The handle through which the rest of the server talks to an open document.

use super::calls::{
    command_bound, command_channel, command_end, command_link, done_channel, done_end, done_link,
    json_channel, json_end, json_link, rev_id_channel, rev_id_end, rev_id_link, CommandTx,
};
use super::editor::{EditorView, SynchronizerSeed};
use super::queue::{DocCommand, DocCommandQueue};
use crate::entities::{Doc, Revision, RevisionUser};
use crate::errors::{CollaborateError, CollaborateResult, OTError};
use tokio::sync::{mpsc, oneshot};
use vstd::prelude::*;

verus! {

/// How many commands wait for an open document before their senders have to wait.
pub const COMMAND_BUFFER: usize = 100;

/// The handle of an open document.
pub struct OpenDocHandle {
    sender: CommandTx,
}

/// A document that has just been opened: its handle, its queue, which is to run, and what
/// its synchronizer is to be made from.
pub struct OpenDoc<D> {
    pub handle: OpenDocHandle,
    pub queue: DocCommandQueue,
    pub seed: SynchronizerSeed<D>,
}

/// A command that is to be sent, and the end at which its answer is awaited.
#[verifier::reject_recursive_types(T)]
pub struct DocCall<T> {
    pub msg: DocCommand,
    pub rx: oneshot::Receiver<T>,
}

/// What has come from the other end of a channel; an end that is gone is an internal error.
pub open spec fn reached<T>(outcome: Result<T, String>) -> CollaborateResult<T> {
    match outcome {
        Ok(value) => Ok(value),
        Err(cause) => Err(CollaborateError::Internal(cause)),
    }
}

/// What sending a command, and then waiting for its answer, comes to.
pub open spec fn exchange<T>(
    sent: Result<(), String>,
    answer: Result<T, String>,
) -> CollaborateResult<T> {
    match reached(sent) {
        Ok(_) => reached(answer),
        Err(e) => Err(e),
    }
}

/// Whether a command was delivered, with the document's answer left aside.
pub open spec fn delivery(exchanged: CollaborateResult<CollaborateResult<()>>) -> CollaborateResult<
    (),
> {
    match exchanged {
        Ok(_) => Ok(()),
        Err(e) => Err(e),
    }
}

/// The document's answer, where the exchange came to its end.
pub open spec fn answer_of<T>(
    exchanged: CollaborateResult<CollaborateResult<T>>,
) -> CollaborateResult<T> {
    match exchanged {
        Ok(value) => value,
        Err(e) => Err(e),
    }
}

impl OpenDocHandle {
    /// The sending end of the document's queue.
    pub closed spec fn commands(&self) -> mpsc::Sender<DocCommand> {
        self.sender.sending()
    }

    /// Opens a document, given what came of decoding its data. A delta that does not decode
    /// is an internal error; otherwise the commands that go through the handle arrive at the
    /// queue.
    pub fn new<D>(doc: Doc, delta: Result<D, OTError>) -> (r: Result<OpenDoc<D>, CollaborateError>)
        ensures
            r is Ok <==> delta is Ok,
            r matches Ok(opened) ==> {
                &&& command_bound(opened.handle.commands()) == COMMAND_BUFFER
                &&& opened.queue.commands() matches Some(rx) && command_end(rx) == command_link(
                    opened.handle.commands(),
                )
                &&& opened.queue.well_formed()
                &&& opened.queue.doc() == EditorView::opened(doc)
                &&& opened.seed == (SynchronizerSeed {
                    doc_id: doc.id,
                    rev_id: doc.rev_id,
                    delta: delta->Ok_0,
                })
            },
            r matches Err(e) ==> e == CollaborateError::Internal(delta->Err_0.text),
    {
        let (sender, receiver) = command_channel(COMMAND_BUFFER);
        match DocCommandQueue::new(receiver, doc, delta) {
            Ok((queue, seed)) => Ok(OpenDoc { handle: OpenDocHandle { sender }, queue, seed }),
            Err(e) => Err(e),
        }
    }

    /// The sending end of the document's queue.
    pub fn sender(&self) -> (r: &mpsc::Sender<DocCommand>)
        ensures
            *r == self.commands(),
        opens_invariants none
    {
        self.sender.end()
    }

    /// The command that adds a user, who is at revision `rev_id`.
    pub fn add_user(&self, user: RevisionUser, rev_id: i64) -> (call: DocCall<
        CollaborateResult<()>,
    >)
        ensures
            call.msg matches DocCommand::NewConnectedUser { user: u, rev_id: r, ret } && u == user
                && r == rev_id && done_link(ret) == done_end(call.rx),
        opens_invariants none
    {
        let (ret, rx) = done_channel();
        DocCall { msg: DocCommand::NewConnectedUser { user, rev_id, ret }, rx }
    }

    /// The command that applies a revision of a user.
    pub fn apply_revision(&self, user: RevisionUser, revision: Revision) -> (call: DocCall<
        CollaborateResult<()>,
    >)
        ensures
            call.msg matches DocCommand::ReceiveRevision { user: u, revision: r, ret } && u == user
                && r == revision && done_link(ret) == done_end(call.rx),
        opens_invariants none
    {
        let (ret, rx) = done_channel();
        DocCall { msg: DocCommand::ReceiveRevision { user, revision, ret }, rx }
    }

    /// The command that asks for the document.
    pub fn document_json(&self) -> (call: DocCall<CollaborateResult<String>>)
        ensures
            call.msg matches DocCommand::GetDocJson { ret } && json_link(ret) == json_end(call.rx),
        opens_invariants none
    {
        let (ret, rx) = json_channel();
        DocCall { msg: DocCommand::GetDocJson { ret }, rx }
    }

    /// The command that asks for the revision number.
    pub fn rev_id(&self) -> (call: DocCall<CollaborateResult<i64>>)
        ensures
            call.msg matches DocCommand::GetDocRevId { ret } && rev_id_link(ret) == rev_id_end(
                call.rx,
            ),
        opens_invariants none
    {
        let (ret, rx) = rev_id_channel();
        DocCall { msg: DocCommand::GetDocRevId { ret }, rx }
    }

    /// Goes on after a command was sent: the answer is to be awaited. A queue that is gone is
    /// an internal error.
    pub fn send<T>(rx: oneshot::Receiver<T>, sent: Result<(), String>) -> (r: CollaborateResult<
        oneshot::Receiver<T>,
    >)
        ensures
            sent is Ok ==> r == Ok::<oneshot::Receiver<T>, CollaborateError>(rx),
            sent is Err ==> r == Err::<oneshot::Receiver<T>, CollaborateError>(
                reached(sent)->Err_0,
            ),
    {
        match sent {
            Ok(_) => Ok(rx),
            Err(cause) => Err(CollaborateError::internal_error(cause)),
        }
    }

    /// Goes on after the wait for the answer to a command that was sent. A command that was
    /// dropped without an answer is an internal error.
    pub fn answered<T>(answer: Result<T, String>) -> (r: CollaborateResult<T>)
        ensures
            r == reached(answer),
    {
        match answer {
            Ok(result) => Ok(result),
            Err(cause) => Err(CollaborateError::internal_error(cause)),
        }
    }

    /// The result for the caller who adds a user or applies a revision: the exchange must
    /// have come to its end; what the document answered is not looked at.
    pub fn delivered(exchanged: CollaborateResult<CollaborateResult<()>>) -> (r: Result<
        (),
        CollaborateError,
    >)
        ensures
            r == delivery(exchanged),
    {
        match exchanged {
            Ok(_) => Ok(()),
            Err(e) => Err(e),
        }
    }

    /// The result for the caller who asks for something: the document's own answer, or the
    /// error of the exchange.
    pub fn obtained<T>(exchanged: CollaborateResult<CollaborateResult<T>>) -> (r: CollaborateResult<
        T,
    >)
        ensures
            r == answer_of(exchanged),
    {
        match exchanged {
            Ok(value) => value,
            Err(e) => Err(e),
        }
    }
}

} // verus!
