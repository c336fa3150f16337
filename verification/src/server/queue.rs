//! The queue of commands of one open document, which carries them out one after the other.
//!
//! Where the synchronizer has its part in a command, the command is cut there: the step says
//! what the synchronizer is asked for, and what it holds goes on with the answer.

use super::calls::{DoneTx, JsonTx, RevIdTx};
use super::editor::{
    ApplyRevision, EditorView, NewConn, ServerDocEditor, SynchronizerSeed,
};
use crate::entities::{Doc, Revision, RevisionUser};
use crate::errors::{CollaborateError, CollaborateResult, OTError};
use tokio::sync::mpsc;
use vstd::prelude::*;

verus! {

/// A command for an open document, with the way back for its answer.
#[allow(inconsistent_fields)]
pub enum DocCommand {
    /// A user has opened the document, and is at revision `rev_id`.
    NewConnectedUser { user: RevisionUser, rev_id: i64, ret: DoneTx },
    /// A user has changed the document.
    ReceiveRevision { user: RevisionUser, revision: Revision, ret: DoneTx },
    /// The document is asked for.
    GetDocJson { ret: JsonTx },
    /// The revision number is asked for.
    GetDocRevId { ret: RevIdTx },
}

/// What the queue does about what it has received.
pub enum QueueAction {
    /// Carry this command out.
    Handle(DocCommand),
    /// All senders are gone: end.
    Exit,
}

/// What the queue does about what it has received.
pub open spec fn queue_action(received: Option<DocCommand>) -> QueueAction {
    match received {
        Some(msg) => QueueAction::Handle(msg),
        None => QueueAction::Exit,
    }
}

/// An answer, and the way back that it is to take.
#[allow(inconsistent_fields)]
pub enum DocReply {
    Done { ret: DoneTx, value: CollaborateResult<()> },
    Json { ret: JsonTx, value: CollaborateResult<String> },
    RevId { ret: RevIdTx, value: CollaborateResult<i64> },
}

/// The next thing to do for a command.
#[allow(inconsistent_fields)]
pub enum QueueStep {
    /// Hand the user to the synchronizer, and answer.
    Connect { request: NewConn, wait: AwaitConnected },
    /// Have the synchronizer apply the revision.
    Apply { request: ApplyRevision, wait: AwaitApplied },
    /// Have the synchronizer write the document as JSON.
    ReadJson { wait: AwaitJson },
    /// Answer.
    Reply(DocReply),
}

/// A user whom the synchronizer is taking up.
pub struct AwaitConnected {
    pub ret: DoneTx,
}

/// A revision that the synchronizer is applying.
pub struct AwaitApplied {
    pub ret: DoneTx,
}

/// A document that the synchronizer is writing.
pub struct AwaitJson {
    pub ret: JsonTx,
}

impl AwaitConnected {
    /// The answer once the synchronizer has taken the user up.
    pub open spec fn next(self) -> DocReply {
        DocReply::Done { ret: self.ret, value: Ok(()) }
    }

    /// Answers once the synchronizer has taken the user up.
    pub fn connected(self) -> (reply: DocReply)
        ensures
            reply == self.next(),
    {
        DocReply::Done { ret: self.ret, value: Ok(()) }
    }
}

impl AwaitApplied {
    /// The answer once the synchronizer has applied the revision.
    pub open spec fn next(self) -> DocReply {
        DocReply::Done { ret: self.ret, value: Ok(()) }
    }

    /// Answers once the synchronizer has applied the revision. One that it could not apply
    /// leaves the document in no known state, and is never answered.
    pub fn applied(self, outcome: Result<(), OTError>) -> (reply: DocReply)
        requires
            outcome is Ok,
        ensures
            reply == self.next(),
    {
        let _ = outcome;
        DocReply::Done { ret: self.ret, value: Ok(()) }
    }
}

impl AwaitJson {
    /// The answer once the document has been written, or could not be.
    pub open spec fn next(self, outcome: Result<String, String>) -> DocReply {
        DocReply::Json {
            ret: self.ret,
            value: match outcome {
                Ok(json) => Ok(json),
                Err(cause) => Err(CollaborateError::Internal(cause)),
            },
        }
    }

    /// Answers with the document. A writing that did not come to its end is an internal
    /// error.
    pub fn read(self, outcome: Result<String, String>) -> (reply: DocReply)
        ensures
            reply == self.next(outcome),
    {
        let value: CollaborateResult<String> = match outcome {
            Ok(json) => Ok(json),
            Err(cause) => Err(CollaborateError::internal_error(cause)),
        };
        DocReply::Json { ret: self.ret, value }
    }
}

/// The document after a command: a user who is named in it is one of its users.
pub open spec fn after_command(doc: EditorView, msg: DocCommand) -> EditorView {
    match msg {
        DocCommand::NewConnectedUser { user, .. } => doc.with_user(user),
        DocCommand::ReceiveRevision { user, .. } => doc.with_user(user),
        DocCommand::GetDocJson { .. } => doc,
        DocCommand::GetDocRevId { .. } => doc,
    }
}

/// What is to be done for a command.
pub open spec fn command_step(doc: EditorView, msg: DocCommand) -> QueueStep {
    match msg {
        DocCommand::NewConnectedUser { user, rev_id, ret } => QueueStep::Connect {
            request: NewConn { user, rev_id, displaced: doc.connection(user.user_id@) },
            wait: AwaitConnected { ret },
        },
        DocCommand::ReceiveRevision { user, revision, ret } => QueueStep::Apply {
            request: ApplyRevision { user, revision, displaced: doc.connection(user.user_id@) },
            wait: AwaitApplied { ret },
        },
        DocCommand::GetDocJson { ret } => QueueStep::ReadJson { wait: AwaitJson { ret } },
        DocCommand::GetDocRevId { ret } => QueueStep::Reply(
            DocReply::RevId { ret, value: Ok(doc.rev_id) },
        ),
    }
}

/// The commands of one open document, and the state that they work on.
pub struct DocCommandQueue {
    receiver: Option<mpsc::Receiver<DocCommand>>,
    edit_doc: ServerDocEditor,
}

impl DocCommandQueue {
    /// The document.
    pub closed spec fn doc(&self) -> EditorView {
        self.edit_doc@
    }

    /// The receiving end of the queue, until the task takes it.
    pub closed spec fn commands(&self) -> Option<mpsc::Receiver<DocCommand>> {
        self.receiver
    }

    /// The state of the document is in order.
    pub closed spec fn well_formed(&self) -> bool {
        self.edit_doc.well_formed()
    }

    /// Opens a document whose commands come from `receiver`, given what came of decoding its
    /// data. A delta that does not decode is an internal error.
    pub fn new<D>(
        receiver: mpsc::Receiver<DocCommand>,
        doc: Doc,
        delta: Result<D, OTError>,
    ) -> (r: Result<(Self, SynchronizerSeed<D>), CollaborateError>)
        ensures
            r is Ok <==> delta is Ok,
            r matches Ok(opened) ==> opened.0.well_formed() && opened.0.doc() == EditorView::opened(
                doc,
            ) && opened.0.commands() == Some(receiver) && opened.1 == (SynchronizerSeed {
                doc_id: doc.id,
                rev_id: doc.rev_id,
                delta: delta->Ok_0,
            }),
            r matches Err(e) ==> e == CollaborateError::Internal(delta->Err_0.text),
    {
        match ServerDocEditor::new(doc, delta) {
            Ok((edit_doc, seed)) => Ok(
                (DocCommandQueue { receiver: Some(receiver), edit_doc }, seed),
            ),
            Err(e) => Err(CollaborateError::internal_error(e.text)),
        }
    }

    /// Begins the task: takes the end that it waits on. It can be taken once.
    pub fn run(&mut self) -> (r: mpsc::Receiver<DocCommand>)
        requires
            old(self).commands() is Some,
        ensures
            Some(r) == old(self).commands(),
            final(self).commands() is None,
            final(self).doc() == old(self).doc(),
            final(self).well_formed() == old(self).well_formed(),
    {
        self.receiver.take().unwrap()
    }

    /// What the task does about what it has received. It ends when all senders are gone.
    pub fn woken(received: Option<DocCommand>) -> (action: QueueAction)
        ensures
            action == queue_action(received),
    {
        match received {
            Some(msg) => QueueAction::Handle(msg),
            None => QueueAction::Exit,
        }
    }

    /// Carries a command out, as far as it goes without the synchronizer.
    pub fn handle_message(&mut self, msg: DocCommand) -> (step: QueueStep)
        requires
            old(self).well_formed(),
        ensures
            final(self).well_formed(),
            final(self).commands() == old(self).commands(),
            final(self).doc() == after_command(old(self).doc(), msg),
            step == command_step(old(self).doc(), msg),
    {
        match msg {
            DocCommand::NewConnectedUser { user, rev_id, ret } => {
                let request = self.edit_doc.new_doc_user(user, rev_id);
                QueueStep::Connect { request, wait: AwaitConnected { ret } }
            },
            DocCommand::ReceiveRevision { user, revision, ret } => {
                let request = self.edit_doc.apply_revision(user, revision);
                QueueStep::Apply { request, wait: AwaitApplied { ret } }
            },
            DocCommand::GetDocJson { ret } => QueueStep::ReadJson { wait: AwaitJson { ret } },
            DocCommand::GetDocRevId { ret } => {
                let rev_id: i64 = self.edit_doc.rev_id();
                QueueStep::Reply(DocReply::RevId { ret, value: Ok(rev_id) })
            },
        }
    }
}

} // verus!
