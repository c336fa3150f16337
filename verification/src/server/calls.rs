//! The channels of an open document: the queue of its commands, and the ways back for their
//! answers.

use super::queue::DocCommand;
use crate::errors::CollaborateResult;
use tokio::sync::{mpsc, oneshot};
use vstd::prelude::*;

verus! {

/// Gives the answer to a command that only has to be carried out.
pub type DoneTx = oneshot::Sender<CollaborateResult<()>>;

/// Awaits the answer to a command that only has to be carried out.
pub type DoneRx = oneshot::Receiver<CollaborateResult<()>>;

/// Gives the document as JSON.
pub type JsonTx = oneshot::Sender<CollaborateResult<String>>;

/// Awaits the document as JSON.
pub type JsonRx = oneshot::Receiver<CollaborateResult<String>>;

/// Gives the revision number.
pub type RevIdTx = oneshot::Sender<CollaborateResult<i64>>;

/// Awaits the revision number.
pub type RevIdRx = oneshot::Receiver<CollaborateResult<i64>>;

/// The sending end that a queue of commands was made with. It cannot be copied, so that
/// whoever holds it holds the end that keeps the queue going; others only look at it.
pub struct CommandTx {
    end: mpsc::Sender<DocCommand>,
}

impl CommandTx {
    /// The end itself.
    pub closed spec fn sending(self) -> mpsc::Sender<DocCommand> {
        self.end
    }

    /// The end itself, to look at.
    pub(crate) fn end(&self) -> (r: &mpsc::Sender<DocCommand>)
        ensures
            *r == self.sending(),
        opens_invariants none
    {
        &self.end
    }
}

/// Which queue of commands a sending end feeds.
pub uninterp spec fn command_link(tx: mpsc::Sender<DocCommand>) -> nat;

/// Which queue of commands a receiving end drains.
pub uninterp spec fn command_end(rx: mpsc::Receiver<DocCommand>) -> nat;

/// How many commands the queue behind a sending end holds at most.
pub uninterp spec fn command_bound(tx: mpsc::Sender<DocCommand>) -> nat;

/// `tokio::sync::mpsc::channel`: the two ends of one new queue of commands, which holds as
/// many as `buffer` says. It panics on zero, and above an eighth of `usize::MAX`. That the
/// queue is another than each that was made before is not said: a call knows only its own.
#[verifier::external_body]
pub(crate) fn command_channel(buffer: usize) -> (r: (CommandTx, mpsc::Receiver<DocCommand>))
    requires
        0 < buffer <= usize::MAX / 8,
    ensures
        command_end(r.1) == command_link(r.0.sending()),
        command_bound(r.0.sending()) == buffer,
    opens_invariants none
{
    let (end, rx) = mpsc::channel(buffer);
    (CommandTx { end }, rx)
}

/// To which waiting end this answer goes.
pub uninterp spec fn done_link(tx: DoneTx) -> nat;

/// Which answer this end awaits.
pub uninterp spec fn done_end(rx: DoneRx) -> nat;

/// `tokio::sync::oneshot::channel`: the two ends of one new way back.
#[verifier::external_body]
pub(crate) fn done_channel() -> (r: (DoneTx, DoneRx))
    ensures
        done_end(r.1) == done_link(r.0),
    opens_invariants none
{
    oneshot::channel()
}

/// To which waiting end this document goes.
pub uninterp spec fn json_link(tx: JsonTx) -> nat;

/// Which document this end awaits.
pub uninterp spec fn json_end(rx: JsonRx) -> nat;

/// `tokio::sync::oneshot::channel` for a document: the two ends of one new way back.
#[verifier::external_body]
pub(crate) fn json_channel() -> (r: (JsonTx, JsonRx))
    ensures
        json_end(r.1) == json_link(r.0),
    opens_invariants none
{
    oneshot::channel()
}

/// To which waiting end this revision number goes.
pub uninterp spec fn rev_id_link(tx: RevIdTx) -> nat;

/// Which revision number this end awaits.
pub uninterp spec fn rev_id_end(rx: RevIdRx) -> nat;

/// `tokio::sync::oneshot::channel` for a revision number: the two ends of one new way back.
#[verifier::external_body]
pub(crate) fn rev_id_channel() -> (r: (RevIdTx, RevIdRx))
    ensures
        rev_id_end(r.1) == rev_id_link(r.0),
    opens_invariants none
{
    oneshot::channel()
}

} // verus!
