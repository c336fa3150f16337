//! What holds of open documents over several calls.

use super::calls::{
    done_end, done_link, json_end, json_link, rev_id_end, rev_id_link, DoneRx, JsonRx, RevIdRx,
};
use super::editor::EditorView;
use super::handle::{answer_of, delivery, exchange};
use super::queue::{
    after_command, command_step, queue_action, DocCommand, DocReply, QueueAction, QueueStep,
};
use crate::entities::{Doc, RevisionUser};
use crate::errors::{CollaborateError, CollaborateResult};
use vstd::prelude::*;

verus! {

/// The user who is named in a command.
pub open spec fn command_user(msg: DocCommand) -> Option<RevisionUser> {
    match msg {
        DocCommand::NewConnectedUser { user, .. } => Some(user),
        DocCommand::ReceiveRevision { user, .. } => Some(user),
        DocCommand::GetDocJson { .. } => None,
        DocCommand::GetDocRevId { .. } => None,
    }
}

/// The command names the user of this id.
pub open spec fn names(msg: DocCommand, user_id: Seq<char>) -> bool {
    command_user(msg) matches Some(user) && user.user_id@ == user_id
}

/// The document after these commands, carried out in this order.
pub open spec fn after_commands(doc: EditorView, msgs: Seq<DocCommand>) -> EditorView
    decreases msgs.len(),
{
    if msgs.len() == 0 {
        doc
    } else {
        after_command(after_commands(doc, msgs.drop_last()), msgs.last())
    }
}

/// The answer that a step comes to, given what came of writing the document where it has to
/// be written. Revisions are taken to apply.
pub open spec fn answer(step: QueueStep, json: Result<String, String>) -> DocReply {
    match step {
        QueueStep::Connect { wait, .. } => wait.next(),
        QueueStep::Apply { wait, .. } => wait.next(),
        QueueStep::ReadJson { wait } => wait.next(json),
        QueueStep::Reply(reply) => reply,
    }
}

/// No command changes the id of an open document, nor the revision number that it gives: it
/// is the one that the document was opened at.
pub proof fn law_rev_id_is_that_of_the_opening(doc: EditorView, msgs: Seq<DocCommand>)
    ensures
        after_commands(doc, msgs).doc_id == doc.doc_id,
        after_commands(doc, msgs).rev_id == doc.rev_id,
    decreases msgs.len(),
{
    if msgs.len() > 0 {
        law_rev_id_is_that_of_the_opening(doc, msgs.drop_last());
    }
}

/// Whoever asks for the revision number, after whatever commands, is answered with the one
/// that the document was opened at.
pub proof fn law_rev_id_is_answered(
    doc: EditorView,
    msgs: Seq<DocCommand>,
    msg: DocCommand,
    json: Result<String, String>,
)
    requires
        msg is GetDocRevId,
    ensures
        answer(command_step(after_commands(doc, msgs), msg), json) matches DocReply::RevId {
            ret,
            value,
        } && msg == (DocCommand::GetDocRevId { ret }) && value == Ok::<i64, CollaborateError>(
            doc.rev_id,
        ),
{
    law_rev_id_is_that_of_the_opening(doc, msgs);
}

/// Questions leave a document as it is.
pub proof fn law_questions_change_nothing(doc: EditorView, msg: DocCommand)
    requires
        msg is GetDocJson || msg is GetDocRevId,
    ensures
        after_command(doc, msg) == doc,
{
}

/// The users of a document are those it had before and those who are named in its commands:
/// nobody is ever dropped.
pub proof fn law_users_are_those_who_were_named(
    doc: EditorView,
    msgs: Seq<DocCommand>,
    user_id: Seq<char>,
)
    ensures
        after_commands(doc, msgs).users.contains_key(user_id) <==> (doc.users.contains_key(user_id)
            || exists|i: int| 0 <= i < msgs.len() && names(#[trigger] msgs[i], user_id)),
    decreases msgs.len(),
{
    if msgs.len() > 0 {
        let earlier = msgs.drop_last();
        law_users_are_those_who_were_named(doc, earlier, user_id);
        if names(msgs.last(), user_id) {
            assert(names(msgs[msgs.len() - 1], user_id));
        }
        if exists|i: int| 0 <= i < earlier.len() && names(#[trigger] earlier[i], user_id) {
            let i = choose|i: int| 0 <= i < earlier.len() && names(#[trigger] earlier[i], user_id);
            assert(names(msgs[i], user_id));
        }
        if exists|i: int| 0 <= i < msgs.len() && names(#[trigger] msgs[i], user_id) {
            let i = choose|i: int| 0 <= i < msgs.len() && names(#[trigger] msgs[i], user_id);
            if i < earlier.len() {
                assert(names(earlier[i], user_id));
            } else {
                assert(msgs[i] == msgs.last());
            }
        }
    }
}

/// Of several connections of one user, the one of the latest command counts.
pub proof fn law_latest_connection_counts(
    doc: EditorView,
    before: Seq<DocCommand>,
    msg: DocCommand,
    user: RevisionUser,
    after: Seq<DocCommand>,
)
    requires
        command_user(msg) == Some(user),
        forall|i: int| 0 <= i < after.len() ==> !names(#[trigger] after[i], user.user_id@),
    ensures
        after_commands(doc, before + seq![msg] + after).connection(user.user_id@) == Some(user),
    decreases after.len(),
{
    let all = before + seq![msg] + after;
    if after.len() == 0 {
        assert(all.drop_last() =~= before);
        assert(all.last() == msg);
    } else {
        let shorter = after.drop_last();
        assert(all.drop_last() =~= before + seq![msg] + shorter);
        assert(all.last() == after.last());
        assert(!names(after[after.len() - 1], user.user_id@));
        assert forall|i: int| 0 <= i < shorter.len() implies !names(
            #[trigger] shorter[i],
            user.user_id@,
        ) by {
            assert(!names(after[i], user.user_id@));
        }
        law_latest_connection_counts(doc, before, msg, user, shorter);
    }
}

/// Every command is answered over its own way back: a user or a revision with success, a
/// question for the document with what came of writing it.
pub proof fn law_answer_takes_the_way_back(
    doc: EditorView,
    msg: DocCommand,
    json: Result<String, String>,
)
    ensures
        msg matches DocCommand::NewConnectedUser { ret, .. } ==> answer(
            command_step(doc, msg),
            json,
        ) == (DocReply::Done { ret, value: Ok(()) }),
        msg matches DocCommand::ReceiveRevision { ret, .. } ==> answer(command_step(doc, msg), json)
            == (DocReply::Done { ret, value: Ok(()) }),
        msg matches DocCommand::GetDocJson { ret } ==> (answer(
            command_step(doc, msg),
            json,
        ) matches DocReply::Json { ret: way, value } && way == ret && (json matches Ok(text)
            ==> value == Ok::<String, CollaborateError>(text)) && (json matches Err(cause) ==> value
            == Err::<String, CollaborateError>(CollaborateError::Internal(cause)))),
        msg matches DocCommand::GetDocRevId { ret } ==> answer(command_step(doc, msg), json) == (
        DocReply::RevId { ret, value: Ok(doc.rev_id) }),
{
}

/// The answer of a document reaches the end at which the one who asked waits.
pub proof fn law_answer_reaches_the_caller(
    doc: EditorView,
    msg: DocCommand,
    json: Result<String, String>,
    done: DoneRx,
    text: JsonRx,
    number: RevIdRx,
)
    ensures
        (msg matches DocCommand::NewConnectedUser { ret, .. } && done_link(ret) == done_end(done))
            ==> (answer(command_step(doc, msg), json) matches DocReply::Done { ret, .. }
            && done_link(ret) == done_end(done)),
        (msg matches DocCommand::ReceiveRevision { ret, .. } && done_link(ret) == done_end(done))
            ==> (answer(command_step(doc, msg), json) matches DocReply::Done { ret, .. }
            && done_link(ret) == done_end(done)),
        (msg matches DocCommand::GetDocJson { ret } && json_link(ret) == json_end(text)) ==> (
        answer(command_step(doc, msg), json) matches DocReply::Json { ret, .. } && json_link(ret)
            == json_end(text)),
        (msg matches DocCommand::GetDocRevId { ret } && rev_id_link(ret) == rev_id_end(number))
            ==> (answer(command_step(doc, msg), json) matches DocReply::RevId { ret, .. }
            && rev_id_link(ret) == rev_id_end(number)),
{
}

/// Adding a user or applying a revision succeeds exactly when the command was taken and
/// answered, whatever the answer was; otherwise it fails with an internal error, of the
/// sending where that failed.
pub proof fn law_only_delivery_counts(
    sent: Result<(), String>,
    answer: Result<CollaborateResult<()>, String>,
)
    ensures
        delivery(exchange(sent, answer)) is Ok <==> sent is Ok && answer is Ok,
        sent matches Err(cause) ==> delivery(exchange(sent, answer)) == Err::<(), CollaborateError>(
            CollaborateError::Internal(cause),
        ),
        sent is Ok ==> (answer matches Err(cause) ==> delivery(exchange(sent, answer)) == Err::<
            (),
            CollaborateError,
        >(CollaborateError::Internal(cause))),
{
}

/// A question that was taken and answered comes to just what the document answered, be it a
/// value or an error; otherwise to an internal error, of the sending where that failed.
pub proof fn law_question_gets_the_answer<T>(
    sent: Result<(), String>,
    answer: Result<CollaborateResult<T>, String>,
)
    ensures
        sent is Ok ==> (answer matches Ok(value) ==> answer_of(exchange(sent, answer)) == value),
        sent matches Err(cause) ==> answer_of(exchange(sent, answer)) == Err::<T, CollaborateError>(
            CollaborateError::Internal(cause),
        ),
        sent is Ok ==> (answer matches Err(cause) ==> answer_of(exchange(sent, answer)) == Err::<
            T,
            CollaborateError,
        >(CollaborateError::Internal(cause))),
{
}

/// The commands that a queue carries out, in this order, when this is what it receives.
pub open spec fn carried_out(received: Seq<Option<DocCommand>>) -> Seq<DocCommand>
    decreases received.len(),
{
    if received.len() == 0 {
        Seq::empty()
    } else {
        match queue_action(received[0]) {
            QueueAction::Handle(msg) => seq![msg] + carried_out(received.drop_first()),
            QueueAction::Exit => Seq::empty(),
        }
    }
}

/// A document after its queue has received this and carried out what it carries out of it.
pub open spec fn after_run(doc: EditorView, received: Seq<Option<DocCommand>>) -> EditorView
    decreases received.len(),
{
    if received.len() == 0 {
        doc
    } else {
        match queue_action(received[0]) {
            QueueAction::Handle(msg) => after_run(after_command(doc, msg), received.drop_first()),
            QueueAction::Exit => doc,
        }
    }
}

/// For as long as commands come, every one of them is carried out, once and in its order.
pub proof fn law_every_command_in_order(msgs: Seq<DocCommand>)
    ensures
        carried_out(msgs.map_values(|msg: DocCommand| Some(msg))) == msgs,
    decreases msgs.len(),
{
    let received = msgs.map_values(|msg: DocCommand| Some(msg));
    if msgs.len() > 0 {
        let rest = msgs.drop_first();
        law_every_command_in_order(rest);
        assert(received.drop_first() =~= rest.map_values(|msg: DocCommand| Some(msg)));
        assert(seq![msgs[0]] + rest =~= msgs);
    }
}

/// Once nothing more can come, nothing more is carried out.
pub proof fn law_no_command_after_the_end(
    before: Seq<Option<DocCommand>>,
    after: Seq<Option<DocCommand>>,
)
    ensures
        carried_out(before + seq![None] + after) == carried_out(before),
    decreases before.len(),
{
    let all = before + seq![None] + after;
    if before.len() == 0 {
        assert(all[0] is None);
    } else {
        assert(all[0] == before[0]);
        assert(all.drop_first() =~= before.drop_first() + seq![None] + after);
        if before[0] is Some {
            law_no_command_after_the_end(before.drop_first(), after);
        }
    }
}

/// Carrying out some commands and then others is carrying out all of them.
pub proof fn law_commands_add_up(doc: EditorView, first: Seq<DocCommand>, second: Seq<DocCommand>)
    ensures
        after_commands(doc, first + second) == after_commands(after_commands(doc, first), second),
    decreases second.len(),
{
    if second.len() == 0 {
        assert(first + second =~= first);
    } else {
        assert((first + second).drop_last() =~= first + second.drop_last());
        law_commands_add_up(doc, first, second.drop_last());
    }
}

/// A run of the queue leaves the document as the commands that it carried out, one after the
/// other, leave it.
pub proof fn law_run_is_its_commands(doc: EditorView, received: Seq<Option<DocCommand>>)
    ensures
        after_run(doc, received) == after_commands(doc, carried_out(received)),
    decreases received.len(),
{
    if received.len() > 0 {
        if let QueueAction::Handle(msg) = queue_action(received[0]) {
            let rest = received.drop_first();
            law_run_is_its_commands(after_command(doc, msg), rest);
            law_commands_add_up(doc, seq![msg], carried_out(rest));
            assert(seq![msg].drop_last() =~= Seq::<DocCommand>::empty());
            assert(after_commands(doc, seq![msg].drop_last()) == doc);
        }
    }
}

/// A document that was just opened has the id and the revision number of what was stored, and
/// nobody is connected to it.
pub proof fn law_opened_document_is_the_stored_one(doc: Doc, user_id: Seq<char>)
    ensures
        EditorView::opened(doc).doc_id == doc.id@,
        EditorView::opened(doc).rev_id == doc.rev_id,
        !EditorView::opened(doc).users.contains_key(user_id),
{
}

/// Users whom no command names keep the connection that they had.
pub proof fn law_users_who_are_not_named_stay(
    doc: EditorView,
    msgs: Seq<DocCommand>,
    user_id: Seq<char>,
)
    requires
        doc.users.contains_key(user_id),
        forall|i: int| 0 <= i < msgs.len() ==> !names(#[trigger] msgs[i], user_id),
    ensures
        after_commands(doc, msgs).users.contains_key(user_id),
        after_commands(doc, msgs).users[user_id] == doc.users[user_id],
    decreases msgs.len(),
{
    if msgs.len() > 0 {
        let earlier = msgs.drop_last();
        assert(!names(msgs[msgs.len() - 1], user_id));
        assert forall|i: int| 0 <= i < earlier.len() implies !names(
            #[trigger] earlier[i],
            user_id,
        ) by {
            assert(!names(msgs[i], user_id));
        }
        law_users_who_are_not_named_stay(doc, earlier, user_id);
    }
}

/// After a command that names a user, the document has that very connection of the user, and
/// of every other user what it had.
pub proof fn law_named_user_is_connected(doc: EditorView, msg: DocCommand, other: Seq<char>)
    ensures
        command_user(msg) matches Some(user) ==> {
            &&& after_command(doc, msg).users.contains_key(user.user_id@)
            &&& after_command(doc, msg).users[user.user_id@] == user
            &&& other != user.user_id@ ==> after_command(doc, msg).users.contains_key(other)
                == doc.users.contains_key(other)
            &&& other != user.user_id@ && doc.users.contains_key(other) ==> after_command(
                doc,
                msg,
            ).users[other] == doc.users[other]
        },
        command_user(msg) is None ==> after_command(doc, msg) == doc,
{
}

} // verus!
